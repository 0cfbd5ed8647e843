use crate::api::OrderStatus;
use crate::models::GeneralResponse;
use crate::text::{parse_unsigned, parse_unsigned_spec, trim, trim_spec};
use vstd::prelude::*;

verus! {

/// How long an order waits for its payment, in seconds.
pub const PAYMENT_WINDOW_SECS: u64 = 900;

/// Pause between two polls of the order's state, in seconds.
pub const ORDER_POLL_SECS: u64 = 3;

/// The answer to the package menu.
#[derive(Clone, Copy, Debug, PartialEq, Eq, Structural)]
pub enum PackageChoice {
    Quit,
    /// Index into the listed packages.
    Pick(usize),
    Invalid,
}

pub open spec fn package_choice_spec(input: Seq<char>, count: nat) -> PackageChoice {
    let t = trim_spec(input);
    if t == seq!['q'] || t == seq!['Q'] {
        PackageChoice::Quit
    } else {
        match parse_unsigned_spec(t, usize::MAX as nat) {
            Some(c) => if 1 <= c <= count {
                PackageChoice::Pick((c - 1) as usize)
            } else {
                PackageChoice::Invalid
            },
            None => PackageChoice::Invalid,
        }
    }
}

/// Reads a menu answer: `q` (either case) quits, a number from 1 to
/// `count` picks that package, anything else is asked again.
pub fn parse_package_choice(input: &str, count: usize) -> (r: PackageChoice)
    ensures
        r == package_choice_spec(input@, count as nat),
{
    let t = trim(input);
    if t.unicode_len() == 1 {
        let c = t.get_char(0);
        if c == 'q' || c == 'Q' {
            assert(t@ =~= seq![c]);
            return PackageChoice::Quit;
        }
        assert(t@ != seq!['q'] && t@ != seq!['Q']) by {
            assert(t@[0] == c);
        }
    }
    match parse_unsigned(t, usize::MAX as u64) {
        Some(c) => if 1 <= c && c <= count as u64 {
            PackageChoice::Pick((c - 1) as usize)
        } else {
            PackageChoice::Invalid
        },
        None => PackageChoice::Invalid,
    }
}

/// A prompt's answer, trimmed; `None` when nothing but white space was typed.
pub fn required_answer(input: &str) -> (r: Option<String>)
    ensures
        trim_spec(input@).len() == 0 ==> r is None,
        trim_spec(input@).len() > 0 ==> r is Some && r->Some_0@ == trim_spec(input@),
{
    let t = trim(input);
    if t.unicode_len() == 0 {
        None
    } else {
        Some(String::from_str(t))
    }
}

/// What one poll of the order's state means for the order flow.
#[derive(Debug)]
pub enum OrderPoll {
    /// Paid: install with the order's token.
    Paid,
    /// Not paid yet: poll again.
    Waiting,
    /// The server reported an error: give up.
    Failed(String),
}

pub fn order_poll_step(answer: GeneralResponse<OrderStatus>) -> (r: OrderPoll)
    ensures
        match answer {
            GeneralResponse::Success(s) => if s.status@ == "completed"@ {
                r is Paid
            } else {
                r is Waiting
            },
            GeneralResponse::Error(e) => r == OrderPoll::Failed(e.error),
        },
{
    match answer {
        GeneralResponse::Success(s) => if s.is_completed() {
            OrderPoll::Paid
        } else {
            OrderPoll::Waiting
        },
        GeneralResponse::Error(e) => OrderPoll::Failed(e.error),
    }
}

/// Whether the order still waits for payment after `elapsed_secs`.
pub fn payment_window_open(elapsed_secs: u64) -> (r: bool)
    ensures
        r == (elapsed_secs < PAYMENT_WINDOW_SECS),
{
    elapsed_secs < PAYMENT_WINDOW_SECS
}

} // verus!
