use crate::telemetry::TelemetryLogLevel;
use vstd::multiset::*;
use vstd::prelude::*;

verus! {

broadcast use vstd::seq_lib::group_to_multiset_ensures, vstd::multiset::group_multiset_axioms;

/// One log event on its way to the remote sink.
#[derive(Debug)]
pub struct LogMessage {
    pub level: TelemetryLogLevel,
    pub message: String,
    /// Milliseconds since the Unix epoch at emission.
    pub timestamp: i64,
    /// Position in the process-wide emission order.
    pub seq: usize,
}

/// Hands out the process-wide emission order, one number per event.
pub struct Sequencer {
    pub next: usize,
}

impl Sequencer {
    pub fn new() -> (r: Sequencer)
        ensures
            r.next == 0,
    {
        Sequencer { next: 0 }
    }

    /// Takes the next sequence number; `None` once the counter is used up,
    /// so that no number is ever handed out twice.
    pub fn next_seq(&mut self) -> (r: Option<usize>)
        ensures
            (r, *final(self)) == next_seq_spec(*old(self)),
    {
        if self.next < usize::MAX {
            let s = self.next;
            self.next = self.next + 1;
            Some(s)
        } else {
            None
        }
    }

    /// Stamps an event with the next sequence number.
    pub fn emit(&mut self, level: TelemetryLogLevel, message: String, timestamp: i64) -> (r: Option<
        LogMessage,
    >)
        ensures
            old(self).next < usize::MAX ==> r == Some(
                (LogMessage { level, message, timestamp, seq: old(self).next }),
            ) && final(self).next == old(self).next + 1,
            old(self).next == usize::MAX ==> r is None && final(self).next == old(self).next,
    {
        match self.next_seq() {
            Some(seq) => Some(LogMessage { level, message, timestamp, seq }),
            None => None,
        }
    }
}

pub open spec fn next_seq_spec(s: Sequencer) -> (Option<usize>, Sequencer) {
    if s.next < usize::MAX {
        (Some(s.next), Sequencer { next: (s.next + 1) as usize })
    } else {
        (None, s)
    }
}

/// The numbers handed out by `n` successive calls of `next_seq`, in call order.
pub open spec fn handed_out(s: Sequencer, n: nat) -> Seq<usize>
    decreases n,
{
    if n == 0 {
        Seq::empty()
    } else {
        let (r, t) = next_seq_spec(s);
        match r {
            Some(v) => seq![v] + handed_out(t, (n - 1) as nat),
            None => handed_out(t, (n - 1) as nat),
        }
    }
}

/// However many events are stamped, from whatever producers and in whatever
/// state the counter is, the numbers handed out strictly increase in the
/// order the calls were made, so no two events share one; once the counter
/// is used up nothing more is handed out.
pub proof fn lemma_sequence_numbers_increase(s: Sequencer, n: nat)
    ensures
        forall|i: int, j: int|
            0 <= i < j < handed_out(s, n).len() ==> handed_out(s, n)[i] < handed_out(s, n)[j],
        forall|i: int| 0 <= i < handed_out(s, n).len() ==> s.next <= #[trigger] handed_out(s, n)[i],
        s.next == usize::MAX ==> handed_out(s, n).len() == 0,
    decreases n,
{
    if n > 0 {
        let (r, t) = next_seq_spec(s);
        lemma_sequence_numbers_increase(t, (n - 1) as nat);
        let rest = handed_out(t, (n - 1) as nat);
        if let Some(v) = r {
            let all = seq![v] + rest;
            assert forall|i: int| 0 <= i < all.len() implies s.next <= #[trigger] all[i] by {
                if i > 0 {
                    assert(all[i] == rest[i - 1]);
                }
            }
            assert forall|i: int, j: int| 0 <= i < j < all.len() implies all[i] < all[j] by {
                assert(all[j] == rest[j - 1]);
                if i > 0 {
                    assert(all[i] == rest[i - 1]);
                }
            }
        }
    }
}

/// Messages in non-decreasing sequence order.
pub open spec fn sorted_by_seq(s: Seq<LogMessage>) -> bool {
    forall|i: int, j: int| 0 <= i <= j < s.len() ==> s[i].seq <= s[j].seq
}

/// Messages in strictly increasing sequence order, as the sequencer emits them.
pub open spec fn strictly_by_seq(s: Seq<LogMessage>) -> bool {
    forall|i: int, j: int| 0 <= i < j < s.len() ==> s[i].seq < s[j].seq
}

/// `out` holds exactly the messages of `input`, ordered by sequence number.
pub open spec fn ordered_by_seq(input: Seq<LogMessage>, out: Seq<LogMessage>) -> bool {
    &&& sorted_by_seq(out)
    &&& out.to_multiset() == input.to_multiset()
}

fn index_of_min_seq(v: &Vec<LogMessage>) -> (r: usize)
    requires
        v.len() > 0,
    ensures
        r < v.len(),
        forall|j: int| 0 <= j < v.len() ==> v@[r as int].seq <= v@[j].seq,
{
    let mut m: usize = 0;
    let mut i: usize = 1;
    while i < v.len()
        invariant
            0 < i <= v.len(),
            m < i,
            forall|j: int| 0 <= j < i ==> v@[m as int].seq <= v@[j].seq,
        decreases v.len() - i,
    {
        if v[i].seq < v[m].seq {
            m = i;
        }
        i = i + 1;
    }
    m
}

/// Puts a batch into sequence order, whatever order the channel delivered it in.
pub fn order_by_seq(batch: Vec<LogMessage>) -> (r: Vec<LogMessage>)
    ensures
        ordered_by_seq(batch@, r@),
{
    let ghost orig = batch@;
    let mut rest = batch;
    let mut out: Vec<LogMessage> = Vec::new();
    while rest.len() > 0
        invariant
            sorted_by_seq(out@),
            out@.to_multiset().add(rest@.to_multiset()) == orig.to_multiset(),
            forall|i: int, j: int| 0 <= i < out.len() && 0 <= j < rest.len() ==> out@[i].seq <= rest@[j].seq,
        decreases rest.len(),
    {
        let m = index_of_min_seq(&rest);
        let ghost before_rest = rest@;
        let ghost before_out = out@;
        let x = rest.remove(m);
        proof {
            assert(before_rest.remove(m as int) == rest@);
            assert(before_rest.to_multiset().count(x) > 0) by {
                assert(before_rest.contains(x)) by {
                    assert(before_rest[m as int] == x);
                }
            }
        }
        out.push(x);
        proof {
            assert(out@ == before_out.push(x));
            assert(out@.to_multiset().add(rest@.to_multiset()) =~= orig.to_multiset());
            assert forall|i: int, j: int| 0 <= i < out.len() && 0 <= j < rest.len() implies out@[i].seq
                <= rest@[j].seq by {
                assert(rest@[j] == before_rest[if j < m { j } else { j + 1 }]);
            }
        }
    }
    proof {
        assert(rest@.to_multiset() =~= Multiset::empty());
        assert(out@.to_multiset() =~= orig.to_multiset());
    }
    out
}


proof fn lemma_sorted_permutation_unique(a: Seq<LogMessage>, b: Seq<LogMessage>)
    requires
        strictly_by_seq(a),
        sorted_by_seq(b),
        a.to_multiset() == b.to_multiset(),
    ensures
        a == b,
    decreases a.len(),
{
    assert(a.len() == a.to_multiset().len());
    assert(b.len() == b.to_multiset().len());
    if a.len() == 0 {
        assert(a =~= b);
    } else {
        let a0 = a[0];
        let b0 = b[0];
        assert(a.contains(a0));
        assert(a.to_multiset().count(a0) > 0);
        assert(b.contains(a0));
        assert(b.contains(b0));
        assert(b.to_multiset().count(b0) > 0);
        assert(a.contains(b0));
        let k = choose|k: int| 0 <= k < a.len() && a[k] == b0;
        let l = choose|l: int| 0 <= l < b.len() && b[l] == a0;
        assert(b0.seq <= a0.seq);
        if k != 0 {
            assert(a0.seq < b0.seq);
        }
        assert(a0 == b0);
        assert(a.remove(0) =~= a.drop_first());
        assert(b.remove(0) =~= b.drop_first());
        assert(a.drop_first().to_multiset() == a.to_multiset().remove(a0));
        assert(b.drop_first().to_multiset() == b.to_multiset().remove(b0));
        lemma_sorted_permutation_unique(a.drop_first(), b.drop_first());
        assert(a =~= b) by {
            assert forall|i: int| 0 <= i < a.len() implies a[i] == b[i] by {
                if i > 0 {
                    assert(a[i] == a.drop_first()[i - 1]);
                    assert(b[i] == b.drop_first()[i - 1]);
                }
            }
        }
    }
}

/// Events emitted in some order and delivered through the channel in any
/// other order come out of `order_by_seq` in exactly the order in which they
/// were emitted.
pub proof fn lemma_consumer_sees_emission_order(
    emitted: Seq<LogMessage>,
    delivered: Seq<LogMessage>,
    forwarded: Seq<LogMessage>,
)
    requires
        strictly_by_seq(emitted),
        delivered.to_multiset() == emitted.to_multiset(),
        ordered_by_seq(delivered, forwarded),
    ensures
        forwarded == emitted,
{
    lemma_sorted_permutation_unique(emitted, forwarded);
}

/// What woke the drain task.
pub enum Wake {
    /// Shutdown was requested.
    Shutdown,
    /// One message arrived.
    Message(LogMessage),
    /// Every producer is gone.
    Closed,
}

/// One pass of the drain task: the batch to forward and whether to stop.
pub struct DrainRound {
    pub batch: Vec<LogMessage>,
    pub finished: bool,
}

pub open spec fn woken_with(wake: Wake) -> Seq<LogMessage> {
    match wake {
        Wake::Message(m) => seq![m],
        _ => Seq::empty(),
    }
}

/// Builds one batch: the message that woke the task (if any) followed by
/// everything already queued, put in sequence order. The task stops after
/// this batch when it was woken by shutdown or by the last producer leaving.
pub fn drain_round(wake: Wake, queued: Vec<LogMessage>) -> (r: DrainRound)
    ensures
        ordered_by_seq(woken_with(wake) + queued@, r.batch@),
        r.finished == !(wake is Message),
{
    let ghost w = woken_with(wake);
    let mut all: Vec<LogMessage> = Vec::new();
    let finished = match wake {
        Wake::Message(m) => {
            all.push(m);
            false
        },
        _ => true,
    };
    assert(all@ == w);
    let mut q = queued;
    all.append(&mut q);
    DrainRound { batch: order_by_seq(all), finished }
}

/// Holds the obligation to stop and await the drain task before exit.
pub struct LoggerHandle {
    /// The drain task has not been awaited yet.
    pub drain_pending: bool,
}

/// What the caller of `LoggerHandle::shutdown` has to do.
#[derive(Clone, Copy, Debug, PartialEq, Eq, Structural)]
pub struct ShutdownPlan {
    /// Send the shutdown signal to the drain task.
    pub send_signal: bool,
    /// Await the drain task's completion.
    pub await_drain: bool,
}

impl LoggerHandle {
    pub fn new() -> (r: LoggerHandle)
        ensures
            r.drain_pending,
    {
        LoggerHandle { drain_pending: true }
    }

    /// The signal is always (re)sent, which is harmless; the drain task is
    /// awaited by the first call only.
    pub fn shutdown(&mut self) -> (r: ShutdownPlan)
        ensures
            (r, *final(self)) == shutdown_spec(*old(self)),
    {
        let pending = self.drain_pending;
        self.drain_pending = false;
        ShutdownPlan { send_signal: true, await_drain: pending }
    }
}

pub open spec fn shutdown_spec(h: LoggerHandle) -> (ShutdownPlan, LoggerHandle) {
    (ShutdownPlan { send_signal: true, await_drain: h.drain_pending }, LoggerHandle { drain_pending: false })
}

/// After shutdown is requested the drain task forwards every message queued
/// before the signal, in sequence order, and stops. Requesting shutdown a
/// second time awaits nothing and leaves the handle as the first request
/// left it.
pub proof fn lemma_shutdown_drains_and_is_idempotent(
    queued: Seq<LogMessage>,
    forwarded: Seq<LogMessage>,
    h: LoggerHandle,
)
    requires
        ordered_by_seq(woken_with(Wake::Shutdown) + queued, forwarded),
    ensures
        forwarded.to_multiset() == queued.to_multiset(),
        forwarded.len() == queued.len(),
        forall|m: LogMessage| queued.contains(m) ==> forwarded.contains(m),
        shutdown_spec(shutdown_spec(h).1).1 == shutdown_spec(h).1,
        !shutdown_spec(shutdown_spec(h).1).0.await_drain,
        shutdown_spec(h).0.send_signal,
{
    assert(woken_with(Wake::Shutdown) + queued =~= queued);
    assert(forwarded.len() == forwarded.to_multiset().len());
    assert(queued.len() == queued.to_multiset().len());
    assert forall|m: LogMessage| queued.contains(m) implies forwarded.contains(m) by {
        assert(queued.to_multiset().count(m) > 0);
    }
}

} // verus!
