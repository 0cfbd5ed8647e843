use crate::platform::Platform;
use vstd::prelude::*;

verus! {

/// A process as seen by one scan of the process table. Never kept across
/// scans: a pid only identifies a process within one scan/kill cycle.
#[derive(Debug)]
pub struct ProcessDescriptor {
    pub pid: u32,
    /// The executable name as the OS reports it, in its raw encoding.
    pub name: Vec<u8>,
}

pub open spec fn ascii_lower(b: u8) -> u8 {
    if 65 <= b <= 90 {
        (b + 32) as u8
    } else {
        b
    }
}

pub fn to_ascii_lower(b: u8) -> (r: u8)
    ensures
        r == ascii_lower(b),
{
    if 65 <= b && b <= 90 {
        b + 32
    } else {
        b
    }
}

/// Equal up to the case of ASCII letters.
pub open spec fn same_ignoring_ascii_case(a: Seq<u8>, b: Seq<u8>) -> bool {
    a.len() == b.len() && forall|i: int| 0 <= i < a.len() ==> ascii_lower(a[i]) == ascii_lower(b[i])
}

/// `name` begins with `prefix` once ASCII letters in `name` are lowered.
pub open spec fn lowered_starts_with(name: Seq<u8>, prefix: Seq<u8>) -> bool {
    name.len() >= prefix.len() && forall|i: int| 0 <= i < prefix.len() ==> ascii_lower(name[i]) == prefix[i]
}

pub fn eq_ignore_ascii_case(a: &Vec<u8>, b: &Vec<u8>) -> (r: bool)
    ensures
        r == same_ignoring_ascii_case(a@, b@),
{
    if a.len() != b.len() {
        return false;
    }
    let mut i: usize = 0;
    while i < a.len()
        invariant
            a.len() == b.len(),
            i <= a.len(),
            forall|j: int| 0 <= j < i ==> ascii_lower(a@[j]) == ascii_lower(b@[j]),
        decreases a.len() - i,
    {
        if to_ascii_lower(a[i]) != to_ascii_lower(b[i]) {
            return false;
        }
        i = i + 1;
    }
    true
}

pub fn starts_with_lowered(name: &Vec<u8>, prefix: &Vec<u8>) -> (r: bool)
    ensures
        r == lowered_starts_with(name@, prefix@),
{
    if name.len() < prefix.len() {
        return false;
    }
    let mut i: usize = 0;
    while i < prefix.len()
        invariant
            name.len() >= prefix.len(),
            i <= prefix.len(),
            forall|j: int| 0 <= j < i ==> ascii_lower(name@[j]) == prefix@[j],
        decreases prefix.len() - i,
    {
        if to_ascii_lower(name[i]) != prefix[i] {
            return false;
        }
        i = i + 1;
    }
    true
}

/// Name stem shared by every executable of this program's family.
pub open spec fn family_stem() -> Seq<u8> {
    seq![
        102u8, 114u8, 101u8, 101u8, 45u8, 99u8, 117u8, 114u8, 115u8, 111u8, 114u8, 45u8, 99u8,
        108u8, 105u8, 101u8, 110u8, 116u8,
    ]
}

/// `free-cursor-client`, as bytes.
pub fn family_stem_bytes() -> (r: Vec<u8>)
    ensures
        r@ == family_stem(),
{
    let r = vec![
        102u8, 114u8, 101u8, 101u8, 45u8, 99u8, 117u8, 114u8, 115u8, 111u8, 114u8, 45u8, 99u8,
        108u8, 105u8, 101u8, 110u8, 116u8,
    ];
    assert(r@ =~= family_stem());
    r
}

/// Process name of the supervised editor on each platform.
pub open spec fn target_app_name(p: Platform) -> Seq<u8> {
    match p {
        Platform::Windows => seq![67u8, 117u8, 114u8, 115u8, 111u8, 114u8, 46u8, 101u8, 120u8, 101u8],
        _ => seq![67u8, 117u8, 114u8, 115u8, 111u8, 114u8],
    }
}

/// `Cursor.exe` on Windows, `Cursor` elsewhere.
pub fn target_app_name_bytes(p: Platform) -> (r: Vec<u8>)
    ensures
        r@ == target_app_name(p),
{
    let r = match p {
        Platform::Windows => vec![67u8, 117u8, 114u8, 115u8, 111u8, 114u8, 46u8, 101u8, 120u8, 101u8],
        _ => vec![67u8, 117u8, 114u8, 115u8, 111u8, 114u8],
    };
    assert(r@ =~= target_app_name(p));
    r
}

/// Pids, in scan order, of the processes whose name equals `target` up to
/// ASCII case.
pub open spec fn matching_pids_spec(procs: Seq<ProcessDescriptor>, target: Seq<u8>) -> Seq<u32>
    decreases procs.len(),
{
    if procs.len() == 0 {
        Seq::empty()
    } else {
        let rest = matching_pids_spec(procs.drop_last(), target);
        if same_ignoring_ascii_case(procs.last().name@, target) {
            rest.push(procs.last().pid)
        } else {
            rest
        }
    }
}

/// Pids, in scan order, of the processes of this program's family other
/// than the caller itself.
pub open spec fn family_pids_spec(procs: Seq<ProcessDescriptor>, self_pid: u32) -> Seq<u32>
    decreases procs.len(),
{
    if procs.len() == 0 {
        Seq::empty()
    } else {
        let rest = family_pids_spec(procs.drop_last(), self_pid);
        let p = procs.last();
        if p.pid != self_pid && lowered_starts_with(p.name@, family_stem()) {
            rest.push(p.pid)
        } else {
            rest
        }
    }
}

/// The scan filter: which processes of one scan match the target name.
pub fn matching_pids(procs: &Vec<ProcessDescriptor>, target: &Vec<u8>) -> (r: Vec<u32>)
    ensures
        r@ == matching_pids_spec(procs@, target@),
{
    let mut r: Vec<u32> = Vec::new();
    let mut i: usize = 0;
    while i < procs.len()
        invariant
            i <= procs.len(),
            r@ == matching_pids_spec(procs@.take(i as int), target@),
        decreases procs.len() - i,
    {
        assert(procs@.take(i as int + 1).drop_last() =~= procs@.take(i as int));
        if eq_ignore_ascii_case(&procs[i].name, target) {
            r.push(procs[i].pid);
        }
        i = i + 1;
    }
    assert(procs@.take(procs.len() as int) =~= procs@);
    r
}

/// The processes that `stop_self_family` kills and then waits for: every
/// process whose lowered name starts with the family stem, except the caller.
pub fn self_family_pids(procs: &Vec<ProcessDescriptor>, self_pid: u32) -> (r: Vec<u32>)
    ensures
        r@ == family_pids_spec(procs@, self_pid),
{
    let stem = family_stem_bytes();
    let mut r: Vec<u32> = Vec::new();
    let mut i: usize = 0;
    while i < procs.len()
        invariant
            i <= procs.len(),
            stem@ == family_stem(),
            r@ == family_pids_spec(procs@.take(i as int), self_pid),
        decreases procs.len() - i,
    {
        assert(procs@.take(i as int + 1).drop_last() =~= procs@.take(i as int));
        if procs[i].pid != self_pid && starts_with_lowered(&procs[i].name, &stem) {
            r.push(procs[i].pid);
        }
        i = i + 1;
    }
    assert(procs@.take(procs.len() as int) =~= procs@);
    r
}

/// Milliseconds between two scans while waiting for the editor to exit.
pub open spec fn poll_interval_spec(interactive: bool) -> u64 {
    if interactive {
        300
    } else {
        300_000
    }
}

/// What the waiting loop does after one scan.
#[derive(Clone, Copy, Debug, PartialEq, Eq, Structural)]
pub enum WaitAction {
    /// Nothing to wait for: return to the caller.
    Finish,
    /// Tell the user, this once, which processes of the scan are in the way,
    /// then pause.
    NotifyAndPause { millis: u64 },
    /// Pause, then scan again.
    Pause { millis: u64 },
}

/// State of one `wait_for_exit` call.
#[derive(Clone, Copy, Debug, PartialEq, Eq, Structural)]
pub struct WaitState {
    pub interactive: bool,
    /// The one-time notice has been shown.
    pub noticed: bool,
}

/// A scan is clear when it failed (treated as nothing running: the
/// supervisor fails open) or matched nothing.
pub open spec fn scan_is_clear(scan: Option<Vec<u32>>) -> bool {
    match scan {
        None => true,
        Some(pids) => pids@.len() == 0,
    }
}

pub open spec fn wait_step_spec(st: WaitState, clear: bool) -> (WaitAction, WaitState) {
    if clear {
        (WaitAction::Finish, st)
    } else if st.interactive && !st.noticed {
        (
            WaitAction::NotifyAndPause { millis: poll_interval_spec(true) },
            WaitState { interactive: st.interactive, noticed: true },
        )
    } else {
        (WaitAction::Pause { millis: poll_interval_spec(st.interactive) }, st)
    }
}

impl WaitState {
    pub fn new(interactive: bool) -> (r: WaitState)
        ensures
            r == (WaitState { interactive, noticed: false }),
    {
        WaitState { interactive, noticed: false }
    }

    /// Decides, after one scan, whether `wait_for_exit` returns or waits on.
    pub fn step(&mut self, scan: &Option<Vec<u32>>) -> (r: WaitAction)
        ensures
            (r, *final(self)) == wait_step_spec(*old(self), scan_is_clear(*scan)),
    {
        let clear = match scan {
            None => true,
            Some(pids) => pids.len() == 0,
        };
        let interval: u64 = if self.interactive {
            300
        } else {
            300_000
        };
        if clear {
            WaitAction::Finish
        } else if self.interactive && !self.noticed {
            self.noticed = true;
            WaitAction::NotifyAndPause { millis: interval }
        } else {
            WaitAction::Pause { millis: interval }
        }
    }
}

/// Number of scans after which the waiting loop returns, fed scans whose
/// clearness is `clears`; `None` if it is still waiting after the last one.
pub open spec fn scans_until_return(st: WaitState, clears: Seq<bool>) -> Option<nat>
    decreases clears.len(),
{
    if clears.len() == 0 {
        None
    } else {
        let (a, next) = wait_step_spec(st, clears[0]);
        if a is Finish {
            Some(1)
        } else {
            match scans_until_return(next, clears.drop_first()) {
                Some(n) => Some(n + 1),
                None => None,
            }
        }
    }
}

proof fn lemma_scans_until_return_positive(st: WaitState, clears: Seq<bool>)
    ensures
        scans_until_return(st, clears) != Some(0nat),
    decreases clears.len(),
{
    if clears.len() > 0 {
        let (a, next) = wait_step_spec(st, clears[0]);
        lemma_scans_until_return_positive(next, clears.drop_first());
    }
}

/// The waiting loop returns right after the first clear scan and at no
/// other time: immediately when the target is not running at the first scan,
/// and, when it is running, only once a scan shows zero matches.
pub proof fn lemma_wait_returns_at_first_clear_scan(st: WaitState, clears: Seq<bool>, k: int)
    requires
        0 <= k < clears.len(),
    ensures
        scans_until_return(st, clears) == Some((k + 1) as nat) <==> (clears[k] && forall|j: int|
            0 <= j < k ==> !clears[j]),
    decreases clears.len(),
{
    let (a, next) = wait_step_spec(st, clears[0]);
    lemma_scans_until_return_positive(next, clears.drop_first());
    if k > 0 && !clears[0] {
        lemma_wait_returns_at_first_clear_scan(next, clears.drop_first(), k - 1);
        if clears[k] && forall|j: int| 0 <= j < k ==> !clears[j] {
            assert forall|j: int| 0 <= j < k - 1 implies !clears.drop_first()[j] by {
                assert(!clears[j + 1]);
            }
        }
        if clears.drop_first()[k - 1] && forall|j: int| 0 <= j < k - 1 ==> !clears.drop_first()[j] {
            assert forall|j: int| 0 <= j < k implies !clears[j] by {
                if j > 0 {
                    assert(!clears.drop_first()[j - 1]);
                }
            }
        }
    }
}

} // verus!
