use crate::text::{parse_unsigned, parse_unsigned_spec, trim, trim_end_char, trim_end_char_spec, trim_spec};
use vstd::prelude::*;

verus! {

/// Number of characters before the first `c` in `s` (all of `s` if none).
pub open spec fn seg_len(s: Seq<char>, c: char) -> nat
    decreases s.len(),
{
    if s.len() == 0 || s[0] == c {
        0
    } else {
        1 + seg_len(s.drop_first(), c)
    }
}

proof fn lemma_seg_len_bound(s: Seq<char>, c: char)
    ensures
        seg_len(s, c) <= s.len(),
        seg_len(s, c) < s.len() ==> s[seg_len(s, c) as int] == c,
    decreases s.len(),
{
    if s.len() > 0 && s[0] != c {
        lemma_seg_len_bound(s.drop_first(), c);
    }
}

/// The key that marks the line carrying the service's process id.
pub open spec fn pid_key() -> Seq<char> {
    "\"PID\""@
}

pub open spec fn is_pid_line(line: Seq<char>) -> bool {
    pid_key().is_prefix_of(trim_spec(line))
}

/// The first line of `s` (lines end at `\n`) that, trimmed, starts with the PID key.
pub open spec fn pid_line(s: Seq<char>) -> Option<Seq<char>>
    decreases s.len(),
{
    let k = seg_len(s, '\n');
    if is_pid_line(s.take(k as int)) {
        Some(s.take(k as int))
    } else if k >= s.len() {
        None
    } else {
        pid_line(s.skip(k + 1 as int))
    }
}

/// The text between the first `=` of a line and the next `=` or the line's end.
pub open spec fn value_field(line: Seq<char>) -> Option<Seq<char>> {
    let k = seg_len(line, '=');
    if k >= line.len() {
        None
    } else {
        let rest = line.skip(k + 1 as int);
        Some(rest.take(seg_len(rest, '=') as int))
    }
}

/// The process id that `launchctl list <label>` reports for the service.
pub open spec fn launchctl_pid_spec(output: Seq<char>) -> Option<nat> {
    match pid_line(output) {
        None => None,
        Some(line) => match value_field(line) {
            None => None,
            Some(f) => parse_unsigned_spec(trim_spec(trim_end_char_spec(trim_spec(f), ';')), u32::MAX as nat),
        },
    }
}

fn seg_end(s: &str, from: usize, c: char) -> (r: usize)
    requires
        from <= s@.len(),
    ensures
        r == from + seg_len(s@.skip(from as int), c),
        r <= s@.len(),
{
    let n = s.unicode_len();
    let mut j = from;
    while j < n && s.get_char(j) != c
        invariant
            n == s@.len(),
            from <= j <= n,
            seg_len(s@.skip(from as int), c) == (j - from) + seg_len(s@.skip(j as int), c),
        decreases n - j,
    {
        assert(s@.skip(j as int).drop_first() =~= s@.skip(j as int + 1));
        j = j + 1;
    }
    j
}

fn starts_with(t: &str, p: &str) -> (r: bool)
    ensures
        r == p@.is_prefix_of(t@),
{
    let n = t.unicode_len();
    let m = p.unicode_len();
    if m > n {
        return false;
    }
    let mut i: usize = 0;
    while i < m
        invariant
            n == t@.len(),
            m == p@.len(),
            m <= n,
            i <= m,
            forall|j: int| 0 <= j < i ==> p@[j] == t@[j],
        decreases m - i,
    {
        if t.get_char(i) != p.get_char(i) {
            return false;
        }
        i = i + 1;
    }
    true
}

fn find_pid_line(output: &str) -> (r: Option<(usize, usize)>)
    ensures
        match (r, pid_line(output@)) {
            (Some((a, b)), Some(l)) => a <= b <= output@.len() && l == output@.subrange(a as int, b as int),
            (None, None) => true,
            _ => false,
        },
{
    let n = output.unicode_len();
    let mut start: usize = 0;
    assert(output@.skip(0) =~= output@);
    loop
        invariant
            n == output@.len(),
            start <= n,
            pid_line(output@) == pid_line(output@.skip(start as int)),
        decreases n - start,
    {
        let k = seg_end(output, start, '\n');
        let ghost rest = output@.skip(start as int);
        proof {
            lemma_seg_len_bound(rest, '\n');
        }
        let line = output.substring_char(start, k);
        assert(line@ =~= rest.take(seg_len(rest, '\n') as int));
        if starts_with(trim(line), "\"PID\"") {
            return Some((start, k));
        }
        if k >= n {
            return None;
        }
        assert(rest.skip(seg_len(rest, '\n') + 1 as int) =~= output@.skip(k as int + 1));
        start = k + 1;
    }
}

/// Finds the service's process id in the output of `launchctl list <label>`.
pub fn launchctl_pid(output: &str) -> (r: Option<u32>)
    ensures
        match (r, launchctl_pid_spec(output@)) {
            (Some(v), Some(w)) => v as nat == w,
            (None, None) => true,
            _ => false,
        },
{
    let (a, b) = match find_pid_line(output) {
        None => return None,
        Some(range) => range,
    };
    let line = output.substring_char(a, b);
    let m = line.unicode_len();
    let e = seg_end(line, 0, '=');
    assert(line@.skip(0) =~= line@);
    if e >= m {
        return None;
    }
    let f = seg_end(line, e + 1, '=');
    let field = line.substring_char(e + 1, f);
    proof {
        let rest = line@.skip(e as int + 1);
        lemma_seg_len_bound(rest, '=');
        assert(field@ =~= rest.take(seg_len(rest, '=') as int));
    }
    let digits = trim(trim_end_char(trim(field), ';'));
    match parse_unsigned(digits, 0xFFFF_FFFF) {
        Some(v) => Some(v as u32),
        None => None,
    }
}

/// How to (re)start the service through launchd.
#[derive(Clone, Copy, Debug, PartialEq, Eq, Structural)]
pub enum StartPlan {
    /// The service is not loaded: load it.
    Load,
    /// Another process runs as the service: unload and load it again.
    Reload { pid: u32 },
    /// The caller already is the running service.
    AlreadyRunning { pid: u32 },
    /// The service is loaded but reports no process id: leave it.
    NoProcess,
}

/// Decides from `launchctl list <label>` (whether it succeeded, and what it
/// printed) how to start the service.
pub fn service_start_plan(listed: bool, output: &str, self_pid: u32) -> (r: StartPlan)
    ensures
        !listed ==> r == StartPlan::Load,
        listed ==> match launchctl_pid_spec(output@) {
            None => r == StartPlan::NoProcess,
            Some(p) => if p != self_pid as nat {
                r == (StartPlan::Reload { pid: p as u32 })
            } else {
                r == (StartPlan::AlreadyRunning { pid: p as u32 })
            },
        },
{
    if !listed {
        return StartPlan::Load;
    }
    match launchctl_pid(output) {
        None => StartPlan::NoProcess,
        Some(pid) => if pid != self_pid {
            StartPlan::Reload { pid }
        } else {
            StartPlan::AlreadyRunning { pid }
        },
    }
}

} // verus!
