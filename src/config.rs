use crate::platform::Platform;
use vstd::prelude::*;

verus! {

/// Version of this program, which names its install directory.
pub const VERSION: &'static str = "0.1.0";

/// Name of this program's executables, directories and log files.
pub const PROGRAM_NAME: &'static str = "free-cursor-client";

pub const PROGRAM_FILE_WINDOWS: &'static str = "free-cursor-client.exe";

pub const CONFIG_FILE_NAME: &'static str = "config.json";

pub const LOGS_DIR_NAME: &'static str = "logs";

/// The persisted configuration: the cached token, if any.
#[derive(Debug)]
pub struct AppConfig {
    pub token: Option<String>,
}

impl AppConfig {
    pub fn new() -> (r: AppConfig)
        ensures
            r.token is None,
    {
        AppConfig { token: None }
    }

    /// The configuration that was read, or the default one when reading or
    /// parsing it failed (`None`); a failure is never fatal.
    pub fn load_or_default(loaded: Option<AppConfig>) -> (r: AppConfig)
        ensures
            match loaded {
                Some(c) => r == c,
                None => r.token is None,
            },
    {
        match loaded {
            Some(c) => c,
            None => AppConfig::new(),
        }
    }

    /// As `load_or_default`, for callers that log nothing about a fallback.
    pub fn load_or_default_silent(loaded: Option<AppConfig>) -> (r: AppConfig)
        ensures
            match loaded {
                Some(c) => r == c,
                None => r.token is None,
            },
    {
        Self::load_or_default(loaded)
    }
}

/// The token a command uses: the one given on its command line, else the
/// cached one.
pub fn resolve_token(given: Option<String>, config: AppConfig) -> (r: Option<String>)
    ensures
        r == match given {
            Some(t) => Some(t),
            None => config.token,
        },
{
    match given {
        Some(t) => Some(t),
        None => config.token,
    }
}

/// A configuration left at the old location is copied over only when the
/// standard location holds none yet.
pub fn migration_needed(old_exists: bool, new_exists: bool) -> (r: bool)
    ensures
        r == (old_exists && !new_exists),
{
    old_exists && !new_exists
}

/// Where this program keeps its files, as the platform's conventions place them.
#[derive(Debug)]
pub struct ProjectLayout {
    pub config_dir: String,
    pub data_local_dir: String,
    pub platform: Platform,
}

pub open spec fn is_separator(p: Platform, c: char) -> bool {
    c == p.separator_spec() || c == '/'
}

/// `base` with `name` appended as one more path component.
pub open spec fn join_spec(p: Platform, base: Seq<char>, name: Seq<char>) -> Seq<char> {
    if base.len() == 0 {
        name
    } else if is_separator(p, base.last()) {
        base + name
    } else {
        base.push(p.separator_spec()) + name
    }
}

fn separator_str(p: Platform) -> (r: &'static str)
    ensures
        r@ == seq![p.separator_spec()],
{
    match p {
        Platform::Windows => {
            proof {
                reveal_strlit("\\");
            }
            "\\"
        },
        _ => {
            proof {
                reveal_strlit("/");
            }
            "/"
        },
    }
}

pub fn join(p: Platform, base: &str, name: &str) -> (r: String)
    ensures
        r@ == join_spec(p, base@, name@),
{
    let n = base.unicode_len();
    let mut r = String::from_str(base);
    if n == 0 {
        r.append(name);
        assert(r@ =~= name@);
        return r;
    }
    let last = base.get_char(n - 1);
    if !(last == p.separator() || last == '/') {
        r.append(separator_str(p));
    }
    r.append(name);
    r
}

pub open spec fn program_file_spec(p: Platform) -> Seq<char> {
    match p {
        Platform::Windows => PROGRAM_FILE_WINDOWS@,
        _ => PROGRAM_NAME@,
    }
}

pub open spec fn program_path_spec(l: ProjectLayout, version: Seq<char>) -> Seq<char> {
    join_spec(l.platform, join_spec(l.platform, l.data_local_dir@, version), program_file_spec(l.platform))
}

pub fn get_config_dir(layout: &ProjectLayout) -> (r: String)
    ensures
        r@ == layout.config_dir@,
{
    layout.config_dir.clone()
}

/// The configuration file inside the configuration directory.
pub fn get_config_file_path(layout: &ProjectLayout) -> (r: String)
    ensures
        r@ == join_spec(layout.platform, layout.config_dir@, CONFIG_FILE_NAME@),
{
    join(layout.platform, layout.config_dir.as_str(), CONFIG_FILE_NAME)
}

/// `<data-dir>/<version>/<program file>`: where `version` is installed.
pub fn get_program_path_with_version(layout: &ProjectLayout, version: &str) -> (r: String)
    ensures
        r@ == program_path_spec(*layout, version@),
{
    let dir = join(layout.platform, layout.data_local_dir.as_str(), version);
    let file = match layout.platform {
        Platform::Windows => PROGRAM_FILE_WINDOWS,
        _ => PROGRAM_NAME,
    };
    join(layout.platform, dir.as_str(), file)
}

/// Where the running version is installed.
pub fn get_program_path(layout: &ProjectLayout) -> (r: String)
    ensures
        r@ == program_path_spec(*layout, VERSION@),
{
    get_program_path_with_version(layout, VERSION)
}

/// The stable link that the launch agent starts, pointing at the current install.
pub fn get_program_symlink_path(layout: &ProjectLayout) -> (r: String)
    ensures
        r@ == join_spec(layout.platform, layout.data_local_dir@, PROGRAM_NAME@),
{
    join(layout.platform, layout.data_local_dir.as_str(), PROGRAM_NAME)
}

/// `<data-dir>/<version>/logs`: the running version's log directory.
pub fn get_logs_dir(layout: &ProjectLayout) -> (r: String)
    ensures
        r@ == join_spec(layout.platform, join_spec(layout.platform, layout.data_local_dir@, VERSION@), LOGS_DIR_NAME@),
{
    let dir = join(layout.platform, layout.data_local_dir.as_str(), VERSION);
    join(layout.platform, dir.as_str(), LOGS_DIR_NAME)
}

proof fn lemma_join_shape(p: Platform, base: Seq<char>, v: Seq<char>)
    requires
        v.len() > 0,
    ensures
        join_spec(p, base, v) == join_prefix(p, base) + v,
{
}

/// The part that `join_spec` puts before the appended component.
pub open spec fn join_prefix(p: Platform, base: Seq<char>) -> Seq<char> {
    if base.len() == 0 {
        Seq::empty()
    } else if is_separator(p, base.last()) {
        base
    } else {
        base.push(p.separator_spec())
    }
}

/// Each version's binary lives at a path of its own: two different version
/// names that are not empty and do not end in a path separator give two
/// different install paths.
pub proof fn lemma_versions_install_apart(l: ProjectLayout, v1: Seq<char>, v2: Seq<char>)
    requires
        v1.len() > 0,
        v2.len() > 0,
        !is_separator(l.platform, v1.last()),
        !is_separator(l.platform, v2.last()),
        v1 != v2,
    ensures
        program_path_spec(l, v1) != program_path_spec(l, v2),
{
    let p = l.platform;
    let pre = join_prefix(p, l.data_local_dir@);
    let f = program_file_spec(p);
    let s = p.separator_spec();
    lemma_join_shape(p, l.data_local_dir@, v1);
    lemma_join_shape(p, l.data_local_dir@, v2);
    let d1 = pre + v1;
    let d2 = pre + v2;
    assert(d1.last() == v1.last());
    assert(d2.last() == v2.last());
    assert(program_path_spec(l, v1) == d1.push(s) + f);
    assert(program_path_spec(l, v2) == d2.push(s) + f);
    if program_path_spec(l, v1) == program_path_spec(l, v2) {
        let a = d1.push(s) + f;
        let b = d2.push(s) + f;
        assert(a.len() == b.len());
        assert(v1.len() == v2.len());
        assert forall|i: int| 0 <= i < v1.len() implies v1[i] == v2[i] by {
            assert(a[pre.len() + i] == v1[i]);
            assert(b[pre.len() + i] == v2[i]);
        }
        assert(v1 =~= v2);
    }
}

/// A calendar date, as the daily log file is named after it.
#[derive(Clone, Copy, Debug, PartialEq, Eq, Structural)]
pub struct LogDate {
    pub year: u16,
    pub month: u8,
    pub day: u8,
}

impl LogDate {
    pub open spec fn wf(self) -> bool {
        &&& self.year <= 9999
        &&& 1 <= self.month <= 12
        &&& 1 <= self.day <= 31
    }
}

pub open spec fn digit_char(d: int) -> char {
    if d == 0 { '0' } else if d == 1 { '1' } else if d == 2 { '2' } else if d == 3 { '3' }
    else if d == 4 { '4' } else if d == 5 { '5' } else if d == 6 { '6' } else if d == 7 { '7' }
    else if d == 8 { '8' } else { '9' }
}

/// `n` in decimal, zero-padded to `width` digits (its last `width` digits).
pub open spec fn padded_digits(n: nat, width: nat) -> Seq<char>
    decreases width,
{
    if width == 0 {
        Seq::empty()
    } else {
        padded_digits(n / 10, (width - 1) as nat).push(digit_char((n % 10) as int))
    }
}

fn push_digit(s: &mut String, d: u16)
    requires
        d < 10,
    ensures
        final(s)@ == old(s)@.push(digit_char(d as int)),
{
    let t: &str = if d == 0 { "0" } else if d == 1 { "1" } else if d == 2 { "2" } else if d == 3 { "3" }
    else if d == 4 { "4" } else if d == 5 { "5" } else if d == 6 { "6" } else if d == 7 { "7" }
    else if d == 8 { "8" } else { "9" };
    proof {
        reveal_strlit("0");
        reveal_strlit("1");
        reveal_strlit("2");
        reveal_strlit("3");
        reveal_strlit("4");
        reveal_strlit("5");
        reveal_strlit("6");
        reveal_strlit("7");
        reveal_strlit("8");
        reveal_strlit("9");
    }
    s.append(t);
    assert(t@ =~= seq![digit_char(d as int)]);
}

fn push_padded(s: &mut String, n: u16, width: u16)
    requires
        width <= 4,
    ensures
        final(s)@ == old(s)@ + padded_digits(n as nat, width as nat),
    decreases width,
{
    if width == 0 {
        assert(old(s)@ + padded_digits(n as nat, 0) =~= old(s)@);
        return;
    }
    push_padded(s, n / 10, width - 1);
    push_digit(s, n % 10);
    assert(old(s)@ + padded_digits(n as nat, width as nat) =~= old(s)@ + padded_digits((n / 10) as nat, (
    width - 1) as nat) + seq![digit_char((n % 10) as int)]);
}

/// `YYYYMMDD` for a date.
pub open spec fn date_stamp(d: LogDate) -> Seq<char> {
    padded_digits(d.year as nat, 4) + padded_digits(d.month as nat, 2) + padded_digits(d.day as nat, 2)
}

/// `free-cursor-client-YYYYMMDD.log`: the log file of one day.
pub fn log_file_name(date: LogDate) -> (r: String)
    requires
        date.wf(),
    ensures
        r@ == PROGRAM_NAME@ + "-"@ + date_stamp(date) + ".log"@,
{
    let mut r = String::from_str(PROGRAM_NAME);
    r.append("-");
    let ghost before = r@;
    push_padded(&mut r, date.year, 4);
    push_padded(&mut r, date.month as u16, 2);
    push_padded(&mut r, date.day as u16, 2);
    assert(r@ =~= before + date_stamp(date));
    r.append(".log");
    r
}

} // verus!
