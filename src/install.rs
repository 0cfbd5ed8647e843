use crate::platform::Platform;
use vstd::prelude::*;

verus! {

/// Why an install or update attempt was abandoned.
#[derive(Clone, Copy, Debug, PartialEq, Eq, Structural)]
pub enum InstallError {
    /// No token was given and none is cached.
    MissingToken,
    /// The supervised editor is not installed on this machine.
    TargetAppNotInstalled,
    /// The binary is too short to hold the PE header offset.
    MissingHeaderOffset,
    /// The PE header offset points past the end of the binary.
    MissingSubsystemField,
    /// The token could not be persisted.
    SaveConfigFailed,
    /// The binary could not be read or written.
    CopyFailed,
    /// Auto-start could not be registered.
    AutostartFailed,
    /// The installed binary could not be launched.
    StartServiceFailed,
}

/// File mode given to an installed binary where modes exist.
pub const INSTALL_FILE_MODE: u32 = 0o755;

/// Offset of the PE header, read little-endian at 0x3c.
pub open spec fn pe_header_offset(c: Seq<u8>) -> int {
    c[60] as int + 256 * c[61] as int
}

/// Offset of the optional header's subsystem field.
pub open spec fn subsystem_offset(c: Seq<u8>) -> int {
    pe_header_offset(c) + 92
}

/// Value of the subsystem field that marks a GUI program.
pub open spec fn gui_subsystem() -> u8 {
    2
}

/// The bytes to write at the install destination for source bytes `c`.
pub open spec fn install_image_spec(c: Seq<u8>, p: Platform) -> Result<Seq<u8>, InstallError> {
    if !p.patches_subsystem_spec() {
        Ok(c)
    } else if c.len() < 62 {
        Err(InstallError::MissingHeaderOffset)
    } else if subsystem_offset(c) >= c.len() {
        Err(InstallError::MissingSubsystemField)
    } else {
        Ok(c.update(subsystem_offset(c), gui_subsystem()))
    }
}

/// The content an install writes: the source binary unchanged, except on
/// Windows, where the subsystem field is set so that the copy runs without a
/// console window.
pub fn install_image(content: Vec<u8>, platform: Platform) -> (r: Result<Vec<u8>, InstallError>)
    ensures
        match (r, install_image_spec(content@, platform)) {
            (Ok(v), Ok(s)) => v@ == s,
            (Err(e), Err(f)) => e == f,
            _ => false,
        },
{
    if !platform.patches_subsystem() {
        return Ok(content);
    }
    if content.len() < 62 {
        return Err(InstallError::MissingHeaderOffset);
    }
    let offset: usize = content[60] as usize + 256 * (content[61] as usize) + 92;
    if offset >= content.len() {
        return Err(InstallError::MissingSubsystemField);
    }
    let mut c = content;
    c.set(offset, 2);
    Ok(c)
}

/// Reading back what an install wrote gives the source bytes, except for the
/// one patched header byte on the platform that patches it.
pub proof fn lemma_install_image_preserves_content(c: Seq<u8>, p: Platform)
    requires
        install_image_spec(c, p) is Ok,
    ensures
        install_image_spec(c, p)->Ok_0.len() == c.len(),
        !p.patches_subsystem_spec() ==> install_image_spec(c, p)->Ok_0 == c,
        p.patches_subsystem_spec() ==> forall|i: int|
            0 <= i < c.len() && i != subsystem_offset(c) ==> #[trigger] install_image_spec(c, p)->Ok_0[i]
                == c[i],
        p.patches_subsystem_spec() ==> install_image_spec(c, p)->Ok_0[subsystem_offset(c)]
            == gui_subsystem(),
{
}

/// A path with a space is put in double quotes, unless it already starts or
/// ends with one.
pub open spec fn quote_path_spec(path: Seq<u8>) -> Seq<u8> {
    if path.contains(32u8) && !(path.len() > 0 && path[0] == 34u8) && !(path.len() > 0 && path.last()
        == 34u8) {
        seq![34u8] + path + seq![34u8]
    } else {
        path
    }
}

fn contains_byte(v: &Vec<u8>, b: u8) -> (r: bool)
    ensures
        r == v@.contains(b),
{
    let mut i: usize = 0;
    while i < v.len()
        invariant
            i <= v.len(),
            forall|j: int| 0 <= j < i ==> v@[j] != b,
        decreases v.len() - i,
    {
        if v[i] == b {
            return true;
        }
        i = i + 1;
    }
    false
}

fn append_bytes(dst: &mut Vec<u8>, src: &Vec<u8>)
    ensures
        final(dst)@ == old(dst)@ + src@,
{
    let mut i: usize = 0;
    while i < src.len()
        invariant
            i <= src.len(),
            dst@ == old(dst)@ + src@.take(i as int),
        decreases src.len() - i,
    {
        dst.push(src[i]);
        i = i + 1;
        assert(src@.take(i as int) =~= src@.take(i as int - 1).push(src@[i as int - 1]));
    }
    assert(src@.take(src.len() as int) =~= src@);
}

/// Quotes an executable path for use in a command line.
pub fn quote_path(path: &Vec<u8>) -> (r: Vec<u8>)
    ensures
        r@ == quote_path_spec(path@),
{
    let has_space = contains_byte(path, 32u8);
    let starts_quoted = path.len() > 0 && path[0] == 34u8;
    let ends_quoted = path.len() > 0 && path[path.len() - 1] == 34u8;
    let mut r: Vec<u8> = Vec::new();
    if has_space && !starts_quoted && !ends_quoted {
        r.push(34u8);
        append_bytes(&mut r, path);
        r.push(34u8);
        assert(r@ =~= seq![34u8] + path@ + seq![34u8]);
    } else {
        append_bytes(&mut r, path);
        assert(r@ =~= path@);
    }
    r
}

/// ` service`: the argument that starts the installed binary in service mode.
pub open spec fn service_argument() -> Seq<u8> {
    seq![32u8, 115u8, 101u8, 114u8, 118u8, 105u8, 99u8, 101u8]
}

/// The command registered for auto-start: the quoted program path followed
/// by the service argument.
pub open spec fn autostart_command_spec(program: Seq<u8>) -> Seq<u8> {
    quote_path_spec(program) + service_argument()
}

pub fn autostart_command(program: &Vec<u8>) -> (r: Vec<u8>)
    ensures
        r@ == autostart_command_spec(program@),
{
    let mut r = quote_path(program);
    let arg = vec![32u8, 115u8, 101u8, 114u8, 118u8, 105u8, 99u8, 101u8];
    assert(arg@ =~= service_argument());
    append_bytes(&mut r, &arg);
    r
}

/// Name of the auto-start entry (registry value or launch agent label).
pub open spec fn autostart_entry_name() -> Seq<u8> {
    seq![
        102u8, 114u8, 101u8, 101u8, 45u8, 99u8, 117u8, 114u8, 115u8, 111u8, 114u8, 45u8, 99u8,
        108u8, 105u8, 101u8, 110u8, 116u8,
    ]
}

/// The auto-start entries after registering `program` on a platform that
/// keeps them as named values (each name holds one value; setting a name
/// replaces what it held).
pub open spec fn registered(entries: Map<Seq<u8>, Seq<u8>>, program: Seq<u8>) -> Map<Seq<u8>, Seq<u8>> {
    entries.insert(autostart_entry_name(), autostart_command_spec(program))
}

/// The auto-start entries after unregistering.
pub open spec fn unregistered(entries: Map<Seq<u8>, Seq<u8>>) -> Map<Seq<u8>, Seq<u8>> {
    entries.remove(autostart_entry_name())
}

/// Registering twice leaves the same single entry as registering once, and
/// unregistering when nothing is registered changes nothing.
pub proof fn lemma_autostart_idempotent(entries: Map<Seq<u8>, Seq<u8>>, program: Seq<u8>)
    ensures
        registered(registered(entries, program), program) == registered(entries, program),
        registered(entries, program).contains_key(autostart_entry_name()),
        registered(entries, program)[autostart_entry_name()] == autostart_command_spec(program),
        registered(entries, program).dom() == entries.dom().insert(autostart_entry_name()),
        !entries.contains_key(autostart_entry_name()) ==> unregistered(entries) == entries,
        unregistered(unregistered(entries)) == unregistered(entries),
{
    assert(registered(registered(entries, program), program) =~= registered(entries, program));
    assert(registered(entries, program).dom() =~= entries.dom().insert(autostart_entry_name()));
    if !entries.contains_key(autostart_entry_name()) {
        assert(unregistered(entries) =~= entries);
    }
    assert(unregistered(unregistered(entries)) =~= unregistered(entries));
}

/// How the OS answered a request to remove the auto-start entry.
#[derive(Clone, Copy, Debug, PartialEq, Eq, Structural)]
pub enum RemovalStatus {
    Removed,
    /// The key or value did not exist.
    NotFound,
    /// Any other failure, with the OS error code.
    Failed(i32),
}

#[derive(Clone, Copy, Debug, PartialEq, Eq, Structural)]
pub enum AutostartError {
    Os(i32),
}

/// Removing an entry that is not there is success.
pub fn removal_result(status: RemovalStatus) -> (r: Result<(), AutostartError>)
    ensures
        r == match status {
            RemovalStatus::Failed(code) => Err(AutostartError::Os(code)),
            _ => Ok(()),
        },
{
    match status {
        RemovalStatus::Failed(code) => Err(AutostartError::Os(code)),
        _ => Ok(()),
    }
}

/// Launch agent descriptor, up to the program path.
pub const PLIST_HEAD: &'static str = "<?xml version=\"1.0\" encoding=\"UTF-8\"?>\n<!DOCTYPE plist PUBLIC \"-//Apple//DTD PLIST 1.0//EN\" \"http://www.apple.com/DTDs/PropertyList-1.0.dtd\">\n<plist version=\"1.0\">\n<dict>\n    <key>Label</key>\n    <string>dev.freeai.free-cursor-client</string>\n    <key>ProgramArguments</key>\n    <array>\n        <string>";

/// Launch agent descriptor, after the program path.
pub const PLIST_TAIL: &'static str = "</string>\n        <string>service</string>\n    </array>\n    <key>RunAtLoad</key>\n    <true/>\n    <key>KeepAlive</key>\n    <true/>\n</dict>\n</plist>";

/// The launch agent descriptor that starts `program` in service mode at
/// login and keeps it alive.
pub fn launch_agent_plist(program: &str) -> (r: String)
    ensures
        r@ == PLIST_HEAD@ + program@ + PLIST_TAIL@,
{
    let mut r = String::from_str(PLIST_HEAD);
    r.append(program);
    r.append(PLIST_TAIL);
    r
}

/// The token an install uses: the one given, else the cached one.
pub fn resolve_install_token(given: Option<String>, cached: Option<String>) -> (r: Result<
    String,
    InstallError,
>)
    ensures
        match (given, cached) {
            (Some(t), _) => r == Ok::<String, InstallError>(t),
            (None, Some(t)) => r == Ok::<String, InstallError>(t),
            (None, None) => r == Err::<String, InstallError>(InstallError::MissingToken),
        },
{
    match given {
        Some(t) => Ok(t),
        None => match cached {
            Some(t) => Ok(t),
            None => Err(InstallError::MissingToken),
        },
    }
}

/// The install routine's steps, in order.
#[derive(Clone, Copy, Debug, PartialEq, Eq, Structural)]
pub enum InstallStep {
    SaveToken,
    CheckTargetApp,
    WaitTargetApp,
    StopRunningService,
    CopyBinary,
    RegisterAutostart,
    StartService,
    Done,
    Failed(InstallError),
}

impl InstallStep {
    /// Steps that create or change files under the install directory or
    /// make the new install active.
    pub open spec fn touches_install(self) -> bool {
        ||| self is CopyBinary
        ||| self is RegisterAutostart
        ||| self is StartService
    }
}

pub open spec fn next_install_step_spec(
    p: Platform,
    step: InstallStep,
    outcome: Result<(), InstallError>,
) -> InstallStep {
    match step {
        InstallStep::Done => InstallStep::Done,
        InstallStep::Failed(e) => InstallStep::Failed(e),
        _ => match outcome {
            Err(e) => InstallStep::Failed(e),
            Ok(()) => match step {
                InstallStep::SaveToken => InstallStep::CheckTargetApp,
                InstallStep::CheckTargetApp => InstallStep::WaitTargetApp,
                InstallStep::WaitTargetApp => if p.stops_service_before_install_spec() {
                    InstallStep::StopRunningService
                } else {
                    InstallStep::CopyBinary
                },
                InstallStep::StopRunningService => InstallStep::CopyBinary,
                InstallStep::CopyBinary => InstallStep::RegisterAutostart,
                InstallStep::RegisterAutostart => InstallStep::StartService,
                _ => InstallStep::Done,
            },
        },
    }
}

/// The step after `step` given how it went: any failure ends the install
/// there, so auto-start is registered only after the copy succeeded and the
/// service is started only after auto-start was registered.
pub fn next_install_step(platform: Platform, step: InstallStep, outcome: Result<(), InstallError>) -> (r:
    InstallStep)
    ensures
        r == next_install_step_spec(platform, step, outcome),
{
    match step {
        InstallStep::Done => InstallStep::Done,
        InstallStep::Failed(e) => InstallStep::Failed(e),
        _ => match outcome {
            Err(e) => InstallStep::Failed(e),
            Ok(()) => match step {
                InstallStep::SaveToken => InstallStep::CheckTargetApp,
                InstallStep::CheckTargetApp => InstallStep::WaitTargetApp,
                InstallStep::WaitTargetApp => if platform.stops_service_before_install() {
                    InstallStep::StopRunningService
                } else {
                    InstallStep::CopyBinary
                },
                InstallStep::StopRunningService => InstallStep::CopyBinary,
                InstallStep::CopyBinary => InstallStep::RegisterAutostart,
                InstallStep::RegisterAutostart => InstallStep::StartService,
                _ => InstallStep::Done,
            },
        },
    }
}

/// Outcome of the presence check of the supervised editor.
pub fn check_target_app(installed: bool) -> (r: Result<(), InstallError>)
    ensures
        installed ==> r is Ok,
        !installed ==> r == Err::<(), InstallError>(InstallError::TargetAppNotInstalled),
{
    if installed {
        Ok(())
    } else {
        Err(InstallError::TargetAppNotInstalled)
    }
}

/// The steps an install goes through from `step`, fed one outcome per step.
pub open spec fn install_run(p: Platform, step: InstallStep, outcomes: Seq<Result<(), InstallError>>) -> Seq<
    InstallStep,
>
    decreases outcomes.len(),
{
    if outcomes.len() == 0 {
        seq![step]
    } else {
        seq![step] + install_run(p, next_install_step_spec(p, step, outcomes[0]), outcomes.drop_first())
    }
}

proof fn lemma_failed_stays_failed(p: Platform, e: InstallError, outcomes: Seq<Result<(), InstallError>>)
    ensures
        forall|i: int| 0 <= i < install_run(p, InstallStep::Failed(e), outcomes).len()
            ==> #[trigger] install_run(p, InstallStep::Failed(e), outcomes)[i] == InstallStep::Failed(e),
        install_run(p, InstallStep::Failed(e), outcomes).len() == outcomes.len() + 1,
    decreases outcomes.len(),
{
    if outcomes.len() > 0 {
        lemma_failed_stays_failed(p, e, outcomes.drop_first());
        let rest = install_run(p, InstallStep::Failed(e), outcomes.drop_first());
        assert forall|i: int| 0 <= i < install_run(p, InstallStep::Failed(e), outcomes).len()
            implies #[trigger] install_run(p, InstallStep::Failed(e), outcomes)[i] == InstallStep::Failed(e) by {
            if i > 0 {
                assert(install_run(p, InstallStep::Failed(e), outcomes)[i] == rest[i - 1]);
            }
        }
    }
}

/// When the token was saved and the editor turns out not to be installed,
/// the install ends failed with that error, whatever would have come next,
/// and never reaches a step that touches the install directory.
pub proof fn lemma_absent_target_app_aborts_install(p: Platform, outcomes: Seq<Result<(), InstallError>>)
    requires
        outcomes.len() >= 2,
        outcomes[0] is Ok,
        outcomes[1] == Err::<(), InstallError>(InstallError::TargetAppNotInstalled),
    ensures
        forall|i: int| 0 <= i < install_run(p, InstallStep::SaveToken, outcomes).len()
            ==> !(#[trigger] install_run(p, InstallStep::SaveToken, outcomes)[i]).touches_install(),
        install_run(p, InstallStep::SaveToken, outcomes).last() == InstallStep::Failed(
            InstallError::TargetAppNotInstalled,
        ),
{
    let e = InstallError::TargetAppNotInstalled;
    let run = install_run(p, InstallStep::SaveToken, outcomes);
    let o1 = outcomes.drop_first();
    let o2 = o1.drop_first();
    lemma_failed_stays_failed(p, e, o2);
    let tail = install_run(p, InstallStep::Failed(e), o2);
    assert(install_run(p, InstallStep::CheckTargetApp, o1) == seq![InstallStep::CheckTargetApp] + tail);
    assert(run == seq![InstallStep::SaveToken] + (seq![InstallStep::CheckTargetApp] + tail));
    assert forall|i: int| 0 <= i < run.len() implies !(#[trigger] run[i]).touches_install() by {
        if i >= 2 {
            assert(run[i] == tail[i - 2]);
        }
    }
    assert(run.last() == tail[tail.len() - 1]);
}

} // verus!
