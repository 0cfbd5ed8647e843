use std::collections::BTreeMap;
use free_cursor_client::install::{
    autostart_command, check_target_app, install_image, launch_agent_plist, next_install_step, quote_path,
    removal_result, resolve_install_token, AutostartError, InstallError, InstallStep, RemovalStatus,
    INSTALL_FILE_MODE,
};
use free_cursor_client::platform::Platform;

fn pe_like(len: usize, e_lfanew: u16) -> Vec<u8> {
    let mut v: Vec<u8> = (0..len).map(|i| (i % 251) as u8).collect();
    v[0x3c] = (e_lfanew & 0xff) as u8;
    v[0x3d] = (e_lfanew >> 8) as u8;
    v
}

#[test]
fn install_copies_bytes_unchanged_off_windows() {
    let src = vec![1u8, 2, 3, 0, 255];
    assert_eq!(install_image(src.clone(), Platform::Linux), Ok(src.clone()));
    assert_eq!(install_image(src.clone(), Platform::MacOs), Ok(src));
    assert_eq!(INSTALL_FILE_MODE, 0o755);
}

#[test]
fn install_patches_only_the_subsystem_byte_on_windows() {
    let src = pe_like(400, 0x80);
    let out = install_image(src.clone(), Platform::Windows).unwrap();
    assert_eq!(out.len(), src.len());
    let offset = 0x80 + 0x18 + 68;
    assert_eq!(out[offset], 2);
    assert_ne!(src[offset], 2);
    for i in 0..src.len() {
        if i != offset {
            assert_eq!(out[i], src[i]);
        }
    }
}

#[test]
fn install_rejects_binaries_without_the_header_fields() {
    assert_eq!(install_image(vec![0u8; 61], Platform::Windows), Err(InstallError::MissingHeaderOffset));
    let src = pe_like(200, 0x80);
    assert_eq!(install_image(src, Platform::Windows), Err(InstallError::MissingSubsystemField));
    // the field is the last byte: still accepted
    let src = pe_like(0x80 + 92 + 1, 0x80);
    assert!(install_image(src, Platform::Windows).is_ok());
}

#[test]
fn paths_with_spaces_are_quoted() {
    assert_eq!(quote_path(&b"C:\\Program Files\\a.exe".to_vec()), b"\"C:\\Program Files\\a.exe\"".to_vec());
    assert_eq!(quote_path(&b"C:\\bin\\a.exe".to_vec()), b"C:\\bin\\a.exe".to_vec());
    assert_eq!(quote_path(&b"\"C:\\x y\\a.exe\"".to_vec()), b"\"C:\\x y\\a.exe\"".to_vec());
    assert_eq!(quote_path(&b"\"half quoted".to_vec()), b"\"half quoted".to_vec());
}

#[test]
fn autostart_command_adds_service_argument() {
    assert_eq!(autostart_command(&b"C:\\a b\\c.exe".to_vec()), b"\"C:\\a b\\c.exe\" service".to_vec());
    assert_eq!(autostart_command(&b"/opt/c".to_vec()), b"/opt/c service".to_vec());
}

#[test]
fn registering_twice_writes_the_same_single_entry() {
    let mut run_key: BTreeMap<&str, Vec<u8>> = BTreeMap::new();
    let cmd = autostart_command(&b"C:\\x\\free-cursor-client.exe".to_vec());
    run_key.insert("free-cursor-client", cmd.clone());
    run_key.insert("free-cursor-client", autostart_command(&b"C:\\x\\free-cursor-client.exe".to_vec()));
    assert_eq!(run_key.len(), 1);
    assert_eq!(run_key["free-cursor-client"], cmd);
}

#[test]
fn unregistering_when_absent_is_not_an_error() {
    assert_eq!(removal_result(RemovalStatus::NotFound), Ok(()));
    assert_eq!(removal_result(RemovalStatus::Removed), Ok(()));
    assert_eq!(removal_result(RemovalStatus::Failed(5)), Err(AutostartError::Os(5)));
}

#[test]
fn launch_agent_points_at_the_program() {
    let plist = launch_agent_plist("/Users/u/Library/free-cursor-client");
    assert!(plist.starts_with("<?xml version=\"1.0\" encoding=\"UTF-8\"?>\n"));
    assert!(plist.contains("<string>/Users/u/Library/free-cursor-client</string>\n        <string>service</string>"));
    assert!(plist.contains("<string>dev.freeai.free-cursor-client</string>"));
    assert!(plist.ends_with("</dict>\n</plist>"));
}

#[test]
fn install_token_comes_from_argument_then_cache() {
    assert_eq!(resolve_install_token(Some("a".into()), Some("b".into())), Ok("a".to_string()));
    assert_eq!(resolve_install_token(None, Some("abc".into())), Ok("abc".to_string()));
    assert_eq!(resolve_install_token(None, None), Err(InstallError::MissingToken));
}

fn run(platform: Platform, outcomes: &[Result<(), InstallError>]) -> Vec<InstallStep> {
    let mut step = InstallStep::SaveToken;
    let mut trace = vec![step];
    for o in outcomes {
        step = next_install_step(platform, step, *o);
        trace.push(step);
    }
    trace
}

#[test]
fn install_with_absent_editor_fails_before_touching_install_dir() {
    // config holds {"token":"abc"}; the editor's directory does not exist
    let token = resolve_install_token(None, Some("abc".to_string())).unwrap();
    assert_eq!(token, "abc");
    let trace = run(Platform::Windows, &[Ok(()), check_target_app(false), Ok(()), Ok(()), Ok(())]);
    assert_eq!(&trace[..3], &[InstallStep::SaveToken, InstallStep::CheckTargetApp, InstallStep::Failed(InstallError::TargetAppNotInstalled)]);
    assert!(!trace.iter().any(|s| matches!(s, InstallStep::CopyBinary | InstallStep::RegisterAutostart | InstallStep::StartService)));
    assert_eq!(*trace.last().unwrap(), InstallStep::Failed(InstallError::TargetAppNotInstalled));
}

#[test]
fn successful_install_runs_every_step_in_order() {
    let ok = [Ok(()); 7];
    let trace = run(Platform::Linux, &ok);
    assert_eq!(
        trace,
        vec![
            InstallStep::SaveToken,
            InstallStep::CheckTargetApp,
            InstallStep::WaitTargetApp,
            InstallStep::StopRunningService,
            InstallStep::CopyBinary,
            InstallStep::RegisterAutostart,
            InstallStep::StartService,
            InstallStep::Done,
        ]
    );
    let mac = run(Platform::MacOs, &ok[..6]);
    assert_eq!(mac[3], InstallStep::CopyBinary);
    assert_eq!(mac[6], InstallStep::Done);
}

#[test]
fn failed_copy_registers_nothing() {
    let trace = run(Platform::Windows, &[Ok(()), Ok(()), Ok(()), Ok(()), Err(InstallError::CopyFailed), Ok(())]);
    assert_eq!(trace[5], InstallStep::Failed(InstallError::CopyFailed));
    assert_eq!(trace[6], InstallStep::Failed(InstallError::CopyFailed));
}
