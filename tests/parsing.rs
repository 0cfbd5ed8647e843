use free_cursor_client::api::OrderStatus as ApiOrderStatus;
use free_cursor_client::cli::{CliCommand, InstallArgs};
use free_cursor_client::launchd::{launchctl_pid, service_start_plan, StartPlan};
use free_cursor_client::models::{ErrorResponse, GeneralResponse, OrderStatus, PackageDuration};
use free_cursor_client::order::{order_poll_step, parse_package_choice, payment_window_open, required_answer, OrderPoll, PackageChoice};
use free_cursor_client::text::{parse_unsigned, trim, trim_end_char};

const LISTING: &str = "{\n\t\"LimitLoadToSessionType\" = \"Aqua\";\n\t\"Label\" = \"dev.freeai.free-cursor-client\";\n\t\"PID\" = 4321;\n\t\"Program\" = \"/x\";\n};\n";

#[test]
fn launchctl_listing_gives_pid() {
    assert_eq!(launchctl_pid(LISTING), Some(4321));
    assert_eq!(launchctl_pid("\"PID\" = 12;;"), Some(12));
    assert_eq!(launchctl_pid("\"LastExitStatus\" = 0;\n"), None);
    assert_eq!(launchctl_pid("\"PID\" 12;"), None);
    assert_eq!(launchctl_pid("\"PID\" = 99999999999;"), None);
    assert_eq!(launchctl_pid(""), None);
}

#[test]
fn start_plan_from_listing() {
    assert_eq!(service_start_plan(false, "", 1), StartPlan::Load);
    assert_eq!(service_start_plan(true, LISTING, 1), StartPlan::Reload { pid: 4321 });
    assert_eq!(service_start_plan(true, LISTING, 4321), StartPlan::AlreadyRunning { pid: 4321 });
    assert_eq!(service_start_plan(true, "{};", 4321), StartPlan::NoProcess);
}

#[test]
fn trimming_and_number_parsing() {
    assert_eq!(trim("\u{3000} a b \t\n"), "a b");
    assert_eq!(trim_end_char("12;;;", ';'), "12");
    assert_eq!(parse_unsigned("+42", u32::MAX as u64), Some(42));
    assert_eq!(parse_unsigned("4294967295", u32::MAX as u64), Some(4294967295));
    assert_eq!(parse_unsigned("4294967296", u32::MAX as u64), None);
    assert_eq!(parse_unsigned("+", 100), None);
    assert_eq!(parse_unsigned("-1", 100), None);
    assert_eq!(parse_unsigned("1a", 100), None);
}

#[test]
fn package_menu_answers() {
    assert_eq!(parse_package_choice(" Q \n", 3), PackageChoice::Quit);
    assert_eq!(parse_package_choice("q", 0), PackageChoice::Quit);
    assert_eq!(parse_package_choice("2\n", 3), PackageChoice::Pick(1));
    assert_eq!(parse_package_choice("3", 3), PackageChoice::Pick(2));
    assert_eq!(parse_package_choice("4", 3), PackageChoice::Invalid);
    assert_eq!(parse_package_choice("0", 3), PackageChoice::Invalid);
    assert_eq!(parse_package_choice("quit", 3), PackageChoice::Invalid);
}

#[test]
fn prompts_need_an_answer() {
    assert_eq!(required_answer("  \n"), None);
    assert_eq!(required_answer(" Ann \n").as_deref(), Some("Ann"));
}

#[test]
fn order_polling() {
    assert!(matches!(order_poll_step(GeneralResponse::Success(ApiOrderStatus { status: "completed".into() })), OrderPoll::Paid));
    assert!(matches!(order_poll_step(GeneralResponse::Success(ApiOrderStatus { status: "pending".into() })), OrderPoll::Waiting));
    match order_poll_step(GeneralResponse::Error(ErrorResponse { error: "gone".into() })) {
        OrderPoll::Failed(e) => assert_eq!(e, "gone"),
        other => panic!("unexpected {other:?}"),
    }
    assert!(payment_window_open(899));
    assert!(!payment_window_open(900));
}

#[test]
fn display_names() {
    assert_eq!(PackageDuration::SemiAnnual.to_string(), "Semi-Annual");
    assert_eq!(PackageDuration::Monthly.to_string(), "Monthly");
    assert_eq!(OrderStatus::Completed.to_string(), "Completed");
    assert!(!CliCommand::Service.attaches_console());
    assert!(CliCommand::Install(InstallArgs { token: None }).attaches_console());
    assert!(CliCommand::Uninstall { full: true }.attaches_console());
}
