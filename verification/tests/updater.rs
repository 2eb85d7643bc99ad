use mdx::updater::{
    archive_name, binary_name, old_binary_name, staging_name, Action, Event, FileRole, Platform,
    Updater,
};

const BODY: &str = r#"{"tag_name": "v1.5.0", "name": "1.5.0"}"#;

fn start(platform: Platform, current: &str) -> (Updater, Action) {
    Updater::start(platform, current, "linux", "x86_64", false, 4242, "")
}

fn say_text(a: &Action) -> String {
    match a {
        Action::Say { text, .. } => text.clone(),
        _ => panic!("expected a message"),
    }
}

/// Feeds the reports in turn and returns every action, the first included.
fn drive(platform: Platform, current: &str, events: Vec<Event>) -> Vec<Action> {
    let (mut u, first) = start(platform, current);
    let mut actions = vec![first];
    for e in events {
        assert!(u.awaits_event(&e));
        actions.push(u.step(e));
    }
    actions
}

fn finish_result(a: &Action) -> Result<(), String> {
    match a {
        Action::Finish { result } => result.clone(),
        _ => panic!("expected the end of the update"),
    }
}

#[test]
fn already_latest() {
    let acts = drive(
        Platform::Unix,
        "1.5.0",
        vec![Event::Done, Event::Done, Event::Text(BODY.to_string()), Event::Done],
    );
    assert_eq!(say_text(&acts[0]), "  Checking for updates...");
    assert!(matches!(&acts[1], Action::HttpGet { url } if url == "https://api.github.com/repos/Harsh-2002/MD/releases/latest"));
    assert!(matches!(acts[2], Action::ReadBody));
    assert_eq!(say_text(&acts[3]), "  Already on the latest version (v1.5.0)");
    assert_eq!(finish_result(&acts[4]), Ok(()));
}

fn unix_success_events() -> Vec<Event> {
    vec![
        Event::Done,                                // said: checking
        Event::Done,                                // request sent
        Event::Text(BODY.to_string()),              // body
        Event::Done,                                // said: new version
        Event::Done,                                // temp dir created
        Event::Done,                                // said: downloading
        Event::Done,                                // archive requested
        Event::Done,                                // archive saved
        Event::Status(true),                        // tar
        Event::Exists(true),                        // binary present
        Event::Status(true),                        // --version
        Event::Located(Some("/usr/local/bin".to_string())),
        Event::Done,                                // staged
        Event::Done,                                // chmod
        Event::Done,                                // renamed into place
        Event::Done,                                // temp dir removed
        Event::Done,                                // said: updated
    ]
}

#[test]
fn unix_update_succeeds() {
    let acts = drive(Platform::Unix, "1.4.0", unix_success_events());
    assert_eq!(say_text(&acts[3]), "  New version available: v1.4.0 \u{2192} v1.5.0");
    assert!(matches!(&acts[4], Action::CreateTempDir { name } if name == "mdx-update-4242"));
    assert_eq!(say_text(&acts[5]), "  Downloading v1.5.0...");
    assert!(matches!(&acts[6], Action::HttpGet { url } if url == "https://github.com/Harsh-2002/MD/releases/download/v1.5.0/mdx-x86_64-unknown-linux-gnu.tar.gz"));
    assert!(matches!(acts[7], Action::SaveDownload));
    assert!(matches!(acts[8], Action::ExtractArchive));
    assert!(matches!(acts[9], Action::CheckNewBinary));
    assert!(matches!(acts[10], Action::RunVersionCheck));
    assert!(matches!(acts[11], Action::LocateRunningBinary));
    assert!(matches!(acts[12], Action::StageCopy));
    assert!(matches!(acts[13], Action::MakeExecutable));
    assert!(matches!(acts[14], Action::Rename { from: FileRole::Staging, to: FileRole::RunningBinary }));
    assert!(matches!(acts[15], Action::RemoveTempDir));
    assert_eq!(say_text(&acts[16]), "  Updated mdx: v1.4.0 \u{2192} v1.5.0");
    assert_eq!(finish_result(&acts[17]), Ok(()));
}

#[test]
fn unix_replace_failure_removes_staging() {
    let mut events = unix_success_events();
    events.truncate(14);
    events.push(Event::Failed("busy".to_string()));
    events.push(Event::Done); // staging removed
    events.push(Event::Done); // temp dir removed
    let acts = drive(Platform::Unix, "1.4.0", events);
    assert!(matches!(acts[15], Action::RemoveFile { file: FileRole::Staging }));
    assert!(matches!(acts[16], Action::RemoveTempDir));
    assert_eq!(finish_result(&acts[17]), Err("Failed to replace binary: busy".to_string()));
}

#[test]
fn download_failure_cleans_up() {
    let mut events = unix_success_events();
    events.truncate(6);
    events.push(Event::Failed("timeout".to_string()));
    events.push(Event::Failed("gone".to_string())); // removal of temp dir fails: ignored
    let acts = drive(Platform::Unix, "1.4.0", events);
    assert!(matches!(acts[7], Action::RemoveTempDir));
    assert_eq!(finish_result(&acts[8]), Err("Failed to download release: timeout".to_string()));
}

#[test]
fn bad_archive_and_bad_binary() {
    let mut events = unix_success_events();
    events.truncate(8);
    events.push(Event::Status(false));
    events.push(Event::Done);
    let acts = drive(Platform::Unix, "1.4.0", events);
    assert_eq!(finish_result(&acts[10]), Err("Failed to extract update archive".to_string()));

    let mut events = unix_success_events();
    events.truncate(9);
    events.push(Event::Exists(false));
    events.push(Event::Done);
    let acts = drive(Platform::Unix, "1.4.0", events);
    assert_eq!(
        finish_result(&acts[11]),
        Err("Downloaded archive does not contain 'mdx' binary".to_string())
    );

    let mut events = unix_success_events();
    events.truncate(10);
    events.push(Event::Status(false));
    events.push(Event::Done);
    let acts = drive(Platform::Unix, "1.4.0", events);
    assert_eq!(
        finish_result(&acts[12]),
        Err("Downloaded binary is invalid (--version check failed)".to_string())
    );
}

#[test]
fn permission_denied_while_staging() {
    let mut events = unix_success_events();
    events.truncate(12);
    events.push(Event::PermissionDenied);
    events.push(Event::Done);
    let acts = drive(Platform::Unix, "1.4.0", events);
    assert_eq!(
        finish_result(&acts[14]),
        Err("Permission denied writing to /usr/local/bin. Try: sudo mdx update".to_string())
    );
}

#[test]
fn unparsable_release() {
    let acts = drive(
        Platform::Unix,
        "1.4.0",
        vec![Event::Done, Event::Done, Event::Text("{}".to_string())],
    );
    assert_eq!(
        finish_result(&acts[3]),
        Err("Could not parse latest version from GitHub API response".to_string())
    );
}

#[test]
fn check_request_fails() {
    let acts = drive(Platform::Unix, "1.4.0", vec![Event::Done, Event::Failed("dns".to_string())]);
    assert_eq!(finish_result(&acts[2]), Err("Failed to check for updates: dns".to_string()));
}

#[test]
fn unsupported_platform_stops_before_download() {
    let (mut u, _) = Updater::start(Platform::Unix, "1.4.0", "haiku", "x86_64", false, 1, "");
    u.step(Event::Done);
    u.step(Event::Done);
    u.step(Event::Text(BODY.to_string()));
    let a = u.step(Event::Done);
    assert!(finish_result(&a).unwrap_err().starts_with("Unsupported platform: haiku/x86_64."));
    assert!(u.is_finished());
}

fn windows_events_until_staged() -> Vec<Event> {
    let mut events = unix_success_events();
    events.truncate(13);
    events
}

#[test]
fn windows_update_succeeds() {
    let mut events = windows_events_until_staged();
    events.extend([Event::Failed("no old".to_string()), Event::Done, Event::Done, Event::Done, Event::Done, Event::Done]);
    let (mut u, first) = Updater::start(Platform::Windows, "1.4.0", "windows", "x86_64", false, 9, ".exe");
    let mut acts = vec![first];
    for e in events {
        acts.push(u.step(e));
    }
    assert!(matches!(acts[13], Action::RemoveFile { file: FileRole::OldBinary }));
    assert!(matches!(acts[14], Action::Rename { from: FileRole::RunningBinary, to: FileRole::OldBinary }));
    assert!(matches!(acts[15], Action::Rename { from: FileRole::Staging, to: FileRole::RunningBinary }));
    assert!(matches!(acts[16], Action::RemoveFile { file: FileRole::OldBinary }));
    assert!(matches!(acts[17], Action::RemoveTempDir));
    assert_eq!(say_text(&acts[18]), "  Updated mdx: v1.4.0 \u{2192} v1.5.0");
    assert_eq!(finish_result(&acts[19]), Ok(()));
}

#[test]
fn windows_failed_move_in_restores_old_binary() {
    let mut events = windows_events_until_staged();
    events.extend([
        Event::Done,
        Event::Done,
        Event::Failed("locked".to_string()),
        Event::Done,
        Event::Done,
    ]);
    let (mut u, first) = Updater::start(Platform::Windows, "1.4.0", "windows", "x86_64", false, 9, ".exe");
    let mut acts = vec![first];
    for e in events {
        acts.push(u.step(e));
    }
    assert!(matches!(acts[16], Action::Rename { from: FileRole::OldBinary, to: FileRole::RunningBinary }));
    assert!(matches!(acts[17], Action::RemoveTempDir));
    assert_eq!(finish_result(&acts[18]), Err("Failed to install new binary: locked".to_string()));
}

#[test]
fn windows_failed_move_aside_removes_staging() {
    let mut events = windows_events_until_staged();
    events.extend([Event::Done, Event::Failed("in use".to_string()), Event::Done, Event::Done]);
    let (mut u, first) = Updater::start(Platform::Windows, "1.4.0", "windows", "x86_64", false, 9, ".exe");
    let mut acts = vec![first];
    for e in events {
        acts.push(u.step(e));
    }
    assert!(matches!(acts[15], Action::RemoveFile { file: FileRole::Staging }));
    assert_eq!(finish_result(&acts[17]), Err("Failed to rename running binary: in use".to_string()));
}

#[test]
fn windows_permission_message() {
    let mut events = windows_events_until_staged();
    events.truncate(12);
    events.push(Event::PermissionDenied);
    events.push(Event::Done);
    let (mut u, _) = Updater::start(Platform::Windows, "1.4.0", "windows", "x86_64", false, 9, ".exe");
    let mut last = None;
    for e in events {
        last = Some(u.step(e));
    }
    assert_eq!(
        finish_result(&last.unwrap()),
        Err("Permission denied writing to /usr/local/bin. Try running as Administrator".to_string())
    );
}

#[test]
fn file_names() {
    assert_eq!(binary_name(".exe"), "mdx.exe");
    assert_eq!(binary_name(""), "mdx");
    assert_eq!(staging_name(".exe"), "mdx.update.tmp.exe");
    assert_eq!(old_binary_name(), "mdx.old.exe");
    assert_eq!(archive_name(), "mdx.tar.gz");
}

#[test]
fn unexpected_report_is_refused() {
    let (u, _) = start(Platform::Unix, "1.0.0");
    assert!(!u.awaits_event(&Event::Status(true)));
    assert!(u.awaits_event(&Event::Done));
}

#[test]
fn step_count_is_bounded() {
    let (mut u, _) = start(Platform::Unix, "1.4.0");
    let mut steps = 0;
    for e in unix_success_events() {
        u.step(e);
        steps += 1;
    }
    assert!(u.is_finished());
    assert!(steps <= 30);
}
