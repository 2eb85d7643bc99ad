//! The self-update as a sequence of steps: from what the last step reported,
//! `Updater::step` decides the next thing to do. The caller performs each
//! action (printing, network, files, processes) and reports how it went.
use vstd::prelude::*;
use crate::text::{concat2, concat3, concat4};
use crate::update::{
    decimal, detect_target, extract_json_string, extracted, release_url, release_url_text, strip_v,
    target_for, temp_dir_name, unsupported_platform_message, without_v, API_URL,
};

verus! {

/// The platform family the program was built for.
#[derive(Clone, Copy, Debug, PartialEq, Eq, Structural)]
pub enum Platform {
    Unix,
    Windows,
    Other,
}

/// A file next to the running binary that a step works on; the caller
/// resolves it to a path (see `staging_name` and `old_binary_name`).
#[derive(Clone, Copy, Debug, PartialEq, Eq, Structural)]
pub enum FileRole {
    /// The new binary, copied next to the running one.
    Staging,
    /// The running binary, by its canonical path.
    RunningBinary,
    /// The running binary moved aside (Windows).
    OldBinary,
}

/// How far the update has got: the step whose report is awaited.
#[derive(Clone, Copy, Debug, PartialEq, Eq, Structural)]
pub enum Phase {
    AnnouncingCheck,
    FetchingRelease,
    ReadingRelease,
    ReportingUpToDate,
    AnnouncingNew,
    CreatingTempDir,
    AnnouncingDownload,
    Downloading,
    Saving,
    Extracting,
    CheckingBinary,
    VerifyingBinary,
    Locating,
    Staging,
    SettingPermissions,
    Replacing,
    ClearingOld,
    MovingAside,
    MovingIn,
    RemovingOld,
    RestoringOld,
    RemovingStaging,
    RemovingTempDir,
    ReportingUpdated,
    Finished,
}

/// What the caller is to do next.
pub enum Action {
    /// Print `text` as a line, on standard error or standard output.
    Say { to_stderr: bool, text: String },
    /// Send a GET request to `url` with the `User-Agent: mdx-cli` header.
    HttpGet { url: String },
    /// Read the body of the last response as text.
    ReadBody,
    /// Create the directory `name` inside the system's temporary directory.
    CreateTempDir { name: String },
    /// Write the body of the last response to `mdx.tar.gz` in the temporary directory.
    SaveDownload,
    /// Run `tar xzf <archive> -C <temporary directory>`.
    ExtractArchive,
    /// Check that the extracted binary exists.
    CheckNewBinary,
    /// Run the extracted binary with `--version`.
    RunVersionCheck,
    /// Find the running binary's canonical path and its directory.
    LocateRunningBinary,
    /// Copy the extracted binary to the staging file.
    StageCopy,
    /// Give the staging file mode 755.
    MakeExecutable,
    /// Rename one file to another.
    Rename { from: FileRole, to: FileRole },
    /// Remove a file; the outcome does not matter.
    RemoveFile { file: FileRole },
    /// Remove the temporary directory and all it holds; the outcome does not matter.
    RemoveTempDir,
    /// Stop with this result.
    Finish { result: Result<(), String> },
}

/// How the last action went.
pub enum Event {
    /// It completed.
    Done,
    /// It completed with this text (a response body).
    Text(String),
    /// The process ran; whether it exited successfully.
    Status(bool),
    /// Whether the file exists.
    Exists(bool),
    /// The running binary was found; its directory, for display, if it has one.
    Located(Option<String>),
    /// The copy was refused for want of permission.
    PermissionDenied,
    /// It failed with this message.
    Failed(String),
}

/// The view of an `Action`.
pub enum ActionView {
    Say { to_stderr: bool, text: Seq<char> },
    HttpGet { url: Seq<char> },
    ReadBody,
    CreateTempDir { name: Seq<char> },
    SaveDownload,
    ExtractArchive,
    CheckNewBinary,
    RunVersionCheck,
    LocateRunningBinary,
    StageCopy,
    MakeExecutable,
    Rename { from: FileRole, to: FileRole },
    RemoveFile { file: FileRole },
    RemoveTempDir,
    Finish { result: Result<(), Seq<char>> },
}

/// The view of an `Event`.
pub enum EventView {
    Done,
    Text(Seq<char>),
    Status(bool),
    Exists(bool),
    Located(Option<Seq<char>>),
    PermissionDenied,
    Failed(Seq<char>),
}

/// The view of an `Updater`.
pub struct UpdaterView {
    pub phase: Phase,
    pub platform: Platform,
    pub current: Seq<char>,
    pub os: Seq<char>,
    pub arch: Seq<char>,
    pub musl: bool,
    pub pid: u32,
    pub exe_suffix: Seq<char>,
    pub tag: Seq<char>,
    pub latest: Seq<char>,
    pub url: Seq<char>,
    pub exe_dir: Seq<char>,
    /// The result to report once the temporary directory is removed.
    pub outcome: Option<Result<(), Seq<char>>>,
    /// Every step by which this platform puts the new binary in place has succeeded.
    pub replaced: bool,
}

/// The state of an update in progress.
pub struct Updater {
    progress: Progress,
    platform: Platform,
    current: String,
    os: String,
    arch: String,
    musl: bool,
    pid: u32,
    exe_suffix: String,
    tag: String,
    latest: String,
    url: String,
    exe_dir: String,
    /// The message of a pending failure.
    failure: String,
}

/// The result to report once the temporary directory is removed.
#[derive(Clone, Copy)]
enum Pending {
    Nothing,
    Success,
    Failure,
}

/// How far an update has got, and what it will report: the part of the
/// state that `honest` speaks of, changed in one assignment.
#[derive(Clone, Copy)]
struct Progress {
    phase: Phase,
    pending: Pending,
    replaced: bool,
}

impl View for Action {
    type V = ActionView;

    open spec fn view(&self) -> ActionView {
        match self {
            Action::Say { to_stderr, text } => ActionView::Say { to_stderr: *to_stderr, text: text@ },
            Action::HttpGet { url } => ActionView::HttpGet { url: url@ },
            Action::ReadBody => ActionView::ReadBody,
            Action::CreateTempDir { name } => ActionView::CreateTempDir { name: name@ },
            Action::SaveDownload => ActionView::SaveDownload,
            Action::ExtractArchive => ActionView::ExtractArchive,
            Action::CheckNewBinary => ActionView::CheckNewBinary,
            Action::RunVersionCheck => ActionView::RunVersionCheck,
            Action::LocateRunningBinary => ActionView::LocateRunningBinary,
            Action::StageCopy => ActionView::StageCopy,
            Action::MakeExecutable => ActionView::MakeExecutable,
            Action::Rename { from, to } => ActionView::Rename { from: *from, to: *to },
            Action::RemoveFile { file } => ActionView::RemoveFile { file: *file },
            Action::RemoveTempDir => ActionView::RemoveTempDir,
            Action::Finish { result } => ActionView::Finish {
                result: match result {
                    Ok(()) => Ok(()),
                    Err(m) => Err(m@),
                },
            },
        }
    }
}

impl View for Event {
    type V = EventView;

    open spec fn view(&self) -> EventView {
        match self {
            Event::Done => EventView::Done,
            Event::Text(t) => EventView::Text(t@),
            Event::Status(b) => EventView::Status(*b),
            Event::Exists(b) => EventView::Exists(*b),
            Event::Located(d) => EventView::Located(
                match d {
                    Some(s) => Some(s@),
                    None => None,
                },
            ),
            Event::PermissionDenied => EventView::PermissionDenied,
            Event::Failed(m) => EventView::Failed(m@),
        }
    }
}

impl View for Updater {
    type V = UpdaterView;

    closed spec fn view(&self) -> UpdaterView {
        UpdaterView {
            phase: self.progress.phase,
            platform: self.platform,
            current: self.current@,
            os: self.os@,
            arch: self.arch@,
            musl: self.musl,
            pid: self.pid,
            exe_suffix: self.exe_suffix@,
            tag: self.tag@,
            latest: self.latest@,
            url: self.url@,
            exe_dir: self.exe_dir@,
            outcome: match self.progress.pending {
                Pending::Nothing => None,
                Pending::Success => Some(Ok(())),
                Pending::Failure => Some(Err(self.failure@)),
            },
            replaced: self.progress.replaced,
        }
    }
}

/// The name of the program's binary on a platform with this executable suffix.
pub open spec fn binary_name_text(exe_suffix: Seq<char>) -> Seq<char> {
    "mdx"@ + exe_suffix
}

/// The message for a copy to the binary's directory refused for want of permission.
pub open spec fn permission_message(platform: Platform, dir: Seq<char>) -> Seq<char> {
    match platform {
        Platform::Unix => "Permission denied writing to "@ + dir + ". Try: sudo mdx update"@,
        Platform::Windows => "Permission denied writing to "@ + dir
            + ". Try running as Administrator"@,
        Platform::Other => "Permission denied writing to "@ + dir,
    }
}

/// Which reports each step accepts.
pub open spec fn awaits(phase: Phase, e: EventView) -> bool {
    match phase {
        Phase::AnnouncingCheck | Phase::ReportingUpToDate | Phase::AnnouncingNew
        | Phase::AnnouncingDownload | Phase::ReportingUpdated => e is Done,
        Phase::ReadingRelease => e is Text || e is Failed,
        Phase::Extracting | Phase::VerifyingBinary => e is Status || e is Failed,
        Phase::CheckingBinary => e is Exists,
        Phase::Locating => e is Located || e is Failed,
        Phase::Staging => e is Done || e is PermissionDenied || e is Failed,
        Phase::Finished => false,
        _ => e is Done || e is Failed,
    }
}

/// The updater moved to `phase`, with action `a`.
pub open spec fn go(s: UpdaterView, phase: Phase, a: ActionView) -> (UpdaterView, ActionView) {
    (UpdaterView { phase, ..s }, a)
}

/// The update stops with `result`.
pub open spec fn finish(s: UpdaterView, result: Result<(), Seq<char>>) -> (
    UpdaterView,
    ActionView,
) {
    go(s, Phase::Finished, ActionView::Finish { result })
}

/// The temporary directory is removed; `result` is reported after that.
pub open spec fn clean_up(s: UpdaterView, result: Result<(), Seq<char>>) -> (
    UpdaterView,
    ActionView,
) {
    (UpdaterView { phase: Phase::RemovingTempDir, outcome: Some(result), ..s }, ActionView::RemoveTempDir)
}

/// The message of a failure report, and the empty text for any other.
pub open spec fn failure_text(e: EventView) -> Seq<char> {
    match e {
        EventView::Failed(m) => m,
        _ => Seq::empty(),
    }
}

/// The state and action at the start of an update.
pub open spec fn initial(
    platform: Platform,
    current: Seq<char>,
    os: Seq<char>,
    arch: Seq<char>,
    musl: bool,
    pid: u32,
    exe_suffix: Seq<char>,
) -> (UpdaterView, ActionView) {
    (
        UpdaterView {
            phase: Phase::AnnouncingCheck,
            platform,
            current,
            os,
            arch,
            musl,
            pid,
            exe_suffix,
            tag: Seq::empty(),
            latest: Seq::empty(),
            url: Seq::empty(),
            exe_dir: Seq::empty(),
            outcome: None,
            replaced: false,
        },
        ActionView::Say { to_stderr: true, text: "  Checking for updates..."@ },
    )
}

/// The next state and action, from the state `s` and the report `e` on the
/// action that `s` awaits.
pub open spec fn next(s: UpdaterView, e: EventView) -> (UpdaterView, ActionView) {
    match s.phase {
        Phase::AnnouncingCheck => go(
            s,
            Phase::FetchingRelease,
            ActionView::HttpGet { url: API_URL@ },
        ),
        Phase::FetchingRelease => match e {
            EventView::Failed(m) => finish(s, Err("Failed to check for updates: "@ + m)),
            _ => go(s, Phase::ReadingRelease, ActionView::ReadBody),
        },
        Phase::ReadingRelease => match e {
            EventView::Text(body) => match extracted(body, "tag_name"@) {
                None => finish(s, Err("Could not parse latest version from GitHub API response"@)),
                Some(tag) => {
                    let latest = without_v(tag);
                    let s2 = UpdaterView { tag, latest, ..s };
                    if latest == s.current {
                        go(
                            s2,
                            Phase::ReportingUpToDate,
                            ActionView::Say {
                                to_stderr: false,
                                text: "  Already on the latest version (v"@ + s.current + ")"@,
                            },
                        )
                    } else {
                        go(
                            s2,
                            Phase::AnnouncingNew,
                            ActionView::Say {
                                to_stderr: false,
                                text: "  New version available: v"@ + s.current + " \u{2192} v"@
                                    + latest,
                            },
                        )
                    }
                },
            },
            _ => finish(s, Err("Failed to read response: "@ + failure_text(e))),
        },
        Phase::ReportingUpToDate => finish(s, Ok(())),
        Phase::AnnouncingNew => match target_for(s.os, s.arch, s.musl) {
            None => finish(s, Err(unsupported_platform_message(s.os, s.arch))),
            Some(target) => go(
                UpdaterView { url: release_url_text(s.tag, target), ..s },
                Phase::CreatingTempDir,
                ActionView::CreateTempDir { name: "mdx-update-"@ + decimal(s.pid as nat) },
            ),
        },
        Phase::CreatingTempDir => match e {
            EventView::Failed(m) => finish(s, Err(m)),
            _ => go(
                s,
                Phase::AnnouncingDownload,
                ActionView::Say { to_stderr: true, text: "  Downloading "@ + s.tag + "..."@ },
            ),
        },
        Phase::AnnouncingDownload => go(s, Phase::Downloading, ActionView::HttpGet { url: s.url }),
        Phase::Downloading => match e {
            EventView::Failed(m) => clean_up(s, Err("Failed to download release: "@ + m)),
            _ => go(s, Phase::Saving, ActionView::SaveDownload),
        },
        Phase::Saving => match e {
            EventView::Failed(m) => clean_up(s, Err(m)),
            _ => go(s, Phase::Extracting, ActionView::ExtractArchive),
        },
        Phase::Extracting => match e {
            EventView::Status(true) => go(s, Phase::CheckingBinary, ActionView::CheckNewBinary),
            EventView::Status(false) => clean_up(s, Err("Failed to extract update archive"@)),
            _ => clean_up(s, Err("Failed to run tar: "@ + failure_text(e))),
        },
        Phase::CheckingBinary => match e {
            EventView::Exists(false) => clean_up(
                s,
                Err(
                    "Downloaded archive does not contain '"@ + binary_name_text(s.exe_suffix)
                        + "' binary"@,
                ),
            ),
            _ => go(s, Phase::VerifyingBinary, ActionView::RunVersionCheck),
        },
        Phase::VerifyingBinary => match e {
            EventView::Status(true) => go(s, Phase::Locating, ActionView::LocateRunningBinary),
            EventView::Status(false) => clean_up(
                s,
                Err("Downloaded binary is invalid (--version check failed)"@),
            ),
            _ => clean_up(s, Err("Failed to verify downloaded binary: "@ + failure_text(e))),
        },
        Phase::Locating => match e {
            EventView::Located(Some(dir)) => go(
                UpdaterView { exe_dir: dir, ..s },
                Phase::Staging,
                ActionView::StageCopy,
            ),
            EventView::Located(None) => clean_up(s, Err("Could not determine binary directory"@)),
            _ => clean_up(s, Err(failure_text(e))),
        },
        Phase::Staging => match e {
            EventView::PermissionDenied => clean_up(
                s,
                Err(permission_message(s.platform, s.exe_dir)),
            ),
            EventView::Failed(m) => clean_up(s, Err("Failed to stage update: "@ + m)),
            _ => match s.platform {
                Platform::Unix => go(s, Phase::SettingPermissions, ActionView::MakeExecutable),
                Platform::Windows => go(
                    s,
                    Phase::ClearingOld,
                    ActionView::RemoveFile { file: FileRole::OldBinary },
                ),
                Platform::Other => clean_up(UpdaterView { replaced: true, ..s }, Ok(())),
            },
        },
        Phase::SettingPermissions => match e {
            EventView::Failed(m) => clean_up(s, Err(m)),
            _ => go(
                s,
                Phase::Replacing,
                ActionView::Rename { from: FileRole::Staging, to: FileRole::RunningBinary },
            ),
        },
        Phase::Replacing => match e {
            EventView::Failed(m) => (
                UpdaterView {
                    phase: Phase::RemovingStaging,
                    outcome: Some(Err("Failed to replace binary: "@ + m)),
                    ..s
                },
                ActionView::RemoveFile { file: FileRole::Staging },
            ),
            _ => clean_up(UpdaterView { replaced: true, ..s }, Ok(())),
        },
        Phase::ClearingOld => go(
            s,
            Phase::MovingAside,
            ActionView::Rename { from: FileRole::RunningBinary, to: FileRole::OldBinary },
        ),
        Phase::MovingAside => match e {
            EventView::Failed(m) => (
                UpdaterView {
                    phase: Phase::RemovingStaging,
                    outcome: Some(Err("Failed to rename running binary: "@ + m)),
                    ..s
                },
                ActionView::RemoveFile { file: FileRole::Staging },
            ),
            _ => go(
                s,
                Phase::MovingIn,
                ActionView::Rename { from: FileRole::Staging, to: FileRole::RunningBinary },
            ),
        },
        Phase::MovingIn => match e {
            EventView::Failed(m) => (
                UpdaterView {
                    phase: Phase::RestoringOld,
                    outcome: Some(Err("Failed to install new binary: "@ + m)),
                    ..s
                },
                ActionView::Rename { from: FileRole::OldBinary, to: FileRole::RunningBinary },
            ),
            _ => go(
                UpdaterView { replaced: true, ..s },
                Phase::RemovingOld,
                ActionView::RemoveFile { file: FileRole::OldBinary },
            ),
        },
        Phase::RemovingOld => clean_up(s, Ok(())),
        Phase::RestoringOld | Phase::RemovingStaging => (
            UpdaterView { phase: Phase::RemovingTempDir, ..s },
            ActionView::RemoveTempDir,
        ),
        Phase::RemovingTempDir => match s.outcome {
            Some(Err(m)) => finish(s, Err(m)),
            _ => go(
                s,
                Phase::ReportingUpdated,
                ActionView::Say {
                    to_stderr: false,
                    text: "  Updated mdx: v"@ + s.current + " \u{2192} v"@ + s.latest,
                },
            ),
        },
        Phase::ReportingUpdated => finish(s, Ok(())),
        Phase::Finished => (s, ActionView::Finish { result: Ok(()) }),
    }
}

/// The view of a result that carries a message on failure.
pub open spec fn result_view(r: Result<(), String>) -> Result<(), Seq<char>> {
    match r {
        Ok(()) => Ok(()),
        Err(m) => Err(m@),
    }
}

/// The number of steps that can still follow a phase, at most.
pub open spec fn rank(phase: Phase) -> nat {
    match phase {
        Phase::AnnouncingCheck => 30,
        Phase::FetchingRelease => 29,
        Phase::ReadingRelease => 28,
        Phase::ReportingUpToDate => 27,
        Phase::AnnouncingNew => 26,
        Phase::CreatingTempDir => 25,
        Phase::AnnouncingDownload => 24,
        Phase::Downloading => 23,
        Phase::Saving => 22,
        Phase::Extracting => 21,
        Phase::CheckingBinary => 20,
        Phase::VerifyingBinary => 19,
        Phase::Locating => 18,
        Phase::Staging => 17,
        Phase::SettingPermissions => 16,
        Phase::Replacing => 15,
        Phase::ClearingOld => 14,
        Phase::MovingAside => 13,
        Phase::MovingIn => 12,
        Phase::RemovingOld => 11,
        Phase::RestoringOld => 10,
        Phase::RemovingStaging => 9,
        Phase::RemovingTempDir => 8,
        Phase::ReportingUpdated => 7,
        Phase::Finished => 0,
    }
}

/// The temporary directory exists and its removal has not been asked for yet.
pub open spec fn temp_dir_live(phase: Phase) -> bool {
    match phase {
        Phase::AnnouncingCheck | Phase::FetchingRelease | Phase::ReadingRelease
        | Phase::ReportingUpToDate | Phase::AnnouncingNew | Phase::CreatingTempDir
        | Phase::RemovingTempDir | Phase::ReportingUpdated | Phase::Finished => false,
        _ => true,
    }
}

/// What the update reports as a success it has earned: a pending success
/// and the final report of an update both need the new binary in place, and
/// the binary counts as in place only once the phases after the last
/// replacement step are reached. The replacement phases are those of the
/// platform the update runs on.
pub open spec fn honest(s: UpdaterView) -> bool {
    &&& (s.outcome matches Some(r) && r is Ok) ==> s.replaced
    &&& s.phase == Phase::ReportingUpdated ==> s.replaced
    &&& s.phase == Phase::RemovingOld ==> s.replaced
    &&& (s.phase == Phase::RemovingTempDir || s.phase == Phase::RestoringOld || s.phase
        == Phase::RemovingStaging) ==> s.outcome is Some
    &&& (s.phase == Phase::SettingPermissions || s.phase == Phase::Replacing) ==> s.platform
        == Platform::Unix
    &&& (s.phase == Phase::ClearingOld || s.phase == Phase::MovingAside || s.phase
        == Phase::MovingIn || s.phase == Phase::RemovingOld || s.phase == Phase::RestoringOld)
        ==> s.platform == Platform::Windows
    &&& s.replaced ==> (s.phase == Phase::RemovingOld || s.phase == Phase::RemovingTempDir
        || s.phase == Phase::ReportingUpdated || s.phase == Phase::Finished)
    &&& s.replaced ==> !(s.outcome matches Some(r) && r is Err)
    &&& s.outcome is Some ==> (s.phase == Phase::RemovingTempDir || s.phase == Phase::RestoringOld
        || s.phase == Phase::RemovingStaging || s.phase == Phase::ReportingUpdated || s.phase
        == Phase::Finished)
}

/// Whether a newer release exists is decided by the release's tag alone:
/// when the release description gives a tag, the update reports "already on
/// the latest version" exactly when the tag, without a leading `v`, equals the
/// running version character for character; any other tag (a patch release,
/// a pre-release, another spelling) is announced as a new version, and the
/// update goes on with that tag.
pub proof fn lemma_newer_release_decision(s: UpdaterView, body: Seq<char>)
    requires
        s.phase == Phase::ReadingRelease,
        extracted(body, "tag_name"@) is Some,
    ensures
        ({
            let tag = extracted(body, "tag_name"@)->0;
            let (s2, a) = next(s, EventView::Text(body));
            &&& s2.tag == tag
            &&& s2.latest == without_v(tag)
            &&& (s2.phase == Phase::ReportingUpToDate) == (without_v(tag) == s.current)
            &&& (s2.phase == Phase::AnnouncingNew) == (without_v(tag) != s.current)
            &&& a is Say
            &&& without_v(tag) == s.current ==> next(s2, EventView::Done).1 == (ActionView::Finish {
                result: Ok(()),
            })
        }),
{
}

/// A tag made of `v` and a version stands for that version, and a tag
/// without a leading `v` stands for itself.
pub proof fn lemma_without_v(version: Seq<char>)
    ensures
        without_v(seq!['v'] + version) == version,
        version.len() == 0 || version[0] != 'v' ==> without_v(version) == version,
{
    assert((seq!['v'] + version).drop_first() =~= version);
}

/// The steps whose outcome does not matter (removing a leftover old binary,
/// the staging copy, the moved-aside binary or the temporary directory, and
/// moving the old binary back) accept a failure as well as a success, and
/// what follows does not depend on which it was.
pub proof fn lemma_best_effort_steps(s: UpdaterView, m: Seq<char>)
    requires
        s.phase == Phase::ClearingOld || s.phase == Phase::RemovingOld || s.phase
            == Phase::RemovingStaging || s.phase == Phase::RestoringOld || s.phase
            == Phase::RemovingTempDir,
    ensures
        awaits(s.phase, EventView::Failed(m)),
        awaits(s.phase, EventView::Done),
        next(s, EventView::Failed(m)) == next(s, EventView::Done),
{
}

/// Once the new binary is in place, the update succeeds whatever the later
/// best-effort steps report: it stays in place, no failure becomes pending,
/// and when the update stops it stops with `Ok(())`. From the removal of the
/// moved-aside binary, success is pending whatever that removal reported.
pub proof fn lemma_replaced_update_succeeds(s: UpdaterView, e: EventView)
    requires
        honest(s),
        s.replaced,
        awaits(s.phase, e),
    ensures
        next(s, e).0.replaced,
        !(next(s, e).0.outcome matches Some(r) && r is Err),
        next(s, e).1 is Finish ==> next(s, e).1 == (ActionView::Finish { result: Ok(()) }),
        s.phase == Phase::RemovingOld ==> next(s, e).0.outcome == Some(Ok::<(), Seq<char>>(()))
            && next(s, e).1 == ActionView::RemoveTempDir,
{
}

/// The release archive is the one for the platform the update was started
/// for, the musl flag included: after the new version is announced, a
/// supported platform gets the download address of `target_for` of its own
/// operating system, architecture and musl flag, and an unsupported one stops
/// with the message that names it.
pub proof fn lemma_archive_for_platform(s: UpdaterView)
    requires
        s.phase == Phase::AnnouncingNew,
    ensures
        target_for(s.os, s.arch, s.musl) matches Some(t) ==> next(s, EventView::Done).0.url
            == release_url_text(s.tag, t) && next(s, EventView::Done).0.phase
            == Phase::CreatingTempDir,
        target_for(s.os, s.arch, s.musl) is None ==> next(s, EventView::Done).1 == (ActionView::Finish {
            result: Err(unsupported_platform_message(s.os, s.arch)),
        }),
        s.os == "linux"@ && s.arch == "x86_64"@ ==> next(s, EventView::Done).0.url
            == release_url_text(
            s.tag,
            if s.musl {
                "x86_64-unknown-linux-musl"@
            } else {
                "x86_64-unknown-linux-gnu"@
            },
        ),
        s.os == "linux"@ && s.arch == "aarch64"@ ==> next(s, EventView::Done).0.url
            == release_url_text(
            s.tag,
            if s.musl {
                "aarch64-unknown-linux-musl"@
            } else {
                "aarch64-unknown-linux-gnu"@
            },
        ),
{
    reveal_strlit("linux");
    reveal_strlit("macos");
    reveal_strlit("x86_64");
    reveal_strlit("aarch64");
    assert("linux"@[0] != "macos"@[0]);
}

/// Every step moves to a phase of lower rank, so an update stops after at
/// most 30 steps; the action is `Finish` exactly when the update stops.
pub proof fn lemma_step_progress(s: UpdaterView, e: EventView)
    requires
        awaits(s.phase, e),
    ensures
        rank(next(s, e).0.phase) < rank(s.phase),
        next(s, e).1 is Finish <==> next(s, e).0.phase == Phase::Finished,
{
}

/// Once the temporary directory has been created, the update does not stop
/// before it has asked for its removal: from a phase in which it is live,
/// the next phase keeps it live or the action removes it.
pub proof fn lemma_temp_dir_removed_before_finish(s: UpdaterView, e: EventView)
    requires
        awaits(s.phase, e),
    ensures
        temp_dir_live(s.phase) ==> temp_dir_live(next(s, e).0.phase) || next(s, e).1
            == ActionView::RemoveTempDir,
        next(s, e).1 is Finish ==> !temp_dir_live(s.phase),
        s.phase == Phase::CreatingTempDir && e is Done ==> temp_dir_live(next(s, e).0.phase),
{
}

/// On Windows, when moving the new binary into place fails, the running
/// binary that was moved aside is moved back; then, however that goes, the
/// temporary directory is removed and the failure is reported.
pub proof fn lemma_windows_rollback(s: UpdaterView, m: Seq<char>, e2: EventView)
    requires
        s.phase == Phase::MovingIn,
        awaits(Phase::RestoringOld, e2),
    ensures
        next(s, EventView::Failed(m)).1 == (ActionView::Rename {
            from: FileRole::OldBinary,
            to: FileRole::RunningBinary,
        }),
        next(next(s, EventView::Failed(m)).0, e2).1 == ActionView::RemoveTempDir,
        next(next(s, EventView::Failed(m)).0, e2).0.outcome == Some(
            Err::<(), Seq<char>>("Failed to install new binary: "@ + m),
        ),
{
}

/// When the running binary cannot be replaced (Unix) or moved aside
/// (Windows), the staging copy is removed before the failure is reported.
pub proof fn lemma_staging_removed_on_failure(s: UpdaterView, m: Seq<char>)
    requires
        s.phase == Phase::Replacing || s.phase == Phase::MovingAside,
    ensures
        next(s, EventView::Failed(m)).1 == (ActionView::RemoveFile { file: FileRole::Staging }),
        next(s, EventView::Failed(m)).0.outcome is Some,
        next(s, EventView::Failed(m)).0.outcome->0 is Err,
{
}

/// Success is only reported when it is due: the start is `honest`, every
/// step keeps it so, the binary counts as in place only after this
/// platform's last replacement step reported success, and a `Finish` with
/// success comes only after "already on the latest version" or after the
/// binary was put in place.
pub proof fn lemma_success_is_honest(s: UpdaterView, e: EventView)
    requires
        honest(s),
        awaits(s.phase, e),
    ensures
        honest(next(s, e).0),
        !s.replaced && next(s, e).0.replaced ==> e is Done && (s.platform == Platform::Unix
            && s.phase == Phase::Replacing || s.platform == Platform::Windows && s.phase
            == Phase::MovingIn || s.platform == Platform::Other && s.phase == Phase::Staging),
        next(s, e).1 == (ActionView::Finish { result: Ok(()) }) ==> s.phase
            == Phase::ReportingUpToDate || s.replaced,
{
}

/// The action changes something next to the running binary.
pub open spec fn touches_installation(a: ActionView) -> bool {
    a is StageCopy || a is MakeExecutable || a is Rename || a is RemoveFile
}

/// Nothing next to the running binary is touched before the downloaded
/// binary has passed its `--version` check: the phases from `Locating` to
/// `RemovingStaging` (ranks 9 to 18) are entered from an earlier phase only
/// on that check's success, and only from them are such actions issued.
pub proof fn lemma_verified_before_installing(s: UpdaterView, e: EventView)
    requires
        awaits(s.phase, e),
    ensures
        rank(s.phase) > 18 && 9 <= rank(next(s, e).0.phase) <= 18 ==> s.phase
            == Phase::VerifyingBinary && e == EventView::Status(true),
        touches_installation(next(s, e).1) ==> 9 <= rank(next(s, e).0.phase) <= 18 && 9 <= rank(
            s.phase,
        ) <= 18,
{
}

/// The action changes the running binary's path.
pub open spec fn touches_running_binary(a: ActionView) -> bool {
    match a {
        ActionView::Rename { from, to } => from == FileRole::RunningBinary || to
            == FileRole::RunningBinary,
        ActionView::RemoveFile { file } => file == FileRole::RunningBinary,
        _ => false,
    }
}

/// On Unix the running binary's path is changed by one action only: the
/// rename of the staging copy onto it, issued once (from the phase that sets
/// the staging copy's permissions, after which phases of lower rank follow).
/// The running binary is never removed, on any platform.
pub proof fn lemma_unix_single_rename(s: UpdaterView, e: EventView)
    requires
        honest(s),
        awaits(s.phase, e),
    ensures
        s.platform == Platform::Unix && touches_running_binary(next(s, e).1) ==> next(s, e).1
            == (ActionView::Rename { from: FileRole::Staging, to: FileRole::RunningBinary })
            && s.phase == Phase::SettingPermissions && next(s, e).0.phase == Phase::Replacing,
        next(s, e).1 != (ActionView::RemoveFile { file: FileRole::RunningBinary }),
{
}

/// An update starts `honest`, with nothing in place yet.
pub proof fn lemma_initial_honest(
    platform: Platform,
    current: Seq<char>,
    os: Seq<char>,
    arch: Seq<char>,
    musl: bool,
    pid: u32,
    exe_suffix: Seq<char>,
)
    ensures
        honest(initial(platform, current, os, arch, musl, pid, exe_suffix).0),
        !initial(platform, current, os, arch, musl, pid, exe_suffix).0.replaced,
{
}

/// The name of the program's binary on a platform with this executable suffix.
pub fn binary_name(exe_suffix: &str) -> (r: String)
    ensures
        r@ == binary_name_text(exe_suffix@),
{
    concat2("mdx", exe_suffix)
}

/// The name of the staging copy of the new binary, next to the running one.
pub fn staging_name(exe_suffix: &str) -> (r: String)
    ensures
        r@ == "mdx.update.tmp"@ + exe_suffix@,
{
    concat2("mdx.update.tmp", exe_suffix)
}

/// The name under which the running binary is moved aside on Windows.
pub fn old_binary_name() -> (r: &'static str)
    ensures
        r@ == "mdx.old.exe"@,
{
    "mdx.old.exe"
}

/// The name of the downloaded archive inside the temporary directory.
pub fn archive_name() -> (r: &'static str)
    ensures
        r@ == "mdx.tar.gz"@,
{
    "mdx.tar.gz"
}

fn failure_message(e: &Event) -> (r: String)
    ensures
        r@ == failure_text(e@),
{
    match e {
        Event::Failed(m) => m.clone(),
        _ => String::new(),
    }
}

impl Updater {
    /// Every updater is `honest`.
    #[verifier::type_invariant]
    spec fn honest_state(self) -> bool {
        honest(self@)
    }

    /// Starts an update of the binary of version `current`, built for
    /// `platform`, `os` and `arch` (as `std::env::consts` name them), against
    /// musl or not, running as process `pid`, with executables named with
    /// `exe_suffix`. The first action announces the check for updates.
    pub fn start(
        platform: Platform,
        current: &str,
        os: &str,
        arch: &str,
        musl: bool,
        pid: u32,
        exe_suffix: &str,
    ) -> (r: (Updater, Action))
        ensures
            (r.0@, r.1@) == initial(platform, current@, os@, arch@, musl, pid, exe_suffix@),
            honest(r.0@),
    {
        proof {
            lemma_initial_honest(platform, current@, os@, arch@, musl, pid, exe_suffix@);
        }
        let u = Updater {
            progress: Progress { phase: Phase::AnnouncingCheck, pending: Pending::Nothing, replaced: false },
            platform,
            current: String::from_str(current),
            os: String::from_str(os),
            arch: String::from_str(arch),
            musl,
            pid,
            exe_suffix: String::from_str(exe_suffix),
            tag: String::new(),
            latest: String::new(),
            url: String::new(),
            exe_dir: String::new(),
            failure: String::new(),
        };
        (u, Action::Say { to_stderr: true, text: String::from_str("  Checking for updates...") })
    }

    /// Whether the step in progress accepts the report `e`.
    pub fn awaits_event(&self, e: &Event) -> (r: bool)
        ensures
            r == awaits(self@.phase, e@),
    {
        match self.progress.phase {
            Phase::AnnouncingCheck | Phase::ReportingUpToDate | Phase::AnnouncingNew
            | Phase::AnnouncingDownload | Phase::ReportingUpdated => matches!(e, Event::Done),
            Phase::ReadingRelease => matches!(e, Event::Text(_)) || matches!(e, Event::Failed(_)),
            Phase::Extracting | Phase::VerifyingBinary => matches!(e, Event::Status(_)) || matches!(e, Event::Failed(_)),
            Phase::CheckingBinary => matches!(e, Event::Exists(_)),
            Phase::Locating => matches!(e, Event::Located(_)) || matches!(e, Event::Failed(_)),
            Phase::Staging => matches!(e, Event::Done) || matches!(e, Event::PermissionDenied)
                || matches!(e, Event::Failed(_)),
            Phase::Finished => false,
            _ => matches!(e, Event::Done) || matches!(e, Event::Failed(_)),
        }
    }

    /// Whether the update has stopped.
    pub fn is_finished(&self) -> (r: bool)
        ensures
            r == (self@.phase == Phase::Finished),
    {
        matches!(self.progress.phase, Phase::Finished)
    }

    fn finish_with(&mut self, result: Result<(), String>) -> (a: Action)
        ensures
            (final(self)@, a@) == finish(old(self)@, result_view(result)),
    {
        proof {
            use_type_invariant(&*self);
        }
        self.progress = Progress { phase: Phase::Finished, ..self.progress };
        Action::Finish { result }
    }

    fn clean_up_with(&mut self, result: Result<(), String>) -> (a: Action)
        requires
            result is Err ==> !old(self)@.replaced && old(self)@.outcome is None,
        ensures
            (final(self)@, a@) == clean_up(
                (UpdaterView { replaced: old(self)@.replaced || result is Ok, ..old(self)@ }),
                result_view(result),
            ),
    {
        proof {
            use_type_invariant(&*self);
        }
        match result {
            Ok(()) => {
                self.progress = Progress {
                    phase: Phase::RemovingTempDir,
                    pending: Pending::Success,
                    replaced: true,
                };
            },
            Err(m) => {
                self.failure = m;
                self.progress = Progress {
                    phase: Phase::RemovingTempDir,
                    pending: Pending::Failure,
                    ..self.progress
                };
            },
        }
        Action::RemoveTempDir
    }

    fn fail_and_then(&mut self, phase: Phase, message: String)
        requires
            phase == Phase::RemovingStaging || phase == Phase::RestoringOld,
            phase == Phase::RestoringOld ==> old(self)@.platform == Platform::Windows,
            !old(self)@.replaced,
        ensures
            final(self)@ == (UpdaterView {
                phase,
                outcome: Some(Err::<(), Seq<char>>(message@)),
                ..old(self)@
            }),
    {
        proof {
            use_type_invariant(&*self);
        }
        self.failure = message;
        self.progress = Progress { phase, pending: Pending::Failure, ..self.progress };
    }

    /// Takes the report `e` on the action in progress and gives the next action.
    /// Every updater is `honest`; so, on Unix, the only action that changes
    /// the running binary's path is the one rename of the staging copy onto it.
    pub fn step(&mut self, e: Event) -> (a: Action)
        requires
            awaits(old(self)@.phase, e@),
        ensures
            (final(self)@, a@) == next(old(self)@, e@),
            honest(old(self)@),
            honest(final(self)@),
            old(self)@.platform == Platform::Unix && touches_running_binary(a@) ==> a@
                == (ActionView::Rename { from: FileRole::Staging, to: FileRole::RunningBinary })
                && old(self)@.phase == Phase::SettingPermissions,
    {
        proof {
            use_type_invariant(&*self);
            lemma_success_is_honest(self@, e@);
            lemma_unix_single_rename(self@, e@);
        }
        let fail_text = failure_message(&e);
        match self.progress.phase {
            Phase::AnnouncingCheck => {
                self.progress = Progress { phase: Phase::FetchingRelease, ..self.progress };
                Action::HttpGet { url: String::from_str(API_URL) }
            },
            Phase::FetchingRelease => match e {
                Event::Failed(m) => self.finish_with(Err(concat2("Failed to check for updates: ", m.as_str()))),
                _ => {
                    self.progress = Progress { phase: Phase::ReadingRelease, ..self.progress };
                    Action::ReadBody
                },
            },
            Phase::ReadingRelease => match e {
                Event::Text(body) => match extract_json_string(body.as_str(), "tag_name") {
                    None => self.finish_with(
                        Err(String::from_str("Could not parse latest version from GitHub API response")),
                    ),
                    Some(tag) => {
                        let latest = strip_v(tag.as_str());
                        let up_to_date = crate::text::str_eq(latest.as_str(), self.current.as_str());
                        self.tag = tag;
                        self.latest = latest;
                        if up_to_date {
                            self.progress = Progress { phase: Phase::ReportingUpToDate, ..self.progress };
                            Action::Say {
                                to_stderr: false,
                                text: concat3("  Already on the latest version (v", self.current.as_str(), ")"),
                            }
                        } else {
                            self.progress = Progress { phase: Phase::AnnouncingNew, ..self.progress };
                            Action::Say {
                                to_stderr: false,
                                text: concat4(
                                    "  New version available: v",
                                    self.current.as_str(),
                                    " \u{2192} v",
                                    self.latest.as_str(),
                                ),
                            }
                        }
                    },
                },
                _ => self.finish_with(Err(concat2("Failed to read response: ", fail_text.as_str()))),
            },
            Phase::ReportingUpToDate => self.finish_with(Ok(())),
            Phase::AnnouncingNew => match detect_target(self.os.as_str(), self.arch.as_str(), self.musl) {
                Err(msg) => self.finish_with(Err(msg)),
                Ok(target) => {
                    self.url = release_url(self.tag.as_str(), target);
                    self.progress = Progress { phase: Phase::CreatingTempDir, ..self.progress };
                    Action::CreateTempDir { name: temp_dir_name(self.pid) }
                },
            },
            Phase::CreatingTempDir => match e {
                Event::Failed(m) => self.finish_with(Err(m)),
                _ => {
                    self.progress = Progress { phase: Phase::AnnouncingDownload, ..self.progress };
                    Action::Say {
                        to_stderr: true,
                        text: concat3("  Downloading ", self.tag.as_str(), "..."),
                    }
                },
            },
            Phase::AnnouncingDownload => {
                self.progress = Progress { phase: Phase::Downloading, ..self.progress };
                Action::HttpGet { url: self.url.clone() }
            },
            Phase::Downloading => match e {
                Event::Failed(m) => self.clean_up_with(Err(concat2("Failed to download release: ", m.as_str()))),
                _ => {
                    self.progress = Progress { phase: Phase::Saving, ..self.progress };
                    Action::SaveDownload
                },
            },
            Phase::Saving => match e {
                Event::Failed(m) => self.clean_up_with(Err(m)),
                _ => {
                    self.progress = Progress { phase: Phase::Extracting, ..self.progress };
                    Action::ExtractArchive
                },
            },
            Phase::Extracting => match e {
                Event::Status(true) => {
                    self.progress = Progress { phase: Phase::CheckingBinary, ..self.progress };
                    Action::CheckNewBinary
                },
                Event::Status(false) => self.clean_up_with(Err(String::from_str("Failed to extract update archive"))),
                _ => self.clean_up_with(Err(concat2("Failed to run tar: ", fail_text.as_str()))),
            },
            Phase::CheckingBinary => match e {
                Event::Exists(false) => {
                    let name = binary_name(self.exe_suffix.as_str());
                    self.clean_up_with(Err(concat3("Downloaded archive does not contain '", name.as_str(), "' binary")))
                },
                _ => {
                    self.progress = Progress { phase: Phase::VerifyingBinary, ..self.progress };
                    Action::RunVersionCheck
                },
            },
            Phase::VerifyingBinary => match e {
                Event::Status(true) => {
                    self.progress = Progress { phase: Phase::Locating, ..self.progress };
                    Action::LocateRunningBinary
                },
                Event::Status(false) => self.clean_up_with(
                    Err(String::from_str("Downloaded binary is invalid (--version check failed)")),
                ),
                _ => self.clean_up_with(Err(concat2("Failed to verify downloaded binary: ", fail_text.as_str()))),
            },
            Phase::Locating => match e {
                Event::Located(Some(dir)) => {
                    self.exe_dir = dir;
                    self.progress = Progress { phase: Phase::Staging, ..self.progress };
                    Action::StageCopy
                },
                Event::Located(None) => self.clean_up_with(Err(String::from_str("Could not determine binary directory"))),
                _ => self.clean_up_with(Err(fail_text)),
            },
            Phase::Staging => match e {
                Event::PermissionDenied => {
                    let msg = match self.platform {
                        Platform::Unix => concat3("Permission denied writing to ", self.exe_dir.as_str(), ". Try: sudo mdx update"),
                        Platform::Windows => concat3("Permission denied writing to ", self.exe_dir.as_str(), ". Try running as Administrator"),
                        Platform::Other => concat2("Permission denied writing to ", self.exe_dir.as_str()),
                    };
                    self.clean_up_with(Err(msg))
                },
                Event::Failed(m) => self.clean_up_with(Err(concat2("Failed to stage update: ", m.as_str()))),
                _ => match self.platform {
                    Platform::Unix => {
                        self.progress = Progress { phase: Phase::SettingPermissions, ..self.progress };
                        Action::MakeExecutable
                    },
                    Platform::Windows => {
                        self.progress = Progress { phase: Phase::ClearingOld, ..self.progress };
                        Action::RemoveFile { file: FileRole::OldBinary }
                    },
                    Platform::Other => self.clean_up_with(Ok(())),
                },
            },
            Phase::SettingPermissions => match e {
                Event::Failed(m) => self.clean_up_with(Err(m)),
                _ => {
                    self.progress = Progress { phase: Phase::Replacing, ..self.progress };
                    Action::Rename { from: FileRole::Staging, to: FileRole::RunningBinary }
                },
            },
            Phase::Replacing => match e {
                Event::Failed(m) => {
                    self.fail_and_then(Phase::RemovingStaging, concat2("Failed to replace binary: ", m.as_str()));
                    Action::RemoveFile { file: FileRole::Staging }
                },
                _ => self.clean_up_with(Ok(())),
            },
            Phase::ClearingOld => {
                self.progress = Progress { phase: Phase::MovingAside, ..self.progress };
                Action::Rename { from: FileRole::RunningBinary, to: FileRole::OldBinary }
            },
            Phase::MovingAside => match e {
                Event::Failed(m) => {
                    self.fail_and_then(Phase::RemovingStaging, concat2("Failed to rename running binary: ", m.as_str()));
                    Action::RemoveFile { file: FileRole::Staging }
                },
                _ => {
                    self.progress = Progress { phase: Phase::MovingIn, ..self.progress };
                    Action::Rename { from: FileRole::Staging, to: FileRole::RunningBinary }
                },
            },
            Phase::MovingIn => match e {
                Event::Failed(m) => {
                    self.fail_and_then(Phase::RestoringOld, concat2("Failed to install new binary: ", m.as_str()));
                    Action::Rename { from: FileRole::OldBinary, to: FileRole::RunningBinary }
                },
                _ => {
                    self.progress = Progress { phase: Phase::RemovingOld, replaced: true, ..self.progress };
                    Action::RemoveFile { file: FileRole::OldBinary }
                },
            },
            Phase::RemovingOld => self.clean_up_with(Ok(())),
            Phase::RestoringOld | Phase::RemovingStaging => {
                self.progress = Progress { phase: Phase::RemovingTempDir, ..self.progress };
                Action::RemoveTempDir
            },
            Phase::RemovingTempDir => {
                match self.progress.pending {
                    Pending::Failure => {
                        let m = self.failure.clone();
                        self.finish_with(Err(m))
                    },
                    _ => {
                        self.progress = Progress { phase: Phase::ReportingUpdated, ..self.progress };
                        Action::Say {
                            to_stderr: false,
                            text: concat4(
                                "  Updated mdx: v",
                                self.current.as_str(),
                                " \u{2192} v",
                                self.latest.as_str(),
                            ),
                        }
                    },
                }
            },
            Phase::ReportingUpdated => self.finish_with(Ok(())),
            Phase::Finished => Action::Finish { result: Ok(()) },
        }
    }
}

} // verus!
