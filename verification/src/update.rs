//! One update attempt: which archives it needs, the order of its steps, and what
//! each outcome of a step writes into the state store.
//!
//! The worker that downloads, checks and unpacks is outside this crate. It asks
//! [`UpdateAttempt::action`] what to do, does it, and reports back through
//! [`UpdateAttempt::advance`]. All archives are downloaded, then all are
//! checked, and only then is the first one unpacked: a broken download or a
//! corrupt archive ends the attempt before anything is written to storage. An
//! unpacking step that fails leaves behind what it had written; nothing is
//! rolled back.

use vstd::prelude::*;
use vstd::string::*;
use crate::app_state::{AppState, AppStateView};
use crate::progress::{progress_of, Progress};
use crate::release::{Release, ReleaseView};

verus! {

/// How much an update installs.
#[derive(Debug, Clone, Copy, PartialEq, Eq, Structural)]
pub enum UpdateMode {
    /// The primary package only.
    Quick,
    /// The primary package and the supplementary one.
    Full,
}

/// The phases of an attempt, in order.
#[derive(Debug, Clone, Copy, PartialEq, Eq, Structural)]
pub enum Stage {
    Download,
    Verify,
    Extract,
}

/// The catalog or the latest release could not be had, or lacks what is needed.
#[derive(Debug, Clone, Copy, PartialEq, Eq, Structural)]
pub enum FetchError {
    NetworkUnreachable,
    MalformedResponse,
    /// The release does not offer every package that the mode needs.
    IncompleteAssets,
}

/// A transfer broke off.
#[derive(Debug, Clone, Copy, PartialEq, Eq, Structural)]
pub enum DownloadError {
    ConnectionDropped,
    BadStatus,
}

/// A downloaded file is no well-formed archive.
#[derive(Debug, Clone, Copy, PartialEq, Eq, Structural)]
pub enum VerifyError {
    CorruptArchive,
}

/// Writing to the target storage failed.
#[derive(Debug, Clone, Copy, PartialEq, Eq, Structural)]
pub enum ExtractError {
    PermissionDenied,
    StorageFull,
    UnsupportedEntry,
}

/// Why an operation ended without success.
#[derive(Debug, Clone, Copy, PartialEq, Eq, Structural)]
pub enum UpdateError {
    Fetch(FetchError),
    Download(DownloadError),
    Verify(VerifyError),
    Extract(ExtractError),
}

/// What the worker reports after, or during, the step it was asked to do.
#[derive(Debug, Clone, Copy, PartialEq, Eq, Structural)]
pub enum StepEvent {
    /// Bytes seen so far, and the total once it is known.
    Progress { received: u64, total: Option<u64> },
    /// The step is done.
    Completed,
    /// The step failed; the attempt is over.
    Failed(UpdateError),
}

/// The step that the worker is to do next.
#[derive(Debug, PartialEq, Eq)]
pub struct UpdateAction {
    pub stage: Stage,
    /// Reference of the archive that the step is about.
    pub asset: String,
}

/// An attempt in flight.
#[derive(Debug)]
pub struct UpdateAttempt {
    assets: Vec<String>,
    stage: Stage,
    next: usize,
}

/// Mathematical value of an [`UpdateAttempt`].
pub struct UpdateAttemptView {
    /// The archives of the attempt, primary package first.
    pub assets: Seq<Seq<char>>,
    pub stage: Stage,
    /// Position in `assets` of the archive that the current step is about.
    pub next: nat,
}

impl UpdateAttemptView {
    pub open spec fn wf(self) -> bool {
        self.next < self.assets.len()
    }

    /// An attempt at its first step.
    pub open spec fn fresh(assets: Seq<Seq<char>>) -> UpdateAttemptView {
        UpdateAttemptView { assets, stage: Stage::Download, next: 0 }
    }
}

/// The text of each string of `v`, in order.
pub open spec fn strings_view(v: Seq<String>) -> Seq<Seq<char>> {
    v.map_values(|s: String| s@)
}

impl View for UpdateAttempt {
    type V = UpdateAttemptView;

    closed spec fn view(&self) -> UpdateAttemptView {
        UpdateAttemptView {
            assets: strings_view(self.assets@),
            stage: self.stage,
            next: self.next as nat,
        }
    }
}

/// The release that an update installs: the selected entry's once the warning
/// of an open selector has been accepted, the latest one otherwise.
pub open spec fn target_release(s: AppStateView) -> Option<ReleaseView> {
    if s.menu_open && s.confirmed {
        if s.index < s.catalog.len() {
            s.catalog[s.index as int].release
        } else {
            None
        }
    } else {
        s.nextui_release
    }
}

/// The archives that `mode` needs from `release`, or `None` where one is not offered.
pub open spec fn required_assets(release: ReleaseView, mode: UpdateMode) -> Option<
    Seq<Seq<char>>,
> {
    match mode {
        UpdateMode::Quick => match release.primary_asset {
            Some(primary) => Some(seq![primary]),
            None => None,
        },
        UpdateMode::Full => match (release.primary_asset, release.extras_asset) {
            (Some(primary), Some(extras)) => Some(seq![primary, extras]),
            _ => None,
        },
    }
}

/// The archives of an attempt started on `s`, or `None` where there is no
/// target release or it lacks a needed package.
pub open spec fn planned_assets(s: AppStateView, mode: UpdateMode) -> Option<Seq<Seq<char>>> {
    match target_release(s) {
        Some(release) => required_assets(release, mode),
        None => None,
    }
}

/// The label shown while a stage runs.
pub open spec fn stage_label(stage: Stage) -> Seq<char> {
    match stage {
        Stage::Download => "Downloading update..."@,
        Stage::Verify => "Verifying download..."@,
        Stage::Extract => "Extracting update..."@,
    }
}

/// The message shown for an error.
pub open spec fn message_of(error: UpdateError) -> Seq<char> {
    match error {
        UpdateError::Fetch(FetchError::NetworkUnreachable) => "Fetch failed: network unreachable"@,
        UpdateError::Fetch(FetchError::MalformedResponse) => "Fetch failed: malformed response"@,
        UpdateError::Fetch(FetchError::IncompleteAssets) => "Missing required package"@,
        UpdateError::Download(DownloadError::ConnectionDropped) => "Download failed: connection dropped"@,
        UpdateError::Download(DownloadError::BadStatus) => "Download failed: unexpected status"@,
        UpdateError::Verify(VerifyError::CorruptArchive) => "Verification failed: corrupt archive"@,
        UpdateError::Extract(ExtractError::PermissionDenied) => "Extraction failed: permission denied"@,
        UpdateError::Extract(ExtractError::StorageFull) => "Extraction failed: storage full"@,
        UpdateError::Extract(ExtractError::UnsupportedEntry) => "Extraction failed: unsupported entry"@,
    }
}

/// The store once an operation has started: its label shown, progress unknown,
/// the previous error gone.
pub open spec fn started(s: AppStateView, label: Seq<char>) -> AppStateView {
    AppStateView {
        current_operation: Some(label),
        progress: Some(Progress::Indeterminate),
        error: None,
        ..s
    }
}

/// The store once an operation has been given up: label and progress cleared,
/// the reason in `error`.
pub open spec fn aborted(s: AppStateView, error: UpdateError) -> AppStateView {
    AppStateView {
        current_operation: None,
        progress: None,
        error: Some(message_of(error)),
        ..s
    }
}

/// The store once an update has been installed: label and progress cleared, a
/// restart asked for, `error` as it was.
pub open spec fn completed(s: AppStateView) -> AppStateView {
    AppStateView { current_operation: None, progress: None, reboot_required: true, ..s }
}

/// The store after [`start_update`].
pub open spec fn after_start(s: AppStateView, mode: UpdateMode) -> AppStateView {
    if s.busy() {
        s
    } else if planned_assets(s, mode) is Some {
        started(s, stage_label(Stage::Download))
    } else {
        aborted(s, UpdateError::Fetch(FetchError::IncompleteAssets))
    }
}

/// The attempt that [`start_update`] hands out, if any.
pub open spec fn attempt_started(s: AppStateView, mode: UpdateMode) -> Option<UpdateAttemptView> {
    if s.busy() {
        None
    } else {
        match planned_assets(s, mode) {
            Some(assets) => Some(UpdateAttemptView::fresh(assets)),
            None => None,
        }
    }
}

/// The attempt after an event, or `None` where the event ends it.
pub open spec fn next_attempt(a: UpdateAttemptView, event: StepEvent) -> Option<
    UpdateAttemptView,
> {
    match event {
        StepEvent::Progress { .. } => Some(a),
        StepEvent::Failed(_) => None,
        StepEvent::Completed => if a.next + 1 < a.assets.len() {
            Some(UpdateAttemptView { next: a.next + 1, ..a })
        } else {
            match a.stage {
                Stage::Download => Some(UpdateAttemptView { stage: Stage::Verify, next: 0, ..a }),
                Stage::Verify => Some(UpdateAttemptView { stage: Stage::Extract, next: 0, ..a }),
                Stage::Extract => None,
            }
        },
    }
}

/// The store after an event of attempt `a`.
pub open spec fn after_event(s: AppStateView, a: UpdateAttemptView, event: StepEvent) -> AppStateView {
    match event {
        StepEvent::Progress { received, total } => AppStateView {
            progress: Some(progress_of(received, total)),
            ..s
        },
        StepEvent::Failed(error) => aborted(s, error),
        StepEvent::Completed => match next_attempt(a, event) {
            Some(n) => AppStateView {
                current_operation: Some(stage_label(n.stage)),
                progress: Some(Progress::Indeterminate),
                ..s
            },
            None => completed(s),
        },
    }
}

/// The message shown for `error`.
pub fn error_message(error: UpdateError) -> (r: String)
    ensures
        r@ == message_of(error),
{
    let text = match error {
        UpdateError::Fetch(FetchError::NetworkUnreachable) => "Fetch failed: network unreachable",
        UpdateError::Fetch(FetchError::MalformedResponse) => "Fetch failed: malformed response",
        UpdateError::Fetch(FetchError::IncompleteAssets) => "Missing required package",
        UpdateError::Download(DownloadError::ConnectionDropped) => "Download failed: connection dropped",
        UpdateError::Download(DownloadError::BadStatus) => "Download failed: unexpected status",
        UpdateError::Verify(VerifyError::CorruptArchive) => "Verification failed: corrupt archive",
        UpdateError::Extract(ExtractError::PermissionDenied) => "Extraction failed: permission denied",
        UpdateError::Extract(ExtractError::StorageFull) => "Extraction failed: storage full",
        UpdateError::Extract(ExtractError::UnsupportedEntry) => "Extraction failed: unsupported entry",
    };
    String::from_str(text)
}

/// The label shown while `stage` runs.
pub fn label_of_stage(stage: Stage) -> (r: String)
    ensures
        r@ == stage_label(stage),
{
    match stage {
        Stage::Download => String::from_str("Downloading update..."),
        Stage::Verify => String::from_str("Verifying download..."),
        Stage::Extract => String::from_str("Extracting update..."),
    }
}

/// The archives that `mode` needs from `release`, primary package first.
pub fn asset_set(release: &Release, mode: UpdateMode) -> (r: Option<Vec<String>>)
    ensures
        r is Some <==> required_assets(release@, mode) is Some,
        r matches Some(assets) ==> strings_view(assets@) == required_assets(release@, mode).unwrap(),
{
    match &release.primary_asset {
        None => None,
        Some(primary) => {
            let mut assets: Vec<String> = Vec::new();
            match mode {
                UpdateMode::Quick => {
                    assets.push(primary.clone());
                    Some(assets)
                },
                UpdateMode::Full => match &release.extras_asset {
                    None => None,
                    Some(extras) => {
                        assets.push(primary.clone());
                        assets.push(extras.clone());
                        Some(assets)
                    },
                },
            }
        },
    }
}

/// The release that an update started now would install; see [`target_release`].
pub fn resolve_target(app_state: &AppState) -> (r: Option<Release>)
    ensures
        crate::release::release_view(r) == target_release(app_state@),
{
    if app_state.release_selection_menu() && app_state.release_selection_confirmed() {
        let index = app_state.nextui_releases_and_tags_index();
        let catalog = app_state.nextui_releases_and_tags();
        if index < catalog.len() {
            catalog[index].release.clone()
        } else {
            None
        }
    } else {
        app_state.nextui_release()
    }
}

/// Starts an update attempt.
///
/// While an operation is in flight the call changes nothing and hands out no
/// attempt. Otherwise the previous error is cleared and the target release is
/// resolved. If it offers every package that `mode` needs, the attempt begins
/// with the download of the first; if not, or if no release is known, the call
/// ends at once with the error set and no attempt, so that no transfer starts.
pub fn start_update(app_state: &mut AppState, mode: UpdateMode) -> (r: Option<UpdateAttempt>)
    ensures
        final(app_state)@ == after_start(old(app_state)@, mode),
        match r {
            Some(attempt) => attempt_started(old(app_state)@, mode) == Some(attempt@)
                && attempt@.wf(),
            None => attempt_started(old(app_state)@, mode) is None,
        },
        old(app_state)@.busy() ==> r is None && final(app_state)@ == old(app_state)@,
        final(app_state)@.current_version == old(app_state)@.current_version,
{
    if app_state.update_in_progress() {
        return None;
    }
    app_state.set_current_operation(Some(label_of_stage(Stage::Download)));
    app_state.set_error(None);
    app_state.set_progress(Some(Progress::Indeterminate));
    let planned = match resolve_target(app_state) {
        Some(release) => asset_set(&release, mode),
        None => None,
    };
    match planned {
        Some(assets) => Some(UpdateAttempt { assets, stage: Stage::Download, next: 0 }),
        None => {
            app_state.set_current_operation(None);
            app_state.set_progress(None);
            app_state.set_error(
                Some(error_message(UpdateError::Fetch(FetchError::IncompleteAssets))),
            );
            None
        },
    }
}

impl UpdateAttempt {
    #[verifier::type_invariant]
    closed spec fn inv(self) -> bool {
        self@.wf()
    }

    /// The step to do now.
    pub fn action(&self) -> (r: UpdateAction)
        ensures
            self@.wf(),
            r.stage == self@.stage,
            r.asset@ == self@.assets[self@.next as int],
    {
        proof {
            use_type_invariant(self);
        }
        UpdateAction { stage: self.stage, asset: self.assets[self.next].clone() }
    }

    /// Takes in what the worker reports and says how the attempt goes on.
    ///
    /// A progress report sets the progress shown. A completed step leads to the
    /// next archive of the stage, then to the next stage; after the last
    /// archive is unpacked the attempt is over: label and progress are cleared
    /// and a restart is asked for. A failed step ends the attempt: label and
    /// progress are cleared and the error says which step failed. The installed
    /// version's fingerprint is never touched.
    pub fn advance(self, app_state: &mut AppState, event: StepEvent) -> (r: Option<UpdateAttempt>)
        ensures
            final(app_state)@ == after_event(old(app_state)@, self@, event),
            match r {
                Some(attempt) => next_attempt(self@, event) == Some(attempt@) && attempt@.wf(),
                None => next_attempt(self@, event) is None,
            },
            final(app_state)@.current_version == old(app_state)@.current_version,
    {
        proof {
            use_type_invariant(&self);
        }
        match event {
            StepEvent::Progress { received, total } => {
                app_state.set_progress(Some(Progress::from_bytes(received, total)));
                Some(self)
            },
            StepEvent::Failed(error) => {
                app_state.set_current_operation(None);
                app_state.set_progress(None);
                app_state.set_error(Some(error_message(error)));
                None
            },
            StepEvent::Completed => {
                let len = self.assets.len();
                let more = self.next < len - 1;
                let UpdateAttempt { assets, stage, next } = self;
                let following = if more {
                    Some(UpdateAttempt { assets, stage, next: next + 1 })
                } else {
                    match stage {
                        Stage::Download => Some(
                            UpdateAttempt { assets, stage: Stage::Verify, next: 0 },
                        ),
                        Stage::Verify => Some(
                            UpdateAttempt { assets, stage: Stage::Extract, next: 0 },
                        ),
                        Stage::Extract => None,
                    }
                };
                match &following {
                    Some(attempt) => {
                        app_state.set_current_operation(Some(label_of_stage(attempt.stage)));
                        app_state.set_progress(Some(Progress::Indeterminate));
                    },
                    None => {
                        app_state.set_current_operation(None);
                        app_state.set_progress(None);
                        app_state.set_reboot_required(true);
                    },
                }
                following
            },
        }
    }
}

/// While an operation is in flight, starting an update starts nothing: the
/// store stays as it is, label and progress of the running attempt included,
/// and no attempt is handed out.
pub proof fn lemma_busy_start_changes_nothing(s: AppStateView, mode: UpdateMode)
    requires
        s.busy(),
    ensures
        after_start(s, mode) == s,
        attempt_started(s, mode) is None,
{
}

/// A start that hands out an attempt leaves the store busy, so that a second
/// start before the attempt ends is turned away.
pub proof fn lemma_started_attempt_holds_the_gate(s: AppStateView, first: UpdateMode, second: UpdateMode)
    requires
        attempt_started(s, first) is Some,
    ensures
        after_start(s, first).busy(),
        after_start(after_start(s, first), second) == after_start(s, first),
        attempt_started(after_start(s, first), second) is None,
{
}

/// A start on a release that lacks a needed package ends at once: the error
/// names the missing package, no operation is in flight, and there is no
/// attempt, hence nothing for the worker to fetch.
pub proof fn lemma_missing_package_ends_start(s: AppStateView, mode: UpdateMode)
    requires
        !s.busy(),
        planned_assets(s, mode) is None,
    ensures
        attempt_started(s, mode) is None,
        after_start(s, mode).error == Some(
            message_of(UpdateError::Fetch(FetchError::IncompleteAssets)),
        ),
        !after_start(s, mode).busy(),
        after_start(s, mode).progress is None,
{
}

/// A failed step, a dropped connection among them, ends the attempt with the
/// error set and label and progress cleared; the installed version's
/// fingerprint, the catalog and the latest release stay as they were.
pub proof fn lemma_failure_ends_attempt(s: AppStateView, a: UpdateAttemptView, error: UpdateError)
    ensures
        next_attempt(a, StepEvent::Failed(error)) is None,
        after_event(s, a, StepEvent::Failed(error)).error == Some(message_of(error)),
        after_event(s, a, StepEvent::Failed(error)).current_operation is None,
        after_event(s, a, StepEvent::Failed(error)).progress is None,
        after_event(s, a, StepEvent::Failed(error)).current_version == s.current_version,
        after_event(s, a, StepEvent::Failed(error)).reboot_required == s.reboot_required,
        after_event(s, a, StepEvent::Failed(error)).catalog == s.catalog,
        after_event(s, a, StepEvent::Failed(error)).nextui_release == s.nextui_release,
{
}

/// No event of an attempt and no start changes the installed version's
/// fingerprint or the fields of the version selector.
pub proof fn lemma_attempt_keeps_selection(s: AppStateView, a: UpdateAttemptView, event: StepEvent, mode: UpdateMode)
    requires
        s.wf(),
    ensures
        after_event(s, a, event).current_version == s.current_version,
        after_start(s, mode).current_version == s.current_version,
        after_event(s, a, event).wf(),
        after_start(s, mode).wf(),
        after_event(s, a, event).index == s.index,
        after_event(s, a, event).menu_open == s.menu_open,
        after_event(s, a, event).confirmed == s.confirmed,
{
}

/// The number of steps that an attempt has completed: a whole stage counts
/// for every archive, the current stage for those before `next`.
pub open spec fn steps_done(a: UpdateAttemptView) -> nat {
    match a.stage {
        Stage::Download => a.next,
        Stage::Verify => a.assets.len() + a.next,
        Stage::Extract => 2 * a.assets.len() + a.next,
    }
}

/// Each completed step is one step forward and nothing else moves an attempt;
/// an attempt ends by success only from the unpacking of its last archive.
pub proof fn lemma_steps_in_order(a: UpdateAttemptView, event: StepEvent)
    requires
        a.wf(),
    ensures
        match next_attempt(a, event) {
            Some(n) => n.wf() && n.assets == a.assets && steps_done(n) == steps_done(a) + (
            if event == StepEvent::Completed {
                1nat
            } else {
                0nat
            }),
            None => event is Failed || (event == StepEvent::Completed && a.stage == Stage::Extract
                && a.next + 1 == a.assets.len()),
        },
{
}

/// Nothing is unpacked before every archive has been downloaded and checked:
/// an attempt in its unpacking stage has completed two steps for each archive.
pub proof fn lemma_extract_follows_all_checks(a: UpdateAttemptView)
    requires
        a.wf(),
        a.stage == Stage::Extract,
    ensures
        steps_done(a) >= 2 * a.assets.len(),
{
}

} // verus!
