//! What the main page shows for a given state of the store: its title, its
//! message, the pair of controls under it, the hint for the control in focus, and
//! what a press of a control does.

use vstd::prelude::*;
use vstd::string::*;
use crate::app_state::{AppState, AppStateView};
use crate::navigation::{hint_wrap_nextui_tag, wrapped_tag};
use crate::release::{release_view, tag_view, Release, ReleaseView, Tag, TagView};
use crate::update::{after_start, attempt_started, start_update, UpdateAttempt, UpdateMode};

verus! {

/// The three faces of the main page.
#[derive(Debug, Clone, Copy, PartialEq, Eq, Structural)]
pub enum Panel {
    /// The downgrade warning of a selector that was just opened.
    Warning,
    /// A version that can be installed.
    Update,
    /// A version that is installed already.
    Installed,
}

/// The controls of the main page.
#[derive(Debug, Clone, Copy, PartialEq, Eq, Structural)]
pub enum Control {
    Return,
    AcceptWarning,
    QuickUpdate,
    FullUpdate,
    UpdateAnyway,
    Quit,
}

/// The release that the page speaks of: the selected entry's while the selector
/// is open, the latest one otherwise.
pub open spec fn shown_release(s: AppStateView) -> Option<ReleaseView> {
    if s.menu_open {
        if s.index < s.catalog.len() {
            s.catalog[s.index as int].release
        } else {
            None
        }
    } else {
        s.nextui_release
    }
}

/// The tag that the page speaks of: the selected entry's while the selector is
/// open, the latest one otherwise.
pub open spec fn shown_tag(s: AppStateView) -> Option<TagView> {
    if s.menu_open {
        if s.index < s.catalog.len() {
            s.catalog[s.index as int].tag
        } else {
            None
        }
    } else {
        s.nextui_tag
    }
}

/// The shown version is the one that runs: its commit begins with the installed
/// fingerprint, and the latest tag has not been forgotten.
pub open spec fn already_installed(s: AppStateView) -> bool {
    &&& s.current_version is Some
    &&& shown_tag(s) is Some
    &&& s.current_version.unwrap().is_prefix_of(shown_tag(s).unwrap().sha)
    &&& s.nextui_tag is Some
}

/// An update is offered for the shown version.
pub open spec fn update_available(s: AppStateView) -> bool {
    !already_installed(s)
}

/// The face of the page.
pub open spec fn panel_of(s: AppStateView) -> Panel {
    if s.menu_open && !s.confirmed {
        Panel::Warning
    } else if already_installed(s) {
        Panel::Installed
    } else {
        Panel::Update
    }
}

pub open spec fn warning_text() -> Seq<char> {
    "WARNING\nDowngrades are not fully supported by NextUI!\nSome settings may be lost or unstable in old versions\nManual editing of settings or files may be required"@
}

/// The message of the page.
pub open spec fn message_of(s: AppStateView) -> Seq<char> {
    if s.menu_open && !s.confirmed {
        warning_text()
    } else if s.current_version is Some && shown_tag(s) is Some {
        let name = wrapped_tag(s, shown_tag(s).unwrap().name);
        if already_installed(s) {
            if s.menu_open {
                "Selected Version: "@ + name + "\nThis version is currently already installed!"@
            } else {
                "You currently have the latest available version:\n"@ + name
            }
        } else if s.menu_open {
            "Selected Version: "@ + name
        } else {
            "New version available: "@ + name
        }
    } else if shown_release(s) is Some {
        if s.menu_open {
            "Selected Version: "@ + wrapped_tag(s, shown_release(s).unwrap().tag_name)
        } else {
            "Latest version: NextUI "@ + shown_release(s).unwrap().tag_name
        }
    } else {
        "No release information available"@
    }
}

/// The title of the page for a build of the given version.
pub open spec fn title_of(s: AppStateView, version: Seq<char>) -> Seq<char> {
    let plain = "NextUI Updater "@ + version;
    if s.menu_open {
        if s.confirmed {
            plain + " Version Selector"@
        } else {
            plain + " Version Selector Warning"@
        }
    } else {
        plain
    }
}

/// The two controls of a face, in the order in which they are drawn.
pub open spec fn controls_of(panel: Panel) -> (Control, Control) {
    match panel {
        Panel::Warning => (Control::Return, Control::AcceptWarning),
        Panel::Update => (Control::QuickUpdate, Control::FullUpdate),
        Panel::Installed => (Control::UpdateAnyway, Control::Quit),
    }
}

/// The control of a face that takes the focus while nothing else has it.
pub open spec fn default_focus_of(panel: Panel) -> Control {
    match panel {
        Panel::Warning => Control::Return,
        Panel::Update => Control::QuickUpdate,
        Panel::Installed => Control::Quit,
    }
}

/// Whether `control` stands on `panel`.
pub open spec fn on_panel(panel: Panel, control: Control) -> bool {
    controls_of(panel).0 == control || controls_of(panel).1 == control
}

pub open spec fn label_of(control: Control) -> Seq<char> {
    match control {
        Control::Return => "Return"@,
        Control::AcceptWarning => "Accept Warning"@,
        Control::QuickUpdate => "Quick Update"@,
        Control::FullUpdate => "Full Update"@,
        Control::UpdateAnyway => "Update anyway"@,
        Control::Quit => "Quit"@,
    }
}

/// The hint for the control in focus on a face that was drawn as `panel`.
pub open spec fn hint_of(s: AppStateView, panel: Panel, focus: Option<Control>) -> Option<
    Seq<char>,
> {
    match focus {
        Some(control) => if on_panel(panel, control) {
            Some(
                match control {
                    Control::Return => "Return to Latest Version options"@,
                    Control::AcceptWarning => "Confirm warning and open update options"@,
                    Control::QuickUpdate => "Update MinUI.zip only"@,
                    Control::FullUpdate => "Extract full zip files (base + extras)"@,
                    Control::UpdateAnyway => "Ignore current version"@,
                    Control::Quit => if s.menu_open {
                        "Return to Latest Version options"@
                    } else {
                        "Quit NextUI Updater"@
                    },
                },
            )
        } else {
            None
        },
        None => None,
    }
}

/// A press counts if no operation is in flight and the control stands on the
/// face that the store calls for.
pub open spec fn press_counts(s: AppStateView, control: Control) -> bool {
    !s.busy() && on_panel(panel_of(s), control)
}

/// The store after a press of `control`.
pub open spec fn after_press(s: AppStateView, control: Control) -> AppStateView {
    if !press_counts(s, control) {
        s
    } else {
        match control {
            Control::Return => s.with_menu(false),
            Control::AcceptWarning => s.with_confirmed(true),
            Control::QuickUpdate => after_start(
                AppStateView { error: None, ..s },
                UpdateMode::Quick,
            ),
            Control::FullUpdate => after_start(AppStateView { error: None, ..s }, UpdateMode::Full),
            Control::UpdateAnyway => AppStateView { nextui_tag: None, ..s },
            Control::Quit => if s.menu_open {
                s.with_menu(false)
            } else {
                s.with_quit(true)
            },
        }
    }
}

/// The attempt that a press of `control` starts, if any.
pub open spec fn attempt_of_press(s: AppStateView, control: Control) -> Option<
    crate::update::UpdateAttemptView,
> {
    if !press_counts(s, control) {
        None
    } else {
        match control {
            Control::QuickUpdate => attempt_started(
                AppStateView { error: None, ..s },
                UpdateMode::Quick,
            ),
            Control::FullUpdate => attempt_started(
                AppStateView { error: None, ..s },
                UpdateMode::Full,
            ),
            _ => None,
        }
    }
}

/// Whether `prefix` is a prefix of `text`, character by character.
pub fn starts_with(text: &str, prefix: &str) -> (r: bool)
    ensures
        r == prefix@.is_prefix_of(text@),
{
    let n = prefix.unicode_len();
    if n > text.unicode_len() {
        return false;
    }
    let mut i: usize = 0;
    while i < n
        invariant
            i <= n,
            n == prefix@.len(),
            n <= text@.len(),
            forall|j: int| 0 <= j < i ==> text@[j] == prefix@[j],
        decreases n - i,
    {
        if text.get_char(i) != prefix.get_char(i) {
            return false;
        }
        i += 1;
    }
    true
}

/// The tag that the page speaks of; see [`shown_tag`].
pub fn selected_tag(app_state: &AppState) -> (r: Option<Tag>)
    ensures
        tag_view(r) == shown_tag(app_state@),
{
    if app_state.release_selection_menu() {
        let index = app_state.nextui_releases_and_tags_index();
        let catalog = app_state.nextui_releases_and_tags();
        if index < catalog.len() {
            catalog[index].tag.clone()
        } else {
            None
        }
    } else {
        app_state.nextui_tag()
    }
}

/// The release that the page speaks of; see [`shown_release`].
pub fn selected_release(app_state: &AppState) -> (r: Option<Release>)
    ensures
        release_view(r) == shown_release(app_state@),
{
    if app_state.release_selection_menu() {
        let index = app_state.nextui_releases_and_tags_index();
        let catalog = app_state.nextui_releases_and_tags();
        if index < catalog.len() {
            catalog[index].release.clone()
        } else {
            None
        }
    } else {
        app_state.nextui_release()
    }
}

/// Whether the shown version is the one that runs; see [`already_installed`].
pub fn is_already_installed(app_state: &AppState) -> (r: bool)
    ensures
        r == already_installed(app_state@),
{
    let latest_discarded = app_state.nextui_tag().is_none();
    match (app_state.current_version(), selected_tag(app_state)) {
        (Some(current_version), Some(tag)) => {
            starts_with(tag.commit.sha.as_str(), current_version.as_str()) && !latest_discarded
        },
        _ => false,
    }
}

/// Whether an update is offered for the shown version.
pub fn is_update_available(app_state: &AppState) -> (r: bool)
    ensures
        r == update_available(app_state@),
{
    !is_already_installed(app_state)
}

/// The face that the page shows.
pub fn panel(app_state: &AppState) -> (r: Panel)
    ensures
        r == panel_of(app_state@),
{
    if app_state.release_selection_menu() && !app_state.release_selection_confirmed() {
        Panel::Warning
    } else if is_already_installed(app_state) {
        Panel::Installed
    } else {
        Panel::Update
    }
}

/// `head` followed by `tail`.
fn joined(head: &str, tail: &str) -> (r: String)
    ensures
        r@ == head@ + tail@,
{
    let mut text = String::from_str(head);
    text.append(tail);
    text
}

/// The message that the page shows.
pub fn message(app_state: &AppState) -> (r: String)
    ensures
        r@ == message_of(app_state@),
{
    let menu = app_state.release_selection_menu();
    if menu && !app_state.release_selection_confirmed() {
        return String::from_str(
            "WARNING\nDowngrades are not fully supported by NextUI!\nSome settings may be lost or unstable in old versions\nManual editing of settings or files may be required",
        );
    }
    match (app_state.current_version(), selected_tag(app_state), selected_release(app_state)) {
        (Some(_), Some(tag), _) => {
            let name = hint_wrap_nextui_tag(app_state, tag.name.as_str());
            if is_already_installed(app_state) {
                if menu {
                    let mut text = joined("Selected Version: ", name.as_str());
                    text.append("\nThis version is currently already installed!");
                    text
                } else {
                    joined("You currently have the latest available version:\n", name.as_str())
                }
            } else if menu {
                joined("Selected Version: ", name.as_str())
            } else {
                joined("New version available: ", name.as_str())
            }
        },
        (_, _, Some(release)) => {
            if menu {
                let name = hint_wrap_nextui_tag(app_state, release.tag_name.as_str());
                joined("Selected Version: ", name.as_str())
            } else {
                joined("Latest version: NextUI ", release.tag_name.as_str())
            }
        },
        _ => String::from_str("No release information available"),
    }
}

/// The title of the page for a build of the given version.
pub fn title(app_state: &AppState, version: &str) -> (r: String)
    ensures
        r@ == title_of(app_state@, version@),
{
    let mut text = joined("NextUI Updater ", version);
    if app_state.release_selection_menu() {
        if app_state.release_selection_confirmed() {
            text.append(" Version Selector");
        } else {
            text.append(" Version Selector Warning");
        }
    }
    text
}

/// The two controls of a face, in the order in which they are drawn.
pub fn controls(panel: Panel) -> (r: (Control, Control))
    ensures
        r == controls_of(panel),
{
    match panel {
        Panel::Warning => (Control::Return, Control::AcceptWarning),
        Panel::Update => (Control::QuickUpdate, Control::FullUpdate),
        Panel::Installed => (Control::UpdateAnyway, Control::Quit),
    }
}

/// The control of a face that takes the focus while nothing else has it.
pub fn default_focus(panel: Panel) -> (r: Control)
    ensures
        r == default_focus_of(panel),
        on_panel(panel, r),
{
    match panel {
        Panel::Warning => Control::Return,
        Panel::Update => Control::QuickUpdate,
        Panel::Installed => Control::Quit,
    }
}

/// The caption of a control.
pub fn control_label(control: Control) -> (r: &'static str)
    ensures
        r@ == label_of(control),
{
    match control {
        Control::Return => "Return",
        Control::AcceptWarning => "Accept Warning",
        Control::QuickUpdate => "Quick Update",
        Control::FullUpdate => "Full Update",
        Control::UpdateAnyway => "Update anyway",
        Control::Quit => "Quit",
    }
}

/// Whether the page's controls can be used: not while an operation is in flight.
pub fn controls_enabled(app_state: &AppState) -> (r: bool)
    ensures
        r == !app_state@.busy(),
{
    !app_state.update_in_progress()
}

/// Whether the corner shows the way into the version selector: only while the
/// selector is closed and no operation is in flight.
pub fn shows_selector_indicator(app_state: &AppState) -> (r: bool)
    ensures
        r == (!app_state@.menu_open && !app_state@.busy()),
{
    !app_state.release_selection_menu() && !app_state.update_in_progress()
}

/// Whether `control` stands on `panel`.
pub fn is_on_panel(panel: Panel, control: Control) -> (r: bool)
    ensures
        r == on_panel(panel, control),
{
    let (first, second) = controls(panel);
    first == control || second == control
}

/// Stores the hint for the control in focus on a face drawn as `panel`, or no
/// hint where none of its controls has the focus.
pub fn update_hint(app_state: &mut AppState, panel: Panel, focus: Option<Control>)
    ensures
        final(app_state)@ == (AppStateView {
            hint: hint_of(old(app_state)@, panel, focus),
            ..old(app_state)@
        }),
{
    let hint = match focus {
        Some(control) => if is_on_panel(panel, control) {
            let text = match control {
                Control::Return => "Return to Latest Version options",
                Control::AcceptWarning => "Confirm warning and open update options",
                Control::QuickUpdate => "Update MinUI.zip only",
                Control::FullUpdate => "Extract full zip files (base + extras)",
                Control::UpdateAnyway => "Ignore current version",
                Control::Quit => if app_state.release_selection_menu() {
                    "Return to Latest Version options"
                } else {
                    "Quit NextUI Updater"
                },
            };
            Some(String::from_str(text))
        } else {
            None
        },
        None => None,
    };
    app_state.set_hint(hint);
}

/// Acts on a press of `control`.
///
/// A press while an operation is in flight, or of a control that the current
/// face does not show, does nothing. `Return` closes the selector and
/// `AcceptWarning` accepts its warning. `QuickUpdate` and `FullUpdate` clear the
/// error and start an update of that mode; the attempt, if one began, is handed
/// back for the worker. `UpdateAnyway` forgets the latest tag. `Quit` closes the
/// selector if it is open and asks to quit otherwise.
pub fn press(app_state: &mut AppState, control: Control) -> (r: Option<UpdateAttempt>)
    ensures
        final(app_state)@ == after_press(old(app_state)@, control),
        match r {
            Some(attempt) => attempt_of_press(old(app_state)@, control) == Some(attempt@)
                && attempt@.wf(),
            None => attempt_of_press(old(app_state)@, control) is None,
        },
        final(app_state)@.current_version == old(app_state)@.current_version,
{
    if app_state.update_in_progress() || !is_on_panel(panel(app_state), control) {
        return None;
    }
    match control {
        Control::Return => {
            app_state.set_release_selection_menu(false);
            None
        },
        Control::AcceptWarning => {
            app_state.set_release_selection_confirmed(true);
            None
        },
        Control::QuickUpdate => {
            app_state.set_error(None);
            start_update(app_state, UpdateMode::Quick)
        },
        Control::FullUpdate => {
            app_state.set_error(None);
            start_update(app_state, UpdateMode::Full)
        },
        Control::UpdateAnyway => {
            app_state.set_nextui_tag(None);
            None
        },
        Control::Quit => {
            if app_state.release_selection_menu() {
                app_state.set_release_selection_menu(false);
            } else {
                app_state.set_should_quit(true);
            }
            None
        },
    }
}

/// With the selector closed, a latest tag whose commit begins with the
/// installed fingerprint means that no update is offered: the page shows the
/// installed face. Forgetting the latest tag offers the update again.
pub proof fn lemma_installed_until_forgotten(s: AppStateView)
    requires
        !s.menu_open,
        s.current_version is Some,
        s.nextui_tag is Some,
        s.current_version.unwrap().is_prefix_of(s.nextui_tag.unwrap().sha),
    ensures
        already_installed(s),
        !update_available(s),
        panel_of(s) == Panel::Installed,
        !s.busy() ==> after_press(s, Control::UpdateAnyway) == (AppStateView {
            nextui_tag: None,
            ..s
        }),
        update_available(AppStateView { nextui_tag: None, ..s }),
        panel_of(AppStateView { nextui_tag: None, ..s }) == Panel::Update,
{
}

/// A latest tag whose commit does not begin with the installed fingerprint
/// means that an update is offered.
pub proof fn lemma_other_commit_is_offered(s: AppStateView)
    requires
        !s.menu_open,
        s.current_version is Some,
        s.nextui_tag is Some,
        !s.current_version.unwrap().is_prefix_of(s.nextui_tag.unwrap().sha),
    ensures
        update_available(s),
        panel_of(s) == Panel::Update,
        message_of(s) == "New version available: "@ + wrapped_tag(s, s.nextui_tag.unwrap().name),
{
}

/// Closing the selector changes nothing that decides whether the latest
/// version is offered: the installed fingerprint and the latest tag stay.
pub proof fn lemma_closing_keeps_comparison(s: AppStateView)
    ensures
        s.with_menu(false).current_version == s.current_version,
        s.with_menu(false).nextui_tag == s.nextui_tag,
        s.with_menu(false).nextui_release == s.nextui_release,
        s.with_menu(false).catalog == s.catalog,
{
}

/// A press never leaves the selector's rules, and does nothing while an
/// operation is in flight.
pub proof fn lemma_press_is_guarded(s: AppStateView, control: Control)
    requires
        s.wf(),
    ensures
        after_press(s, control).wf(),
        s.busy() ==> after_press(s, control) == s && attempt_of_press(s, control) is None,
        after_press(s, control).current_version == s.current_version,
{
}

} // verus!
