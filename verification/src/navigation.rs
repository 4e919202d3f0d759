//! The version selector: a menu that opens on a downgrade warning and, once the
//! warning is accepted, pages through the catalog from the newest entry (index
//! zero, the right end) to the oldest (the left end).

use vstd::prelude::*;
use vstd::string::*;
use crate::app_state::{AppState, AppStateView};

verus! {

/// Where the selector stands.
#[derive(Debug, Clone, Copy, PartialEq, Eq, Structural)]
pub enum MenuState {
    Closed,
    /// Open, showing the downgrade warning.
    OpenUnconfirmed,
    /// Open, warning accepted: the catalog can be paged.
    OpenConfirmed,
}

/// The selector's state as the store holds it.
pub open spec fn menu_state_of(s: AppStateView) -> MenuState {
    if !s.menu_open {
        MenuState::Closed
    } else if s.confirmed {
        MenuState::OpenConfirmed
    } else {
        MenuState::OpenUnconfirmed
    }
}

/// The index stands on the oldest entry of a catalog that has one.
pub open spec fn most_left(s: AppStateView) -> bool {
    s.catalog.len() >= 1 && s.index + 1 >= s.catalog.len()
}

/// The index stands on the newest entry.
pub open spec fn most_right(s: AppStateView) -> bool {
    s.index == 0
}

/// The store after one step in `direction`: negative towards older entries,
/// positive towards newer ones. The index moves only in a confirmed selector and
/// stops at either end of the catalog.
pub open spec fn navigated(s: AppStateView, direction: int) -> AppStateView {
    if s.menu_open && s.confirmed {
        if direction < 0 && s.index + 1 < s.catalog.len() {
            AppStateView { index: s.index + 1, ..s }
        } else if direction > 0 && s.index > 0 {
            AppStateView { index: (s.index - 1) as nat, ..s }
        } else {
            s
        }
    } else {
        s
    }
}

pub open spec fn product_prefix() -> Seq<char> {
    "NextUI "@
}

pub open spec fn older_marker() -> Seq<char> {
    "<<     "@
}

pub open spec fn newer_marker() -> Seq<char> {
    "     >>"@
}

/// The name under which a version is shown: the product's name before the tag,
/// and, in the selector, an arrow on each side on which another entry lies.
pub open spec fn wrapped_tag(s: AppStateView, tag_name: Seq<char>) -> Seq<char> {
    let plain = product_prefix() + tag_name;
    if !s.menu_open {
        plain
    } else {
        let left = if most_left(s) {
            plain
        } else {
            older_marker() + plain
        };
        if most_right(s) {
            left
        } else {
            left + newer_marker()
        }
    }
}

pub fn menu_state(app_state: &AppState) -> (r: MenuState)
    ensures
        r == menu_state_of(app_state@),
{
    if !app_state.release_selection_menu() {
        MenuState::Closed
    } else if app_state.release_selection_confirmed() {
        MenuState::OpenConfirmed
    } else {
        MenuState::OpenUnconfirmed
    }
}

/// Whether the selector stands on the oldest entry. On the newest entry that is
/// so only where the catalog holds nothing else.
pub fn is_most_left_index(app_state: &AppState) -> (r: bool)
    ensures
        r == most_left(app_state@),
        app_state@.index == 0 ==> (r <==> app_state@.catalog.len() == 1),
{
    let index = app_state.nextui_releases_and_tags_index();
    let max_index = app_state.nextui_releases_and_tags().len();
    max_index >= 1 && index >= max_index - 1
}

/// Whether the selector stands on the newest entry.
pub fn is_most_right_index(app_state: &AppState) -> (r: bool)
    ensures
        r == most_right(app_state@),
{
    app_state.nextui_releases_and_tags_index() == 0
}

/// One step through the catalog: `direction < 0` to the next older entry,
/// `direction > 0` to the next newer one. Outside a confirmed selector, at the
/// end of the catalog in that direction, and for `direction == 0`, nothing changes.
pub fn handle_version_navigation(app_state: &mut AppState, direction: i32)
    ensures
        final(app_state)@ == navigated(old(app_state)@, direction as int),
{
    if app_state.release_selection_menu() && app_state.release_selection_confirmed() {
        let index = app_state.nextui_releases_and_tags_index();
        let len = app_state.nextui_releases_and_tags().len();
        if direction < 0 && len >= 1 && index < len - 1 {
            app_state.set_nextui_releases_and_tags_index(index + 1);
        } else if direction > 0 && !is_most_right_index(app_state) {
            app_state.set_nextui_releases_and_tags_index(index - 1);
        }
    }
}

/// The display name of a version; see [`wrapped_tag`].
pub fn hint_wrap_nextui_tag(app_state: &AppState, tag_name: &str) -> (r: String)
    ensures
        r@ == wrapped_tag(app_state@, tag_name@),
{
    let mut selected_tag = String::from_str("NextUI ");
    selected_tag.append(tag_name);
    if !app_state.release_selection_menu() {
        return selected_tag;
    }
    if !is_most_left_index(app_state) {
        let mut marked = String::from_str("<<     ");
        marked.append(selected_tag.as_str());
        selected_tag = marked;
    }
    if !is_most_right_index(app_state) {
        selected_tag.append("     >>");
    }
    selected_tag
}

/// Opens the selector. Returns whether it was closed before: then the catalog
/// is to be fetched, once, for the session that begins.
pub fn open_version_selector(app_state: &mut AppState) -> (fetch_catalog: bool)
    ensures
        final(app_state)@ == old(app_state)@.with_menu(true),
        fetch_catalog == !old(app_state)@.menu_open,
{
    let was_open = app_state.release_selection_menu();
    app_state.set_release_selection_menu(true);
    !was_open
}

/// Closes the selector, from the warning or from the catalog.
pub fn close_version_selector(app_state: &mut AppState)
    ensures
        final(app_state)@ == old(app_state)@.with_menu(false),
{
    app_state.set_release_selection_menu(false);
}

/// Accepts the downgrade warning of an open selector.
pub fn accept_warning(app_state: &mut AppState)
    ensures
        final(app_state)@ == old(app_state)@.with_confirmed(true),
{
    app_state.set_release_selection_confirmed(true);
}

/// Moves to the next older entry, if there is one.
pub fn navigate_older(app_state: &mut AppState)
    ensures
        final(app_state)@ == navigated(old(app_state)@, -1),
{
    handle_version_navigation(app_state, -1);
}

/// Moves to the next newer entry, if there is one.
pub fn navigate_newer(app_state: &mut AppState)
    ensures
        final(app_state)@ == navigated(old(app_state)@, 1),
{
    handle_version_navigation(app_state, 1);
}

/// On the newest entry the selector is at its left end exactly when the catalog
/// has one entry.
pub proof fn lemma_newest_is_oldest_only_alone(s: AppStateView)
    requires
        s.index == 0,
    ensures
        most_left(s) <==> s.catalog.len() == 1,
{
}

/// Stepping past either end of the catalog changes nothing: not towards older
/// entries from the last one, nor towards newer entries from the first.
pub proof fn lemma_navigation_stops_at_ends(s: AppStateView, direction: int)
    requires
        s.wf(),
    ensures
        direction < 0 && s.index + 1 >= s.catalog.len() ==> navigated(s, direction) == s,
        direction > 0 && s.index == 0 ==> navigated(s, direction) == s,
        direction == 0 ==> navigated(s, direction) == s,
{
}

/// A step moves the index by at most one place, keeps it inside the catalog,
/// and changes no other field.
pub proof fn lemma_navigation_moves_index_only(s: AppStateView, direction: int)
    requires
        s.wf(),
    ensures
        navigated(s, direction).wf(),
        navigated(s, direction) == (AppStateView { index: navigated(s, direction).index, ..s }),
        navigated(s, direction).index == s.index || navigated(s, direction).index == s.index + 1
            || navigated(s, direction).index == s.index - 1,
        menu_state_of(s) != MenuState::OpenConfirmed ==> navigated(s, direction) == s,
{
}

/// Closing the selector and opening it again shows the warning again, whatever
/// was accepted before, and starts from the newest entry.
pub proof fn lemma_reopening_asks_again(s: AppStateView)
    requires
        s.wf(),
    ensures
        menu_state_of(s.with_menu(false)) == MenuState::Closed,
        menu_state_of(s.with_menu(false).with_menu(true)) == MenuState::OpenUnconfirmed,
        !s.with_menu(false).with_menu(true).confirmed,
        s.with_menu(false).with_menu(true).index == 0,
        s.with_menu(false).with_menu(true).wf(),
{
}

/// The transitions of the selector: opening leads from `Closed` to the warning,
/// accepting the warning leads on to the catalog, closing leads back from both,
/// and nothing else changes the selector's state.
pub proof fn lemma_menu_transitions(s: AppStateView)
    requires
        s.wf(),
    ensures
        menu_state_of(s) == MenuState::Closed ==> menu_state_of(s.with_menu(true))
            == MenuState::OpenUnconfirmed,
        menu_state_of(s) != MenuState::Closed ==> s.with_menu(true) == s,
        menu_state_of(s) == MenuState::OpenUnconfirmed ==> menu_state_of(s.with_confirmed(true))
            == MenuState::OpenConfirmed,
        menu_state_of(s) == MenuState::Closed ==> s.with_confirmed(true) == s,
        menu_state_of(s.with_menu(false)) == MenuState::Closed,
        s.with_menu(true).wf(),
        s.with_menu(false).wf(),
        s.with_confirmed(true).wf(),
{
}

} // verus!
