//! The shared state store: every field that the display reads and the worker
//! writes, as one owned record.
//!
//! The record is meant to sit behind a lock that the host supplies. Each setter
//! commits one field. Where a field is bound to another by a rule of the version
//! selector, the setter keeps the rule and says in its contract what it stored.

use vstd::prelude::*;
use crate::progress::Progress;
use crate::release::{Release, ReleaseView, Tag, TagView, ReleaseAndTag, ReleaseAndTagView};
use crate::release::{catalog_view, release_view, tag_view};

verus! {

/// The pages of the interface. There is one.
#[derive(Debug, Clone, Copy, PartialEq, Eq, Structural)]
pub enum Submenu {
    NextUI,
}

/// The state store.
pub struct AppState {
    current_version: Option<String>,
    nextui_release: Option<Release>,
    nextui_tag: Option<Tag>,
    nextui_releases_and_tags: Vec<ReleaseAndTag>,
    nextui_releases_and_tags_index: usize,
    release_selection_menu: bool,
    release_selection_confirmed: bool,
    current_operation: Option<String>,
    progress: Option<Progress>,
    error: Option<String>,
    hint: Option<String>,
    should_quit: bool,
    reboot_required: bool,
    submenu: Submenu,
}

/// Mathematical value of the state store.
pub struct AppStateView {
    /// Fingerprint of the running build; fixed when the store is made.
    pub current_version: Option<Seq<char>>,
    /// Latest release that was fetched.
    pub nextui_release: Option<ReleaseView>,
    /// Latest tag that was fetched; `None` also after the user chose to forget it.
    pub nextui_tag: Option<TagView>,
    /// The catalog, newest first.
    pub catalog: Seq<ReleaseAndTagView>,
    /// Position in the catalog that the selector shows.
    pub index: nat,
    /// Whether the version selector is open.
    pub menu_open: bool,
    /// Whether the downgrade warning was accepted since the selector was opened.
    pub confirmed: bool,
    /// Label of the operation in flight; `Some` exactly while one runs.
    pub current_operation: Option<Seq<char>>,
    pub progress: Option<Progress>,
    pub error: Option<Seq<char>>,
    pub hint: Option<Seq<char>>,
    /// One-way: never cleared once set.
    pub should_quit: bool,
    /// Set when an update has been installed and awaits a restart.
    pub reboot_required: bool,
    pub submenu: Submenu,
}

impl AppStateView {
    /// The rules that bind the selector's fields to each other: the warning can
    /// be accepted only while the selector is open, and the index names an entry
    /// of the catalog, or is zero while the catalog is empty.
    pub open spec fn wf(self) -> bool {
        &&& self.confirmed ==> self.menu_open
        &&& self.catalog.len() > 0 ==> self.index < self.catalog.len()
        &&& self.catalog.len() == 0 ==> self.index == 0
    }

    /// Whether an operation is in flight.
    pub open spec fn busy(self) -> bool {
        self.current_operation is Some
    }

    /// The store as it starts: nothing fetched, selector closed, no operation.
    pub open spec fn initial(current_version: Option<Seq<char>>) -> AppStateView {
        AppStateView {
            current_version,
            nextui_release: None,
            nextui_tag: None,
            catalog: Seq::empty(),
            index: 0,
            menu_open: false,
            confirmed: false,
            current_operation: None,
            progress: None,
            error: None,
            hint: None,
            should_quit: false,
            reboot_required: false,
            submenu: Submenu::NextUI,
        }
    }

    /// Opening or closing the selector. Opening a closed selector shows the
    /// warning again and goes back to the newest entry; on an open selector it
    /// changes nothing. Closing withdraws the acceptance of the warning.
    pub open spec fn with_menu(self, open: bool) -> AppStateView {
        if open {
            if self.menu_open {
                self
            } else {
                AppStateView { menu_open: true, confirmed: false, index: 0, ..self }
            }
        } else {
            AppStateView { menu_open: false, confirmed: false, ..self }
        }
    }

    /// Accepting or withdrawing the warning; acceptance counts only while the
    /// selector is open.
    pub open spec fn with_confirmed(self, confirmed: bool) -> AppStateView {
        AppStateView { confirmed: confirmed && self.menu_open, ..self }
    }

    /// Whether `index` names a position of a catalog of `len` entries.
    pub open spec fn index_fits(index: nat, len: nat) -> bool {
        index < len || index == 0
    }

    /// Moving the index; a position outside the catalog is not stored.
    pub open spec fn with_index(self, index: nat) -> AppStateView {
        if Self::index_fits(index, self.catalog.len()) {
            AppStateView { index, ..self }
        } else {
            self
        }
    }

    /// Replacing the catalog; the index stays where it still fits and goes back
    /// to the newest entry where it does not.
    pub open spec fn with_catalog(self, catalog: Seq<ReleaseAndTagView>) -> AppStateView {
        AppStateView {
            catalog,
            index: if self.index < catalog.len() {
                self.index
            } else {
                0
            },
            ..self
        }
    }

    /// Asking to quit. The flag is never cleared, and it is not set while an
    /// operation is in flight.
    pub open spec fn with_quit(self, quit: bool) -> AppStateView {
        AppStateView { should_quit: self.should_quit || (quit && !self.busy()), ..self }
    }
}

impl View for AppState {
    type V = AppStateView;

    closed spec fn view(&self) -> AppStateView {
        AppStateView {
            current_version: self.current_version.deep_view(),
            nextui_release: release_view(self.nextui_release),
            nextui_tag: tag_view(self.nextui_tag),
            catalog: catalog_view(self.nextui_releases_and_tags@),
            index: self.nextui_releases_and_tags_index as nat,
            menu_open: self.release_selection_menu,
            confirmed: self.release_selection_confirmed,
            current_operation: self.current_operation.deep_view(),
            progress: self.progress,
            error: self.error.deep_view(),
            hint: self.hint.deep_view(),
            should_quit: self.should_quit,
            reboot_required: self.reboot_required,
            submenu: self.submenu,
        }
    }
}

impl AppState {
    #[verifier::type_invariant]
    closed spec fn inv(self) -> bool {
        self@.wf()
    }

    /// A store for a build with the given fingerprint.
    pub fn new(current_version: Option<String>) -> (s: AppState)
        ensures
            s@ == AppStateView::initial(current_version.deep_view()),
            s@.wf(),
    {
        let s = AppState {
            current_version,
            nextui_release: None,
            nextui_tag: None,
            nextui_releases_and_tags: Vec::new(),
            nextui_releases_and_tags_index: 0,
            release_selection_menu: false,
            release_selection_confirmed: false,
            current_operation: None,
            progress: None,
            error: None,
            hint: None,
            should_quit: false,
            reboot_required: false,
            submenu: Submenu::NextUI,
        };
        assert(s@.catalog =~= Seq::empty());
        s
    }

    pub fn current_version(&self) -> (r: Option<String>)
        ensures
            r.deep_view() == self@.current_version,
    {
        self.current_version.clone()
    }

    pub fn nextui_release(&self) -> (r: Option<Release>)
        ensures
            release_view(r) == self@.nextui_release,
    {
        self.nextui_release.clone()
    }

    pub fn nextui_tag(&self) -> (r: Option<Tag>)
        ensures
            tag_view(r) == self@.nextui_tag,
    {
        self.nextui_tag.clone()
    }

    /// The catalog, newest first.
    pub fn nextui_releases_and_tags(&self) -> (r: &Vec<ReleaseAndTag>)
        ensures
            catalog_view(r@) == self@.catalog,
            r@.len() == self@.catalog.len(),
    {
        &self.nextui_releases_and_tags
    }

    /// The shown position: an entry of the catalog wherever there is one.
    pub fn nextui_releases_and_tags_index(&self) -> (r: usize)
        ensures
            r == self@.index,
            self@.wf(),
    {
        proof {
            use_type_invariant(self);
        }
        self.nextui_releases_and_tags_index
    }

    pub fn release_selection_menu(&self) -> (r: bool)
        ensures
            r == self@.menu_open,
    {
        self.release_selection_menu
    }

    /// Whether the warning stands accepted; never so while the selector is closed.
    pub fn release_selection_confirmed(&self) -> (r: bool)
        ensures
            r == self@.confirmed,
            r ==> self@.menu_open,
    {
        proof {
            use_type_invariant(self);
        }
        self.release_selection_confirmed
    }

    pub fn current_operation(&self) -> (r: Option<String>)
        ensures
            r.deep_view() == self@.current_operation,
    {
        self.current_operation.clone()
    }

    /// Whether an operation is in flight.
    pub fn update_in_progress(&self) -> (r: bool)
        ensures
            r == self@.busy(),
    {
        self.current_operation.is_some()
    }

    pub fn progress(&self) -> (r: Option<Progress>)
        ensures
            r == self@.progress,
    {
        self.progress
    }

    pub fn error(&self) -> (r: Option<String>)
        ensures
            r.deep_view() == self@.error,
    {
        self.error.clone()
    }

    pub fn hint(&self) -> (r: Option<String>)
        ensures
            r.deep_view() == self@.hint,
    {
        self.hint.clone()
    }

    pub fn should_quit(&self) -> (r: bool)
        ensures
            r == self@.should_quit,
    {
        self.should_quit
    }

    pub fn reboot_required(&self) -> (r: bool)
        ensures
            r == self@.reboot_required,
    {
        self.reboot_required
    }

    pub fn submenu(&self) -> (r: Submenu)
        ensures
            r == self@.submenu,
    {
        self.submenu
    }

    pub fn set_nextui_release(&mut self, release: Option<Release>)
        ensures
            final(self)@ == (AppStateView { nextui_release: release_view(release), ..old(self)@ }),
    {
        proof {
            use_type_invariant(&*self);
        }
        self.nextui_release = release;
    }

    /// Stores the latest tag. `None` forgets it, so that a version that is
    /// already installed is offered again.
    pub fn set_nextui_tag(&mut self, tag: Option<Tag>)
        ensures
            final(self)@ == (AppStateView { nextui_tag: tag_view(tag), ..old(self)@ }),
    {
        proof {
            use_type_invariant(&*self);
        }
        self.nextui_tag = tag;
    }

    /// Replaces the catalog.
    pub fn set_nextui_releases_and_tags(&mut self, entries: Vec<ReleaseAndTag>)
        ensures
            final(self)@ == old(self)@.with_catalog(catalog_view(entries@)),
    {
        proof {
            use_type_invariant(&*self);
        }
        let index = self.nextui_releases_and_tags_index;
        let keep = index < entries.len();
        self.nextui_releases_and_tags_index = 0;
        self.nextui_releases_and_tags = entries;
        if keep {
            self.nextui_releases_and_tags_index = index;
        }
    }

    /// Moves the selector to `index` if the catalog has such a position.
    pub fn set_nextui_releases_and_tags_index(&mut self, index: usize)
        ensures
            final(self)@ == old(self)@.with_index(index as nat),
    {
        proof {
            use_type_invariant(&*self);
        }
        if index < self.nextui_releases_and_tags.len() || index == 0 {
            self.nextui_releases_and_tags_index = index;
        }
    }

    /// Opens or closes the version selector.
    pub fn set_release_selection_menu(&mut self, open: bool)
        ensures
            final(self)@ == old(self)@.with_menu(open),
    {
        proof {
            use_type_invariant(&*self);
        }
        if open {
            if !self.release_selection_menu {
                self.release_selection_confirmed = false;
                self.release_selection_menu = true;
                self.nextui_releases_and_tags_index = 0;
            }
        } else {
            self.release_selection_confirmed = false;
            self.release_selection_menu = false;
        }
    }

    /// Accepts or withdraws the downgrade warning.
    pub fn set_release_selection_confirmed(&mut self, confirmed: bool)
        ensures
            final(self)@ == old(self)@.with_confirmed(confirmed),
    {
        proof {
            use_type_invariant(&*self);
        }
        self.release_selection_confirmed = confirmed && self.release_selection_menu;
    }

    pub fn set_current_operation(&mut self, operation: Option<String>)
        ensures
            final(self)@ == (AppStateView {
                current_operation: operation.deep_view(),
                ..old(self)@
            }),
    {
        proof {
            use_type_invariant(&*self);
        }
        self.current_operation = operation;
    }

    pub fn set_progress(&mut self, progress: Option<Progress>)
        ensures
            final(self)@ == (AppStateView { progress, ..old(self)@ }),
    {
        proof {
            use_type_invariant(&*self);
        }
        self.progress = progress;
    }

    pub fn set_error(&mut self, error: Option<String>)
        ensures
            final(self)@ == (AppStateView { error: error.deep_view(), ..old(self)@ }),
    {
        proof {
            use_type_invariant(&*self);
        }
        self.error = error;
    }

    pub fn set_hint(&mut self, hint: Option<String>)
        ensures
            final(self)@ == (AppStateView { hint: hint.deep_view(), ..old(self)@ }),
    {
        proof {
            use_type_invariant(&*self);
        }
        self.hint = hint;
    }

    /// Asks the display loop to end.
    pub fn set_should_quit(&mut self, quit: bool)
        ensures
            final(self)@ == old(self)@.with_quit(quit),
    {
        proof {
            use_type_invariant(&*self);
        }
        if quit && self.current_operation.is_none() {
            self.should_quit = true;
        }
    }

    pub fn set_reboot_required(&mut self, required: bool)
        ensures
            final(self)@ == (AppStateView { reboot_required: required, ..old(self)@ }),
    {
        proof {
            use_type_invariant(&*self);
        }
        self.reboot_required = required;
    }
}

} // verus!
