use nextui_updater::app_state::{AppState, Submenu};
use nextui_updater::fonts::{contains_bytes, font_file, font_preference, RESOURCE_DIR, SETTINGS_FILE};
use nextui_updater::input::{
    controller_to_key, handle_back_button, poll_policy, process_event, Button, Forward,
    InputEvent, Key, Poll, EVENT_WAIT_MS,
};
use nextui_updater::progress::{Fraction, Progress};
use nextui_updater::release::{Commit, Release, ReleaseAndTag, Tag};

fn entry(name: &str) -> ReleaseAndTag {
    ReleaseAndTag {
        release: Some(Release {
            tag_name: name.to_string(),
            primary_asset: None,
            extras_asset: None,
        }),
        tag: Some(Tag { name: name.to_string(), commit: Commit { sha: name.to_string() } }),
    }
}

#[test]
fn new_store_is_empty() {
    let s = AppState::new(Some("abc123".to_string()));
    assert_eq!(s.current_version(), Some("abc123".to_string()));
    assert_eq!(s.nextui_release(), None);
    assert_eq!(s.nextui_tag(), None);
    assert!(s.nextui_releases_and_tags().is_empty());
    assert_eq!(s.nextui_releases_and_tags_index(), 0);
    assert!(!s.release_selection_menu());
    assert!(!s.release_selection_confirmed());
    assert_eq!(s.current_operation(), None);
    assert!(!s.update_in_progress());
    assert_eq!(s.progress(), None);
    assert_eq!(s.error(), None);
    assert_eq!(s.hint(), None);
    assert!(!s.should_quit());
    assert!(!s.reboot_required());
    assert_eq!(s.submenu(), Submenu::NextUI);
}

#[test]
fn setters_commit_one_field() {
    let mut s = AppState::new(None);
    s.set_error(Some("e".to_string()));
    s.set_hint(Some("h".to_string()));
    s.set_current_operation(Some("op".to_string()));
    s.set_progress(Some(Progress::Indeterminate));
    s.set_reboot_required(true);
    assert_eq!(s.error(), Some("e".to_string()));
    assert_eq!(s.hint(), Some("h".to_string()));
    assert_eq!(s.current_operation(), Some("op".to_string()));
    assert!(s.update_in_progress());
    assert_eq!(s.progress(), Some(Progress::Indeterminate));
    assert!(s.reboot_required());
    assert_eq!(s.current_version(), None);
    s.set_hint(None);
    assert_eq!(s.hint(), None);
    assert_eq!(s.error(), Some("e".to_string()));
}

#[test]
fn quit_flag_is_never_cleared() {
    let mut s = AppState::new(None);
    s.set_should_quit(false);
    assert!(!s.should_quit());
    s.set_should_quit(true);
    assert!(s.should_quit());
    s.set_should_quit(false);
    assert!(s.should_quit());
    s.set_current_operation(Some("op".to_string()));
    s.set_should_quit(false);
    assert!(s.should_quit());
}

#[test]
fn quit_is_refused_while_an_operation_runs() {
    let mut s = AppState::new(None);
    s.set_current_operation(Some("Extracting update...".to_string()));
    s.set_should_quit(true);
    assert!(!s.should_quit());
    process_event(&mut s, InputEvent::Quit);
    assert!(!s.should_quit());
    handle_back_button(&mut s);
    assert!(!s.should_quit());
    s.set_current_operation(None);
    process_event(&mut s, InputEvent::Quit);
    assert!(s.should_quit());
}

#[test]
fn closing_the_menu_withdraws_the_confirmation() {
    let mut s = AppState::new(None);
    s.set_release_selection_menu(true);
    s.set_release_selection_confirmed(true);
    assert!(s.release_selection_confirmed());
    s.set_release_selection_menu(false);
    assert!(!s.release_selection_confirmed());
    s.set_release_selection_menu(true);
    assert!(!s.release_selection_confirmed());
    s.set_release_selection_confirmed(true);
    s.set_release_selection_confirmed(false);
    assert!(!s.release_selection_confirmed());
    assert!(s.release_selection_menu());
}

#[test]
fn controller_buttons_map_to_keys() {
    assert_eq!(controller_to_key(Button::DPadUp), Some(Key::Up));
    assert_eq!(controller_to_key(Button::DPadDown), Some(Key::Down));
    assert_eq!(controller_to_key(Button::DPadLeft), Some(Key::Left));
    assert_eq!(controller_to_key(Button::DPadRight), Some(Key::Right));
    assert_eq!(controller_to_key(Button::B), Some(Key::Return));
    assert_eq!(controller_to_key(Button::A), Some(Key::Escape));
    assert_eq!(controller_to_key(Button::Y), Some(Key::X));
    assert_eq!(controller_to_key(Button::Other), None);
}

#[test]
fn button_down_is_forwarded_as_a_key() {
    let mut s = AppState::new(None);
    let r = process_event(&mut s, InputEvent::ControllerButtonDown(Button::B));
    assert_eq!(r.forward, Forward::KeyDown(Key::Return));
    assert!(!r.fetch_catalog);
    let r = process_event(&mut s, InputEvent::ControllerButtonDown(Button::Other));
    assert_eq!(r.forward, Forward::Nothing);
    let r = process_event(&mut s, InputEvent::ControllerButtonDown(Button::Y));
    assert_eq!(r.forward, Forward::KeyDown(Key::X));
    assert!(!s.release_selection_menu());
    let r = process_event(&mut s, InputEvent::Other);
    assert_eq!(r.forward, Forward::Event);
    let r = process_event(&mut s, InputEvent::Quit);
    assert_eq!(r.forward, Forward::Nothing);
}

#[test]
fn y_opens_the_selector_and_asks_for_the_catalog() {
    let mut s = AppState::new(None);
    let r = process_event(&mut s, InputEvent::ControllerButtonUp(Button::Y));
    assert_eq!(r.forward, Forward::KeyUp(Key::X));
    assert!(r.fetch_catalog);
    assert!(s.release_selection_menu());
    assert!(!s.release_selection_confirmed());
    let r = process_event(&mut s, InputEvent::ControllerButtonUp(Button::Y));
    assert!(!r.fetch_catalog);
    let r = process_event(&mut s, InputEvent::KeyDown(Some(Key::X)));
    assert!(!r.fetch_catalog);
    assert_eq!(r.forward, Forward::Nothing);
    let mut s = AppState::new(None);
    let r = process_event(&mut s, InputEvent::KeyDown(Some(Key::X)));
    assert!(r.fetch_catalog);
    assert!(s.release_selection_menu());
}

#[test]
fn a_button_goes_back_then_quits() {
    let mut s = AppState::new(None);
    process_event(&mut s, InputEvent::ControllerButtonUp(Button::Y));
    let r = process_event(&mut s, InputEvent::ControllerButtonUp(Button::A));
    assert_eq!(r.forward, Forward::KeyUp(Key::Escape));
    assert!(!s.release_selection_menu());
    assert!(!s.should_quit());
    process_event(&mut s, InputEvent::ControllerButtonUp(Button::A));
    assert!(s.should_quit());
    let mut s = AppState::new(None);
    process_event(&mut s, InputEvent::KeyDown(Some(Key::X)));
    process_event(&mut s, InputEvent::KeyDown(Some(Key::Escape)));
    assert!(!s.release_selection_menu());
    assert!(!s.should_quit());
    process_event(&mut s, InputEvent::KeyDown(Some(Key::Escape)));
    assert!(s.should_quit());
}

#[test]
fn left_and_right_page_the_catalog() {
    let mut s = AppState::new(None);
    s.set_nextui_releases_and_tags(vec![entry("c"), entry("b"), entry("a")]);
    process_event(&mut s, InputEvent::ControllerButtonUp(Button::DPadLeft));
    assert_eq!(s.nextui_releases_and_tags_index(), 0);
    process_event(&mut s, InputEvent::ControllerButtonUp(Button::Y));
    process_event(&mut s, InputEvent::ControllerButtonUp(Button::DPadLeft));
    assert_eq!(s.nextui_releases_and_tags_index(), 0);
    s.set_release_selection_confirmed(true);
    let r = process_event(&mut s, InputEvent::ControllerButtonUp(Button::DPadLeft));
    assert_eq!(r.forward, Forward::KeyUp(Key::Left));
    assert_eq!(s.nextui_releases_and_tags_index(), 1);
    process_event(&mut s, InputEvent::KeyDown(Some(Key::Left)));
    assert_eq!(s.nextui_releases_and_tags_index(), 2);
    process_event(&mut s, InputEvent::KeyDown(Some(Key::Left)));
    assert_eq!(s.nextui_releases_and_tags_index(), 2);
    process_event(&mut s, InputEvent::ControllerButtonUp(Button::DPadRight));
    assert_eq!(s.nextui_releases_and_tags_index(), 1);
    process_event(&mut s, InputEvent::KeyDown(Some(Key::Right)));
    assert_eq!(s.nextui_releases_and_tags_index(), 0);
    process_event(&mut s, InputEvent::KeyDown(Some(Key::Right)));
    assert_eq!(s.nextui_releases_and_tags_index(), 0);
    process_event(&mut s, InputEvent::KeyDown(Some(Key::Up)));
    process_event(&mut s, InputEvent::KeyDown(None));
    process_event(&mut s, InputEvent::KeyDown(Some(Key::Other)));
    assert_eq!(s.nextui_releases_and_tags_index(), 0);
    assert!(s.release_selection_menu());
}

#[test]
fn fraction_is_clamped() {
    assert!(Fraction::new(1, 0).is_none());
    assert!(Fraction::new(0, 0).is_none());
    let f = Fraction::new(3, 4).expect("fraction");
    assert_eq!((f.numerator(), f.denominator()), (3, 4));
    assert_eq!(f.percent(), 75);
    let f = Fraction::new(9, 4).expect("fraction");
    assert_eq!((f.numerator(), f.denominator()), (4, 4));
    assert_eq!(f.percent(), 100);
    let f = Fraction::new(0, 7).expect("fraction");
    assert_eq!(f.percent(), 0);
    let f = Fraction::new(1, 3).expect("fraction");
    assert_eq!(f.percent(), 33);
    let f = Fraction::new(u64::MAX, u64::MAX).expect("fraction");
    assert_eq!(f.percent(), 100);
    let f = Fraction::new(u64::MAX - 1, u64::MAX).expect("fraction");
    assert_eq!(f.percent(), 99);
}

#[test]
fn percentage_shows_past_a_tenth() {
    assert!(!Progress::Indeterminate.shows_percentage());
    assert!(!Progress::from_bytes(10, Some(100)).shows_percentage());
    assert!(Progress::from_bytes(11, Some(100)).shows_percentage());
    assert!(!Progress::from_bytes(0, Some(100)).shows_percentage());
    assert!(Progress::from_bytes(500, Some(100)).shows_percentage());
    assert!(!Progress::from_bytes(1, Some(10)).shows_percentage());
    assert!(Progress::from_bytes(2, Some(10)).shows_percentage());
    assert!(Progress::from_bytes(u64::MAX, Some(u64::MAX)).shows_percentage());
    assert!(Fraction::new(2, 10).expect("f").exceeds_tenth());
    assert!(!Fraction::new(1, 10).expect("f").exceeds_tenth());
}

#[test]
fn progress_from_bytes() {
    assert_eq!(Progress::from_bytes(5, None), Progress::Indeterminate);
    assert_eq!(Progress::from_bytes(5, Some(0)), Progress::Indeterminate);
    assert_eq!(
        Progress::from_bytes(5, Some(10)),
        Progress::Determinate(Fraction::new(5, 10).expect("f"))
    );
    assert_eq!(Progress::from_bytes(50, Some(10)), Progress::from_bytes(10, Some(10)));
}

#[test]
fn font_preference_reads_the_setting() {
    assert_eq!(font_preference(None), 0);
    assert_eq!(font_preference(Some(b"")), 0);
    assert_eq!(font_preference(Some(b"font=1")), 1);
    assert_eq!(font_preference(Some(b"font=0\nvolume=3\n")), 0);
    assert_eq!(font_preference(Some(b"volume=3\nfont=1\nbrightness=2\n")), 1);
    assert_eq!(font_preference(Some(b"font=")), 0);
    assert_eq!(font_preference(Some(b"ffont=12")), 1);
    assert_eq!(font_preference(Some(b"font =1")), 0);
    assert_eq!(font_preference(Some(b"fontfont=1")), 1);
    assert_eq!(font_preference(Some("sch\u{f6}n font=1".as_bytes())), 1);
}

#[test]
fn font_files() {
    assert_eq!(font_file(0), "BPreplayBold-unhinted.otf");
    assert_eq!(font_file(1), "chillroundm.ttf");
    assert_eq!(font_file(font_preference(Some(b"font=1"))), "chillroundm.ttf");
    assert_eq!(font_file(7), "BPreplayBold-unhinted.otf");
    assert_eq!(SETTINGS_FILE, ".userdata/shared/minuisettings.txt");
    assert_eq!(RESOURCE_DIR, ".system/res");
}

#[test]
fn byte_search() {
    assert!(contains_bytes(b"abc", b""));
    assert!(contains_bytes(b"", b""));
    assert!(!contains_bytes(b"", b"a"));
    assert!(contains_bytes(b"abc", b"abc"));
    assert!(contains_bytes(b"xxabc", b"abc"));
    assert!(contains_bytes(b"aab", b"ab"));
    assert!(!contains_bytes(b"abab", b"abb"));
    assert!(!contains_bytes(b"ab", b"abc"));
}

#[test]
fn waiting_for_input_is_bounded() {
    assert_eq!(poll_policy(true), Poll::Drain);
    assert_eq!(poll_policy(false), Poll::Wait(50));
    assert_eq!(EVENT_WAIT_MS, 50);
}
