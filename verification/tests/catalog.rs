use nextui_updater::app_state::AppState;
use nextui_updater::catalog::{commit_catalog, commit_latest, merge_catalog};
use nextui_updater::release::{Commit, Release, ReleaseAndTag, Tag};
use nextui_updater::update::FetchError;

fn release(name: &str) -> Release {
    Release { tag_name: name.to_string(), primary_asset: Some(format!("{name}.zip")), extras_asset: None }
}

fn tag(name: &str) -> Tag {
    Tag { name: name.to_string(), commit: Commit { sha: format!("sha-{name}") } }
}

fn both(name: &str) -> ReleaseAndTag {
    ReleaseAndTag { release: Some(release(name)), tag: Some(tag(name)) }
}

fn only_release(name: &str) -> ReleaseAndTag {
    ReleaseAndTag { release: Some(release(name)), tag: None }
}

fn only_tag(name: &str) -> ReleaseAndTag {
    ReleaseAndTag { release: None, tag: Some(tag(name)) }
}

fn releases(names: &[&str]) -> Vec<Release> {
    names.iter().map(|n| release(n)).collect()
}

fn tags(names: &[&str]) -> Vec<Tag> {
    names.iter().map(|n| tag(n)).collect()
}

#[test]
fn matching_lists_pair_up_in_order() {
    let merged = merge_catalog(&releases(&["v3", "v2", "v1"]), &tags(&["v3", "v2", "v1"]));
    assert_eq!(merged, vec![both("v3"), both("v2"), both("v1")]);
}

#[test]
fn empty_lists_give_an_empty_catalog() {
    assert_eq!(merge_catalog(&Vec::new(), &Vec::new()), Vec::new());
}

#[test]
fn tags_without_releases_keep_their_place() {
    let merged = merge_catalog(&releases(&["v3", "v1"]), &tags(&["v4", "v3", "v2", "v1", "v0"]));
    assert_eq!(
        merged,
        vec![only_tag("v4"), both("v3"), only_tag("v2"), both("v1"), only_tag("v0")]
    );
}

#[test]
fn releases_without_tags_keep_their_place() {
    let merged = merge_catalog(&releases(&["v3", "v2", "v1"]), &tags(&["v3", "v1"]));
    assert_eq!(merged, vec![both("v3"), only_release("v2"), both("v1")]);
}

#[test]
fn only_releases_or_only_tags() {
    assert_eq!(
        merge_catalog(&releases(&["b", "a"]), &Vec::new()),
        vec![only_release("b"), only_release("a")]
    );
    assert_eq!(merge_catalog(&Vec::new(), &tags(&["b", "a"])), vec![only_tag("b"), only_tag("a")]);
}

#[test]
fn lists_in_conflicting_order_keep_both_orders() {
    let merged = merge_catalog(&releases(&["a", "b"]), &tags(&["b", "a"]));
    assert_eq!(merged, vec![only_tag("b"), both("a"), only_release("b")]);
    let release_side: Vec<Release> = merged.iter().filter_map(|e| e.release.clone()).collect();
    let tag_side: Vec<Tag> = merged.iter().filter_map(|e| e.tag.clone()).collect();
    assert_eq!(release_side, releases(&["a", "b"]));
    assert_eq!(tag_side, tags(&["b", "a"]));
}

#[test]
fn merge_keeps_every_item_once_and_in_order() {
    let rs = releases(&["v9", "v7", "x", "v5", "v2"]);
    let ts = tags(&["v10", "v9", "v8", "v7", "v5", "v4", "v2", "v1"]);
    let merged = merge_catalog(&rs, &ts);
    let release_side: Vec<Release> = merged.iter().filter_map(|e| e.release.clone()).collect();
    let tag_side: Vec<Tag> = merged.iter().filter_map(|e| e.tag.clone()).collect();
    assert_eq!(release_side, rs);
    assert_eq!(tag_side, ts);
    for e in &merged {
        assert!(e.release.is_some() || e.tag.is_some());
        if let (Some(r), Some(t)) = (&e.release, &e.tag) {
            assert_eq!(r.tag_name, t.name);
        }
    }
    assert_eq!(merged.len(), 9);
    assert_eq!(merged[2], only_tag("v8"));
    assert_eq!(merged[4], only_release("x"));
}

#[test]
fn latest_is_committed_and_clears_the_error() {
    let mut s = AppState::new(Some("abc".to_string()));
    s.set_error(Some("old".to_string()));
    commit_latest(&mut s, Ok((Some(release("v2")), Some(tag("v2")))));
    assert_eq!(s.nextui_release(), Some(release("v2")));
    assert_eq!(s.nextui_tag(), Some(tag("v2")));
    assert_eq!(s.error(), None);
}

#[test]
fn latest_may_lack_either_side() {
    let mut s = AppState::new(None);
    commit_latest(&mut s, Ok((None, Some(tag("v2")))));
    assert_eq!(s.nextui_release(), None);
    assert_eq!(s.nextui_tag(), Some(tag("v2")));
    commit_latest(&mut s, Ok((Some(release("v3")), None)));
    assert_eq!(s.nextui_release(), Some(release("v3")));
    assert_eq!(s.nextui_tag(), None);
}

#[test]
fn failed_fetch_keeps_what_was_cached() {
    let mut s = AppState::new(Some("abc".to_string()));
    commit_latest(&mut s, Ok((Some(release("v2")), Some(tag("v2")))));
    commit_catalog(&mut s, Ok(vec![both("v2"), both("v1")]));
    commit_latest(&mut s, Err(FetchError::NetworkUnreachable));
    assert_eq!(s.error(), Some("Fetch failed: network unreachable".to_string()));
    assert_eq!(s.nextui_release(), Some(release("v2")));
    assert_eq!(s.nextui_tag(), Some(tag("v2")));
    commit_catalog(&mut s, Err(FetchError::MalformedResponse));
    assert_eq!(s.error(), Some("Fetch failed: malformed response".to_string()));
    assert_eq!(s.nextui_releases_and_tags(), &vec![both("v2"), both("v1")]);
    assert_eq!(s.current_operation(), None);
}

#[test]
fn catalog_is_committed() {
    let mut s = AppState::new(None);
    s.set_error(Some("old".to_string()));
    commit_catalog(&mut s, Ok(merge_catalog(&releases(&["v2", "v1"]), &tags(&["v2", "v1"]))));
    assert_eq!(s.nextui_releases_and_tags(), &vec![both("v2"), both("v1")]);
    assert_eq!(s.error(), Some("old".to_string()));
    assert_eq!(s.nextui_releases_and_tags_index(), 0);
}
