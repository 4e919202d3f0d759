//! The release catalog: how the host's list of releases and its list of tags,
//! both newest first, become one list of entries, and how the result of a fetch
//! is committed to the store.

use vstd::prelude::*;
use crate::app_state::{AppState, AppStateView};
use crate::release::{catalog_view, release_view, tag_view};
use crate::release::{Release, ReleaseAndTag, ReleaseAndTagView, ReleaseView, Tag, TagView};
use crate::update::{error_message, message_of, FetchError, UpdateError};

verus! {

/// The views of a list of releases, in order.
pub open spec fn releases_view(releases: Seq<Release>) -> Seq<ReleaseView> {
    releases.map_values(|r: Release| r@)
}

/// The views of a list of tags, in order.
pub open spec fn tags_view(tags: Seq<Tag>) -> Seq<TagView> {
    tags.map_values(|t: Tag| t@)
}

/// Some tag of `tags` is called `name`.
pub open spec fn names_tag(tags: Seq<TagView>, name: Seq<char>) -> bool {
    exists|i: int| 0 <= i < tags.len() && (#[trigger] tags[i]).name == name
}

/// The catalog of two lists that are both newest first.
///
/// The lists are walked from their heads. A release and a tag of one name form
/// one entry. A tag that stands before the tag of the release at hand has no
/// release and forms an entry of its own; so does a release for which no tag is
/// left.
pub open spec fn merged(releases: Seq<ReleaseView>, tags: Seq<TagView>) -> Seq<ReleaseAndTagView>
    decreases releases.len() + tags.len(),
{
    if releases.len() > 0 && tags.len() > 0 && releases[0].tag_name == tags[0].name {
        seq![ReleaseAndTagView { release: Some(releases[0]), tag: Some(tags[0]) }] + merged(
            releases.skip(1),
            tags.skip(1),
        )
    } else if tags.len() > 0 && (releases.len() == 0 || names_tag(
        tags.skip(1),
        releases[0].tag_name,
    )) {
        seq![ReleaseAndTagView { release: None, tag: Some(tags[0]) }] + merged(
            releases,
            tags.skip(1),
        )
    } else if releases.len() > 0 {
        seq![ReleaseAndTagView { release: Some(releases[0]), tag: None }] + merged(
            releases.skip(1),
            tags,
        )
    } else {
        Seq::empty()
    }
}

/// The releases of a catalog, in its order.
pub open spec fn release_side(catalog: Seq<ReleaseAndTagView>) -> Seq<ReleaseView>
    decreases catalog.len(),
{
    if catalog.len() == 0 {
        Seq::empty()
    } else {
        match catalog[0].release {
            Some(r) => seq![r] + release_side(catalog.skip(1)),
            None => release_side(catalog.skip(1)),
        }
    }
}

/// The tags of a catalog, in its order.
pub open spec fn tag_side(catalog: Seq<ReleaseAndTagView>) -> Seq<TagView>
    decreases catalog.len(),
{
    if catalog.len() == 0 {
        Seq::empty()
    } else {
        match catalog[0].tag {
            Some(t) => seq![t] + tag_side(catalog.skip(1)),
            None => tag_side(catalog.skip(1)),
        }
    }
}

/// An entry holds something, and where it holds both sides they bear one name.
pub open spec fn entry_sound(entry: ReleaseAndTagView) -> bool {
    &&& entry.release is Some || entry.tag is Some
    &&& entry.release is Some && entry.tag is Some ==> entry.release.unwrap().tag_name
        == entry.tag.unwrap().name
}

/// The store after the latest release and tag were fetched, or failed to be.
pub open spec fn after_latest(
    s: AppStateView,
    fetched: Result<(Option<ReleaseView>, Option<TagView>), FetchError>,
) -> AppStateView {
    match fetched {
        Ok((release, tag)) => AppStateView {
            nextui_release: release,
            nextui_tag: tag,
            error: None,
            ..s
        },
        Err(error) => AppStateView { error: Some(message_of(UpdateError::Fetch(error))), ..s },
    }
}

/// The store after the catalog was fetched, or failed to be.
pub open spec fn after_catalog(
    s: AppStateView,
    fetched: Result<Seq<ReleaseAndTagView>, FetchError>,
) -> AppStateView {
    match fetched {
        Ok(catalog) => s.with_catalog(catalog),
        Err(error) => AppStateView { error: Some(message_of(UpdateError::Fetch(error))), ..s },
    }
}

/// View of what a fetch of the latest release and tag brought.
pub open spec fn latest_view(
    fetched: Result<(Option<Release>, Option<Tag>), FetchError>,
) -> Result<(Option<ReleaseView>, Option<TagView>), FetchError> {
    match fetched {
        Ok((release, tag)) => Ok((release_view(release), tag_view(tag))),
        Err(error) => Err(error),
    }
}

/// View of what a fetch of the catalog brought.
pub open spec fn fetched_catalog_view(fetched: Result<Vec<ReleaseAndTag>, FetchError>) -> Result<
    Seq<ReleaseAndTagView>,
    FetchError,
> {
    match fetched {
        Ok(entries) => Ok(catalog_view(entries@)),
        Err(error) => Err(error),
    }
}

/// Whether a tag from position `from` on is called `name`.
fn has_tag_named(tags: &Vec<Tag>, from: usize, name: &String) -> (r: bool)
    requires
        from <= tags.len(),
    ensures
        r == names_tag(tags_view(tags@).skip(from as int), name@),
{
    let ghost rest = tags_view(tags@).skip(from as int);
    let mut k: usize = from;
    while k < tags.len()
        invariant
            from <= k <= tags.len(),
            rest == tags_view(tags@).skip(from as int),
            forall|i: int| 0 <= i < k - from ==> (#[trigger] rest[i]).name != name@,
        decreases tags.len() - k,
    {
        if tags[k].name == *name {
            assert(rest[k - from].name == name@);
            return true;
        }
        k += 1;
    }
    false
}

/// Merges the releases and the tags of the host, both newest first, into the
/// catalog; see [`merged`].
pub fn merge_catalog(releases: &Vec<Release>, tags: &Vec<Tag>) -> (r: Vec<ReleaseAndTag>)
    ensures
        catalog_view(r@) == merged(releases_view(releases@), tags_view(tags@)),
{
    let ghost all_releases = releases_view(releases@);
    let ghost all_tags = tags_view(tags@);
    let mut entries: Vec<ReleaseAndTag> = Vec::new();
    let mut i: usize = 0;
    let mut j: usize = 0;
    assert(all_releases.skip(0) =~= all_releases);
    assert(all_tags.skip(0) =~= all_tags);
    while i < releases.len() || j < tags.len()
        invariant
            i <= releases.len(),
            j <= tags.len(),
            all_releases == releases_view(releases@),
            all_tags == tags_view(tags@),
            catalog_view(entries@) + merged(all_releases.skip(i as int), all_tags.skip(j as int))
                == merged(all_releases, all_tags),
        decreases (releases.len() - i) + (tags.len() - j),
    {
        let ghost rest_releases = all_releases.skip(i as int);
        let ghost rest_tags = all_tags.skip(j as int);
        assert(i < releases.len() ==> rest_releases.skip(1) =~= all_releases.skip(i + 1));
        assert(j < tags.len() ==> rest_tags.skip(1) =~= all_tags.skip(j + 1));
        let entry = if i < releases.len() && j < tags.len() && releases[i].tag_name
            == tags[j].name {
            let entry = ReleaseAndTag {
                release: Some(releases[i].clone()),
                tag: Some(tags[j].clone()),
            };
            i += 1;
            j += 1;
            entry
        } else if j < tags.len() && (i >= releases.len() || has_tag_named(
            tags,
            j + 1,
            &releases[i].tag_name,
        )) {
            let entry = ReleaseAndTag { release: None, tag: Some(tags[j].clone()) };
            j += 1;
            entry
        } else {
            let entry = ReleaseAndTag { release: Some(releases[i].clone()), tag: None };
            i += 1;
            entry
        };
        entries.push(entry);
    }
    entries
}

/// Commits what a fetch of the latest release and tag brought. Success stores
/// both, either of which may be absent, and clears the error. Failure stores the
/// reason as the error and leaves what was fetched before as it is.
pub fn commit_latest(
    app_state: &mut AppState,
    fetched: Result<(Option<Release>, Option<Tag>), FetchError>,
)
    ensures
        final(app_state)@ == after_latest(old(app_state)@, latest_view(fetched)),
{
    match fetched {
        Ok((release, tag)) => {
            app_state.set_nextui_release(release);
            app_state.set_nextui_tag(tag);
            app_state.set_error(None);
        },
        Err(error) => {
            app_state.set_error(Some(error_message(UpdateError::Fetch(error))));
        },
    }
}

/// Commits what a fetch of the catalog brought. Success replaces the catalog.
/// Failure stores the reason as the error and leaves the catalog as it is.
pub fn commit_catalog(app_state: &mut AppState, fetched: Result<Vec<ReleaseAndTag>, FetchError>)
    ensures
        final(app_state)@ == after_catalog(old(app_state)@, fetched_catalog_view(fetched)),
{
    match fetched {
        Ok(entries) => {
            app_state.set_nextui_releases_and_tags(entries);
        },
        Err(error) => {
            app_state.set_error(Some(error_message(UpdateError::Fetch(error))));
        },
    }
}

/// The catalog holds every release in the order of the host's list, and every
/// tag in the order of the host's list: with both lists newest first, so is the
/// catalog.
pub proof fn lemma_merge_keeps_order(releases: Seq<ReleaseView>, tags: Seq<TagView>)
    ensures
        release_side(merged(releases, tags)) == releases,
        tag_side(merged(releases, tags)) == tags,
    decreases releases.len() + tags.len(),
{
    let m = merged(releases, tags);
    if releases.len() > 0 && tags.len() > 0 && releases[0].tag_name == tags[0].name {
        let rest = merged(releases.skip(1), tags.skip(1));
        lemma_merge_keeps_order(releases.skip(1), tags.skip(1));
        assert(m.skip(1) =~= rest);
    } else if tags.len() > 0 && (releases.len() == 0 || names_tag(
        tags.skip(1),
        releases[0].tag_name,
    )) {
        let rest = merged(releases, tags.skip(1));
        lemma_merge_keeps_order(releases, tags.skip(1));
        assert(m.skip(1) =~= rest);
    } else if releases.len() > 0 {
        let rest = merged(releases.skip(1), tags);
        lemma_merge_keeps_order(releases.skip(1), tags);
        assert(m.skip(1) =~= rest);
    }
}

/// Every entry of the catalog holds a release, a tag or both, and a release and
/// a tag share an entry only where they bear one name.
pub proof fn lemma_merge_pairs_by_name(releases: Seq<ReleaseView>, tags: Seq<TagView>, k: int)
    requires
        0 <= k < merged(releases, tags).len(),
    ensures
        entry_sound(merged(releases, tags)[k]),
    decreases releases.len() + tags.len(),
{
    if releases.len() > 0 && tags.len() > 0 && releases[0].tag_name == tags[0].name {
        if k > 0 {
            lemma_merge_pairs_by_name(releases.skip(1), tags.skip(1), k - 1);
        }
    } else if tags.len() > 0 && (releases.len() == 0 || names_tag(
        tags.skip(1),
        releases[0].tag_name,
    )) {
        if k > 0 {
            lemma_merge_pairs_by_name(releases, tags.skip(1), k - 1);
        }
    } else if releases.len() > 0 {
        if k > 0 {
            lemma_merge_pairs_by_name(releases.skip(1), tags, k - 1);
        }
    }
}

/// The catalog is no shorter than the longer list and no longer than both together.
pub proof fn lemma_merge_len(releases: Seq<ReleaseView>, tags: Seq<TagView>)
    ensures
        releases.len() <= merged(releases, tags).len(),
        tags.len() <= merged(releases, tags).len(),
        merged(releases, tags).len() <= releases.len() + tags.len(),
    decreases releases.len() + tags.len(),
{
    if releases.len() > 0 && tags.len() > 0 && releases[0].tag_name == tags[0].name {
        lemma_merge_len(releases.skip(1), tags.skip(1));
    } else if tags.len() > 0 && (releases.len() == 0 || names_tag(
        tags.skip(1),
        releases[0].tag_name,
    )) {
        lemma_merge_len(releases, tags.skip(1));
    } else if releases.len() > 0 {
        lemma_merge_len(releases.skip(1), tags);
    }
}

/// A fetch that fails changes nothing but the error: the catalog, the latest
/// release and the latest tag stay as they were.
pub proof fn lemma_failed_fetch_keeps_cache(s: AppStateView, error: FetchError)
    ensures
        after_latest(s, Err(error)) == (AppStateView {
            error: after_latest(s, Err(error)).error,
            ..s
        }),
        after_catalog(s, Err(error)) == (AppStateView {
            error: after_catalog(s, Err(error)).error,
            ..s
        }),
        after_latest(s, Err(error)).error is Some,
        after_catalog(s, Err(error)).error is Some,
{
}

} // verus!
