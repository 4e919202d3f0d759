//! Release and tag descriptors as the remote host publishes them.

use vstd::prelude::*;

verus! {

/// The commit that a tag points to.
#[derive(Debug, PartialEq, Eq)]
pub struct Commit {
    pub sha: String,
}

/// A named pointer to a commit.
#[derive(Debug, PartialEq, Eq)]
pub struct Tag {
    pub name: String,
    pub commit: Commit,
}

/// A published distribution: the tag it was cut from and the archives it offers.
///
/// `primary_asset` is the base package that every update installs;
/// `extras_asset` is the supplementary package that a full update adds.
#[derive(Debug, PartialEq, Eq)]
pub struct Release {
    pub tag_name: String,
    pub primary_asset: Option<String>,
    pub extras_asset: Option<String>,
}

/// One navigable position of the catalog: a release, a tag, or both.
#[derive(Debug, PartialEq, Eq)]
pub struct ReleaseAndTag {
    pub release: Option<Release>,
    pub tag: Option<Tag>,
}

/// Mathematical value of a [`Tag`].
pub struct TagView {
    pub name: Seq<char>,
    pub sha: Seq<char>,
}

/// Mathematical value of a [`Release`].
pub struct ReleaseView {
    pub tag_name: Seq<char>,
    pub primary_asset: Option<Seq<char>>,
    pub extras_asset: Option<Seq<char>>,
}

/// Mathematical value of a [`ReleaseAndTag`].
pub struct ReleaseAndTagView {
    pub release: Option<ReleaseView>,
    pub tag: Option<TagView>,
}

impl View for Tag {
    type V = TagView;

    open spec fn view(&self) -> TagView {
        TagView { name: self.name@, sha: self.commit.sha@ }
    }
}

impl View for Release {
    type V = ReleaseView;

    open spec fn view(&self) -> ReleaseView {
        ReleaseView {
            tag_name: self.tag_name@,
            primary_asset: self.primary_asset.deep_view(),
            extras_asset: self.extras_asset.deep_view(),
        }
    }
}

impl View for ReleaseAndTag {
    type V = ReleaseAndTagView;

    open spec fn view(&self) -> ReleaseAndTagView {
        ReleaseAndTagView { release: release_view(self.release), tag: tag_view(self.tag) }
    }
}

/// View of an optional release.
pub open spec fn release_view(release: Option<Release>) -> Option<ReleaseView> {
    match release {
        Some(r) => Some(r@),
        None => None,
    }
}

/// View of an optional tag.
pub open spec fn tag_view(tag: Option<Tag>) -> Option<TagView> {
    match tag {
        Some(t) => Some(t@),
        None => None,
    }
}

/// View of a catalog: the views of its entries, in order.
pub open spec fn catalog_view(entries: Seq<ReleaseAndTag>) -> Seq<ReleaseAndTagView> {
    entries.map_values(|e: ReleaseAndTag| e@)
}

impl Clone for Commit {
    fn clone(&self) -> (r: Self)
        ensures
            r == *self,
    {
        Commit { sha: self.sha.clone() }
    }
}

impl Clone for Tag {
    fn clone(&self) -> (r: Self)
        ensures
            r == *self,
    {
        Tag { name: self.name.clone(), commit: self.commit.clone() }
    }
}

impl Clone for Release {
    fn clone(&self) -> (r: Self)
        ensures
            r == *self,
    {
        Release {
            tag_name: self.tag_name.clone(),
            primary_asset: self.primary_asset.clone(),
            extras_asset: self.extras_asset.clone(),
        }
    }
}

impl Clone for ReleaseAndTag {
    fn clone(&self) -> (r: Self)
        ensures
            r == *self,
    {
        ReleaseAndTag { release: self.release.clone(), tag: self.tag.clone() }
    }
}

} // verus!
