//! The track data that upstream reports, with a mathematical view of each
//! type and copying that is proved to keep that view.

use vstd::prelude::*;

verus! {

/// A value that can be copied field by field, the copy having the same view.
pub trait Replicate: DeepView + Sized {
    fn replicate(&self) -> (copy: Self)
        ensures
            copy.deep_view() == self.deep_view(),
    ;
}

/// Copies the first `count` elements of `items`, in their order.
pub fn copy_prefix<T: Replicate>(items: &Vec<T>, count: usize) -> (copy: Vec<T>)
    requires
        count <= items.len(),
    ensures
        copy.deep_view() == items.deep_view().subrange(0, count as int),
{
    let mut copy: Vec<T> = Vec::new();
    let mut i: usize = 0;
    while i < count
        invariant
            i <= count <= items.len(),
            copy.len() == i,
            forall|j: int| 0 <= j < i ==> copy@[j].deep_view() == items@[j].deep_view(),
        decreases count - i,
    {
        copy.push(items[i].replicate());
        i += 1;
    }
    assert(copy.deep_view() =~= items.deep_view().subrange(0, count as int));
    copy
}

/// Copies a whole list.
pub fn copy_all<T: Replicate>(items: &Vec<T>) -> (copy: Vec<T>)
    ensures
        copy.deep_view() == items.deep_view(),
{
    let copy = copy_prefix(items, items.len());
    assert(items.deep_view().subrange(0, items.len() as int) =~= items.deep_view());
    copy
}

/// Links to a resource on the upstream site.
#[derive(Debug, PartialEq, Eq)]
pub struct ExternalUrls {
    pub spotify: String,
}

/// The view of [`ExternalUrls`].
pub struct ExternalUrlsView {
    pub spotify: Seq<char>,
}

impl View for ExternalUrls {
    type V = ExternalUrlsView;

    open spec fn view(&self) -> ExternalUrlsView {
        ExternalUrlsView { spotify: self.spotify@ }
    }
}

impl DeepView for ExternalUrls {
    type V = ExternalUrlsView;

    open spec fn deep_view(&self) -> ExternalUrlsView {
        self.view()
    }
}

impl Clone for ExternalUrls {
    fn clone(&self) -> (copy: Self)
        ensures
            copy@ == self@,
    {
        self.replicate()
    }
}

impl Replicate for ExternalUrls {
    fn replicate(&self) -> (copy: Self) {
        ExternalUrls { spotify: self.spotify.clone() }
    }
}

/// One rendition of an album's cover.
#[derive(Debug, PartialEq, Eq)]
pub struct Image {
    pub height: i64,
    pub url: String,
    pub width: i64,
}

/// The view of an [`Image`].
pub struct ImageView {
    pub height: int,
    pub url: Seq<char>,
    pub width: int,
}

impl View for Image {
    type V = ImageView;

    open spec fn view(&self) -> ImageView {
        ImageView { height: self.height as int, url: self.url@, width: self.width as int }
    }
}

impl DeepView for Image {
    type V = ImageView;

    open spec fn deep_view(&self) -> ImageView {
        self.view()
    }
}

impl Clone for Image {
    fn clone(&self) -> (copy: Self)
        ensures
            copy@ == self@,
    {
        self.replicate()
    }
}

impl Replicate for Image {
    fn replicate(&self) -> (copy: Self) {
        Image { height: self.height, url: self.url.clone(), width: self.width }
    }
}

/// A performer credited on a track or an album.
#[derive(Debug, PartialEq, Eq)]
pub struct Artist {
    pub external_urls: ExternalUrls,
    pub href: String,
    pub name: String,
    pub uri: String,
}

/// The view of an [`Artist`].
pub struct ArtistView {
    pub external_urls: ExternalUrlsView,
    pub href: Seq<char>,
    pub name: Seq<char>,
    pub uri: Seq<char>,
}

impl View for Artist {
    type V = ArtistView;

    open spec fn view(&self) -> ArtistView {
        ArtistView {
            external_urls: self.external_urls@,
            href: self.href@,
            name: self.name@,
            uri: self.uri@,
        }
    }
}

impl DeepView for Artist {
    type V = ArtistView;

    open spec fn deep_view(&self) -> ArtistView {
        self.view()
    }
}

impl Clone for Artist {
    fn clone(&self) -> (copy: Self)
        ensures
            copy@ == self@,
    {
        self.replicate()
    }
}

impl Replicate for Artist {
    fn replicate(&self) -> (copy: Self) {
        Artist {
            external_urls: self.external_urls.replicate(),
            href: self.href.clone(),
            name: self.name.clone(),
            uri: self.uri.clone(),
        }
    }
}

/// The album a track was released on.
#[derive(Debug, PartialEq, Eq)]
pub struct Album {
    pub album_type: String,
    pub artists: Vec<Artist>,
    pub external_urls: ExternalUrls,
    pub images: Vec<Image>,
    pub name: String,
    pub uri: String,
}

/// The view of an [`Album`].
pub struct AlbumView {
    pub album_type: Seq<char>,
    pub artists: Seq<ArtistView>,
    pub external_urls: ExternalUrlsView,
    pub images: Seq<ImageView>,
    pub name: Seq<char>,
    pub uri: Seq<char>,
}

impl View for Album {
    type V = AlbumView;

    open spec fn view(&self) -> AlbumView {
        AlbumView {
            album_type: self.album_type@,
            artists: self.artists.deep_view(),
            external_urls: self.external_urls@,
            images: self.images.deep_view(),
            name: self.name@,
            uri: self.uri@,
        }
    }
}

impl DeepView for Album {
    type V = AlbumView;

    open spec fn deep_view(&self) -> AlbumView {
        self.view()
    }
}

impl Clone for Album {
    fn clone(&self) -> (copy: Self)
        ensures
            copy@ == self@,
    {
        self.replicate()
    }
}

impl Replicate for Album {
    fn replicate(&self) -> (copy: Self) {
        Album {
            album_type: self.album_type.clone(),
            artists: copy_all(&self.artists),
            external_urls: self.external_urls.replicate(),
            images: copy_all(&self.images),
            name: self.name.clone(),
            uri: self.uri.clone(),
        }
    }
}

/// A track as upstream describes it.
#[derive(Debug, PartialEq, Eq)]
pub struct Item {
    pub name: String,
    pub duration_ms: i64,
    pub preview_url: Option<String>,
    pub album: Album,
    pub artists: Vec<Artist>,
    pub external_urls: ExternalUrls,
}

/// The view of an [`Item`].
pub struct ItemView {
    pub name: Seq<char>,
    pub duration_ms: int,
    pub preview_url: Option<Seq<char>>,
    pub album: AlbumView,
    pub artists: Seq<ArtistView>,
    pub external_urls: ExternalUrlsView,
}

impl View for Item {
    type V = ItemView;

    open spec fn view(&self) -> ItemView {
        ItemView {
            name: self.name@,
            duration_ms: self.duration_ms as int,
            preview_url: self.preview_url.deep_view(),
            album: self.album@,
            artists: self.artists.deep_view(),
            external_urls: self.external_urls@,
        }
    }
}

impl DeepView for Item {
    type V = ItemView;

    open spec fn deep_view(&self) -> ItemView {
        self.view()
    }
}

impl Clone for Item {
    fn clone(&self) -> (copy: Self)
        ensures
            copy@ == self@,
    {
        self.replicate()
    }
}

impl Replicate for Item {
    fn replicate(&self) -> (copy: Self) {
        let preview_url = match &self.preview_url {
            Some(url) => Some(url.clone()),
            None => None,
        };
        Item {
            name: self.name.clone(),
            duration_ms: self.duration_ms,
            preview_url,
            album: self.album.replicate(),
            artists: copy_all(&self.artists),
            external_urls: self.external_urls.replicate(),
        }
    }
}

/// What was playing at one moment: the track, how far into it playback
/// was, and when that was observed.
#[derive(Debug, PartialEq, Eq)]
pub struct CurrentSong {
    pub progress_ms: i64,
    pub timestamp: i64,
    pub item: Item,
    pub is_playing: bool,
}

/// The view of a [`CurrentSong`].
pub struct CurrentSongView {
    pub progress_ms: int,
    pub timestamp: int,
    pub item: ItemView,
    pub is_playing: bool,
}

impl CurrentSongView {
    /// Playing time left in the track when the snapshot was taken.
    pub open spec fn remaining(self) -> int {
        self.item.duration_ms - self.progress_ms
    }

    /// The snapshot as it reads `elapsed` milliseconds later: progress has
    /// advanced by that much, the observation time is `now`, and the track
    /// is the same.
    pub open spec fn advanced(self, elapsed: int, now: int) -> CurrentSongView {
        CurrentSongView {
            progress_ms: self.progress_ms + elapsed,
            timestamp: now,
            item: self.item,
            is_playing: self.is_playing,
        }
    }
}

impl View for CurrentSong {
    type V = CurrentSongView;

    open spec fn view(&self) -> CurrentSongView {
        CurrentSongView {
            progress_ms: self.progress_ms as int,
            timestamp: self.timestamp as int,
            item: self.item@,
            is_playing: self.is_playing,
        }
    }
}

impl DeepView for CurrentSong {
    type V = CurrentSongView;

    open spec fn deep_view(&self) -> CurrentSongView {
        self.view()
    }
}

impl Clone for CurrentSong {
    fn clone(&self) -> (copy: Self)
        ensures
            copy@ == self@,
    {
        self.replicate()
    }
}

impl Replicate for CurrentSong {
    fn replicate(&self) -> (copy: Self) {
        CurrentSong {
            progress_ms: self.progress_ms,
            timestamp: self.timestamp,
            item: self.item.replicate(),
            is_playing: self.is_playing,
        }
    }
}

impl CurrentSong {
    /// A copy of the snapshot with the given progress and observation time.
    /// The stored snapshot is left as it is.
    pub fn at_progress(&self, progress_ms: i64, now: i64) -> (copy: CurrentSong)
        ensures
            copy@ == self@.advanced(progress_ms - self.progress_ms, now as int),
    {
        CurrentSong {
            progress_ms,
            timestamp: now,
            item: self.item.replicate(),
            is_playing: self.is_playing,
        }
    }
}

/// The body of a top-tracks reply: tracks in rank order, best first.
#[derive(Debug, PartialEq, Eq)]
pub struct TopItems {
    pub items: Vec<Item>,
}

impl View for TopItems {
    type V = Seq<ItemView>;

    open spec fn view(&self) -> Seq<ItemView> {
        self.items.deep_view()
    }
}

impl DeepView for TopItems {
    type V = Seq<ItemView>;

    open spec fn deep_view(&self) -> Seq<ItemView> {
        self.view()
    }
}

impl Clone for TopItems {
    fn clone(&self) -> (copy: Self)
        ensures
            copy@ == self@,
    {
        self.replicate()
    }
}

impl Replicate for TopItems {
    fn replicate(&self) -> (copy: Self) {
        TopItems { items: copy_all(&self.items) }
    }
}

/// The first `limit` entries of a ranking, or all of it where it is shorter.
pub open spec fn ranked_prefix(items: Seq<ItemView>, limit: int) -> Seq<ItemView> {
    if limit < items.len() {
        items.subrange(0, limit)
    } else {
        items
    }
}

/// Copies the first `limit` tracks of `items` in rank order; nothing is
/// re-sorted and the list itself is not changed.
pub fn top_prefix(items: &Vec<Item>, limit: usize) -> (copy: Vec<Item>)
    ensures
        copy.deep_view() == ranked_prefix(items.deep_view(), limit as int),
{
    if limit < items.len() {
        copy_prefix(items, limit)
    } else {
        copy_all(items)
    }
}

} // verus!
