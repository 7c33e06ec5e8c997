//! The track that is playing: its data, the two fixed tracks that stand in for
//! one, and how a track is read out of a player document.

use crate::json::{lemma_list_views, Json, JsonView};
use vstd::prelude::*;

verus! {

/// Address of the artwork shown while no track supplies one.
pub const PLACEHOLDER_IMAGE: &'static str = "images/placeholder.jpg";

/// Title of the track shown while the curated playlist announces the next one.
pub const UP_NEXT_NAME: &'static str = "Up next";

/// Artist of the track shown while the curated playlist announces the next one.
pub const UP_NEXT_ARTIST: &'static str = "DJ X";

/// Artwork of the track shown while the curated playlist announces the next one.
pub const UP_NEXT_IMAGE: &'static str =
    "https://lexicon-assets.spotifycdn.com/DJ-Beta-CoverArt-640.jpg";

/// One piece of artwork, by its address.
#[derive(Debug, Clone, PartialEq, Eq)]
pub struct Image {
    pub url: String,
}

/// One performer of a track.
#[derive(Debug, Clone, PartialEq, Eq)]
pub struct Artist {
    pub name: String,
}

/// The album a track belongs to, with its artwork in the order received.
#[derive(Debug, Clone, PartialEq, Eq)]
pub struct Album {
    pub images: Vec<Image>,
    pub name: String,
}

/// A track as the player reports it.
#[derive(Debug, Clone, PartialEq, Eq)]
pub struct Track {
    pub name: String,
    pub artists: Vec<Artist>,
    pub album: Album,
}

/// An album as mathematics: its name and the addresses of its artwork.
pub struct AlbumView {
    pub images: Seq<Seq<char>>,
    pub name: Seq<char>,
}

/// A track as mathematics: its name, the names of its artists, its album.
pub struct TrackView {
    pub name: Seq<char>,
    pub artists: Seq<Seq<char>>,
    pub album: AlbumView,
}

impl View for Image {
    type V = Seq<char>;

    open spec fn view(&self) -> Seq<char> {
        self.url@
    }
}

impl View for Artist {
    type V = Seq<char>;

    open spec fn view(&self) -> Seq<char> {
        self.name@
    }
}

impl View for Album {
    type V = AlbumView;

    open spec fn view(&self) -> AlbumView {
        AlbumView { images: self.images@.map_values(|i: Image| i@), name: self.name@ }
    }
}

impl View for Track {
    type V = TrackView;

    open spec fn view(&self) -> TrackView {
        TrackView {
            name: self.name@,
            artists: self.artists@.map_values(|a: Artist| a@),
            album: self.album@,
        }
    }
}

impl DeepView for Track {
    type V = TrackView;

    open spec fn deep_view(&self) -> TrackView {
        self@
    }
}

impl DeepView for Album {
    type V = AlbumView;

    open spec fn deep_view(&self) -> AlbumView {
        self@
    }
}

/// The track shown while nothing is playing: no name, no artists, an unnamed
/// album with the placeholder artwork.
pub open spec fn nothing_playing() -> TrackView {
    TrackView {
        name: Seq::empty(),
        artists: Seq::empty(),
        album: AlbumView { images: seq![PLACEHOLDER_IMAGE@], name: Seq::empty() },
    }
}

/// The track shown in place of the curated playlist's announcements.
pub open spec fn up_next() -> TrackView {
    TrackView {
        name: UP_NEXT_NAME@,
        artists: seq![UP_NEXT_ARTIST@],
        album: AlbumView { images: seq![UP_NEXT_IMAGE@], name: Seq::empty() },
    }
}

impl Default for Image {
    fn default() -> (image: Image)
        ensures
            image@ == PLACEHOLDER_IMAGE@,
    {
        Image { url: PLACEHOLDER_IMAGE.to_owned() }
    }
}

impl Default for Album {
    fn default() -> (album: Album)
        ensures
            album@ == nothing_playing().album,
    {
        let mut images: Vec<Image> = Vec::new();
        images.push(Image::default());
        let album = Album { images, name: String::new() };
        assert(album@.images =~= seq![PLACEHOLDER_IMAGE@]);
        album
    }
}

impl Default for Track {
    fn default() -> (track: Track)
        ensures
            track@ == nothing_playing(),
    {
        let track = Track { name: String::new(), artists: Vec::new(), album: Album::default() };
        assert(track@.artists =~= Seq::empty());
        track
    }
}

impl Track {
    /// The track shown in place of the curated playlist's announcements.
    pub fn up_next() -> (track: Track)
        ensures
            track@ == up_next(),
    {
        let mut artists: Vec<Artist> = Vec::new();
        artists.push(Artist { name: UP_NEXT_ARTIST.to_owned() });
        let mut images: Vec<Image> = Vec::new();
        images.push(Image { url: UP_NEXT_IMAGE.to_owned() });
        let track = Track {
            name: UP_NEXT_NAME.to_owned(),
            artists,
            album: Album { images, name: String::new() },
        };
        assert(track@.artists =~= seq![UP_NEXT_ARTIST@]);
        assert(track@.album.images =~= seq![UP_NEXT_IMAGE@]);
        track
    }
}

/// The strings that the elements of `items` hold under `key`, where every
/// element is an object that holds a string there.
pub open spec fn member_texts(items: Seq<JsonView>, key: Seq<char>) -> Option<Seq<Seq<char>>> {
    if forall|i: int| 0 <= i < items.len() ==> (#[trigger] items[i]).text_member(key) is Some {
        Some(Seq::new(items.len(), |i: int| items[i].text_member(key).unwrap()))
    } else {
        None
    }
}

/// The strings that the elements of the array under `list_key` hold under
/// `key`.
pub open spec fn listed_texts(doc: JsonView, list_key: Seq<char>, key: Seq<char>) -> Option<
    Seq<Seq<char>>,
> {
    match doc.member(list_key) {
        Some(list) => match list.items() {
            Some(items) => member_texts(items, key),
            None => None,
        },
        None => None,
    }
}

/// The album that an album document describes: a `name` string and an
/// `images` array whose elements each hold a `url` string.
pub open spec fn album_of(doc: JsonView) -> Option<AlbumView> {
    match (listed_texts(doc, "images"@, "url"@), doc.text_member("name"@)) {
        (Some(images), Some(name)) => Some(AlbumView { images, name }),
        _ => None,
    }
}

/// The track that a track document describes: a `name` string, an `artists`
/// array whose elements each hold a `name` string, and an `album`.
pub open spec fn track_of(doc: JsonView) -> Option<TrackView> {
    match (doc.text_member("name"@), listed_texts(doc, "artists"@, "name"@), doc.member("album"@)) {
        (Some(name), Some(artists), Some(album_doc)) => match album_of(album_doc) {
            Some(album) => Some(TrackView { name, artists, album }),
            None => None,
        },
        _ => None,
    }
}

/// Reads the strings that the elements of the array under `list_key` hold
/// under `key`.
fn read_listed_texts(doc: &Json, list_key: &str, key: &str) -> (r: Option<Vec<String>>)
    ensures
        match r {
            Some(texts) => listed_texts(doc@, list_key@, key@) == Some(
                texts@.map_values(|t: String| t@),
            ),
            None => listed_texts(doc@, list_key@, key@) is None,
        },
{
    let list = match doc.get(list_key) {
        Some(list) => list,
        None => { return None; },
    };
    let items = match list.as_list() {
        Some(items) => items,
        None => { return None; },
    };
    let ghost views = crate::json::list_views(items@);
    proof {
        lemma_list_views(items@);
    }
    let mut texts: Vec<String> = Vec::new();
    let mut i: usize = 0;
    while i < items.len()
        invariant
            i <= items.len(),
            texts.len() == i,
            views.len() == items.len(),
            forall|j: int| 0 <= j < views.len() ==> #[trigger] views[j] == items@[j]@,
            listed_texts(doc@, list_key@, key@) == member_texts(views, key@),
            forall|j: int| 0 <= j < i ==> (#[trigger] views[j]).text_member(key@) == Some(texts@[j]@),
        decreases items.len() - i,
    {
        assert(views[i as int] == items@[i as int]@);
        match items[i].text_member_of(key) {
            Some(text) => {
                texts.push(text.to_owned());
            },
            None => {
                return None;
            },
        }
        i += 1;
    }
    assert(member_texts(views, key@).unwrap() =~= texts@.map_values(|t: String| t@));
    Some(texts)
}

/// One image for each address, in order.
fn images_at(urls: Vec<String>) -> (images: Vec<Image>)
    ensures
        images@.map_values(|i: Image| i@) == urls@.map_values(|t: String| t@),
{
    let ghost wanted = urls@.map_values(|t: String| t@);
    let mut urls = urls;
    let mut images: Vec<Image> = Vec::new();
    let mut i: usize = 0;
    while i < urls.len()
        invariant
            i <= urls.len(),
            images.len() == i,
            urls.len() == wanted.len(),
            forall|j: int| 0 <= j < i ==> (#[trigger] images@[j])@ == wanted[j],
            forall|j: int| i <= j < urls.len() ==> (#[trigger] urls@[j])@ == wanted[j],
        decreases urls.len() - i,
    {
        let mut url = String::new();
        std::mem::swap(&mut url, &mut urls[i]);
        images.push(Image { url });
        i += 1;
    }
    assert(images@.map_values(|i: Image| i@) =~= wanted);
    images
}

/// One artist for each name, in order.
fn artists_named(names: Vec<String>) -> (artists: Vec<Artist>)
    ensures
        artists@.map_values(|a: Artist| a@) == names@.map_values(|t: String| t@),
{
    let ghost wanted = names@.map_values(|t: String| t@);
    let mut names = names;
    let mut artists: Vec<Artist> = Vec::new();
    let mut i: usize = 0;
    while i < names.len()
        invariant
            i <= names.len(),
            artists.len() == i,
            names.len() == wanted.len(),
            forall|j: int| 0 <= j < i ==> (#[trigger] artists@[j])@ == wanted[j],
            forall|j: int| i <= j < names.len() ==> (#[trigger] names@[j])@ == wanted[j],
        decreases names.len() - i,
    {
        let mut name = String::new();
        std::mem::swap(&mut name, &mut names[i]);
        artists.push(Artist { name });
        i += 1;
    }
    assert(artists@.map_values(|a: Artist| a@) =~= wanted);
    artists
}

impl Album {
    /// Reads an album out of an album document.
    pub fn from_json(doc: &Json) -> (r: Option<Album>)
        ensures
            r.deep_view() == album_of(doc@),
    {
        let urls = match read_listed_texts(doc, "images", "url") {
            Some(urls) => urls,
            None => { return None; },
        };
        let name = match doc.text_member_of("name") {
            Some(name) => name.to_owned(),
            None => { return None; },
        };
        Some(Album { images: images_at(urls), name })
    }
}

impl Track {
    /// Reads a track out of a track document.
    pub fn from_json(doc: &Json) -> (r: Option<Track>)
        ensures
            r.deep_view() == track_of(doc@),
    {
        let name = match doc.text_member_of("name") {
            Some(name) => name.to_owned(),
            None => { return None; },
        };
        let names = match read_listed_texts(doc, "artists", "name") {
            Some(names) => names,
            None => { return None; },
        };
        let album = match doc.get("album") {
            Some(album_doc) => match Album::from_json(album_doc) {
                Some(album) => album,
                None => { return None; },
            },
            None => { return None; },
        };
        Some(Track { name, artists: artists_named(names), album })
    }
}

} // verus!
