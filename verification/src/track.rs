//! Track and playlist metadata as the audio server reports it, together with
//! the rules that replace placeholder titles, authors and names.

use vstd::prelude::*;
use std::sync::Arc;

verus! {

/// The title the audio server reports for a track whose title is unknown.
pub const UNKNOWN_TITLE: &'static str = "Unknown title";

/// The author the audio server reports for a track whose author is unknown.
pub const UNKNOWN_ARTIST: &'static str = "Unknown artist";

/// The title shown in place of a missing track title.
pub const UNTITLED_TRACK: &'static str = "[Untitled Track]";

/// The author shown in place of a missing track author.
pub const UNKNOWN_ARTIST_TEXT: &'static str = "[Unknown Artist]";

/// The name shown in place of a missing playlist name.
pub const UNNAMED_PLAYLIST: &'static str = "[Unnamed Playlist]";

/// Whether two string slices hold the same characters.
fn str_eq(a: &str, b: &str) -> (r: bool)
    ensures
        r == (a@ == b@),
{
    let n = a.unicode_len();
    if n != b.unicode_len() {
        return false;
    }
    let mut i: usize = 0;
    while i < n
        invariant
            n == a@.len(),
            n == b@.len(),
            i <= n,
            forall|j: int| 0 <= j < i ==> a@[j] == b@[j],
        decreases n - i,
    {
        if a.get_char(i) != b.get_char(i) {
            return false;
        }
        i = i + 1;
    }
    assert(a@ =~= b@);
    true
}

/// Basic information about a track.
pub struct TrackInfo {
    pub identifier: String,
    pub is_seekable: bool,
    pub author: String,
    pub length: u64,
    pub is_stream: bool,
    pub position: u64,
    pub title: String,
    pub uri: Option<String>,
    pub artwork_url: Option<String>,
    pub isrc: Option<String>,
    pub source_name: String,
}

/// Additional track information supplied by the source plugin.
pub struct PluginTrackInfo {
    /// The name of the album
    pub album_name: Option<String>,
    /// The url of the album art
    pub album_art_url: Option<String>,
    /// The url of the artist
    pub artist_url: Option<String>,
    /// The url of the artist artwork
    pub artist_artwork_uri: Option<String>,
    /// The url of the preview
    pub preview_url: Option<String>,
    /// Whether the track is a preview
    pub is_preview: bool,
}

/// The kind of a playlist, as the source plugin reports it.
#[derive(Clone, Copy, Debug, PartialEq, Eq, Structural)]
pub enum PlaylistType {
    /// The playlist is an album
    Album,
    /// The playlist is a playlist
    Playlist,
    /// The playlist is an artist
    Artist,
    /// The playlist is a recommendations playlist
    Recommendations,
}

/// Additional playlist information supplied by the source plugin.
pub struct PluginPlaylistInfo {
    /// The type of the playlist
    pub kind: PlaylistType,
    /// The url of the playlist
    pub url: Option<String>,
    /// The url of the playlist artwork
    pub artwork_url: Option<String>,
    /// The author of the playlist
    pub author: Option<String>,
    /// The total number of tracks in the playlist
    pub total_tracks: Option<usize>,
}

/// A loaded track: its encoded form, its information and, when the source
/// plugin supplied any, the plugin's information.
pub struct TrackData {
    pub encoded: String,
    pub info: TrackInfo,
    pub plugin_info: Option<PluginTrackInfo>,
}

/// Basic information about a playlist.
pub struct PlaylistInfo {
    pub name: String,
    pub selected_track: i64,
}

/// Marks the information types whose placeholder values get corrected.
pub trait CorrectInfo {}

impl CorrectInfo for TrackInfo {}

impl CorrectInfo for PlaylistInfo {}

/// `text` itself unless it is the placeholder `incorrect`.
pub open spec fn checked_text(text: Seq<char>, incorrect: Seq<char>) -> Option<Seq<char>> {
    if text == incorrect {
        None
    } else {
        Some(text)
    }
}

/// `text` itself, or `default` in place of the placeholder `incorrect`.
pub open spec fn corrected_text(text: Seq<char>, incorrect: Seq<char>, default: Seq<char>) -> Seq<
    char,
> {
    if text == incorrect {
        default
    } else {
        text
    }
}

/// Only the placeholder itself is replaced: checking keeps every other text
/// unchanged and drops the placeholder, and correcting keeps every other text
/// and puts the default in place of the placeholder.
pub proof fn lemma_only_the_placeholder_is_replaced(
    text: Seq<char>,
    incorrect: Seq<char>,
    default: Seq<char>,
)
    ensures
        (checked_text(text, incorrect) is None) == (text == incorrect),
        text != incorrect ==> checked_text(text, incorrect) == Some(text),
        text != incorrect ==> corrected_text(text, incorrect, default) == text,
        text == incorrect ==> corrected_text(text, incorrect, default) == default,
{
}

/// The view of an optional string slice.
pub open spec fn opt_str_view(o: Option<&str>) -> Option<Seq<char>> {
    match o {
        Some(s) => Some(s@),
        None => None,
    }
}

/// The view of an optional owned string.
pub open spec fn opt_string_view(o: Option<String>) -> Option<Seq<char>> {
    match o {
        Some(s) => Some(s@),
        None => None,
    }
}

fn check_text<'a>(text: &'a str, incorrect: &str) -> (r: Option<&'a str>)
    ensures
        opt_str_view(r) == checked_text(text@, incorrect@),
{
    if str_eq(text, incorrect) {
        None
    } else {
        Some(text)
    }
}

fn take_string(s: &mut String) -> (r: String)
    ensures
        r@ == old(s)@,
        final(s)@ == Seq::<char>::empty(),
{
    let mut out = String::new();
    std::mem::swap(&mut out, s);
    out
}

/// Corrects placeholder titles and authors of tracks.
pub trait CorrectTrackInfo: CorrectInfo {
    fn title(&self) -> &str;

    fn take_title(&mut self) -> String;

    fn checked_title(&self) -> Option<&str>;

    fn corrected_title(&self) -> &str;

    fn take_and_correct_title(&mut self) -> String;

    fn author(&self) -> &str;

    fn take_author(&mut self) -> String;

    fn checked_author(&self) -> Option<&str>;

    fn corrected_author(&self) -> &str;

    fn take_and_correct_author(&mut self) -> String;
}

impl CorrectTrackInfo for TrackInfo {
    fn title(&self) -> (r: &str)
        ensures
            r@ == self.title@,
    {
        self.title.as_str()
    }

    fn take_title(&mut self) -> (r: String)
        ensures
            r@ == old(self).title@,
            final(self).title@ == Seq::<char>::empty(),
            final(self).author == old(self).author,
            final(self).uri == old(self).uri,
            final(self).length == old(self).length,
    {
        take_string(&mut self.title)
    }

    fn checked_title(&self) -> (r: Option<&str>)
        ensures
            opt_str_view(r) == checked_text(self.title@, UNKNOWN_TITLE@),
    {
        check_text(self.title.as_str(), UNKNOWN_TITLE)
    }

    fn corrected_title(&self) -> (r: &str)
        ensures
            r@ == corrected_text(self.title@, UNKNOWN_TITLE@, UNTITLED_TRACK@),
    {
        match check_text(self.title.as_str(), UNKNOWN_TITLE) {
            Some(t) => t,
            None => UNTITLED_TRACK,
        }
    }

    fn take_and_correct_title(&mut self) -> (r: String)
        ensures
            r@ == corrected_text(old(self).title@, UNKNOWN_TITLE@, UNTITLED_TRACK@),
            final(self).title@ == Seq::<char>::empty(),
            final(self).author == old(self).author,
    {
        let title = take_string(&mut self.title);
        if check_text(title.as_str(), UNKNOWN_TITLE).is_some() {
            title
        } else {
            UNTITLED_TRACK.to_owned()
        }
    }

    fn author(&self) -> (r: &str)
        ensures
            r@ == self.author@,
    {
        self.author.as_str()
    }

    fn take_author(&mut self) -> (r: String)
        ensures
            r@ == old(self).author@,
            final(self).author@ == Seq::<char>::empty(),
            final(self).title == old(self).title,
            final(self).uri == old(self).uri,
            final(self).length == old(self).length,
    {
        take_string(&mut self.author)
    }

    fn checked_author(&self) -> (r: Option<&str>)
        ensures
            opt_str_view(r) == checked_text(self.author@, UNKNOWN_ARTIST@),
    {
        check_text(self.author.as_str(), UNKNOWN_ARTIST)
    }

    fn corrected_author(&self) -> (r: &str)
        ensures
            r@ == corrected_text(self.author@, UNKNOWN_ARTIST@, UNKNOWN_ARTIST_TEXT@),
    {
        match check_text(self.author.as_str(), UNKNOWN_ARTIST) {
            Some(t) => t,
            None => UNKNOWN_ARTIST_TEXT,
        }
    }

    fn take_and_correct_author(&mut self) -> (r: String)
        ensures
            r@ == corrected_text(old(self).author@, UNKNOWN_ARTIST@, UNKNOWN_ARTIST_TEXT@),
            final(self).author@ == Seq::<char>::empty(),
            final(self).title == old(self).title,
    {
        let author = take_string(&mut self.author);
        if check_text(author.as_str(), UNKNOWN_ARTIST).is_some() {
            author
        } else {
            UNKNOWN_ARTIST_TEXT.to_owned()
        }
    }
}

/// Corrects placeholder names of playlists.
pub trait CorrectPlaylistInfo: CorrectInfo {
    fn name(&self) -> &str;

    fn take_name(&mut self) -> String;

    fn checked_name(&self) -> Option<&str>;

    fn corrected_name(&self) -> &str;

    fn take_and_correct_name(&mut self) -> String;
}

impl CorrectPlaylistInfo for PlaylistInfo {
    fn name(&self) -> (r: &str)
        ensures
            r@ == self.name@,
    {
        self.name.as_str()
    }

    fn take_name(&mut self) -> (r: String)
        ensures
            r@ == old(self).name@,
            final(self).name@ == Seq::<char>::empty(),
            final(self).selected_track == old(self).selected_track,
    {
        take_string(&mut self.name)
    }

    fn checked_name(&self) -> (r: Option<&str>)
        ensures
            opt_str_view(r) == checked_text(self.name@, UNKNOWN_TITLE@),
    {
        check_text(self.name.as_str(), UNKNOWN_TITLE)
    }

    fn corrected_name(&self) -> (r: &str)
        ensures
            r@ == corrected_text(self.name@, UNKNOWN_TITLE@, UNNAMED_PLAYLIST@),
    {
        match check_text(self.name.as_str(), UNKNOWN_TITLE) {
            Some(t) => t,
            None => UNNAMED_PLAYLIST,
        }
    }

    fn take_and_correct_name(&mut self) -> (r: String)
        ensures
            r@ == corrected_text(old(self).name@, UNKNOWN_TITLE@, UNNAMED_PLAYLIST@),
            final(self).name@ == Seq::<char>::empty(),
            final(self).selected_track == old(self).selected_track,
    {
        let name = take_string(&mut self.name);
        if check_text(name.as_str(), UNKNOWN_TITLE).is_some() {
            name
        } else {
            UNNAMED_PLAYLIST.to_owned()
        }
    }
}

/// Gives the address of a track that is not a local file.
pub trait UnwrappedPlayerInfoUri: Sized {
    /// Whether the information carries an address.
    spec fn has_uri(&self) -> bool;

    fn into_uri_unwrapped(self) -> String
        requires
            self.has_uri(),
    ;

    fn uri_unwrapped(&self) -> &str
        requires
            self.has_uri(),
    ;
}

impl UnwrappedPlayerInfoUri for TrackInfo {
    open spec fn has_uri(&self) -> bool {
        self.uri is Some
    }

    fn uri_unwrapped(&self) -> (r: &str)
        ensures
            r@ == self.uri->0@,
    {
        match &self.uri {
            Some(u) => u.as_str(),
            None => { proof { assert(false); } "" },
        }
    }

    fn into_uri_unwrapped(self) -> (r: String)
        ensures
            r@ == self.uri->0@,
    {
        match self.uri {
            Some(u) => u,
            None => { proof { assert(false); } String::new() },
        }
    }
}

/// Playlist information kept with each track that was loaded from it.
pub struct PlaylistMetadata {
    pub uri: String,
    info: PlaylistInfo,
    plugin_info: Option<PluginPlaylistInfo>,
}

impl PlaylistMetadata {
    pub closed spec fn spec_uri(&self) -> Seq<char> {
        self.uri@
    }

    pub closed spec fn spec_info(&self) -> PlaylistInfo {
        self.info
    }

    pub closed spec fn spec_plugin_info(&self) -> Option<PluginPlaylistInfo> {
        self.plugin_info
    }

    pub fn new(uri: String, info: PlaylistInfo, plugin_info: Option<PluginPlaylistInfo>) -> (r:
        Self)
        ensures
            r.spec_uri() == uri@,
            r.spec_info() == info,
            r.spec_plugin_info() == plugin_info,
    {
        Self { uri, info, plugin_info }
    }

    pub fn uri(&self) -> (r: &str)
        ensures
            r@ == self.spec_uri(),
    {
        self.uri.as_str()
    }

    pub fn corrected_name(&self) -> (r: &str)
        ensures
            r@ == corrected_text(self.spec_info().name@, UNKNOWN_TITLE@, UNNAMED_PLAYLIST@),
    {
        self.info.corrected_name()
    }

    pub fn plugin_info(&self) -> (r: Option<&PluginPlaylistInfo>)
        ensures
            r == match self.spec_plugin_info() {
                Some(p) => Some(&p),
                None => None::<&PluginPlaylistInfo>,
            },
    {
        self.plugin_info.as_ref()
    }
}

/// Another handle on the same shared playlist, made with `Arc::clone`.
/// Claimed: it points to the same value.
#[verifier::external_body]
fn share_playlist(p: &Arc<PlaylistMetadata>) -> (r: Arc<PlaylistMetadata>)
    ensures
        r == *p,
{
    Arc::clone(p)
}

/// A track together with the playlist it was loaded from, if any.
pub struct PlaylistAwareTrackData {
    inner: TrackData,
    playlist: Option<Arc<PlaylistMetadata>>,
}

impl PlaylistAwareTrackData {
    pub closed spec fn spec_inner(&self) -> TrackData {
        self.inner
    }

    pub closed spec fn spec_playlist(&self) -> Option<PlaylistMetadata> {
        match self.playlist {
            Some(p) => Some(*p),
            None => None,
        }
    }

    pub fn new(inner: TrackData, playlist: Arc<PlaylistMetadata>) -> (r: Self)
        ensures
            r.spec_inner() == inner,
            r.spec_playlist() == Some(*playlist),
    {
        Self { inner, playlist: Some(playlist) }
    }

    /// A track that was not loaded from a playlist.
    pub fn new_no_playlist(inner: TrackData) -> (r: Self)
        ensures
            r.spec_inner() == inner,
            r.spec_playlist() is None,
    {
        Self { inner, playlist: None }
    }

    pub fn inner(&self) -> (r: &TrackData)
        ensures
            *r == self.spec_inner(),
    {
        &self.inner
    }

    pub fn into_inner(self) -> (r: TrackData)
        ensures
            r == self.spec_inner(),
    {
        self.inner
    }

    pub fn playlist(&self) -> (r: Option<&PlaylistMetadata>)
        ensures
            r == match self.spec_playlist() {
                Some(p) => Some(&p),
                None => None::<&PlaylistMetadata>,
            },
    {
        match &self.playlist {
            Some(p) => Some(&**p),
            None => None,
        }
    }
}

impl From<TrackData> for PlaylistAwareTrackData {
    fn from(value: TrackData) -> (r: Self) {
        Self::new_no_playlist(value)
    }
}

impl vstd::std_specs::convert::FromSpecImpl<TrackData> for PlaylistAwareTrackData {
    open spec fn obeys_from_spec() -> bool {
        true
    }

    closed spec fn from_spec(v: TrackData) -> Self {
        PlaylistAwareTrackData { inner: v, playlist: None }
    }
}

/// A track that was not loaded from a playlist is the track alone.
pub proof fn lemma_from_track_data(v: TrackData)
    ensures
        <PlaylistAwareTrackData as vstd::std_specs::convert::FromSpec<TrackData>>::from_spec(v).spec_inner() == v,
        <PlaylistAwareTrackData as vstd::std_specs::convert::FromSpec<TrackData>>::from_spec(v).spec_playlist() is None,
{
}

/// Marks every track of `tracks` as loaded from `playlist`, keeping their order.
pub fn make_playlist_aware(tracks: Vec<TrackData>, playlist: PlaylistMetadata) -> (r: Vec<
    PlaylistAwareTrackData,
>)
    ensures
        r.len() == tracks.len(),
        forall|i: int|
            0 <= i < r.len() ==> {
                &&& #[trigger] r[i].spec_inner() == tracks[i]
                &&& r[i].spec_playlist() == Some(playlist)
            },
{
    let p = Arc::new(playlist);
    let mut out: Vec<PlaylistAwareTrackData> = Vec::new();
    for t in iter: tracks.into_iter()
        invariant
            iter.seq() == tracks@,
            out.len() == iter.index(),
            *p == playlist,
            forall|i: int|
                0 <= i < out.len() ==> {
                    &&& #[trigger] out[i].spec_inner() == tracks[i]
                    &&& out[i].spec_playlist() == Some(playlist)
                },
    {
        out.push(PlaylistAwareTrackData::new(t, share_playlist(&p)));
    }
    out
}

} // verus!
