//! The now-playing message: what it shows of the current track and the queue,
//! how it follows changes of the player, and its buttons.

use crate::error::lavalink::{
    BuildNowPlayingEmbedError, GetDominantPaletteFromUrlError, NewNowPlayingDataError,
};
use crate::error::{Cache, ImageSourceUrlError, TimestampParseError};
use crate::indexer::IndexerType;
use crate::queue::{self, Item, RepeatMode};
use crate::track::{
    corrected_text, opt_string_view, CorrectPlaylistInfo, CorrectTrackInfo, PlaylistMetadata,
    PluginTrackInfo, TrackInfo, UnwrappedPlayerInfoUri, UNKNOWN_ARTIST, UNKNOWN_ARTIST_TEXT,
    UNKNOWN_TITLE, UNNAMED_PLAYLIST, UNTITLED_TRACK,
};
use std::time::Duration;
use vstd::prelude::*;

verus! {

/// A copy of an optional string.
fn clone_opt(o: &Option<String>) -> (r: Option<String>)
    ensures
        opt_string_view(r) == opt_string_view(*o),
{
    match o {
        Some(s) => Some(s.clone()),
        None => None,
    }
}

/// The artwork of the track and the colour drawn from it.
pub struct Artwork {
    pub colour: u32,
    pub url: String,
}

impl Artwork {
    pub fn url(&self) -> (r: &str)
        ensures
            r@ == self.url@,
    {
        self.url.as_str()
    }
}

/// The playlist the track was loaded from.
pub struct Playlist {
    pub name: String,
    pub uri: String,
}

impl Playlist {
    pub fn name(&self) -> (r: &str)
        ensures
            r@ == self.name@,
    {
        self.name.as_str()
    }

    pub fn uri(&self) -> (r: &str)
        ensures
            r@ == self.uri@,
    {
        self.uri.as_str()
    }
}

/// The author of the track.
pub struct Artist {
    pub name: String,
    pub url: Option<String>,
    pub artwork_url: Option<String>,
}

impl Artist {
    pub fn name(&self) -> (r: &str)
        ensures
            r@ == self.name@,
    {
        self.name.as_str()
    }

    pub fn url(&self) -> (r: Option<&str>)
        ensures
            r is Some == self.url is Some,
            r is Some ==> r->0@ == self.url->0@,
    {
        match &self.url {
            Some(u) => Some(u.as_str()),
            None => None,
        }
    }

    pub fn artwork_url(&self) -> (r: Option<&str>)
        ensures
            r is Some == self.artwork_url is Some,
            r is Some ==> r->0@ == self.artwork_url->0@,
    {
        match &self.artwork_url {
            Some(u) => Some(u.as_str()),
            None => None,
        }
    }
}

/// What the message shows of the queue: its length, the one-based position
/// of the current track, and its order and repeat mode.
#[derive(Clone, Copy, Debug, PartialEq, Eq, Structural)]
pub struct Queue {
    pub len: usize,
    pub position: usize,
    pub indexer: IndexerType,
    pub repeat_mode: RepeatMode,
}

impl Queue {
    /// What the message shows of `queue`.
    pub fn of(queue: &queue::Queue) -> (r: Self)
        requires
            queue.wf(),
            queue.maps(queue.spec_index() as int),
        ensures
            r.len == queue.items().len(),
            r.position == queue::position_of(
                queue.spec_index() as int,
                queue.item_at_index(queue.spec_index() as int) is Some,
            ),
            r.indexer == queue.spec_indexer().spec_kind(),
            r.repeat_mode == queue.spec_repeat_mode(),
            r.position >= 1,
    {
        Queue {
            len: queue.len(),
            position: queue.position(),
            indexer: queue.indexer_type(),
            repeat_mode: queue.repeat_mode(),
        }
    }

    pub fn len(&self) -> (r: usize)
        ensures
            r == self.len,
    {
        self.len
    }

    pub fn set_len(&mut self, len: usize)
        ensures
            *final(self) == (Queue { len, ..*old(self) }),
    {
        self.len = len;
    }

    pub fn position(&self) -> (r: usize)
        ensures
            r == self.position,
    {
        self.position
    }

    pub fn set_position(&mut self, position: usize)
        ensures
            *final(self) == (Queue { position, ..*old(self) }),
    {
        self.position = position;
    }

    pub fn indexer(&self) -> (r: IndexerType)
        ensures
            r == self.indexer,
    {
        self.indexer
    }

    pub fn set_indexer(&mut self, indexer: IndexerType)
        ensures
            *final(self) == (Queue { indexer, ..*old(self) }),
    {
        self.indexer = indexer;
    }

    pub fn repeat_mode(&self) -> (r: RepeatMode)
        ensures
            r == self.repeat_mode,
    {
        self.repeat_mode
    }

    pub fn set_repeat_mode(&mut self, repeat_mode: RepeatMode)
        ensures
            *final(self) == (Queue { repeat_mode, ..*old(self) }),
    {
        self.repeat_mode = repeat_mode;
    }
}

/// Who asked for the track: the name and avatar shown.
pub struct Requester {
    pub name: String,
    pub avatar: String,
}

impl Requester {
    pub fn name(&self) -> (r: &str)
        ensures
            r@ == self.name@,
    {
        self.name.as_str()
    }

    pub fn avatar(&self) -> (r: &str)
        ensures
            r@ == self.avatar@,
    {
        self.avatar.as_str()
    }
}

/// Whether the track is a preview, and where the preview is.
pub struct Preview {
    pub is_preview: bool,
    pub url: Option<String>,
}

impl Preview {
    pub fn url(&self) -> (r: Option<&str>)
        ensures
            r is Some == self.url is Some,
            r is Some ==> r->0@ == self.url->0@,
    {
        match &self.url {
            Some(u) => Some(u.as_str()),
            None => None,
        }
    }
}

/// What a guild member who asked for a track looks like in the guild.
pub struct MemberIdentity {
    pub nick: Option<String>,
    pub guild_avatar_url: Option<String>,
}

/// What a user looks like everywhere.
pub struct UserIdentity {
    pub display_name: String,
    pub display_avatar_url: String,
}

/// The name and avatar shown for the requester: the guild nickname and guild
/// avatar where the member has them, the user's own otherwise.  The member
/// must be known, and so must the user where the member lacks either.
pub open spec fn requester_spec(member: Option<MemberIdentity>, user: Option<UserIdentity>) -> Result<
    (Seq<char>, Seq<char>),
    Cache,
> {
    match member {
        None => Err(Cache),
        Some(m) => match (m.nick, m.guild_avatar_url) {
            (Some(n), Some(u)) => Ok((n@, u@)),
            (Some(n), None) => match user {
                Some(us) => Ok((n@, us.display_avatar_url@)),
                None => Err(Cache),
            },
            (None, Some(u)) => match user {
                Some(us) => Ok((us.display_name@, u@)),
                None => Err(Cache),
            },
            (None, None) => match user {
                Some(us) => Ok((us.display_name@, us.display_avatar_url@)),
                None => Err(Cache),
            },
        },
    }
}

/// Chooses the name and avatar shown for the requester of a track.
pub fn requester_of(member: Option<MemberIdentity>, user: Option<UserIdentity>) -> (r: Result<
    Requester,
    Cache,
>)
    ensures
        match (r, requester_spec(member, user)) {
            (Ok(q), Ok((name, avatar))) => q.name@ == name && q.avatar@ == avatar,
            (Err(_), Err(_)) => true,
            _ => false,
        },
{
    let m = match member {
        Some(m) => m,
        None => return Err(Cache),
    };
    match (m.nick, m.guild_avatar_url) {
        (Some(nick), Some(url)) => Ok(Requester { name: nick, avatar: url }),
        (Some(nick), None) => match user {
            Some(u) => Ok(Requester { name: nick, avatar: u.display_avatar_url }),
            None => Err(Cache),
        },
        (None, Some(url)) => match user {
            Some(u) => Ok(Requester { name: u.display_name, avatar: url }),
            None => Err(Cache),
        },
        (None, None) => match user {
            Some(u) => Ok(Requester { name: u.display_name, avatar: u.display_avatar_url }),
            None => Err(Cache),
        },
    }
}

/// The artwork shown for a track: the album art the source plugin gives, else
/// the track's own artwork, else the artwork of the playlist it came from.
pub open spec fn artwork_url_spec(
    plugin: Option<PluginTrackInfo>,
    info: TrackInfo,
    playlist: Option<PlaylistMetadata>,
) -> Option<Seq<char>> {
    if plugin is Some && plugin->0.album_art_url is Some {
        Some(plugin->0.album_art_url->0@)
    } else if info.artwork_url is Some {
        Some(info.artwork_url->0@)
    } else if playlist is Some && playlist->0.spec_plugin_info() is Some {
        opt_string_view(playlist->0.spec_plugin_info()->0.artwork_url)
    } else {
        None
    }
}

/// Chooses the artwork shown for a track.
pub fn artwork_url_of<'a>(
    plugin: Option<&'a PluginTrackInfo>,
    info: &'a TrackInfo,
    playlist: Option<&'a PlaylistMetadata>,
) -> (r: Option<&'a str>)
    ensures
        r is Some == artwork_url_spec(
            match plugin {
                Some(p) => Some(*p),
                None => None,
            },
            *info,
            match playlist {
                Some(p) => Some(*p),
                None => None,
            },
        ) is Some,
        r is Some ==> r->0@ == artwork_url_spec(
            match plugin {
                Some(p) => Some(*p),
                None => None,
            },
            *info,
            match playlist {
                Some(p) => Some(*p),
                None => None,
            },
        )->0,
{
    if let Some(p) = plugin {
        if let Some(u) = &p.album_art_url {
            return Some(u.as_str());
        }
    }
    if let Some(u) = &info.artwork_url {
        return Some(u.as_str());
    }
    if let Some(pl) = playlist {
        if let Some(pp) = pl.plugin_info() {
            if let Some(u) = &pp.artwork_url {
                return Some(u.as_str());
            }
        }
    }
    None
}

/// Everything the now-playing message shows.
pub struct Data {
    pub paused: bool,
    pub timestamp: Duration,
    /// The length of the track, in milliseconds
    pub duration_ms: u64,
    pub enqueued: Duration,
    pub queue: Queue,
    pub artist: Artist,
    pub requester: Requester,
    pub preview: Option<Preview>,
    pub artwork: Option<Artwork>,
    pub playlist: Option<Playlist>,
    pub title: String,
    pub url: String,
    pub album_name: Option<String>,
}

/// The track information of a queue item.
pub open spec fn item_info(item: Item) -> TrackInfo {
    item.spec_track().spec_inner().info
}

/// The source plugin's information of a queue item.
pub open spec fn item_plugin(item: Item) -> Option<PluginTrackInfo> {
    item.spec_track().spec_inner().plugin_info
}

/// The artwork shown for a queue item.
pub open spec fn item_artwork_url(item: Item) -> Option<Seq<char>> {
    artwork_url_spec(item_plugin(item), item_info(item), item.spec_track().spec_playlist())
}

impl Data {
    /// Gathers what the now-playing message shows of `item`, the track now
    /// playing, asked for by `requester` (as `requester_of` chooses it);
    /// `artwork_colour` is the outcome of finding the dominant colour of the
    /// artwork chosen for the item, where there is one.
    pub fn new(
        requester: Requester,
        item: &Item,
        queue: Queue,
        paused: bool,
        timestamp: Duration,
        artwork_colour: Option<Result<u32, GetDominantPaletteFromUrlError>>,
    ) -> (r: Result<Self, NewNowPlayingDataError>)
        requires
            item_info(*item).has_uri(),
            artwork_colour is Some == item_artwork_url(*item) is Some,
        ensures
            artwork_colour matches Some(Err(e)) ==> r == Err::<Self, NewNowPlayingDataError>(
                NewNowPlayingDataError::GetDominantPaletteFromUrl(e),
            ),
            !(artwork_colour matches Some(Err(_))) ==> r is Ok,
            r matches Ok(d) ==> {
                let info = item_info(*item);
                let plugin = item_plugin(*item);
                &&& d.paused == paused
                &&& d.timestamp == timestamp
                &&& d.duration_ms == info.length
                &&& d.enqueued == item.spec_enqueued()
                &&& d.queue == queue
                &&& d.requester == requester
                &&& d.title@ == corrected_text(info.title@, UNKNOWN_TITLE@, UNTITLED_TRACK@)
                &&& d.url@ == info.uri->0@
                &&& d.artist.name@ == corrected_text(
                    info.author@,
                    UNKNOWN_ARTIST@,
                    UNKNOWN_ARTIST_TEXT@,
                )
                &&& opt_string_view(d.artist.url) == match plugin {
                    Some(p) => opt_string_view(p.artist_url),
                    None => None,
                }
                &&& opt_string_view(d.artist.artwork_url) == match plugin {
                    Some(p) => opt_string_view(p.artist_artwork_uri),
                    None => None,
                }
                &&& opt_string_view(d.album_name) == match plugin {
                    Some(p) => opt_string_view(p.album_name),
                    None => None,
                }
                &&& d.preview is Some == plugin is Some
                &&& d.preview is Some ==> d.preview->0.is_preview == plugin->0.is_preview
                    && opt_string_view(d.preview->0.url) == opt_string_view(
                    plugin->0.preview_url,
                )
                &&& d.artwork is Some == item_artwork_url(*item) is Some
                &&& d.artwork is Some ==> d.artwork->0.url@ == item_artwork_url(*item)->0
                    && artwork_colour == Some(Ok::<u32, GetDominantPaletteFromUrlError>(
                    d.artwork->0.colour,
                ))
                &&& d.playlist is Some == item.spec_track().spec_playlist() is Some
                &&& d.playlist is Some ==> {
                    let p = item.spec_track().spec_playlist()->0;
                    &&& d.playlist->0.name@ == corrected_text(
                        p.spec_info().name@,
                        UNKNOWN_TITLE@,
                        UNNAMED_PLAYLIST@,
                    )
                    &&& d.playlist->0.uri@ == p.spec_uri()
                }
            },
    {
        let track_data = item.data();
        let info = &track_data.info;
        let plugin = &track_data.plugin_info;
        let playlist = item.playlist_data();
        let artwork_url = artwork_url_of(plugin.as_ref(), info, playlist);
        let artwork = match (artwork_url, artwork_colour) {
            (Some(url), Some(Ok(colour))) => Some(Artwork { url: url.to_owned(), colour }),
            (Some(_), Some(Err(e))) => {
                return Err(NewNowPlayingDataError::GetDominantPaletteFromUrl(e));
            },
            _ => None,
        };
        let playlist = match playlist {
            Some(p) => Some(Playlist { name: p.corrected_name().to_owned(), uri: p.uri().to_owned() }),
            None => None,
        };
        let (artist_url, artist_artwork_url, album_name, preview) = match plugin {
            Some(p) => (
                clone_opt(&p.artist_url),
                clone_opt(&p.artist_artwork_uri),
                clone_opt(&p.album_name),
                Some(Preview { is_preview: p.is_preview, url: clone_opt(&p.preview_url) }),
            ),
            None => (None, None, None, None),
        };
        Ok(Data {
            paused,
            timestamp,
            duration_ms: info.length,
            enqueued: item.enqueued(),
            queue,
            artist: Artist {
                name: info.corrected_author().to_owned(),
                url: artist_url,
                artwork_url: artist_artwork_url,
            },
            requester,
            preview,
            artwork,
            playlist,
            title: info.corrected_title().to_owned(),
            url: info.uri_unwrapped().to_owned(),
            album_name,
        })
    }
}

/// A change of the player that the message follows.  A change of speed
/// changes no field here: the time left is worked out where the speed is kept.
#[derive(Clone, Copy, Debug, PartialEq, Eq, Structural)]
pub enum Update {
    Indexer(IndexerType),
    Repeat(RepeatMode),
    Paused(bool),
    QueueLen(usize),
    QueuePosition(usize),
}

/// The buttons of the message, in the order they are shown.
#[derive(Clone, Copy, Debug, PartialEq, Eq, Structural)]
pub enum NowPlayingButtonType {
    Shuffle,
    Previous,
    PlayPause,
    Next,
    Repeat,
}

/// The emoji a button shows.
#[derive(Clone, Copy, Debug, PartialEq, Eq, Structural)]
pub enum ButtonEmoji {
    ShuffleOff,
    ShuffleOn,
    Previous,
    Play,
    Pause,
    Next,
    RepeatOff,
    RepeatAll,
    RepeatTrack,
}

/// The colour of a button.
#[derive(Clone, Copy, Debug, PartialEq, Eq, Structural)]
pub enum ButtonStyle {
    Primary,
    Secondary,
    Success,
    Danger,
}

/// A button of the message.
#[derive(Clone, Copy, Debug, PartialEq, Eq, Structural)]
pub struct Button {
    pub kind: NowPlayingButtonType,
    pub disabled: bool,
    pub emoji: ButtonEmoji,
    pub style: ButtonStyle,
}

/// A piece of the description of the message.
#[derive(Clone, Debug)]
pub enum Piece {
    /// Text as it stands
    Text(&'static str),
    /// Text of the track or playlist
    Owned(String),
    /// A count, in decimal
    Count(usize),
    /// The time left of the track, as the player's speed makes it
    TimeLeft,
    /// The length of the track
    Length,
}

/// The buttons shown for the given state of the queue and the player: shuffle
/// is disabled while the queue is in fair order, and shows whether the queue
/// is shuffled; play-pause shows what a press does; repeat shows the mode.
pub open spec fn buttons_for(queue: Queue, paused: bool) -> Seq<Button> {
    seq![
        Button {
            kind: NowPlayingButtonType::Shuffle,
            disabled: queue.indexer == IndexerType::Fair,
            emoji: if queue.indexer == IndexerType::Shuffled {
                ButtonEmoji::ShuffleOn
            } else {
                ButtonEmoji::ShuffleOff
            },
            style: ButtonStyle::Danger,
        },
        Button {
            kind: NowPlayingButtonType::Previous,
            disabled: false,
            emoji: ButtonEmoji::Previous,
            style: ButtonStyle::Secondary,
        },
        Button {
            kind: NowPlayingButtonType::PlayPause,
            disabled: false,
            emoji: if paused {
                ButtonEmoji::Play
            } else {
                ButtonEmoji::Pause
            },
            style: ButtonStyle::Primary,
        },
        Button {
            kind: NowPlayingButtonType::Next,
            disabled: false,
            emoji: ButtonEmoji::Next,
            style: ButtonStyle::Secondary,
        },
        Button {
            kind: NowPlayingButtonType::Repeat,
            disabled: false,
            emoji: match queue.repeat_mode {
                RepeatMode::Off => ButtonEmoji::RepeatOff,
                RepeatMode::All => ButtonEmoji::RepeatAll,
                RepeatMode::Track => ButtonEmoji::RepeatTrack,
            },
            style: ButtonStyle::Success,
        },
    ]
}

/// The buttons follow the state they show: shuffle is shown on exactly when
/// the queue is shuffled and is disabled exactly in fair order; play-pause
/// offers play exactly while paused; repeat shows each mode by its own
/// emoji.
pub proof fn lemma_buttons_show_the_state(queue: Queue, paused: bool)
    ensures
        ({
            let b = buttons_for(queue, paused);
            &&& b.len() == 5
            &&& b[0].kind == NowPlayingButtonType::Shuffle
            &&& (b[0].emoji == ButtonEmoji::ShuffleOn) == (queue.indexer == IndexerType::Shuffled)
            &&& (b[0].emoji == ButtonEmoji::ShuffleOff) == (queue.indexer != IndexerType::Shuffled)
            &&& b[0].disabled == (queue.indexer == IndexerType::Fair)
            &&& b[2].kind == NowPlayingButtonType::PlayPause
            &&& (b[2].emoji == ButtonEmoji::Play) == paused
            &&& (b[2].emoji == ButtonEmoji::Pause) == !paused
            &&& b[4].kind == NowPlayingButtonType::Repeat
            &&& (b[4].emoji == ButtonEmoji::RepeatOff) == (queue.repeat_mode == RepeatMode::Off)
            &&& (b[4].emoji == ButtonEmoji::RepeatAll) == (queue.repeat_mode == RepeatMode::All)
            &&& (b[4].emoji == ButtonEmoji::RepeatTrack) == (queue.repeat_mode == RepeatMode::Track)
        }),
{
}

/// The message that shows the track now playing in a guild.
pub struct Message {
    pub id: u64,
    pub channel_id: u64,
    pub data: Data,
}

impl Message {
    /// The message with the given id, in the given channel, showing `data`.
    pub fn new(id: u64, channel_id: u64, data: Data) -> (r: Self)
        ensures
            r.id == id,
            r.channel_id == channel_id,
            r.data == data,
    {
        Message { id, channel_id, data }
    }

    pub fn id(&self) -> (r: u64)
        ensures
            r == self.id,
    {
        self.id
    }

    pub fn channel_id(&self) -> (r: u64)
        ensures
            r == self.channel_id,
    {
        self.channel_id
    }

    pub fn data(&self) -> (r: &Data)
        ensures
            *r == self.data,
    {
        &self.data
    }

    /// Follows a change of the player.
    pub fn update(&mut self, update: Update)
        ensures
            final(self).id == old(self).id,
            final(self).channel_id == old(self).channel_id,
            final(self).data.paused == match update {
                Update::Paused(p) => p,
                _ => old(self).data.paused,
            },
            final(self).data.queue == match update {
                Update::Indexer(i) => Queue { indexer: i, ..old(self).data.queue },
                Update::Repeat(m) => Queue { repeat_mode: m, ..old(self).data.queue },
                Update::QueueLen(n) => Queue { len: n, ..old(self).data.queue },
                Update::QueuePosition(p) => Queue { position: p, ..old(self).data.queue },
                Update::Paused(_) => old(self).data.queue,
            },
            final(self).data.timestamp == old(self).data.timestamp,
            final(self).data.title == old(self).data.title,
    {
        match update {
            Update::Indexer(idx) => self.data.queue.set_indexer(idx),
            Update::Repeat(mode) => self.data.queue.set_repeat_mode(mode),
            Update::Paused(paused) => self.data.paused = paused,
            Update::QueueLen(i) => self.data.queue.set_len(i),
            Update::QueuePosition(i) => self.data.queue.set_position(i),
        }
    }

    /// Sets the position in the track shown.
    pub fn update_timestamp(&mut self, timestamp: Duration)
        ensures
            final(self).data.timestamp == timestamp,
            final(self).data.paused == old(self).data.paused,
            final(self).data.queue == old(self).data.queue,
            final(self).id == old(self).id,
            final(self).channel_id == old(self).channel_id,
    {
        self.data.timestamp = timestamp;
    }

    /// The content of the message: a plain heading while paused, a heading
    /// with a note while playing.
    pub fn build_content(&self) -> (r: &'static str)
        ensures
            r@ == if self.data.paused {
                "Now Playing"@
            } else {
                "🎵 **Now Playing**"@
            },
    {
        if self.data.paused {
            return "Now Playing";
        }
        "🎵 **Now Playing**"
    }

    /// The buttons of the message.
    pub fn build_components(&self) -> (r: Vec<Button>)
        ensures
            r@ == buttons_for(self.data.queue, self.data.paused),
    {
        let queue = self.data.queue;
        let shuffle = Button {
            kind: NowPlayingButtonType::Shuffle,
            disabled: matches!(queue.indexer, IndexerType::Fair),
            emoji: match queue.indexer {
                IndexerType::Shuffled => ButtonEmoji::ShuffleOn,
                _ => ButtonEmoji::ShuffleOff,
            },
            style: ButtonStyle::Danger,
        };
        let play_pause = Button {
            kind: NowPlayingButtonType::PlayPause,
            disabled: false,
            emoji: if self.data.paused {
                ButtonEmoji::Play
            } else {
                ButtonEmoji::Pause
            },
            style: ButtonStyle::Primary,
        };
        let repeat = Button {
            kind: NowPlayingButtonType::Repeat,
            disabled: false,
            emoji: match queue.repeat_mode {
                RepeatMode::Off => ButtonEmoji::RepeatOff,
                RepeatMode::All => ButtonEmoji::RepeatAll,
                RepeatMode::Track => ButtonEmoji::RepeatTrack,
            },
            style: ButtonStyle::Success,
        };
        let r = vec![
            shuffle,
            Button {
                kind: NowPlayingButtonType::Previous,
                disabled: false,
                emoji: ButtonEmoji::Previous,
                style: ButtonStyle::Secondary,
            },
            play_pause,
            Button {
                kind: NowPlayingButtonType::Next,
                disabled: false,
                emoji: ButtonEmoji::Next,
                style: ButtonStyle::Secondary,
            },
            repeat,
        ];
        assert(r@ =~= buttons_for(self.data.queue, self.data.paused));
        r
    }

    /// The description of the message: the album and the playlist where there
    /// are any, the position in the queue and the time left, and a note on
    /// previews.
    pub fn description(&self) -> (r: Vec<Piece>)
        ensures
            r@.map_values(|p: Piece| p.view()) =~= description_spec(self.data),
    {
        let data = &self.data;
        let mut r: Vec<Piece> = Vec::new();
        if let Some(n) = &data.album_name {
            r.push(Piece::Text("📀 **"));
            r.push(Piece::Owned(n.clone()));
            r.push(Piece::Text("**\n"));
        }
        assert(r@.map_values(|p: Piece| p.view()) =~= album_part(*data));
        if let Some(p) = &data.playlist {
            r.push(Piece::Text("📚 **["));
            r.push(Piece::Owned(p.name.clone()));
            r.push(Piece::Text("]("));
            r.push(Piece::Owned(p.uri.clone()));
            r.push(Piece::Text(")**\n"));
        }
        assert(r@.map_values(|p: Piece| p.view()) =~= album_part(*data) + playlist_part(*data));
        r.push(Piece::Text("#️⃣ **"));
        r.push(Piece::Count(data.queue.position));
        r.push(Piece::Text("** / "));
        r.push(Piece::Count(data.queue.len));
        r.push(Piece::Text(" ⏳ "));
        r.push(Piece::TimeLeft);
        r.push(Piece::Text(" / "));
        r.push(Piece::Length);
        assert(r@.map_values(|p: Piece| p.view()) =~= album_part(*data) + playlist_part(*data)
            + queue_part(*data));
        if let Some(p) = &data.preview {
            if p.is_preview || p.url.is_some() {
                r.push(Piece::Text("\n-# "));
                if p.is_preview {
                    r.push(Piece::Text("This track is a preview. "));
                }
                if let Some(url) = &p.url {
                    r.push(Piece::Text("Listen to the preview of this track [here]("));
                    r.push(Piece::Owned(url.clone()));
                    r.push(Piece::Text("). "));
                }
            }
        }
        r
    }
}

/// The author line of the embed.
pub struct EmbedAuthor {
    pub name: String,
    pub url: Option<String>,
    pub icon_url: Option<String>,
}

/// The footer of the embed.
pub struct EmbedFooter {
    pub text: String,
    pub icon_url: String,
}

/// The embed of the now-playing message.
pub struct Embed {
    pub title: String,
    pub url: String,
    pub description: Vec<Piece>,
    /// When the track was enqueued
    pub timestamp: Duration,
    pub author: EmbedAuthor,
    pub footer: EmbedFooter,
    pub colour: Option<u32>,
    pub thumbnail: Option<String>,
}

/// The whole microseconds in `d`, as `Duration::as_micros` counts them.
pub uninterp spec fn duration_micros(d: Duration) -> u128;

/// `std::time::Duration::as_micros`: the whole microseconds in `d`.  Verus
/// sees nothing inside a `Duration`, so the count is named, not computed.
#[verifier::external_body]
fn as_micros(d: Duration) -> (r: u128)
    ensures
        r == duration_micros(d),
{
    d.as_micros()
}

/// Whether `Timestamp::from_micros` of twilight accepts a count of
/// microseconds since the Unix epoch.
pub uninterp spec fn timestamp_accepts(micros: i64) -> bool;

/// `twilight_model::util::Timestamp::from_micros`: turns microseconds since
/// the Unix epoch into a timestamp, and fails for a count outside the dates
/// that its time library represents.  That range grows with a feature of
/// the time library, so the outcome is named; every count from the epoch to
/// the last microsecond of the year 9999 is accepted whatever the features.
#[verifier::external_body]
fn timestamp_from_micros(micros: i64) -> (r: Result<(), TimestampParseError>)
    ensures
        r is Ok == timestamp_accepts(micros),
        0 <= micros <= 253_402_300_799_999_999 ==> r is Ok,
{
    match twilight_model::util::Timestamp::from_micros(micros) {
        Ok(_) => Ok(()),
        Err(_) => Err(TimestampParseError),
    }
}

/// Whether an image of an embed can be given by `url`: a link that starts
/// with `https:` or `http:`.
pub open spec fn image_url_accepted(url: Seq<char>) -> bool {
    ||| seq!['h', 't', 't', 'p', 's', ':'].is_prefix_of(url)
    ||| seq!['h', 't', 't', 'p', ':'].is_prefix_of(url)
}

/// `twilight_util::builder::embed::ImageSource::url`: accepts a url exactly
/// when it starts with `https:` or `http:`.
#[verifier::external_body]
fn image_source_url(url: &str) -> (r: Result<(), ImageSourceUrlError>)
    ensures
        r is Ok == image_url_accepted(url@),
{
    match twilight_util::builder::embed::ImageSource::url(url) {
        Ok(_) => Ok(()),
        Err(_) => Err(ImageSourceUrlError),
    }
}

/// The outcome of turning the time `d`'s track was enqueued into the
/// embed's timestamp: its microseconds, cut to 64 bits as a signed count.
pub open spec fn enqueued_timestamp(d: Data) -> Result<(), TimestampParseError> {
    if timestamp_accepts(duration_micros(d.enqueued) as i64) {
        Ok(())
    } else {
        Err(TimestampParseError)
    }
}

/// The failure met in building the embed of `d`, if any: the timestamp is
/// turned first, then each image link is given to the image source, the
/// requester's avatar, the artist's icon and the artwork.
pub open spec fn embed_error(d: Data, timestamp: Result<(), TimestampParseError>) -> Option<
    BuildNowPlayingEmbedError,
> {
    if timestamp is Err {
        Some(BuildNowPlayingEmbedError::TimestampParse(TimestampParseError))
    } else if !image_url_accepted(d.requester.avatar@) || match d.artist.artwork_url {
        Some(u) => !image_url_accepted(u@),
        None => false,
    } || match d.artwork {
        Some(a) => !image_url_accepted(a.url@),
        None => false,
    } {
        Some(BuildNowPlayingEmbedError::ImageSourceUrl(ImageSourceUrlError))
    } else {
        None
    }
}

/// What the embed `e` shows of `d`: the track's title and link, the
/// description, when the track was enqueued, the artist as author, the
/// requester in the footer, and the colour and thumbnail of the artwork
/// where there is one.
pub open spec fn embed_shows(e: Embed, d: Data) -> bool {
    &&& e.title@ == d.title@
    &&& e.url@ == d.url@
    &&& e.description@.map_values(|p: Piece| p.view()) =~= description_spec(d)
    &&& e.timestamp == d.enqueued
    &&& e.author.name@ == d.artist.name@
    &&& opt_string_view(e.author.url) == opt_string_view(d.artist.url)
    &&& opt_string_view(e.author.icon_url) == opt_string_view(d.artist.artwork_url)
    &&& e.footer.text@ == d.requester.name@
    &&& e.footer.icon_url@ == d.requester.avatar@
    &&& e.colour == match d.artwork {
        Some(a) => Some(a.colour),
        None => None::<u32>,
    }
    &&& opt_string_view(e.thumbnail) == match d.artwork {
        Some(a) => Some(a.url@),
        None => None::<Seq<char>>,
    }
}

impl Message {
    /// The embed of the message, from the outcome of turning the enqueue
    /// time into a timestamp: that failure first, then a refused image link,
    /// or else the embed.
    pub fn embed_with_timestamp(&self, timestamp: Result<(), TimestampParseError>) -> (r: Result<
        Embed,
        BuildNowPlayingEmbedError,
    >)
        ensures
            match embed_error(self.data, timestamp) {
                Some(e) => r == Err::<Embed, BuildNowPlayingEmbedError>(e),
                None => r matches Ok(e) && embed_shows(e, self.data),
            },
    {
        if timestamp.is_err() {
            return Err(BuildNowPlayingEmbedError::TimestampParse(TimestampParseError));
        }
        let data = &self.data;
        let refused = Err(BuildNowPlayingEmbedError::ImageSourceUrl(ImageSourceUrlError));
        if image_source_url(data.requester.avatar.as_str()).is_err() {
            return refused;
        }
        if let Some(u) = &data.artist.artwork_url {
            if image_source_url(u.as_str()).is_err() {
                return refused;
            }
        }
        if let Some(a) = &data.artwork {
            if image_source_url(a.url.as_str()).is_err() {
                return refused;
            }
        }
        Ok(self.assemble_embed())
    }

    /// The embed of the message, or the failure met in building it: the
    /// enqueue time is turned into a timestamp, then the image links are
    /// given to the image source.
    pub fn build_embed(&self) -> (r: Result<Embed, BuildNowPlayingEmbedError>)
        ensures
            match embed_error(self.data, enqueued_timestamp(self.data)) {
                Some(e) => r == Err::<Embed, BuildNowPlayingEmbedError>(e),
                None => r matches Ok(e) && embed_shows(e, self.data),
            },
    {
        let micros = as_micros(self.data.enqueued);
        let timestamp = timestamp_from_micros(micros as i64);
        self.embed_with_timestamp(timestamp)
    }

    fn assemble_embed(&self) -> (r: Embed)
        ensures
            embed_shows(r, self.data),
    {
        let data = &self.data;
        let (colour, thumbnail) = match &data.artwork {
            Some(a) => (Some(a.colour), Some(a.url.clone())),
            None => (None, None),
        };
        Embed {
            title: data.title.clone(),
            url: data.url.clone(),
            description: self.description(),
            timestamp: data.enqueued,
            author: EmbedAuthor {
                name: data.artist.name.clone(),
                url: clone_opt(&data.artist.url),
                icon_url: clone_opt(&data.artist.artwork_url),
            },
            footer: EmbedFooter {
                text: data.requester.name.clone(),
                icon_url: data.requester.avatar.clone(),
            },
            colour,
            thumbnail,
        }
    }
}

/// A length shown as a clock: the hours where there are any, then the
/// minutes and the seconds.
#[derive(Clone, Copy, Debug, PartialEq, Eq, Structural)]
pub struct ClockTime {
    pub hours: Option<u64>,
    pub minutes: u64,
    pub seconds: u64,
}

/// The clock that shows `secs` seconds: `h:mm:ss` from an hour on, `m:ss`
/// below.
pub fn clock_time(secs: u64) -> (r: ClockTime)
    ensures
        r.hours == if secs >= 3600 {
            Some(secs / 3600)
        } else {
            None::<u64>
        },
        r.minutes == if secs >= 3600 {
            secs / 60 % 60
        } else {
            secs / 60
        },
        r.seconds == secs % 60,
{
    if secs >= 3600 {
        ClockTime { hours: Some(secs / 3600), minutes: secs / 60 % 60, seconds: secs % 60 }
    } else {
        ClockTime { hours: None, minutes: secs / 60, seconds: secs % 60 }
    }
}

/// A piece of the description, as a value of the specification.
pub enum PieceView {
    Text(Seq<char>),
    Owned(Seq<char>),
    Count(usize),
    TimeLeft,
    Length,
}

impl Piece {
    pub open spec fn view(self) -> PieceView {
        match self {
            Piece::Text(t) => PieceView::Text(t@),
            Piece::Owned(t) => PieceView::Owned(t@),
            Piece::Count(n) => PieceView::Count(n),
            Piece::TimeLeft => PieceView::TimeLeft,
            Piece::Length => PieceView::Length,
        }
    }
}

/// The line naming the album, where there is one.
pub open spec fn album_part(d: Data) -> Seq<PieceView> {
    match d.album_name {
        Some(n) => seq![
            PieceView::Text("📀 **"@),
            PieceView::Owned(n@),
            PieceView::Text("**\n"@),
        ],
        None => seq![],
    }
}

/// The line linking the playlist, where there is one.
pub open spec fn playlist_part(d: Data) -> Seq<PieceView> {
    match d.playlist {
        Some(p) => seq![
            PieceView::Text("📚 **["@),
            PieceView::Owned(p.name@),
            PieceView::Text("]("@),
            PieceView::Owned(p.uri@),
            PieceView::Text(")**\n"@),
        ],
        None => seq![],
    }
}

/// The position in the queue, its length, the time left and the length of
/// the track.
pub open spec fn queue_part(d: Data) -> Seq<PieceView> {
    seq![
        PieceView::Text("#️⃣ **"@),
        PieceView::Count(d.queue.position),
        PieceView::Text("** / "@),
        PieceView::Count(d.queue.len),
        PieceView::Text(" ⏳ "@),
        PieceView::TimeLeft,
        PieceView::Text(" / "@),
        PieceView::Length,
    ]
}

/// The note on a preview: whether the track is one, and where to listen to
/// it.
pub open spec fn preview_part(d: Data) -> Seq<PieceView> {
    match d.preview {
        Some(p) => if p.is_preview || p.url is Some {
            seq![PieceView::Text("\n-# "@)] + (if p.is_preview {
                seq![PieceView::Text("This track is a preview. "@)]
            } else {
                seq![]
            }) + match p.url {
                Some(u) => seq![
                    PieceView::Text("Listen to the preview of this track [here]("@),
                    PieceView::Owned(u@),
                    PieceView::Text("). "@),
                ],
                None => seq![],
            }
        } else {
            seq![]
        },
        None => seq![],
    }
}

/// The description of the message showing `d`.
pub open spec fn description_spec(d: Data) -> Seq<PieceView> {
    album_part(d) + playlist_part(d) + queue_part(d) + preview_part(d)
}

} // verus!
