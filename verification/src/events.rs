//! What the bot does when the audio server reports on a track, and when the
//! gateway reports a guild joined or left.

use crate::now_playing::Message;
use crate::player::RawPlayerData;
use crate::queue::Queue;
use vstd::prelude::*;

verus! {

/// What becomes of the now-playing message when a track starts.
#[derive(Clone, Copy, Debug, PartialEq, Eq, Structural)]
pub enum NowPlayingPlan {
    /// Nothing is shown: no track plays, or the guild turned the message off
    Skip,
    /// The message there is shows the new track
    Refresh,
    /// A new message shows the new track
    Create,
}

/// What is left to do when a track ends.
pub enum TrackEndAction {
    /// The track was ended on purpose; nothing follows
    Forced,
    /// The queue moved on: the old now-playing message is to be deleted, and
    /// the track at the given index, if any, is to be played
    Advanced { stale_message: Option<Message>, play: Option<usize> },
}

/// The notice sent when a track is stuck.
pub const STUCK_NOTICE: &'static str = "🌀 Playback interrupted. Please wait or try using the bot again later.";

/// The notice sent when a track with the given title fails to play.
pub open spec fn exception_notice_spec(title: Seq<char>) -> Seq<char> {
    "💔**`ー`** ~~`"@ + title + "`~~ `(Error playing this track)`"@
}

/// Writes the notice sent when the track with the given title fails to play.
pub fn exception_notice(title: &str) -> (r: String)
    ensures
        r@ == exception_notice_spec(title@),
{
    let mut r = String::from_str("💔**`ー`** ~~`");
    r.append(title);
    r.append("`~~ `(Error playing this track)`");
    r
}

/// The plan for the now-playing message when a track starts in a player
/// whose queue is `queue`.
pub open spec fn now_playing_plan_spec(queue: Queue, has_message: bool, enabled: bool) -> NowPlayingPlan {
    if queue.item_at_index(queue.spec_index() as int) is None || !enabled {
        NowPlayingPlan::Skip
    } else if has_message {
        NowPlayingPlan::Refresh
    } else {
        NowPlayingPlan::Create
    }
}

/// The playing index of `queue`, when a track plays there.
pub open spec fn playing_index(queue: Queue) -> Option<usize> {
    if queue.item_at_index(queue.spec_index() as int) is Some {
        Some(queue.spec_index() as usize)
    } else {
        None
    }
}

impl RawPlayerData {
    /// Decides what becomes of the now-playing message when a track starts;
    /// `enabled` is whether the guild shows now-playing messages.
    pub fn now_playing_plan(&self, enabled: bool) -> (r: NowPlayingPlan)
        requires
            self.wf(),
            self.spec_queue().maps(self.spec_queue().spec_index() as int),
        ensures
            r == now_playing_plan_spec(self.spec_queue(), self.spec_message() is Some, enabled),
    {
        if self.queue().current().is_none() || !enabled {
            return NowPlayingPlan::Skip;
        }
        if self.now_playing_message_id().is_some() {
            NowPlayingPlan::Refresh
        } else {
            NowPlayingPlan::Create
        }
    }

    /// Carries out the end of a track: when moving on was disabled the end
    /// was forced, and moving on is enabled again; otherwise the now-playing
    /// message is taken away and the queue moves on.
    pub fn on_track_end(&mut self) -> (r: TrackEndAction)
        requires
            old(self).wf(),
            old(self).spec_queue().can_advance(),
            old(self).spec_queue().maps(old(self).spec_queue().spec_next_index()),
        ensures
            final(self).wf(),
            final(self).spec_queue().spec_advancing_enabled(),
            final(self).spec_queue().items() == old(self).spec_queue().items(),
            !old(self).spec_queue().spec_advancing_enabled() ==> {
                &&& r is Forced
                &&& final(self).spec_queue().spec_index() == old(self).spec_queue().spec_index()
                &&& final(self).spec_message() == old(self).spec_message()
            },
            old(self).spec_queue().spec_advancing_enabled() ==> {
                &&& final(self).spec_queue().spec_index() == old(self).spec_queue().spec_next_index()
                &&& final(self).spec_message() is None
                &&& r == (TrackEndAction::Advanced {
                    stale_message: old(self).spec_message(),
                    play: playing_index(final(self).spec_queue()),
                })
            },
    {
        if self.queue_mut().advancing_disabled() {
            return TrackEndAction::Forced;
        }
        let stale_message = self.take_now_playing_message();
        let queue = self.queue_mut();
        queue.advance();
        let play = self.queue().current_index();
        TrackEndAction::Advanced { stale_message, play }
    }

    /// Carries out a failure to play a track: where the guild shows
    /// now-playing messages, the message is taken away, to be deleted.
    pub fn on_track_exception(&mut self, enabled: bool) -> (r: Option<Message>)
        ensures
            enabled ==> r == old(self).spec_message() && final(self).spec_message() is None,
            !enabled ==> r is None && final(self).spec_message() == old(self).spec_message(),
            final(self).spec_queue() == old(self).spec_queue(),
            final(self).spec_text_channel_id() == old(self).spec_text_channel_id(),
    {
        if enabled {
            self.take_now_playing_message()
        } else {
            None
        }
    }
}

/// How the gateway reports a guild becoming known.
#[derive(Clone, Copy, Debug, PartialEq, Eq, Structural)]
pub enum GuildCreate {
    /// An available guild; `unavailable` is what the event says of it
    Available { unavailable: Option<bool> },
    /// A guild that is not available
    Unavailable,
}

/// Whether a guild that became known is one the bot joined, to be counted:
/// a guild that was only unavailable for a while is not.
pub fn counts_guild_create(event: GuildCreate) -> (r: bool)
    ensures
        r == !(event == GuildCreate::Available { unavailable: Some(false) }),
{
    match event {
        GuildCreate::Available { unavailable: Some(false) } => false,
        _ => true,
    }
}

/// Whether a guild that went away is one the bot left, to be counted: a
/// guild that only became unavailable is not.
pub fn counts_guild_delete(unavailable: Option<bool>) -> (r: bool)
    ensures
        r == (unavailable != Some(true)),
{
    match unavailable {
        Some(true) => false,
        _ => true,
    }
}

} // verus!
