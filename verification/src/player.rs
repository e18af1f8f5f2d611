//! The state the bot keeps for the player of a guild: its queue, volume,
//! text channel and now-playing message, and how the message follows the
//! queue.

use crate::indexer::IndexerType;
use crate::now_playing::{Data, Message, Queue as ShownQueue, Update};
use crate::queue::{Queue, RepeatMode};
use std::time::Duration;
use vstd::prelude::*;

verus! {

/// The volume of a new player.
pub const DEFAULT_VOLUME: u16 = 100;

/// The state of the player of a guild.
pub struct RawPlayerData {
    queue: Queue,
    volume: u16,
    text_channel_id: u64,
    now_playing_message: Option<Message>,
}

/// Whether the now-playing message, where there is one, shows the repeat
/// mode and the order of `queue`.
pub open spec fn shows_queue(message: Option<Message>, queue: Queue) -> bool {
    message matches Some(m) ==> {
        &&& m.data.queue.repeat_mode == queue.spec_repeat_mode()
        &&& m.data.queue.indexer == queue.spec_indexer().spec_kind()
    }
}

/// What `update` makes of the message `m` at the position `timestamp`.
pub open spec fn updated_shown(m: Message, update: Update, timestamp: Duration) -> (bool, ShownQueue, Duration) {
    (
        match update {
            Update::Paused(p) => p,
            _ => m.data.paused,
        },
        match update {
            Update::Indexer(i) => ShownQueue { indexer: i, ..m.data.queue },
            Update::Repeat(r) => ShownQueue { repeat_mode: r, ..m.data.queue },
            Update::QueueLen(n) => ShownQueue { len: n, ..m.data.queue },
            Update::QueuePosition(p) => ShownQueue { position: p, ..m.data.queue },
            Update::Paused(_) => m.data.queue,
        },
        timestamp,
    )
}

impl RawPlayerData {
    pub closed spec fn spec_queue(&self) -> Queue {
        self.queue
    }

    pub closed spec fn spec_volume(&self) -> u16 {
        self.volume
    }

    pub closed spec fn spec_text_channel_id(&self) -> u64 {
        self.text_channel_id
    }

    pub closed spec fn spec_message(&self) -> Option<Message> {
        self.now_playing_message
    }

    /// The volume is never zero.
    pub open spec fn wf(&self) -> bool {
        &&& self.spec_volume() != 0
        &&& self.spec_queue().wf()
    }

    /// The state of a new player that answers in the given text channel: an
    /// empty queue at the default volume, with no now-playing message.
    pub fn new(text_channel_id: u64) -> (r: Self)
        ensures
            r.wf(),
            r.spec_text_channel_id() == text_channel_id,
            r.spec_volume() == DEFAULT_VOLUME,
            r.spec_message() is None,
            r.spec_queue().items().len() == 0,
            r.spec_queue().spec_index() == 0,
            r.spec_queue().spec_repeat_mode() == RepeatMode::Off,
            r.spec_queue().spec_indexer().spec_kind() == IndexerType::Standard,
            r.spec_queue().spec_advancing_enabled(),
    {
        RawPlayerData {
            text_channel_id,
            volume: DEFAULT_VOLUME,
            queue: Queue::new(),
            now_playing_message: None,
        }
    }

    pub fn queue(&self) -> (r: &Queue)
        ensures
            *r == self.spec_queue(),
    {
        &self.queue
    }

    pub fn queue_mut(&mut self) -> (r: &mut Queue)
        ensures
            *r == old(self).spec_queue(),
            final(self).spec_queue() == *final(r),
            final(self).spec_volume() == old(self).spec_volume(),
            final(self).spec_text_channel_id() == old(self).spec_text_channel_id(),
            final(self).spec_message() == old(self).spec_message(),
    {
        &mut self.queue
    }

    pub fn volume(&self) -> (r: u16)
        ensures
            r == self.spec_volume(),
    {
        self.volume
    }

    pub fn set_volume(&mut self, volume: u16)
        requires
            volume != 0,
        ensures
            final(self).spec_volume() == volume,
            final(self).spec_queue() == old(self).spec_queue(),
            final(self).spec_text_channel_id() == old(self).spec_text_channel_id(),
            final(self).spec_message() == old(self).spec_message(),
    {
        self.volume = volume;
    }

    pub fn text_channel_id(&self) -> (r: u64)
        ensures
            r == self.spec_text_channel_id(),
    {
        self.text_channel_id
    }

    pub fn set_text_channel_id(&mut self, text_channel_id: u64)
        ensures
            final(self).spec_text_channel_id() == text_channel_id,
            final(self).spec_volume() == old(self).spec_volume(),
            final(self).spec_queue() == old(self).spec_queue(),
            final(self).spec_message() == old(self).spec_message(),
    {
        self.text_channel_id = text_channel_id;
    }

    pub fn now_playing_message_id(&self) -> (r: Option<u64>)
        ensures
            r == match self.spec_message() {
                Some(m) => Some(m.id),
                None => None::<u64>,
            },
    {
        match &self.now_playing_message {
            Some(msg) => Some(msg.id()),
            None => None,
        }
    }

    pub fn now_playing_message(&self) -> (r: Option<&Message>)
        ensures
            r == match self.spec_message() {
                Some(m) => Some(&m),
                None => None::<&Message>,
            },
    {
        self.now_playing_message.as_ref()
    }

    /// Removes the now-playing message and hands it over, to be deleted.
    pub fn take_now_playing_message(&mut self) -> (r: Option<Message>)
        ensures
            r == old(self).spec_message(),
            final(self).spec_message() is None,
            final(self).spec_queue() == old(self).spec_queue(),
            final(self).spec_volume() == old(self).spec_volume(),
            final(self).spec_text_channel_id() == old(self).spec_text_channel_id(),
    {
        self.now_playing_message.take()
    }

    /// Keeps the now-playing message that was just sent.
    pub fn set_now_playing_message(&mut self, message: Message)
        ensures
            final(self).spec_message() == Some(message),
            final(self).spec_queue() == old(self).spec_queue(),
            final(self).spec_volume() == old(self).spec_volume(),
            final(self).spec_text_channel_id() == old(self).spec_text_channel_id(),
    {
        self.now_playing_message = Some(message);
    }

    /// Makes the now-playing message show `update` and the position
    /// `timestamp`; says whether there is a message to send again.
    pub fn update_now_playing(&mut self, update: Update, timestamp: Duration) -> (r: bool)
        ensures
            r == old(self).spec_message() is Some,
            final(self).spec_message() is Some == old(self).spec_message() is Some,
            final(self).spec_message() matches Some(m) ==> {
                let o = old(self).spec_message()->0;
                &&& (m.data.paused, m.data.queue, m.data.timestamp) == updated_shown(
                    o,
                    update,
                    timestamp,
                )
                &&& m.id == o.id
                &&& m.channel_id == o.channel_id
            },
            final(self).spec_queue() == old(self).spec_queue(),
            final(self).spec_volume() == old(self).spec_volume(),
            final(self).spec_text_channel_id() == old(self).spec_text_channel_id(),
    {
        match &mut self.now_playing_message {
            Some(msg) => {
                msg.update(update);
                msg.update_timestamp(timestamp);
                true
            },
            None => false,
        }
    }

    /// Makes the now-playing message show the position `timestamp`; says
    /// whether there is a message to send again.
    pub fn update_now_playing_timestamp(&mut self, timestamp: Duration) -> (r: bool)
        ensures
            r == old(self).spec_message() is Some,
            final(self).spec_message() is Some == old(self).spec_message() is Some,
            final(self).spec_message() matches Some(m) ==> {
                let o = old(self).spec_message()->0;
                &&& m.data.timestamp == timestamp
                &&& m.data.queue == o.data.queue
                &&& m.data.paused == o.data.paused
                &&& m.id == o.id
            },
            final(self).spec_queue() == old(self).spec_queue(),
            final(self).spec_volume() == old(self).spec_volume(),
            final(self).spec_text_channel_id() == old(self).spec_text_channel_id(),
    {
        match &mut self.now_playing_message {
            Some(msg) => {
                msg.update_timestamp(timestamp);
                true
            },
            None => false,
        }
    }

    /// Replaces what the now-playing message shows; says whether there is a
    /// message to send again.
    pub fn replace_now_playing_data(&mut self, data: Data) -> (r: bool)
        ensures
            r == old(self).spec_message() is Some,
            final(self).spec_message() == match old(self).spec_message() {
                Some(m) => Some(Message { data, ..m }),
                None => None,
            },
            final(self).spec_queue() == old(self).spec_queue(),
            final(self).spec_volume() == old(self).spec_volume(),
            final(self).spec_text_channel_id() == old(self).spec_text_channel_id(),
    {
        match &mut self.now_playing_message {
            Some(msg) => {
                msg.data = data;
                true
            },
            None => false,
        }
    }

    /// Sets the repeat mode of the queue, and shows it on the now-playing
    /// message; says whether there is a message to send again.
    pub fn set_repeat_mode_then_update(&mut self, mode: RepeatMode, timestamp: Duration) -> (r:
        bool)
        ensures
            r == old(self).spec_message() is Some,
            final(self).spec_queue().spec_repeat_mode() == mode,
            final(self).spec_queue().items() == old(self).spec_queue().items(),
            final(self).spec_queue().spec_index() == old(self).spec_queue().spec_index(),
            final(self).spec_queue().spec_indexer() == old(self).spec_queue().spec_indexer(),
            shows_queue(old(self).spec_message(), old(self).spec_queue()) ==> shows_queue(
                final(self).spec_message(),
                final(self).spec_queue(),
            ),
            final(self).spec_message() matches Some(m) ==> m.data.queue.repeat_mode == mode,
            final(self).spec_message() is Some == old(self).spec_message() is Some,
            final(self).spec_message() matches Some(m) ==> {
                let o = old(self).spec_message()->0;
                &&& (m.data.paused, m.data.queue, m.data.timestamp) == updated_shown(
                    o,
                    Update::Repeat(mode),
                    timestamp,
                )
                &&& m.id == o.id
                &&& m.channel_id == o.channel_id
            },
            final(self).spec_message() matches Some(m) ==> m.data.timestamp == timestamp,
            final(self).spec_volume() == old(self).spec_volume(),
    {
        self.queue.set_repeat_mode(mode);
        self.update_now_playing(Update::Repeat(mode), timestamp)
    }

    /// Sets the order of the queue, and shows it on the now-playing message;
    /// says whether there is a message to send again.
    pub fn set_indexer_then_update(&mut self, kind: IndexerType, timestamp: Duration) -> (r: bool)
        requires
            old(self).wf(),
            old(self).spec_queue().set_indexer_type_defined(kind),
        ensures
            r == old(self).spec_message() is Some,
            final(self).wf(),
            final(self).spec_queue().spec_indexer().spec_kind() == kind,
            final(self).spec_queue().items() == old(self).spec_queue().items(),
            final(self).spec_queue().spec_repeat_mode() == old(self).spec_queue().spec_repeat_mode(),
            shows_queue(old(self).spec_message(), old(self).spec_queue()) ==> shows_queue(
                final(self).spec_message(),
                final(self).spec_queue(),
            ),
            final(self).spec_message() matches Some(m) ==> m.data.queue.indexer == kind,
            final(self).spec_message() is Some == old(self).spec_message() is Some,
            final(self).spec_message() matches Some(m) ==> {
                let o = old(self).spec_message()->0;
                &&& (m.data.paused, m.data.queue, m.data.timestamp) == updated_shown(
                    o,
                    Update::Indexer(kind),
                    timestamp,
                )
                &&& m.id == o.id
                &&& m.channel_id == o.channel_id
            },
            final(self).spec_message() matches Some(m) ==> m.data.timestamp == timestamp,
            final(self).spec_volume() == old(self).spec_volume(),
    {
        self.queue.set_indexer_type(kind);
        self.update_now_playing(Update::Indexer(kind), timestamp)
    }
}

} // verus!
