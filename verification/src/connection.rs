//! The bookkeeping of voice connections: one record per guild, kept by a
//! single owner that answers requests about it one at a time.

use vstd::prelude::*;
use std::collections::HashMap;
use crate::error::UnrecognisedConnection;

verus! {

broadcast use vstd::std_specs::hash::group_hash_axioms;

/// A link to a message: its guild, channel and id.
#[derive(Clone, Copy, Debug, PartialEq, Eq, Structural)]
pub struct MessageLinkComponent {
    pub guild_id: u64,
    pub channel_id: u64,
    pub message_id: u64,
}

/// Something that belongs to a guild.
pub trait GuildIdAware {
    fn guild_id(&self) -> u64;
}

/// Something that belongs to a guild where the bot has a voice connection.
pub trait ConnectionAware: GuildIdAware {}

impl GuildIdAware for MessageLinkComponent {
    fn guild_id(&self) -> (r: u64)
        ensures
            r == self.guild_id,
    {
        self.guild_id
    }
}

/// A vote cast in a poll.
#[derive(Clone, Copy, Debug, PartialEq, Eq, Structural)]
pub enum Vote {
    Upvote,
    Downvote,
}

/// What voids an ongoing poll.
#[derive(Clone, Copy, Debug, PartialEq, Eq, Structural)]
pub enum VoidingEvent {
    QueueClear,
    QueueRepeat,
}

/// The poll held in a voice connection, known by its message.
#[derive(Clone, Copy, Debug, PartialEq, Eq, Structural)]
pub struct Poll {
    pub message: MessageLinkComponent,
}

/// The user who cast a vote on another user's behalf.
#[derive(Clone, Copy, Debug, PartialEq, Eq, Structural)]
pub struct AlternateVoteCastUserId(u64);

impl AlternateVoteCastUserId {
    pub closed spec fn id(&self) -> u64 {
        self.0
    }

    pub fn from_user_id(value: u64) -> (r: Self)
        ensures
            r.id() == value,
    {
        Self(value)
    }

    pub fn user_id(&self) -> (r: u64)
        ensures
            r == self.id(),
    {
        self.0
    }
}

/// Events sent to the subscribers of a voice connection.
#[derive(Clone, Copy, Debug, PartialEq, Eq, Structural)]
pub enum Event {
    QueueClear,
    QueueRepeat,
    AlternateVoteCast(AlternateVoteCastUserId),
    AlternateVoteDjCast,
    AlternateVoteCastedAlready(Vote),
    AlternateVoteCastDenied,
}

/// A voice connection of the bot in one guild.
#[derive(Clone, Copy, Debug, PartialEq, Eq, Structural)]
pub struct Connection {
    pub channel_id: u64,
    pub text_channel_id: u64,
    pub mute: bool,
    pub poll: Option<Poll>,
    /// Whether the voice state update handler runs for this connection.
    pub vsu_handler_enabled: bool,
}

impl Connection {
    pub fn new(channel_id: u64, text_channel_id: u64) -> (r: Self)
        ensures
            r == (Connection {
                channel_id,
                text_channel_id,
                mute: false,
                poll: None,
                vsu_handler_enabled: true,
            }),
    {
        Connection { channel_id, text_channel_id, mute: false, poll: None, vsu_handler_enabled: true }
    }

    pub fn poll(&self) -> (r: Option<&Poll>)
        ensures
            r == match self.poll {
                Some(p) => Some(&p),
                None => None::<&Poll>,
            },
    {
        self.poll.as_ref()
    }

    pub fn set_poll(&mut self, poll: Option<Poll>)
        ensures
            *final(self) == (Connection { poll, ..*old(self) }),
    {
        self.poll = poll;
    }

    /// Enables (`true`) or disables (`false`) the voice state update handler.
    pub fn set_vsu_handler_state(&mut self, state: bool)
        ensures
            *final(self) == (Connection { vsu_handler_enabled: state, ..*old(self) }),
    {
        self.vsu_handler_enabled = state;
    }

    pub fn disable_vsu_handler(&mut self)
        ensures
            *final(self) == (Connection { vsu_handler_enabled: false, ..*old(self) }),
    {
        self.set_vsu_handler_state(false);
    }

    pub fn enable_vsu_handler(&mut self)
        ensures
            *final(self) == (Connection { vsu_handler_enabled: true, ..*old(self) }),
    {
        self.set_vsu_handler_state(true);
    }
}

/// The basic information of a voice connection.
#[derive(Clone, Copy, Debug, PartialEq, Eq, Structural)]
pub struct ConnectionHead {
    channel_id: u64,
    text_channel_id: u64,
    mute: bool,
}

/// The basic information of `c`.
pub closed spec fn head_of(c: Connection) -> ConnectionHead {
    ConnectionHead { channel_id: c.channel_id, text_channel_id: c.text_channel_id, mute: c.mute }
}

/// The basic information of a connection holds its channel, its text channel
/// and whether it is muted.
pub proof fn lemma_head_of(c: Connection)
    ensures
        head_of(c).spec_channel_id() == c.channel_id,
        head_of(c).spec_text_channel_id() == c.text_channel_id,
        head_of(c).spec_mute() == c.mute,
{
}

impl ConnectionHead {
    pub closed spec fn spec_channel_id(self) -> u64 {
        self.channel_id
    }

    pub closed spec fn spec_text_channel_id(self) -> u64 {
        self.text_channel_id
    }

    pub closed spec fn spec_mute(self) -> bool {
        self.mute
    }

    pub fn from_connection(value: &Connection) -> (r: Self)
        ensures
            r == head_of(*value),
    {
        ConnectionHead {
            channel_id: value.channel_id,
            text_channel_id: value.text_channel_id,
            mute: value.mute,
        }
    }

    pub fn channel_id(&self) -> (r: u64)
        ensures
            r == self.spec_channel_id(),
    {
        self.channel_id
    }

    pub fn text_channel_id(&self) -> (r: u64)
        ensures
            r == self.spec_text_channel_id(),
    {
        self.text_channel_id
    }

    pub fn mute(&self) -> (r: bool)
        ensures
            r == self.spec_mute(),
    {
        self.mute
    }
}

/// A request about the voice connection of a guild.
#[derive(Clone, Copy, Debug, PartialEq, Eq, Structural)]
pub enum Instruction {
    /// Insert a new connection
    Insert(u64, Connection),
    /// Remove a connection
    Remove(u64),
    /// Query if a connection exists
    Exists(u64),
    /// Dispatch an event to a connection
    Dispatch(u64, Event),
    /// Subscribe to events from a connection
    Subscribe(u64),
    /// Set the voice state update handler's state: `true` enables it,
    /// `false` disables it.
    SetVsuHandlerState(u64, bool),
    /// Subscribe to the voice state update handler's state
    SubscribeToVsuHandlerEnabler(u64),
    /// Toggle mute; answers with the new mute state
    ToggleMute(u64),
    /// Set mute
    SetMute(u64, bool),
    /// Set the channel for a connection
    SetChannel(u64, u64),
    /// Set the text channel for a connection
    SetTextChannel(u64, u64),
    /// Get basic connection info
    Head(u64),
    /// Get the connection poll info
    GetPoll(u64),
    /// Set the connection poll info
    SetPoll(u64, Option<Poll>),
}

/// The answer to an instruction.  `Dispatch` carries the event to send to the
/// guild's subscribers, `Subscribe` and `SubscribeToVsuHandlerEnabler` say
/// whether a subscription is to be made, and `SetVsuHandlerState` carries the
/// state to publish.
#[derive(Clone, Copy, Debug)]
pub enum Reply {
    Done,
    Exists(bool),
    Dispatch(Result<Event, UnrecognisedConnection>),
    Subscribe(Result<(), UnrecognisedConnection>),
    SetVsuHandlerState(Result<bool, UnrecognisedConnection>),
    SubscribeToVsuHandlerEnabler(Result<bool, UnrecognisedConnection>),
    ToggleMute(Result<bool, UnrecognisedConnection>),
    Unit(Result<(), UnrecognisedConnection>),
    Head(Result<ConnectionHead, UnrecognisedConnection>),
    GetPoll(Result<Option<Poll>, UnrecognisedConnection>),
}

/// The connections after `instruction`, and the answer to it.
pub open spec fn connections_step(m: Map<u64, Connection>, instruction: Instruction) -> (
    Map<u64, Connection>,
    Reply,
) {
    match instruction {
        Instruction::Insert(g, c) => (m.insert(g, c), Reply::Done),
        Instruction::Remove(g) => (m.remove(g), Reply::Done),
        Instruction::Exists(g) => (m, Reply::Exists(m.contains_key(g))),
        Instruction::Dispatch(g, e) => (
            m,
            Reply::Dispatch(
                if m.contains_key(g) {
                    Ok(e)
                } else {
                    Err(UnrecognisedConnection)
                },
            ),
        ),
        Instruction::Subscribe(g) => (
            m,
            Reply::Subscribe(
                if m.contains_key(g) {
                    Ok(())
                } else {
                    Err(UnrecognisedConnection)
                },
            ),
        ),
        Instruction::SetVsuHandlerState(g, state) => if m.contains_key(g) {
            (
                m.insert(g, Connection { vsu_handler_enabled: state, ..m[g] }),
                Reply::SetVsuHandlerState(Ok(state)),
            )
        } else {
            (m, Reply::SetVsuHandlerState(Err(UnrecognisedConnection)))
        },
        Instruction::SubscribeToVsuHandlerEnabler(g) => (
            m,
            Reply::SubscribeToVsuHandlerEnabler(
                if m.contains_key(g) {
                    Ok(m[g].vsu_handler_enabled)
                } else {
                    Err(UnrecognisedConnection)
                },
            ),
        ),
        Instruction::ToggleMute(g) => if m.contains_key(g) {
            (
                m.insert(g, Connection { mute: !m[g].mute, ..m[g] }),
                Reply::ToggleMute(Ok(!m[g].mute)),
            )
        } else {
            (m, Reply::ToggleMute(Err(UnrecognisedConnection)))
        },
        Instruction::SetMute(g, mute) => if m.contains_key(g) {
            (m.insert(g, Connection { mute, ..m[g] }), Reply::Unit(Ok(())))
        } else {
            (m, Reply::Unit(Err(UnrecognisedConnection)))
        },
        Instruction::SetChannel(g, channel_id) => if m.contains_key(g) {
            (m.insert(g, Connection { channel_id, ..m[g] }), Reply::Unit(Ok(())))
        } else {
            (m, Reply::Unit(Err(UnrecognisedConnection)))
        },
        Instruction::SetTextChannel(g, text_channel_id) => if m.contains_key(g) {
            (m.insert(g, Connection { text_channel_id, ..m[g] }), Reply::Unit(Ok(())))
        } else {
            (m, Reply::Unit(Err(UnrecognisedConnection)))
        },
        Instruction::Head(g) => (
            m,
            Reply::Head(
                if m.contains_key(g) {
                    Ok(head_of(m[g]))
                } else {
                    Err(UnrecognisedConnection)
                },
            ),
        ),
        Instruction::GetPoll(g) => (
            m,
            Reply::GetPoll(
                if m.contains_key(g) {
                    Ok(m[g].poll)
                } else {
                    Err(UnrecognisedConnection)
                },
            ),
        ),
        Instruction::SetPoll(g, poll) => if m.contains_key(g) {
            (m.insert(g, Connection { poll, ..m[g] }), Reply::Unit(Ok(())))
        } else {
            (m, Reply::Unit(Err(UnrecognisedConnection)))
        },
    }
}

/// Whether `instruction` is about the connection of an existing guild only:
/// everything but inserting, removing and asking whether one exists.
pub open spec fn needs_connection(instruction: Instruction) -> bool {
    !(instruction is Insert || instruction is Remove || instruction is Exists)
}

/// The guild that `instruction` is about.
pub open spec fn guild_of(instruction: Instruction) -> u64 {
    match instruction {
        Instruction::Insert(g, _) => g,
        Instruction::Remove(g) => g,
        Instruction::Exists(g) => g,
        Instruction::Dispatch(g, _) => g,
        Instruction::Subscribe(g) => g,
        Instruction::SetVsuHandlerState(g, _) => g,
        Instruction::SubscribeToVsuHandlerEnabler(g) => g,
        Instruction::ToggleMute(g) => g,
        Instruction::SetMute(g, _) => g,
        Instruction::SetChannel(g, _) => g,
        Instruction::SetTextChannel(g, _) => g,
        Instruction::Head(g) => g,
        Instruction::GetPoll(g) => g,
        Instruction::SetPoll(g, _) => g,
    }
}

/// Whether `reply` reports that the guild's connection is not known.
pub open spec fn is_unrecognised(reply: Reply) -> bool {
    match reply {
        Reply::Dispatch(r) => r is Err,
        Reply::Subscribe(r) => r is Err,
        Reply::SetVsuHandlerState(r) => r is Err,
        Reply::SubscribeToVsuHandlerEnabler(r) => r is Err,
        Reply::ToggleMute(r) => r is Err,
        Reply::Unit(r) => r is Err,
        Reply::Head(r) => r is Err,
        Reply::GetPoll(r) => r is Err,
        _ => false,
    }
}

/// After a connection is inserted for a guild, the guild is known to have one,
/// and its basic information is that of the inserted connection.
pub proof fn lemma_insert_then_exists(m: Map<u64, Connection>, g: u64, c: Connection)
    ensures
        ({
            let after = connections_step(m, Instruction::Insert(g, c)).0;
            &&& connections_step(after, Instruction::Exists(g)).1 == Reply::Exists(true)
            &&& connections_step(after, Instruction::Head(g)).1 == Reply::Head(Ok(head_of(c)))
            &&& connections_step(after, Instruction::GetPoll(g)).1 == Reply::GetPoll(Ok(c.poll))
        }),
{
}

/// After the connection of a guild is removed, the guild has none.
pub proof fn lemma_remove_then_absent(m: Map<u64, Connection>, g: u64)
    ensures
        connections_step(connections_step(m, Instruction::Remove(g)).0, Instruction::Exists(g)).1
            == Reply::Exists(false),
{
}

/// An instruction that needs the connection of a guild without one is refused
/// as unrecognised and changes nothing.
pub proof fn lemma_unknown_guild_refused(m: Map<u64, Connection>, instruction: Instruction)
    requires
        needs_connection(instruction),
        !m.contains_key(guild_of(instruction)),
    ensures
        connections_step(m, instruction).0 == m,
        is_unrecognised(connections_step(m, instruction).1),
{
}

/// An instruction on one guild leaves the connections of the other guilds as
/// they were.
pub proof fn lemma_other_guilds_untouched(
    m: Map<u64, Connection>,
    instruction: Instruction,
    other: u64,
)
    requires
        other != guild_of(instruction),
    ensures
        connections_step(m, instruction).0.contains_key(other) == m.contains_key(other),
        m.contains_key(other) ==> connections_step(m, instruction).0[other] == m[other],
{
}

/// Toggling mute twice gives back the connections as they were, and the two
/// answers are opposite.
pub proof fn lemma_toggle_mute_twice(m: Map<u64, Connection>, g: u64)
    requires
        m.contains_key(g),
    ensures
        ({
            let (once, first) = connections_step(m, Instruction::ToggleMute(g));
            let (twice, second) = connections_step(once, Instruction::ToggleMute(g));
            &&& twice == m
            &&& first == Reply::ToggleMute(Ok(!m[g].mute))
            &&& second == Reply::ToggleMute(Ok(m[g].mute))
        }),
{
    let once = connections_step(m, Instruction::ToggleMute(g)).0;
    let twice = connections_step(once, Instruction::ToggleMute(g)).0;
    assert(twice =~= m);
}

/// Setting mute, then asking for the basic information, gives the mute that
/// was set.
pub proof fn lemma_set_mute_then_head(m: Map<u64, Connection>, g: u64, mute: bool)
    requires
        m.contains_key(g),
    ensures
        ({
            let after = connections_step(m, Instruction::SetMute(g, mute)).0;
            connections_step(after, Instruction::Head(g)).1 == Reply::Head(
                Ok(head_of(Connection { mute, ..m[g] })),
            )
        }),
{
}

/// Setting the poll of a known guild, whatever the poll is, and then asking
/// for it gives that poll: a poll set to none (the poll ended) is gone, and
/// nothing else of the connection changes.
pub proof fn lemma_set_poll_then_get_poll(m: Map<u64, Connection>, g: u64, poll: Option<Poll>)
    requires
        m.contains_key(g),
    ensures
        ({
            let (after, reply) = connections_step(m, Instruction::SetPoll(g, poll));
            &&& reply == Reply::Unit(Ok(()))
            &&& after.contains_key(g)
            &&& after[g].poll == poll
            &&& after[g] == Connection { poll, ..m[g] }
            &&& connections_step(after, Instruction::GetPoll(g)).1 == Reply::GetPoll(Ok(poll))
        }),
{
}

/// Setting the channel, the text channel or the state of the voice state
/// update handler of a known guild, and then reading it back, gives what was
/// set, with the rest of the connection unchanged.
pub proof fn lemma_set_then_read_back(
    m: Map<u64, Connection>,
    g: u64,
    channel_id: u64,
    text_channel_id: u64,
    state: bool,
)
    requires
        m.contains_key(g),
    ensures
        ({
            let (after, reply) = connections_step(m, Instruction::SetChannel(g, channel_id));
            &&& reply == Reply::Unit(Ok(()))
            &&& after[g] == Connection { channel_id, ..m[g] }
            &&& connections_step(after, Instruction::Head(g)).1 matches Reply::Head(Ok(h)) && h.spec_channel_id()
                == channel_id && h.spec_text_channel_id() == m[g].text_channel_id && h.spec_mute()
                == m[g].mute
        }),
        ({
            let (after, reply) = connections_step(m, Instruction::SetTextChannel(g, text_channel_id));
            &&& reply == Reply::Unit(Ok(()))
            &&& after[g] == Connection { text_channel_id, ..m[g] }
            &&& connections_step(after, Instruction::Head(g)).1 matches Reply::Head(Ok(h)) && h.spec_channel_id()
                == m[g].channel_id && h.spec_text_channel_id() == text_channel_id && h.spec_mute()
                == m[g].mute
        }),
        ({
            let (after, reply) = connections_step(m, Instruction::SetVsuHandlerState(g, state));
            &&& reply == Reply::SetVsuHandlerState(Ok(state))
            &&& after[g] == Connection { vsu_handler_enabled: state, ..m[g] }
            &&& connections_step(after, Instruction::SubscribeToVsuHandlerEnabler(g)).1
                == Reply::SubscribeToVsuHandlerEnabler(Ok(state))
        }),
{
    lemma_head_of(Connection { channel_id, ..m[g] });
    lemma_head_of(Connection { text_channel_id, ..m[g] });
}

/// The connections after each of `instructions` in turn.
pub open spec fn connections_run(m: Map<u64, Connection>, instructions: Seq<Instruction>) -> Map<
    u64,
    Connection,
>
    decreases instructions.len(),
{
    if instructions.len() == 0 {
        m
    } else {
        connections_step(connections_run(m, instructions.drop_last()), instructions.last()).0
    }
}

/// Whether guild `g` has a connection after `instructions`, given whether it
/// had one before: the last insertion or removal for `g` decides, and without
/// either nothing changes.
pub open spec fn present_after(before: bool, instructions: Seq<Instruction>, g: u64) -> bool
    decreases instructions.len(),
{
    if instructions.len() == 0 {
        before
    } else {
        match instructions.last() {
            Instruction::Insert(h, _) if h == g => true,
            Instruction::Remove(h) if h == g => false,
            _ => present_after(before, instructions.drop_last(), g),
        }
    }
}

/// After any run of instructions, a guild has a connection exactly when the
/// last insertion or removal for it was an insertion (or, without either,
/// when it had one before), and asking whether it exists answers so.
pub proof fn lemma_exists_after_run(m: Map<u64, Connection>, instructions: Seq<Instruction>, g: u64)
    ensures
        connections_run(m, instructions).contains_key(g) == present_after(
            m.contains_key(g),
            instructions,
            g,
        ),
        connections_step(connections_run(m, instructions), Instruction::Exists(g)).1
            == Reply::Exists(present_after(m.contains_key(g), instructions, g)),
    decreases instructions.len(),
{
    if instructions.len() > 0 {
        let rest = instructions.drop_last();
        lemma_exists_after_run(m, rest, g);
        let before = connections_run(m, rest);
        let x = instructions.last();
        if guild_of(x) != g {
            lemma_other_guilds_untouched(before, x, g);
        }
    }
}

/// The last insertion for a guild decides its connection until something
/// else about that guild comes: inserting replaces any connection there was.
pub proof fn lemma_insert_replaces(m: Map<u64, Connection>, g: u64, c: Connection)
    ensures
        connections_step(m, Instruction::Insert(g, c)).0[g] == c,
        connections_step(connections_step(m, Instruction::Insert(g, c)).0, Instruction::Head(g)).1
            == Reply::Head(Ok(head_of(c))),
{
}

/// The voice connections of all guilds, by guild id.
pub struct ConnectionsActor {
    connections: HashMap<u64, Connection>,
}

impl ConnectionsActor {
    pub closed spec fn connections(&self) -> Map<u64, Connection> {
        self.connections@
    }

    pub fn new() -> (r: Self)
        ensures
            r.connections() == Map::<u64, Connection>::empty(),
    {
        ConnectionsActor { connections: HashMap::new() }
    }

    /// Carries out `instructions` in turn, and gives their answers in order.
    pub fn apply_all(&mut self, instructions: Vec<Instruction>) -> (r: Vec<Reply>)
        ensures
            final(self).connections() == connections_run(old(self).connections(), instructions@),
            r@.len() == instructions@.len(),
            forall|i: int|
                0 <= i < r@.len() ==> #[trigger] r@[i] == connections_step(
                    connections_run(old(self).connections(), instructions@.take(i)),
                    instructions@[i],
                ).1,
    {
        let ghost start = self.connections();
        let mut replies: Vec<Reply> = Vec::new();
        for instruction in it: instructions.into_iter()
            invariant
                it.seq() == instructions@,
                replies@.len() == it.index(),
                self.connections() == connections_run(start, instructions@.take(it.index() as int)),
                forall|i: int|
                    0 <= i < replies@.len() ==> #[trigger] replies@[i] == connections_step(
                        connections_run(start, instructions@.take(i)),
                        instructions@[i],
                    ).1,
        {
            let ghost k = it.index() as int;
            proof {
                assert(instructions@.take(k + 1).drop_last() =~= instructions@.take(k));
                assert(instructions@.take(k + 1).last() == instructions@[k]);
            }
            let reply = self.apply(instruction);
            replies.push(reply);
        }
        proof {
            assert(instructions@.take(instructions@.len() as int) =~= instructions@);
        }
        replies
    }

    /// Carries out `instruction` on the connection of its guild.
    pub fn apply(&mut self, instruction: Instruction) -> (r: Reply)
        ensures
            (final(self).connections(), r) == connections_step(
                old(self).connections(),
                instruction,
            ),
    {
        match instruction {
            Instruction::Insert(g, c) => {
                self.connections.insert(g, c);
                Reply::Done
            },
            Instruction::Remove(g) => {
                self.connections.remove(&g);
                Reply::Done
            },
            Instruction::Exists(g) => Reply::Exists(self.connections.contains_key(&g)),
            Instruction::Dispatch(g, e) => Reply::Dispatch(
                if self.connections.contains_key(&g) {
                    Ok(e)
                } else {
                    Err(UnrecognisedConnection)
                },
            ),
            Instruction::Subscribe(g) => Reply::Subscribe(
                if self.connections.contains_key(&g) {
                    Ok(())
                } else {
                    Err(UnrecognisedConnection)
                },
            ),
            Instruction::SetVsuHandlerState(g, state) => match self.connections.get(&g) {
                Some(c) => {
                    let mut c = *c;
                    c.set_vsu_handler_state(state);
                    self.connections.insert(g, c);
                    Reply::SetVsuHandlerState(Ok(state))
                },
                None => Reply::SetVsuHandlerState(Err(UnrecognisedConnection)),
            },
            Instruction::SubscribeToVsuHandlerEnabler(g) => match self.connections.get(&g) {
                Some(c) => Reply::SubscribeToVsuHandlerEnabler(Ok(c.vsu_handler_enabled)),
                None => Reply::SubscribeToVsuHandlerEnabler(Err(UnrecognisedConnection)),
            },
            Instruction::ToggleMute(g) => match self.connections.get(&g) {
                Some(c) => {
                    let mut c = *c;
                    c.mute = !c.mute;
                    let mute = c.mute;
                    self.connections.insert(g, c);
                    Reply::ToggleMute(Ok(mute))
                },
                None => Reply::ToggleMute(Err(UnrecognisedConnection)),
            },
            Instruction::SetMute(g, mute) => match self.connections.get(&g) {
                Some(c) => {
                    let mut c = *c;
                    c.mute = mute;
                    self.connections.insert(g, c);
                    Reply::Unit(Ok(()))
                },
                None => Reply::Unit(Err(UnrecognisedConnection)),
            },
            Instruction::SetChannel(g, channel_id) => match self.connections.get(&g) {
                Some(c) => {
                    let mut c = *c;
                    c.channel_id = channel_id;
                    self.connections.insert(g, c);
                    Reply::Unit(Ok(()))
                },
                None => Reply::Unit(Err(UnrecognisedConnection)),
            },
            Instruction::SetTextChannel(g, text_channel_id) => match self.connections.get(&g) {
                Some(c) => {
                    let mut c = *c;
                    c.text_channel_id = text_channel_id;
                    self.connections.insert(g, c);
                    Reply::Unit(Ok(()))
                },
                None => Reply::Unit(Err(UnrecognisedConnection)),
            },
            Instruction::Head(g) => match self.connections.get(&g) {
                Some(c) => Reply::Head(Ok(ConnectionHead::from_connection(c))),
                None => Reply::Head(Err(UnrecognisedConnection)),
            },
            Instruction::GetPoll(g) => match self.connections.get(&g) {
                Some(c) => Reply::GetPoll(Ok(c.poll)),
                None => Reply::GetPoll(Err(UnrecognisedConnection)),
            },
            Instruction::SetPoll(g, poll) => match self.connections.get(&g) {
                Some(c) => {
                    let mut c = *c;
                    c.set_poll(poll);
                    self.connections.insert(g, c);
                    Reply::Unit(Ok(()))
                },
                None => Reply::Unit(Err(UnrecognisedConnection)),
            },
        }
    }
}

} // verus!
