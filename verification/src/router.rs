//! Routing of voice server updates to the voice connection attempts that wait
//! for them, one waiter per guild.
//!
//! The router hands out receiver numbers. Whoever runs the connection keeps a
//! queue for each number; the router says into which queue an update goes.

use vstd::prelude::*;
use vstd::hash_map::HashMapWithView;
use crate::ids::{ChannelId, GuildId, Snowflake, UserId};

verus! {

broadcast use vstd::std_specs::hash::axiom_u64_obeys_hash_table_key_model;

/// What a voice connection attempt waits for: where and with what token to
/// connect.
#[derive(Debug, Clone)]
pub struct VoiceInfo {
    pub token: String,
    pub endpoint: String,
}

/// An update could not be handed to its waiter: the waiter is gone.
#[derive(Debug, Clone, Copy, PartialEq, Eq, Structural)]
pub struct VoiceStateUpdateError;

/// The waiters, by guild.
pub struct EventRouter {
    routes: HashMapWithView<u64, u64>,
    next: u64,
}

/// The mathematical form of an [`EventRouter`].
pub struct EventRouterView {
    /// The receiver that waits for each guild.
    pub routes: Map<u64, u64>,
    /// The number that the next receiver gets.
    pub next: u64,
}

impl View for EventRouter {
    type V = EventRouterView;

    closed spec fn view(&self) -> EventRouterView {
        EventRouterView { routes: self.routes@, next: self.next }
    }
}

impl EventRouterView {
    /// Every receiver that waits was handed out before, and no two guilds
    /// share a receiver.
    pub open spec fn wf(self) -> bool {
        &&& forall|g: u64| self.routes.contains_key(g) ==> (#[trigger] self.routes[g]) < self.next
        &&& forall|g: u64, h: u64|
            self.routes.contains_key(g) && self.routes.contains_key(h) && g != h ==> (
            #[trigger] self.routes[g]) != (#[trigger] self.routes[h])
    }

    /// The receiver that an update for `guild` goes to, if one waits.
    pub open spec fn route(self, guild: u64) -> Option<u64> {
        if self.routes.contains_key(guild) {
            Some(self.routes[guild])
        } else {
            None
        }
    }
}

impl EventRouter {
    /// Every receiver that waits was handed out before, and no two guilds
    /// share one.
    #[verifier::type_invariant]
    spec fn inv(self) -> bool {
        self@.wf()
    }

    /// A router for which nobody waits.
    pub fn new() -> (r: EventRouter)
        ensures
            r@.routes == Map::<u64, u64>::empty(),
            r@.next == 0,
            r@.wf(),
    {
        EventRouter { routes: HashMapWithView::new(), next: 0 }
    }

    /// Whether another waiter can be registered: receiver numbers are left.
    pub fn can_register(&self) -> (r: bool)
        ensures
            r == (self@.next < u64::MAX),
    {
        self.next < u64::MAX
    }

    /// Registers a waiter for `guild` and returns the number of its fresh
    /// receiver. A waiter that was registered for the guild before is
    /// replaced: no update goes to it any more.
    pub fn register(&mut self, guild: GuildId) -> (receiver: u64)
        requires
            old(self)@.next < u64::MAX,
        ensures
            old(self)@.wf(),
            receiver == old(self)@.next,
            final(self)@.routes == old(self)@.routes.insert(guild.0.0, receiver),
            final(self)@.next == receiver + 1,
            final(self)@.wf(),
    {
        proof {
            use_type_invariant(&*self);
        }
        let receiver = self.next;
        let mut routes = HashMapWithView::new();
        std::mem::swap(&mut routes, &mut self.routes);
        routes.insert(guild.0.0, receiver);
        proof {
            let before = old(self)@;
            assert forall|g: u64| routes@.contains_key(g) implies (#[trigger] routes@[g])
                < receiver + 1 by {
                if g != guild.0.0 {
                    assert(before.routes[g] < before.next);
                }
            }
            assert forall|g: u64, h: u64|
                routes@.contains_key(g) && routes@.contains_key(h) && g != h implies (
            #[trigger] routes@[g]) != (#[trigger] routes@[h]) by {
                if g != guild.0.0 {
                    assert(before.routes[g] < before.next);
                }
                if h != guild.0.0 {
                    assert(before.routes[h] < before.next);
                }
            }
        }
        *self = EventRouter { routes, next: receiver + 1 };
        receiver
    }

    /// The receiver that an update for `guild` goes to; `None` where nobody
    /// waits for that guild.
    pub fn send_event(&self, guild: &GuildId) -> (receiver: Option<u64>)
        ensures
            receiver == self@.route(guild.0.0),
            self@.wf(),
    {
        proof {
            use_type_invariant(self);
        }
        match self.routes.get(&guild.0.0) {
            Some(receiver) => Some(*receiver),
            None => None,
        }
    }
}

/// A waiter that was replaced never gets an update again: after a second
/// registration for the same guild, updates for the guild go to the second
/// receiver, which differs from the first.
pub proof fn lemma_register_replaces(before: EventRouterView, guild: u64)
    requires
        before.wf(),
        before.next < u64::MAX - 1,
    ensures
        ({
            let first = before.next;
            let second = (before.next + 1) as u64;
            let after = EventRouterView {
                routes: before.routes.insert(guild, first).insert(guild, second),
                next: (second + 1) as u64,
            };
            &&& after.route(guild) == Some(second)
            &&& first != second
            &&& forall|other: u64| after.route(other) != Some(first)
        }),
{
    let first = before.next;
    let second = (before.next + 1) as u64;
    let after = EventRouterView {
        routes: before.routes.insert(guild, first).insert(guild, second),
        next: (second + 1) as u64,
    };
    assert forall|other: u64| after.route(other) != Some(first) by {
        if other != guild && before.routes.contains_key(other) {
            assert(before.routes[other] < before.next);
        }
    }
}

/// Where a user is connected to voice: the guild, if the state says one,
/// and the channel, if the user is in one.
#[derive(Debug, Clone, Copy, PartialEq, Eq, Structural)]
pub struct VoiceLocation {
    pub guild_id: Option<GuildId>,
    pub channel_id: Option<ChannelId>,
}

/// The last voice state seen of each user.
pub struct VoiceStates {
    states: HashMapWithView<u64, VoiceLocation>,
}

impl View for VoiceStates {
    type V = Map<u64, VoiceLocation>;

    closed spec fn view(&self) -> Map<u64, VoiceLocation> {
        self.states@
    }
}

/// Where to connect in order to join a user: the guild and channel of the
/// user's voice state, if there is one and it names a guild.
pub open spec fn join_target(states: Map<u64, VoiceLocation>, user: u64) -> Option<
    (GuildId, Option<ChannelId>),
> {
    if states.contains_key(user) {
        match states[user].guild_id {
            Some(guild_id) => Some((guild_id, states[user].channel_id)),
            None => None,
        }
    } else {
        None
    }
}

impl VoiceStates {
    /// No voice state seen yet.
    pub fn new() -> (r: VoiceStates)
        ensures
            r@ == Map::<u64, VoiceLocation>::empty(),
    {
        VoiceStates { states: HashMapWithView::new() }
    }

    /// Notes the voice state of a user; it replaces what was known of the
    /// user.
    pub fn observe(&mut self, user_id: UserId, location: VoiceLocation)
        ensures
            final(self)@ == old(self)@.insert(user_id.0.0, location),
    {
        self.states.insert(user_id.0.0, location);
    }

    /// Where to connect in order to join a user in voice; `None` where
    /// nothing is known of the user or the user's state names no guild.
    pub fn connect_to_user(&self, user_id: UserId) -> (r: Option<(GuildId, Option<ChannelId>)>)
        ensures
            r == join_target(self@, user_id.0.0),
    {
        match self.states.get(&user_id.0.0) {
            Some(location) => match location.guild_id {
                Some(guild_id) => Some((guild_id, location.channel_id)),
                None => None,
            },
            None => None,
        }
    }
}

} // verus!
