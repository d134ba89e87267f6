//! One race per channel.

use crate::model::RaceState;
use crate::race::{Actor, Race};
use crate::time::Timestamp;
use std::collections::HashMap;
use vstd::prelude::*;

verus! {

broadcast use vstd::std_specs::hash::group_hash_axioms;

/// The races of all channels. A channel that was never spoken of has a
/// closed race, and gets one of its own, which it keeps, the first time
/// that an operation names it. Whoever holds the registry mutably holds it alone, so what an
/// operation reads and what it writes is one step: of two commands that come
/// in at once, one is applied to what the other has left.
pub struct RaceRegistry {
    races: HashMap<u64, Race>,
}

impl RaceRegistry {
    #[verifier::type_invariant]
    spec fn well_formed(self) -> bool {
        forall|channel: u64| #[trigger]
            self.races@.contains_key(channel) ==> self.races@[channel]@.valid()
    }

    /// The race of `channel`.
    pub closed spec fn state(self, channel: u64) -> RaceState {
        if self.races@.contains_key(channel) {
            self.races@[channel]@
        } else {
            RaceState::Closed
        }
    }

    /// Whether an operation has named `channel` before. From then on the
    /// registry keeps a race for it, closed or not.
    pub closed spec fn knows(self, channel: u64) -> bool {
        self.races@.contains_key(channel)
    }

    /// A registry that knows no channel: every channel's race is closed.
    pub fn new() -> (registry: RaceRegistry)
        ensures
            forall|channel: u64| registry.state(channel) == RaceState::Closed,
            forall|channel: u64| !registry.knows(channel),
    {
        RaceRegistry { races: HashMap::new() }
    }

    /// The race of `channel`, where an operation has named `channel`
    /// before.
    pub fn race(&self, channel: u64) -> (race: Option<&Race>)
        ensures
            (match race {
                Some(race) => race@ == self.state(channel),
                None => self.state(channel) == RaceState::Closed,
            }),
            race is Some <==> self.knows(channel),
            self.state(channel).valid(),
    {
        proof {
            use_type_invariant(self);
        }
        self.races.get(&channel)
    }

    fn take_races(&mut self) -> (races: HashMap<u64, Race>)
        ensures
            races == old(self).races,
            final(self).races@ == Map::<u64, Race>::empty(),
    {
        let mut races: HashMap<u64, Race> = HashMap::new();
        core::mem::swap(&mut self.races, &mut races);
        races
    }

    /// `actor` reports at `now`, in `channel`, to have finished.
    pub fn done(&mut self, channel: u64, actor: &Actor, now: Timestamp) -> (notices: Vec<String>)
        ensures
            final(self).state(channel) == old(self).state(channel).after_done(actor.id, now),
            notices.deep_view() == old(self).state(channel).done_notices(
                actor.id,
                actor.display@,
                now,
            ),
            forall|other: u64|
                other != channel ==> final(self).state(other) == old(self).state(other),
            forall|other: u64|
                final(self).knows(other) == (other == channel || old(self).knows(other)),
            forall|any: u64| #[trigger] final(self).state(any).valid(),
    {
        proof {
            use_type_invariant(&*self);
        }
        let mut races = self.take_races();
        let notices = races.entry(channel).or_insert(Race::new()).done(actor, now);
        self.races = races;
        notices
    }

    /// `actor` gives up at `now`, in `channel`.
    pub fn forfeit(&mut self, channel: u64, actor: &Actor, now: Timestamp) -> (notices: Vec<
        String,
    >)
        ensures
            final(self).state(channel) == old(self).state(channel).after_forfeit(actor.id, now),
            notices.deep_view() == old(self).state(channel).forfeit_notices(
                actor.id,
                actor.display@,
                now,
            ),
            forall|other: u64|
                other != channel ==> final(self).state(other) == old(self).state(other),
            forall|other: u64|
                final(self).knows(other) == (other == channel || old(self).knows(other)),
            forall|any: u64| #[trigger] final(self).state(any).valid(),
    {
        proof {
            use_type_invariant(&*self);
        }
        let mut races = self.take_races();
        let notices = races.entry(channel).or_insert(Race::new()).forfeit(actor, now);
        self.races = races;
        notices
    }

    /// `actor` says at `now`, in `channel`, to be ready.
    pub fn ready(&mut self, channel: u64, actor: &Actor, now: Timestamp) -> (notices: Vec<String>)
        ensures
            final(self).state(channel) == old(self).state(channel).after_ready(actor.id, now),
            notices.deep_view() == old(self).state(channel).ready_notices(
                actor.id,
                actor.display@,
                now,
            ),
            forall|other: u64|
                other != channel ==> final(self).state(other) == old(self).state(other),
            forall|other: u64|
                final(self).knows(other) == (other == channel || old(self).knows(other)),
            forall|any: u64| #[trigger] final(self).state(any).valid(),
    {
        proof {
            use_type_invariant(&*self);
        }
        let mut races = self.take_races();
        let notices = races.entry(channel).or_insert(Race::new()).ready(actor, now);
        self.races = races;
        notices
    }

    /// `actor` asks at `now` to leave the race of `channel`.
    pub fn leave(&mut self, channel: u64, actor: &Actor, now: Timestamp) -> (notices: Vec<String>)
        ensures
            final(self).state(channel) == old(self).state(channel).after_leave(actor.id, now),
            notices.deep_view() == old(self).state(channel).leave_notices(
                actor.id,
                actor.display@,
                now,
            ),
            forall|other: u64|
                other != channel ==> final(self).state(other) == old(self).state(other),
            forall|other: u64|
                final(self).knows(other) == (other == channel || old(self).knows(other)),
            forall|any: u64| #[trigger] final(self).state(any).valid(),
    {
        proof {
            use_type_invariant(&*self);
        }
        let mut races = self.take_races();
        let notices = races.entry(channel).or_insert(Race::new()).leave(actor, now);
        self.races = races;
        notices
    }

    /// `actor` asks to enter the race of `channel`.
    pub fn enter(&mut self, channel: u64, actor: &Actor) -> (notices: Vec<String>)
        ensures
            final(self).state(channel) == old(self).state(channel).after_enter(actor.id),
            notices.deep_view() == old(self).state(channel).enter_notices(
                actor.id,
                actor.display@,
            ),
            forall|other: u64|
                other != channel ==> final(self).state(other) == old(self).state(other),
            forall|other: u64|
                final(self).knows(other) == (other == channel || old(self).knows(other)),
            forall|any: u64| #[trigger] final(self).state(any).valid(),
    {
        proof {
            use_type_invariant(&*self);
        }
        let mut races = self.take_races();
        let notices = races.entry(channel).or_insert(Race::new()).enter(actor);
        self.races = races;
        notices
    }

    /// `actor` asks to open a race in `channel`.
    pub fn open(&mut self, channel: u64, actor: &Actor) -> (notices: Vec<String>)
        ensures
            final(self).state(channel) == old(self).state(channel).after_open(),
            notices.deep_view() == old(self).state(channel).open_notices(actor.display@),
            forall|other: u64|
                other != channel ==> final(self).state(other) == old(self).state(other),
            forall|other: u64|
                final(self).knows(other) == (other == channel || old(self).knows(other)),
            forall|any: u64| #[trigger] final(self).state(any).valid(),
    {
        proof {
            use_type_invariant(&*self);
        }
        let mut races = self.take_races();
        let notices = races.entry(channel).or_insert(Race::new()).open(actor);
        self.races = races;
        notices
    }
}

} // verus!
