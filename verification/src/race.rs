//! The race of one channel, as the program holds it.

use crate::model::{finished_ones, forfeited_ones, ready_ones, RaceState, Status};
use crate::text::{
    finished_notice, forfeited_notice, sentence, ALL_FINISHED, ALL_READY, ALREADY_ENTERED,
    ALREADY_FINISHED, ALREADY_FORFEITED, ALREADY_OPENED, ALREADY_READY, DONE_WHILE_CLOSED,
    DONE_WHILE_OPEN, ENTERED, ENTER_WHILE_RUNNING, FORFEIT_WHILE_CLOSED, FORFEIT_WHILE_OPEN,
    IS_READY, LEFT, NONE_OPEN, OPENED, OPEN_WHILE_RUNNING, READY_WHILE_RUNNING,
};
use crate::time::Timestamp;
use crate::validity::{
    lemma_done_valid, lemma_enter_valid, lemma_forfeit_valid, lemma_leave_valid, lemma_ones_cover,
    lemma_ones_within, lemma_open_valid, lemma_ready_valid,
};
use std::collections::HashMap;
use vstd::pervasive::unreached;
use vstd::prelude::*;

verus! {

broadcast use vstd::std_specs::hash::group_hash_axioms;

/// Whoever sends a command: the identity that the race goes by, and the
/// name that the notifications use.
pub struct Actor {
    pub id: u64,
    pub display: String,
}

enum Phase {
    Closed,
    Open { players: HashMap<u64, Status>, ready: usize },
    Running { started: Timestamp, players: HashMap<u64, Status>, finished: usize, forfeited: usize },
}

/// The race of one channel.
pub struct Race {
    phase: Phase,
}

impl View for Race {
    type V = RaceState;

    closed spec fn view(&self) -> RaceState {
        match self.phase {
            Phase::Closed => RaceState::Closed,
            Phase::Open { players, ready } => RaceState::Open {
                participants: players@,
                ready_count: ready as nat,
            },
            Phase::Running { started, players, finished, forfeited } => RaceState::Running {
                started_at: started,
                participants: players@,
                finished_count: finished as nat,
                forfeited_count: forfeited as nat,
            },
        }
    }
}

fn status_in(players: &HashMap<u64, Status>, actor: u64) -> (status: Option<Status>)
    ensures
        status == players@.get(actor),
{
    match players.get(&actor) {
        Some(status) => Some(*status),
        None => None,
    }
}

impl Race {
    #[verifier::type_invariant]
    spec fn well_formed(self) -> bool {
        self@.valid()
    }

    /// A closed race.
    pub fn new() -> (race: Race)
        ensures
            race@ == RaceState::Closed,
    {
        Race { phase: Phase::Closed }
    }

    /// `actor` reports at `now` to have finished. In a running race, one
    /// who is still racing finishes, in the place after those who finished
    /// before; the race closes with the last racer.
    pub fn done(&mut self, actor: &Actor, now: Timestamp) -> (notices: Vec<String>)
        ensures
            final(self)@ == old(self)@.after_done(actor.id, now),
            notices.deep_view() == old(self)@.done_notices(actor.id, actor.display@, now),
            final(self)@.valid(),
    {
        proof {
            use_type_invariant(&*self);
            lemma_done_valid(self@, actor.id, now);
        }
        let mut notices: Vec<String> = Vec::new();
        let mut phase = Phase::Closed;
        core::mem::swap(&mut self.phase, &mut phase);
        match phase {
            Phase::Closed => {
                notices.push(DONE_WHILE_CLOSED.to_owned());
            },
            Phase::Open { players, ready } => {
                self.phase = Phase::Open { players, ready };
                notices.push(DONE_WHILE_OPEN.to_owned());
            },
            Phase::Running { started, mut players, mut finished, forfeited } => {
                let count: usize = players.len();
                match status_in(&players, actor.id) {
                    Some(Status::Ready) => {
                        players.insert(actor.id, Status::Finished { at: now });
                        finished = finished + 1;
                        notices.push(
                            finished_notice(actor.display.as_str(), finished, now.since(started)),
                        );
                    },
                    Some(Status::Finished { .. }) => {
                        notices.push(sentence(actor.display.as_str(), ALREADY_FINISHED));
                    },
                    Some(Status::Forfeited { .. }) => {
                        notices.push(sentence(actor.display.as_str(), ALREADY_FORFEITED));
                    },
                    Some(Status::Entered) => {
                        // A running race holds nobody who is merely entered.
                        unreached::<()>();
                    },
                    None => {},
                }
                if finished + forfeited == count {
                    notices.push(ALL_FINISHED.to_owned());
                } else {
                    self.phase = Phase::Running { started, players, finished, forfeited };
                }
            },
        }
        notices
    }

    /// `actor` gives up at `now`. In a running race, one who is still
    /// racing forfeits; the race closes with the last racer.
    pub fn forfeit(&mut self, actor: &Actor, now: Timestamp) -> (notices: Vec<String>)
        ensures
            final(self)@ == old(self)@.after_forfeit(actor.id, now),
            notices.deep_view() == old(self)@.forfeit_notices(actor.id, actor.display@, now),
            final(self)@.valid(),
    {
        proof {
            use_type_invariant(&*self);
            lemma_forfeit_valid(self@, actor.id, now);
        }
        let mut notices: Vec<String> = Vec::new();
        let mut phase = Phase::Closed;
        core::mem::swap(&mut self.phase, &mut phase);
        match phase {
            Phase::Closed => {
                notices.push(FORFEIT_WHILE_CLOSED.to_owned());
            },
            Phase::Open { players, ready } => {
                self.phase = Phase::Open { players, ready };
                notices.push(FORFEIT_WHILE_OPEN.to_owned());
            },
            Phase::Running { started, mut players, finished, mut forfeited } => {
                let count: usize = players.len();
                match status_in(&players, actor.id) {
                    Some(Status::Ready) => {
                        players.insert(actor.id, Status::Forfeited { at: now });
                        forfeited = forfeited + 1;
                        notices.push(forfeited_notice(actor.display.as_str(), now.since(started)));
                    },
                    Some(Status::Finished { .. }) => {
                        notices.push(sentence(actor.display.as_str(), ALREADY_FINISHED));
                    },
                    Some(Status::Forfeited { .. }) => {
                        notices.push(sentence(actor.display.as_str(), ALREADY_FORFEITED));
                    },
                    Some(Status::Entered) => {
                        // A running race holds nobody who is merely entered.
                        unreached::<()>();
                    },
                    None => {},
                }
                if finished + forfeited == count {
                    notices.push(ALL_FINISHED.to_owned());
                } else {
                    self.phase = Phase::Running { started, players, finished, forfeited };
                }
            },
        }
        notices
    }

    /// `actor` says at `now` to be ready. In an open race, an entrant who
    /// was not ready is now; the race starts at `now` where there is an
    /// entrant and every entrant is ready.
    pub fn ready(&mut self, actor: &Actor, now: Timestamp) -> (notices: Vec<String>)
        ensures
            final(self)@ == old(self)@.after_ready(actor.id, now),
            notices.deep_view() == old(self)@.ready_notices(actor.id, actor.display@, now),
            final(self)@.valid(),
    {
        proof {
            use_type_invariant(&*self);
            lemma_ready_valid(self@, actor.id, now);
        }
        let mut notices: Vec<String> = Vec::new();
        let mut phase = Phase::Closed;
        core::mem::swap(&mut self.phase, &mut phase);
        match phase {
            Phase::Closed => {
                notices.push(NONE_OPEN.to_owned());
            },
            Phase::Open { mut players, mut ready } => {
                let count: usize = players.len();
                match status_in(&players, actor.id) {
                    Some(Status::Entered) => {
                        players.insert(actor.id, Status::Ready);
                        ready = ready + 1;
                        notices.push(sentence(actor.display.as_str(), IS_READY));
                    },
                    Some(Status::Ready) => {
                        notices.push(sentence(actor.display.as_str(), ALREADY_READY));
                    },
                    Some(_) => {
                        // An open race holds nobody who has finished or forfeited.
                        unreached::<()>();
                    },
                    None => {},
                }
                if ready == count && ready >= 1 {
                    notices.push(ALL_READY.to_owned());
                    self.phase = Phase::Running {
                        started: now,
                        players,
                        finished: 0,
                        forfeited: 0,
                    };
                } else {
                    self.phase = Phase::Open { players, ready };
                }
            },
            Phase::Running { started, players, finished, forfeited } => {
                self.phase = Phase::Running { started, players, finished, forfeited };
                notices.push(READY_WHILE_RUNNING.to_owned());
            },
        }
        notices
    }

    /// `actor` asks at `now` to leave. In an open race, the entrant is
    /// taken out; the race starts at `now` where an entrant is left and
    /// every entrant left is ready.
    pub fn leave(&mut self, actor: &Actor, now: Timestamp) -> (notices: Vec<String>)
        ensures
            final(self)@ == old(self)@.after_leave(actor.id, now),
            notices.deep_view() == old(self)@.leave_notices(actor.id, actor.display@, now),
            final(self)@.valid(),
    {
        proof {
            use_type_invariant(&*self);
            lemma_leave_valid(self@, actor.id, now);
        }
        let mut notices: Vec<String> = Vec::new();
        let mut phase = Phase::Closed;
        core::mem::swap(&mut self.phase, &mut phase);
        match phase {
            Phase::Closed => {
                notices.push(NONE_OPEN.to_owned());
            },
            Phase::Open { mut players, mut ready } => {
                match players.remove(&actor.id) {
                    Some(Status::Ready) => {
                        proof {
                            lemma_ones_within(old(self)@.participants());
                            assert(ready_ones(old(self)@.participants()).contains(actor.id));
                        }
                        ready = ready - 1;
                    },
                    Some(Status::Entered) => {},
                    Some(_) => {
                        // An open race holds nobody who has finished or forfeited.
                        unreached::<()>();
                    },
                    None => {},
                }
                notices.push(sentence(actor.display.as_str(), LEFT));
                if ready == players.len() && ready >= 1 {
                    notices.push(ALL_READY.to_owned());
                    self.phase = Phase::Running {
                        started: now,
                        players,
                        finished: 0,
                        forfeited: 0,
                    };
                } else {
                    self.phase = Phase::Open { players, ready };
                }
            },
            Phase::Running { started, players, finished, forfeited } => {
                self.phase = Phase::Running { started, players, finished, forfeited };
                notices.push(READY_WHILE_RUNNING.to_owned());
            },
        }
        notices
    }

    /// `actor` asks to enter. In an open race, one who is not in it yet
    /// becomes an entrant.
    pub fn enter(&mut self, actor: &Actor) -> (notices: Vec<String>)
        ensures
            final(self)@ == old(self)@.after_enter(actor.id),
            notices.deep_view() == old(self)@.enter_notices(actor.id, actor.display@),
            final(self)@.valid(),
    {
        proof {
            use_type_invariant(&*self);
            lemma_enter_valid(self@, actor.id);
        }
        let mut notices: Vec<String> = Vec::new();
        let mut phase = Phase::Closed;
        core::mem::swap(&mut self.phase, &mut phase);
        match phase {
            Phase::Closed => {
                notices.push(NONE_OPEN.to_owned());
            },
            Phase::Open { mut players, ready } => {
                if !players.contains_key(&actor.id) {
                    players.insert(actor.id, Status::Entered);
                    notices.push(sentence(actor.display.as_str(), ENTERED));
                } else {
                    notices.push(sentence(actor.display.as_str(), ALREADY_ENTERED));
                }
                self.phase = Phase::Open { players, ready };
            },
            Phase::Running { started, players, finished, forfeited } => {
                self.phase = Phase::Running { started, players, finished, forfeited };
                notices.push(ENTER_WHILE_RUNNING.to_owned());
            },
        }
        notices
    }

    /// `actor` asks to open a race. A closed race opens, with nobody in it.
    pub fn open(&mut self, actor: &Actor) -> (notices: Vec<String>)
        ensures
            final(self)@ == old(self)@.after_open(),
            notices.deep_view() == old(self)@.open_notices(actor.display@),
            final(self)@.valid(),
    {
        proof {
            use_type_invariant(&*self);
            lemma_open_valid(self@);
        }
        let mut notices: Vec<String> = Vec::new();
        let mut phase = Phase::Closed;
        core::mem::swap(&mut self.phase, &mut phase);
        match phase {
            Phase::Closed => {
                self.phase = Phase::Open { players: HashMap::new(), ready: 0 };
                notices.push(sentence(actor.display.as_str(), OPENED));
            },
            Phase::Open { players, ready } => {
                self.phase = Phase::Open { players, ready };
                notices.push(ALREADY_OPENED.to_owned());
            },
            Phase::Running { started, players, finished, forfeited } => {
                self.phase = Phase::Running { started, players, finished, forfeited };
                notices.push(OPEN_WHILE_RUNNING.to_owned());
            },
        }
        notices
    }

    /// Whether no race is open or running.
    pub fn is_closed(&self) -> (closed: bool)
        ensures
            closed == (self@ is Closed),
            self@.valid(),
    {
        proof {
            use_type_invariant(self);
        }
        match &self.phase {
            Phase::Closed => true,
            _ => false,
        }
    }

    /// Whether the race takes entrants.
    pub fn is_open(&self) -> (open: bool)
        ensures
            open == (self@ is Open),
            self@.valid(),
    {
        proof {
            use_type_invariant(self);
        }
        match &self.phase {
            Phase::Open { .. } => true,
            _ => false,
        }
    }

    /// Whether the race is under way.
    pub fn is_running(&self) -> (running: bool)
        ensures
            running == (self@ is Running),
            self@.valid(),
    {
        proof {
            use_type_invariant(self);
        }
        match &self.phase {
            Phase::Running { .. } => true,
            _ => false,
        }
    }

    /// When the race started, where it is under way.
    pub fn started_at(&self) -> (started: Option<Timestamp>)
        ensures
            started == (match self@ {
                RaceState::Running { started_at, .. } => Some(started_at),
                _ => None,
            }),
    {
        match &self.phase {
            Phase::Running { started, .. } => Some(*started),
            _ => None,
        }
    }

    /// How many participants the race has.
    pub fn participant_count(&self) -> (count: usize)
        ensures
            count == self@.participants().len(),
    {
        match &self.phase {
            Phase::Closed => {
                assert(self@.participants().dom() =~= Set::empty());
                0
            },
            Phase::Open { players, .. } => players.len(),
            Phase::Running { players, .. } => players.len(),
        }
    }

    /// How many participants are ready: waiting for the start, or racing.
    pub fn ready_count(&self) -> (count: usize)
        ensures
            count == ready_ones(self@.participants()).len(),
    {
        proof {
            use_type_invariant(self);
        }
        match &self.phase {
            Phase::Closed => {
                assert(ready_ones(self@.participants()) =~= Set::empty());
                0
            },
            Phase::Open { ready, .. } => *ready,
            Phase::Running { players, finished, forfeited, .. } => {
                proof {
                    lemma_ones_cover(players@);
                }
                players.len() - *finished - *forfeited
            },
        }
    }

    /// How many participants have finished.
    pub fn finished_count(&self) -> (count: usize)
        ensures
            count == finished_ones(self@.participants()).len(),
    {
        proof {
            use_type_invariant(self);
        }
        match &self.phase {
            Phase::Closed => {
                assert(finished_ones(self@.participants()) =~= Set::empty());
                0
            },
            Phase::Open { players, .. } => {
                assert(finished_ones(players@) =~= Set::empty());
                0
            },
            Phase::Running { finished, .. } => *finished,
        }
    }

    /// How many participants have forfeited.
    pub fn forfeited_count(&self) -> (count: usize)
        ensures
            count == forfeited_ones(self@.participants()).len(),
    {
        proof {
            use_type_invariant(self);
        }
        match &self.phase {
            Phase::Closed => {
                assert(forfeited_ones(self@.participants()) =~= Set::empty());
                0
            },
            Phase::Open { players, .. } => {
                assert(forfeited_ones(players@) =~= Set::empty());
                0
            },
            Phase::Running { forfeited, .. } => *forfeited,
        }
    }

    /// The status of `actor`, where `actor` is in the race.
    pub fn status_of(&self, actor: u64) -> (status: Option<Status>)
        ensures
            status == self@.participants().get(actor),
    {
        match &self.phase {
            Phase::Closed => None,
            Phase::Open { players, .. } => status_in(players, actor),
            Phase::Running { players, .. } => status_in(players, actor),
        }
    }
}

} // verus!
