//! The race as a mathematical state machine: its states, what makes a state
//! valid, and for each operation the state and the notifications that follow
//! from it.

use crate::text::{
    finished_text, forfeited_text, ALL_FINISHED, ALL_READY, ALREADY_ENTERED, ALREADY_FINISHED,
    ALREADY_FORFEITED, ALREADY_OPENED, ALREADY_READY, DONE_WHILE_CLOSED, DONE_WHILE_OPEN, ENTERED,
    ENTER_WHILE_RUNNING, FORFEIT_WHILE_CLOSED, FORFEIT_WHILE_OPEN, IS_READY, LEFT, NONE_OPEN, OPENED,
    OPEN_WHILE_RUNNING, READY_WHILE_RUNNING,
};
use crate::time::Timestamp;
use vstd::prelude::*;

verus! {

/// How far a participant has come.
#[derive(Clone, Copy, Debug, PartialEq, Eq, Structural)]
pub enum Status {
    /// Has entered the race and is not ready yet.
    Entered,
    /// Is ready to start, or is racing.
    Ready,
    /// Crossed the line at `at`.
    Finished { at: Timestamp },
    /// Gave up at `at`.
    Forfeited { at: Timestamp },
}

/// The participants that are ready, or still racing.
pub open spec fn ready_ones(participants: Map<u64, Status>) -> Set<u64> {
    participants.dom().filter(|actor: u64| participants[actor] is Ready)
}

/// The participants that have finished.
pub open spec fn finished_ones(participants: Map<u64, Status>) -> Set<u64> {
    participants.dom().filter(|actor: u64| participants[actor] is Finished)
}

/// The participants that have forfeited.
pub open spec fn forfeited_ones(participants: Map<u64, Status>) -> Set<u64> {
    participants.dom().filter(|actor: u64| participants[actor] is Forfeited)
}

/// The state of the race of one channel. A participant is an entry of
/// `participants`: the actor is the key, the status the value.
pub enum RaceState {
    /// No race: nothing is kept of an earlier one.
    Closed,
    /// A race that takes entrants and waits for them to be ready.
    Open { participants: Map<u64, Status>, ready_count: nat },
    /// A race under way since `started_at`.
    Running {
        started_at: Timestamp,
        participants: Map<u64, Status>,
        finished_count: nat,
        forfeited_count: nat,
    },
}

impl RaceState {
    /// The participants of the race; none where it is closed.
    pub open spec fn participants(self) -> Map<u64, Status> {
        match self {
            RaceState::Closed => Map::empty(),
            RaceState::Open { participants, .. } => participants,
            RaceState::Running { participants, .. } => participants,
        }
    }

    /// What holds of every race at rest. An open race knows how many of its
    /// entrants are ready, and somebody in it is not ready yet, unless it is
    /// empty. A running race has nobody who is merely entered, knows how
    /// many have finished and how many have forfeited, and somebody in it
    /// is still racing.
    pub open spec fn valid(self) -> bool {
        match self {
            RaceState::Closed => true,
            RaceState::Open { participants, ready_count } => {
                &&& participants.dom().finite()
                &&& forall|actor: u64| #[trigger]
                    participants.contains_key(actor) ==> participants[actor] is Entered
                        || participants[actor] is Ready
                &&& ready_count == ready_ones(participants).len()
                &&& participants.len() == 0 || ready_count < participants.len()
            },
            RaceState::Running { started_at, participants, finished_count, forfeited_count } => {
                &&& participants.dom().finite()
                &&& forall|actor: u64| #[trigger]
                    participants.contains_key(actor) ==> !(participants[actor] is Entered)
                &&& finished_count == finished_ones(participants).len()
                &&& forfeited_count == forfeited_ones(participants).len()
                &&& finished_count + forfeited_count < participants.len()
            },
        }
    }

    /// An open race with these entrants, or the running race that it turns
    /// into at `now` where there is an entrant and every entrant is ready.
    pub open spec fn started_when_all_ready(
        participants: Map<u64, Status>,
        ready_count: nat,
        now: Timestamp,
    ) -> RaceState {
        if ready_count == participants.len() && participants.len() >= 1 {
            RaceState::Running {
                started_at: now,
                participants,
                finished_count: 0,
                forfeited_count: 0,
            }
        } else {
            RaceState::Open { participants, ready_count }
        }
    }

    /// A running race with these racers, or the closed race that it turns
    /// into where every racer has finished or forfeited.
    pub open spec fn closed_when_all_done(
        started_at: Timestamp,
        participants: Map<u64, Status>,
        finished_count: nat,
        forfeited_count: nat,
    ) -> RaceState {
        if finished_count + forfeited_count == participants.len() {
            RaceState::Closed
        } else {
            RaceState::Running { started_at, participants, finished_count, forfeited_count }
        }
    }

    /// The race after somebody has asked to open one.
    pub open spec fn after_open(self) -> RaceState {
        match self {
            RaceState::Closed => RaceState::Open { participants: Map::empty(), ready_count: 0 },
            _ => self,
        }
    }

    /// What is said when `who` asks to open a race.
    pub open spec fn open_notices(self, who: Seq<char>) -> Seq<Seq<char>> {
        match self {
            RaceState::Closed => seq![who + OPENED@],
            RaceState::Open { .. } => seq![ALREADY_OPENED@],
            RaceState::Running { .. } => seq![OPEN_WHILE_RUNNING@],
        }
    }

    /// The race after `actor` has asked to enter.
    pub open spec fn after_enter(self, actor: u64) -> RaceState {
        match self {
            RaceState::Open { participants, ready_count } => if participants.contains_key(actor) {
                self
            } else {
                RaceState::Open {
                    participants: participants.insert(actor, Status::Entered),
                    ready_count,
                }
            },
            _ => self,
        }
    }

    /// What is said when `actor`, called `who`, asks to enter.
    pub open spec fn enter_notices(self, actor: u64, who: Seq<char>) -> Seq<Seq<char>> {
        match self {
            RaceState::Closed => seq![NONE_OPEN@],
            RaceState::Open { participants, .. } => if participants.contains_key(actor) {
                seq![who + ALREADY_ENTERED@]
            } else {
                seq![who + ENTERED@]
            },
            RaceState::Running { .. } => seq![ENTER_WHILE_RUNNING@],
        }
    }

    /// The race after `actor` has said at `now` to be ready.
    pub open spec fn after_ready(self, actor: u64, now: Timestamp) -> RaceState {
        match self {
            RaceState::Open { participants, ready_count } => if participants.contains_key(actor)
                && participants[actor] is Entered {
                Self::started_when_all_ready(
                    participants.insert(actor, Status::Ready),
                    ready_count + 1,
                    now,
                )
            } else {
                Self::started_when_all_ready(participants, ready_count, now)
            },
            _ => self,
        }
    }

    /// What is said when `actor`, called `who`, says at `now` to be ready.
    pub open spec fn ready_notices(self, actor: u64, who: Seq<char>, now: Timestamp) -> Seq<
        Seq<char>,
    > {
        match self {
            RaceState::Closed => seq![NONE_OPEN@],
            RaceState::Open { participants, .. } => {
                let own = if !participants.contains_key(actor) {
                    Seq::empty()
                } else if participants[actor] is Entered {
                    seq![who + IS_READY@]
                } else {
                    seq![who + ALREADY_READY@]
                };
                if self.after_ready(actor, now) is Running {
                    own.push(ALL_READY@)
                } else {
                    own
                }
            },
            RaceState::Running { .. } => seq![READY_WHILE_RUNNING@],
        }
    }

    /// The race after `actor` has asked at `now` to leave.
    pub open spec fn after_leave(self, actor: u64, now: Timestamp) -> RaceState {
        match self {
            RaceState::Open { participants, ready_count } => if participants.contains_key(actor)
                && participants[actor] is Ready {
                Self::started_when_all_ready(
                    participants.remove(actor),
                    (ready_count - 1) as nat,
                    now,
                )
            } else {
                Self::started_when_all_ready(participants.remove(actor), ready_count, now)
            },
            _ => self,
        }
    }

    /// What is said when `actor`, called `who`, asks at `now` to leave.
    pub open spec fn leave_notices(self, actor: u64, who: Seq<char>, now: Timestamp) -> Seq<
        Seq<char>,
    > {
        match self {
            RaceState::Closed => seq![NONE_OPEN@],
            RaceState::Open { .. } => if self.after_leave(actor, now) is Running {
                seq![who + LEFT@, ALL_READY@]
            } else {
                seq![who + LEFT@]
            },
            RaceState::Running { .. } => seq![READY_WHILE_RUNNING@],
        }
    }

    /// Whether `actor` is in the running race and has neither finished nor
    /// forfeited.
    pub open spec fn is_racing(self, actor: u64) -> bool {
        &&& self is Running
        &&& self.participants().contains_key(actor)
        &&& self.participants()[actor] is Ready
    }

    /// The race after `actor` has reported at `now` to have finished.
    pub open spec fn after_done(self, actor: u64, now: Timestamp) -> RaceState {
        match self {
            RaceState::Running { started_at, participants, finished_count, forfeited_count } => {
                if self.is_racing(actor) {
                    Self::closed_when_all_done(
                        started_at,
                        participants.insert(actor, Status::Finished { at: now }),
                        finished_count + 1,
                        forfeited_count,
                    )
                } else {
                    Self::closed_when_all_done(
                        started_at,
                        participants,
                        finished_count,
                        forfeited_count,
                    )
                }
            },
            _ => self,
        }
    }

    /// The race after `actor` has given up at `now`.
    pub open spec fn after_forfeit(self, actor: u64, now: Timestamp) -> RaceState {
        match self {
            RaceState::Running { started_at, participants, finished_count, forfeited_count } => {
                if self.is_racing(actor) {
                    Self::closed_when_all_done(
                        started_at,
                        participants.insert(actor, Status::Forfeited { at: now }),
                        finished_count,
                        forfeited_count + 1,
                    )
                } else {
                    Self::closed_when_all_done(
                        started_at,
                        participants,
                        finished_count,
                        forfeited_count,
                    )
                }
            },
            _ => self,
        }
    }

    /// What a racer who is no longer racing is told on finishing or
    /// forfeiting again; nothing where `actor` is not in the race.
    pub open spec fn no_longer_racing(self, actor: u64, who: Seq<char>) -> Seq<Seq<char>> {
        if !self.participants().contains_key(actor) {
            Seq::empty()
        } else if self.participants()[actor] is Finished {
            seq![who + ALREADY_FINISHED@]
        } else if self.participants()[actor] is Forfeited {
            seq![who + ALREADY_FORFEITED@]
        } else {
            Seq::empty()
        }
    }

    /// What is said when `actor`, called `who`, reports at `now` to have
    /// finished. The place is the number of those who have finished, this
    /// one counted; the time is the time since the start.
    pub open spec fn done_notices(self, actor: u64, who: Seq<char>, now: Timestamp) -> Seq<
        Seq<char>,
    > {
        match self {
            RaceState::Closed => seq![DONE_WHILE_CLOSED@],
            RaceState::Open { .. } => seq![DONE_WHILE_OPEN@],
            RaceState::Running { started_at, finished_count, .. } => {
                let own = if self.is_racing(actor) {
                    seq![finished_text(who, finished_count + 1, now.span_since(started_at).secs())]
                } else {
                    self.no_longer_racing(actor, who)
                };
                if self.after_done(actor, now) is Closed {
                    own.push(ALL_FINISHED@)
                } else {
                    own
                }
            },
        }
    }

    /// What is said when `actor`, called `who`, gives up at `now`.
    pub open spec fn forfeit_notices(self, actor: u64, who: Seq<char>, now: Timestamp) -> Seq<
        Seq<char>,
    > {
        match self {
            RaceState::Closed => seq![FORFEIT_WHILE_CLOSED@],
            RaceState::Open { .. } => seq![FORFEIT_WHILE_OPEN@],
            RaceState::Running { started_at, .. } => {
                let own = if self.is_racing(actor) {
                    seq![forfeited_text(who, now.span_since(started_at).secs())]
                } else {
                    self.no_longer_racing(actor, who)
                };
                if self.after_forfeit(actor, now) is Closed {
                    own.push(ALL_FINISHED@)
                } else {
                    own
                }
            },
        }
    }
}

} // verus!
