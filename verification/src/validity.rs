//! Every operation takes a valid race to a valid race.

use crate::model::{finished_ones, forfeited_ones, ready_ones, RaceState, Status};
use crate::time::Timestamp;
use vstd::prelude::*;
use vstd::set_lib::{lemma_len_subset, lemma_set_disjoint_lens, lemma_subset_equality};

verus! {

/// Each of the three counted sets lies within the participants, so it is
/// finite and no larger than they are.
pub proof fn lemma_ones_within(participants: Map<u64, Status>)
    requires
        participants.dom().finite(),
    ensures
        ready_ones(participants).finite(),
        finished_ones(participants).finite(),
        forfeited_ones(participants).finite(),
        ready_ones(participants).len() <= participants.len(),
        finished_ones(participants).len() <= participants.len(),
        forfeited_ones(participants).len() <= participants.len(),
        finished_ones(participants).len() + forfeited_ones(participants).len()
            <= participants.len(),
{
    let dom = participants.dom();
    dom.lemma_len_filter(|actor: u64| participants[actor] is Ready);
    dom.lemma_len_filter(|actor: u64| participants[actor] is Finished);
    dom.lemma_len_filter(|actor: u64| participants[actor] is Forfeited);
    let finished = finished_ones(participants);
    let forfeited = forfeited_ones(participants);
    assert(finished.disjoint(forfeited));
    lemma_set_disjoint_lens(finished, forfeited);
    lemma_len_subset(finished + forfeited, dom);
}

/// Where nobody is merely entered, everybody is ready, finished or
/// forfeited, and the three counts add up to the participants.
pub proof fn lemma_ones_cover(participants: Map<u64, Status>)
    requires
        participants.dom().finite(),
        forall|actor: u64| #[trigger]
            participants.contains_key(actor) ==> !(participants[actor] is Entered),
    ensures
        ready_ones(participants).len() + finished_ones(participants).len() + forfeited_ones(
            participants,
        ).len() == participants.len(),
{
    let ready = ready_ones(participants);
    let finished = finished_ones(participants);
    let forfeited = forfeited_ones(participants);
    lemma_ones_within(participants);
    assert(finished.disjoint(forfeited));
    lemma_set_disjoint_lens(finished, forfeited);
    assert(ready.disjoint(finished + forfeited));
    lemma_set_disjoint_lens(ready, finished + forfeited);
    assert(ready + (finished + forfeited) =~= participants.dom());
}

/// Giving `actor` the status `status`, as a new participant or in place of
/// an earlier status, puts `actor` into the set that counts `status` and
/// takes it out of the others.
pub proof fn lemma_ones_after_insert(participants: Map<u64, Status>, actor: u64, status: Status)
    ensures
        ready_ones(participants.insert(actor, status)) == if status is Ready {
            ready_ones(participants).insert(actor)
        } else {
            ready_ones(participants).remove(actor)
        },
        finished_ones(participants.insert(actor, status)) == if status is Finished {
            finished_ones(participants).insert(actor)
        } else {
            finished_ones(participants).remove(actor)
        },
        forfeited_ones(participants.insert(actor, status)) == if status is Forfeited {
            forfeited_ones(participants).insert(actor)
        } else {
            forfeited_ones(participants).remove(actor)
        },
{
    let after = participants.insert(actor, status);
    if status is Ready {
        assert(ready_ones(after) =~= ready_ones(participants).insert(actor));
    } else {
        assert(ready_ones(after) =~= ready_ones(participants).remove(actor));
    }
    if status is Finished {
        assert(finished_ones(after) =~= finished_ones(participants).insert(actor));
    } else {
        assert(finished_ones(after) =~= finished_ones(participants).remove(actor));
    }
    if status is Forfeited {
        assert(forfeited_ones(after) =~= forfeited_ones(participants).insert(actor));
    } else {
        assert(forfeited_ones(after) =~= forfeited_ones(participants).remove(actor));
    }
}

/// Taking `actor` out of the participants takes it out of the set of those
/// who are ready.
pub proof fn lemma_ones_after_remove(participants: Map<u64, Status>, actor: u64)
    ensures
        ready_ones(participants.remove(actor)) == ready_ones(participants).remove(actor),
{
    assert(ready_ones(participants.remove(actor)) =~= ready_ones(participants).remove(actor));
}

/// Entrants of whom as many are ready as there are, are all ready: the race
/// that starts with them is valid, with nobody finished and nobody
/// forfeited.
pub proof fn lemma_started_valid(
    participants: Map<u64, Status>,
    ready_count: nat,
    now: Timestamp,
)
    requires
        participants.dom().finite(),
        forall|actor: u64| #[trigger]
            participants.contains_key(actor) ==> participants[actor] is Entered
                || participants[actor] is Ready,
        ready_count == ready_ones(participants).len(),
    ensures
        RaceState::started_when_all_ready(participants, ready_count, now).valid(),
        ready_count == participants.len() ==> forall|actor: u64| #[trigger]
            participants.contains_key(actor) ==> participants[actor] is Ready,
{
    lemma_ones_within(participants);
    if ready_count == participants.len() {
        lemma_subset_equality(ready_ones(participants), participants.dom());
        assert forall|actor: u64| #[trigger] participants.contains_key(actor) implies
            participants[actor] is Ready by {
            assert(ready_ones(participants).contains(actor));
        }
        assert(finished_ones(participants) =~= Set::empty());
        assert(forfeited_ones(participants) =~= Set::empty());
    }
}

/// Opening keeps a race valid.
pub proof fn lemma_open_valid(race: RaceState)
    requires
        race.valid(),
    ensures
        race.after_open().valid(),
{
    assert(ready_ones(Map::<u64, Status>::empty()) =~= Set::empty());
}

/// Entering keeps a race valid.
pub proof fn lemma_enter_valid(race: RaceState, actor: u64)
    requires
        race.valid(),
    ensures
        race.after_enter(actor).valid(),
{
    if let RaceState::Open { participants, ready_count } = race {
        if !participants.contains_key(actor) {
            lemma_ones_after_insert(participants, actor, Status::Entered);
            lemma_ones_within(participants);
        }
    }
}

/// Getting ready keeps a race valid.
pub proof fn lemma_ready_valid(race: RaceState, actor: u64, now: Timestamp)
    requires
        race.valid(),
    ensures
        race.after_ready(actor, now).valid(),
{
    if let RaceState::Open { participants, ready_count } = race {
        if participants.contains_key(actor) && participants[actor] is Entered {
            lemma_ones_after_insert(participants, actor, Status::Ready);
            lemma_ones_within(participants);
            assert(participants.insert(actor, Status::Ready).dom() =~= participants.dom());
            lemma_started_valid(participants.insert(actor, Status::Ready), ready_count + 1, now);
        } else {
            lemma_started_valid(participants, ready_count, now);
        }
    }
}

/// Leaving keeps a race valid.
pub proof fn lemma_leave_valid(race: RaceState, actor: u64, now: Timestamp)
    requires
        race.valid(),
    ensures
        race.after_leave(actor, now).valid(),
{
    if let RaceState::Open { participants, ready_count } = race {
        lemma_ones_after_remove(participants, actor);
        lemma_ones_within(participants);
        if participants.contains_key(actor) && participants[actor] is Ready {
            assert(ready_ones(participants).contains(actor));
            lemma_started_valid(participants.remove(actor), (ready_count - 1) as nat, now);
        } else {
            lemma_started_valid(participants.remove(actor), ready_count, now);
        }
    }
}

/// Finishing keeps a race valid.
pub proof fn lemma_done_valid(race: RaceState, actor: u64, now: Timestamp)
    requires
        race.valid(),
    ensures
        race.after_done(actor, now).valid(),
{
    if let RaceState::Running { started_at, participants, finished_count, forfeited_count } = race {
        if race.is_racing(actor) {
            let after = participants.insert(actor, Status::Finished { at: now });
            lemma_ones_after_insert(participants, actor, Status::Finished { at: now });
            assert(after.dom() =~= participants.dom());
            lemma_ones_within(after);
        }
    }
}

/// Forfeiting keeps a race valid.
pub proof fn lemma_forfeit_valid(race: RaceState, actor: u64, now: Timestamp)
    requires
        race.valid(),
    ensures
        race.after_forfeit(actor, now).valid(),
{
    if let RaceState::Running { started_at, participants, finished_count, forfeited_count } = race {
        if race.is_racing(actor) {
            let after = participants.insert(actor, Status::Forfeited { at: now });
            lemma_ones_after_insert(participants, actor, Status::Forfeited { at: now });
            assert(after.dom() =~= participants.dom());
            lemma_ones_within(after);
        }
    }
}

} // verus!
