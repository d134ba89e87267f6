//! What holds of the races whatever the commands are and however they are
//! ordered.

use crate::model::{finished_ones, forfeited_ones, RaceState, Status};
use crate::text::{
    finished_text, forfeited_text, ALL_FINISHED, ALL_READY, ALREADY_ENTERED, ALREADY_OPENED,
    IS_READY, OPENED, OPEN_WHILE_RUNNING,
};
use crate::time::Timestamp;
use crate::validity::{
    lemma_done_valid, lemma_ones_after_insert, lemma_ones_within, lemma_ready_valid,
    lemma_started_valid,
};
use vstd::prelude::*;
use vstd::set_lib::{lemma_len_subset, lemma_set_disjoint_lens};

verus! {

/// Opening a closed race gives an open race with nobody in it. Opening
/// any other race changes nothing and is answered with a refusal.
pub proof fn lemma_open_once(race: RaceState, who: Seq<char>)
    ensures
        race is Closed ==> ({
            &&& race.after_open() == (RaceState::Open {
                participants: Map::<u64, Status>::empty(),
                ready_count: 0,
            })
            &&& race.after_open().participants().len() == 0
            &&& race.open_notices(who) == seq![who + OPENED@]
        }),
        race is Open ==> ({
            &&& race.after_open() == race
            &&& race.open_notices(who) == seq![ALREADY_OPENED@]
        }),
        race is Running ==> ({
            &&& race.after_open() == race
            &&& race.open_notices(who) == seq![OPEN_WHILE_RUNNING@]
        }),
{
}

/// Entering an open race twice is entering it once: the second call
/// leaves the race, and with it the number of participants, as the first
/// call left it, and is answered with a refusal.
pub proof fn lemma_enter_twice(race: RaceState, actor: u64, who: Seq<char>)
    requires
        race is Open,
    ensures
        race.after_enter(actor).after_enter(actor) == race.after_enter(actor),
        race.after_enter(actor).participants().len() == race.after_enter(
            actor,
        ).after_enter(actor).participants().len(),
        race.after_enter(actor).participants().contains_key(actor),
        race.after_enter(actor).enter_notices(actor, who) == seq![who + ALREADY_ENTERED@],
{
}

/// The last entrant to get ready starts the race, at the time of that
/// call: the race runs from `now`, with every entrant in it and ready, and
/// nobody finished or forfeited. Before the last one, the race stays open.
pub proof fn lemma_ready_starts_with_the_last(
    race: RaceState,
    actor: u64,
    who: Seq<char>,
    now: Timestamp,
)
    requires
        race.valid(),
        race is Open,
        race.participants().contains_key(actor),
        race.participants()[actor] is Entered,
    ensures
        race->ready_count + 1 == race.participants().len() ==> ({
            &&& race.after_ready(actor, now) == (RaceState::Running {
                started_at: now,
                participants: race.participants().insert(actor, Status::Ready),
                finished_count: 0,
                forfeited_count: 0,
            })
            &&& race.after_ready(actor, now).participants().dom() == race.participants().dom()
            &&& forall|other: u64| #[trigger]
                race.participants().contains_key(other) ==> race.after_ready(
                    actor,
                    now,
                ).participants()[other] is Ready
            &&& race.ready_notices(actor, who, now) == seq![who + IS_READY@, ALL_READY@]
        }),
        race->ready_count + 1 != race.participants().len() ==> ({
            &&& race.after_ready(actor, now) == (RaceState::Open {
                participants: race.participants().insert(actor, Status::Ready),
                ready_count: race->ready_count + 1,
            })
            &&& race.ready_notices(actor, who, now) == seq![who + IS_READY@]
        }),
{
    let participants = race.participants();
    let after = participants.insert(actor, Status::Ready);
    lemma_ones_within(participants);
    lemma_ones_after_insert(participants, actor, Status::Ready);
    assert(after.dom() =~= participants.dom());
    lemma_started_valid(after, race->ready_count + 1, now);
}

/// Of the last two entrants who are not ready yet, whichever gets ready
/// first leaves the race open and whichever gets ready second starts it:
/// one start and one notification of it, whatever the order.
pub proof fn lemma_last_two_start_once(
    race: RaceState,
    first: u64,
    first_who: Seq<char>,
    first_now: Timestamp,
    second: u64,
    second_who: Seq<char>,
    second_now: Timestamp,
)
    requires
        race.valid(),
        race is Open,
        first != second,
        race.participants().contains_key(first),
        race.participants()[first] is Entered,
        race.participants().contains_key(second),
        race.participants()[second] is Entered,
        race->ready_count + 2 == race.participants().len(),
    ensures
        race.after_ready(first, first_now) is Open,
        race.ready_notices(first, first_who, first_now) == seq![first_who + IS_READY@],
        race.after_ready(first, first_now).after_ready(second, second_now) is Running,
        race.after_ready(first, first_now).after_ready(second, second_now)->started_at
            == second_now,
        race.after_ready(first, first_now).ready_notices(second, second_who, second_now)
            == seq![second_who + IS_READY@, ALL_READY@],
{
    lemma_ready_starts_with_the_last(race, first, first_who, first_now);
    let between = race.after_ready(first, first_now);
    lemma_ready_valid(race, first, first_now);
    assert(between.participants().dom() =~= race.participants().dom());
    lemma_ready_starts_with_the_last(between, second, second_who, second_now);
}

/// A racer who finishes is placed after those who finished before, and is
/// told the time since the start. The race goes on with one more finished,
/// or, where this was the last racer, closes and keeps nobody.
pub proof fn lemma_done_places_next(race: RaceState, actor: u64, who: Seq<char>, now: Timestamp)
    requires
        race.valid(),
        race.is_racing(actor),
    ensures
        race.done_notices(actor, who, now)[0] == finished_text(
            who,
            finished_ones(race.participants()).len() + 1,
            now.span_since(race->started_at).secs(),
        ),
        race->finished_count + race->forfeited_count + 1 == race.participants().len() ==> ({
            &&& race.after_done(actor, now) == RaceState::Closed
            &&& race.after_done(actor, now).participants() == Map::<u64, Status>::empty()
            &&& race.done_notices(actor, who, now).len() == 2
            &&& race.done_notices(actor, who, now)[1] == ALL_FINISHED@
        }),
        race->finished_count + race->forfeited_count + 1 != race.participants().len() ==> ({
            &&& race.after_done(actor, now) == (RaceState::Running {
                started_at: race->started_at,
                participants: race.participants().insert(actor, Status::Finished { at: now }),
                finished_count: race->finished_count + 1,
                forfeited_count: race->forfeited_count,
            })
            &&& race.done_notices(actor, who, now).len() == 1
        }),
{
}

/// A racer who forfeits is told the time since the start. The race goes
/// on with one more forfeited, or, where this was the last racer, closes
/// and keeps nobody.
pub proof fn lemma_forfeit_counts(race: RaceState, actor: u64, who: Seq<char>, now: Timestamp)
    requires
        race.valid(),
        race.is_racing(actor),
    ensures
        race.forfeit_notices(actor, who, now)[0] == forfeited_text(
            who,
            now.span_since(race->started_at).secs(),
        ),
        race->finished_count + race->forfeited_count + 1 == race.participants().len() ==> ({
            &&& race.after_forfeit(actor, now) == RaceState::Closed
            &&& race.after_forfeit(actor, now).participants() == Map::<u64, Status>::empty()
            &&& race.forfeit_notices(actor, who, now).len() == 2
            &&& race.forfeit_notices(actor, who, now)[1] == ALL_FINISHED@
        }),
        race->finished_count + race->forfeited_count + 1 != race.participants().len() ==> ({
            &&& race.after_forfeit(actor, now) == (RaceState::Running {
                started_at: race->started_at,
                participants: race.participants().insert(actor, Status::Forfeited { at: now }),
                finished_count: race->finished_count,
                forfeited_count: race->forfeited_count + 1,
            })
            &&& race.forfeit_notices(actor, who, now).len() == 1
        }),
{
}

/// Whether `next` is in the phase of `race` or in the phase that comes
/// after it: open after closed, running after open, closed after running.
pub open spec fn in_same_or_next_phase(race: RaceState, next: RaceState) -> bool {
    match race {
        RaceState::Closed => next is Closed || next is Open,
        RaceState::Open { .. } => next is Open || next is Running,
        RaceState::Running { .. } => next is Running || next is Closed,
    }
}

/// No operation takes a race backwards: it stays in its phase or moves to
/// the next.
pub proof fn lemma_phases_move_forward(race: RaceState, actor: u64, now: Timestamp)
    ensures
        in_same_or_next_phase(race, race.after_open()),
        in_same_or_next_phase(race, race.after_enter(actor)),
        in_same_or_next_phase(race, race.after_ready(actor, now)),
        in_same_or_next_phase(race, race.after_leave(actor, now)),
        in_same_or_next_phase(race, race.after_done(actor, now)),
        in_same_or_next_phase(race, race.after_forfeit(actor, now)),
{
}

/// While a race runs, nobody joins it and nobody leaves it, and whoever
/// has finished or forfeited stays so, with the time that was taken then.
pub proof fn lemma_running_keeps_its_racers(
    race: RaceState,
    actor: u64,
    now: Timestamp,
    next: RaceState,
)
    requires
        race is Running,
        next is Running,
        next == race.after_open() || next == race.after_enter(actor) || next == race.after_ready(
            actor,
            now,
        ) || next == race.after_leave(actor, now) || next == race.after_done(actor, now) || next
            == race.after_forfeit(actor, now),
    ensures
        next->started_at == race->started_at,
        next.participants().dom() == race.participants().dom(),
        forall|other: u64| #[trigger]
            race.participants().contains_key(other) && !(race.participants()[other] is Ready)
                ==> next.participants()[other] == race.participants()[other],
{
    if next != race {
        if next == race.after_done(actor, now) {
            assert(race.is_racing(actor));
            assert(next.participants() == race.participants().insert(
                actor,
                Status::Finished { at: now },
            ));
        } else {
            assert(next == race.after_forfeit(actor, now));
            assert(race.is_racing(actor));
            assert(next.participants() == race.participants().insert(
                actor,
                Status::Forfeited { at: now },
            ));
        }
        assert(next.participants().dom() =~= race.participants().dom());
    }
}

/// The race after each of `actors` in turn has said to be ready, the one at
/// `i` at the time `times[i]`.
pub open spec fn after_all_ready(race: RaceState, actors: Seq<u64>, times: Seq<Timestamp>) -> RaceState
    decreases actors.len(),
{
    if actors.len() == 0 {
        race
    } else {
        after_all_ready(race, actors.drop_last(), times.drop_last()).after_ready(
            actors.last(),
            times.last(),
        )
    }
}

/// The race after each of `actors` in turn has reported to have finished,
/// the one at `i` at the time `times[i]`.
pub open spec fn after_all_done(race: RaceState, actors: Seq<u64>, times: Seq<Timestamp>) -> RaceState
    decreases actors.len(),
{
    if actors.len() == 0 {
        race
    } else {
        after_all_done(race, actors.drop_last(), times.drop_last()).after_done(
            actors.last(),
            times.last(),
        )
    }
}

proof fn lemma_ready_so_far(race: RaceState, actors: Seq<u64>, times: Seq<Timestamp>, done: int)
    requires
        race.valid(),
        race is Open,
        actors.no_duplicates(),
        actors.len() == times.len(),
        forall|i: int|
            0 <= i < actors.len() ==> race.participants().contains_key(#[trigger] actors[i])
                && race.participants()[actors[i]] is Entered,
        race->ready_count + actors.len() == race.participants().len(),
        0 <= done < actors.len(),
    ensures
        ({
            let so_far = after_all_ready(race, actors.take(done), times.take(done));
            &&& so_far is Open
            &&& so_far.valid()
            &&& so_far->ready_count == race->ready_count + done
            &&& so_far.participants().dom() == race.participants().dom()
            &&& forall|i: int|
                done <= i < actors.len() ==> so_far.participants()[#[trigger] actors[i]] is Entered
        }),
    decreases done,
{
    if done > 0 {
        lemma_ready_so_far(race, actors, times, done - 1);
        let before = after_all_ready(race, actors.take(done - 1), times.take(done - 1));
        let actor = actors[done - 1];
        let now = times[done - 1];
        assert(actors.take(done).drop_last() == actors.take(done - 1));
        assert(times.take(done).drop_last() == times.take(done - 1));
        assert(before.participants().contains_key(actor));
        lemma_ready_valid(before, actor, now);
        lemma_ready_starts_with_the_last(before, actor, Seq::empty(), now);
        let so_far = before.after_ready(actor, now);
        assert(so_far.participants().dom() =~= race.participants().dom());
    }
}

/// Where every entrant who is not ready gets ready, one after the other
/// and in whatever order, the race stays open until the last of them and
/// starts with that one, at the time of that call and at no earlier time.
/// It then holds the entrants it had, all of them ready.
pub proof fn lemma_all_ready_starts(race: RaceState, actors: Seq<u64>, times: Seq<Timestamp>)
    requires
        race.valid(),
        race is Open,
        actors.len() >= 1,
        actors.no_duplicates(),
        actors.len() == times.len(),
        forall|i: int|
            0 <= i < actors.len() ==> race.participants().contains_key(#[trigger] actors[i])
                && race.participants()[actors[i]] is Entered,
        race->ready_count + actors.len() == race.participants().len(),
    ensures
        forall|done: int|
            0 <= done < actors.len() ==> #[trigger] after_all_ready(
                race,
                actors.take(done),
                times.take(done),
            ) is Open,
        after_all_ready(race, actors, times) is Running,
        after_all_ready(race, actors, times)->started_at == times.last(),
        after_all_ready(race, actors, times)->finished_count == 0,
        after_all_ready(race, actors, times)->forfeited_count == 0,
        after_all_ready(race, actors, times).participants().dom() == race.participants().dom(),
        forall|actor: u64| #[trigger]
            race.participants().contains_key(actor) ==> after_all_ready(
                race,
                actors,
                times,
            ).participants()[actor] is Ready,
{
    assert forall|done: int| 0 <= done < actors.len() implies #[trigger] after_all_ready(
        race,
        actors.take(done),
        times.take(done),
    ) is Open by {
        lemma_ready_so_far(race, actors, times, done);
    }
    let last = actors.len() - 1;
    lemma_ready_so_far(race, actors, times, last);
    let before = after_all_ready(race, actors.take(last), times.take(last));
    assert(actors.drop_last() == actors.take(last));
    assert(times.drop_last() == times.take(last));
    assert(before.participants().contains_key(actors[last]));
    lemma_ready_starts_with_the_last(before, actors[last], Seq::empty(), times[last]);
}

/// While somebody is still racing, those who have finished and those who
/// have forfeited are fewer than the participants.
proof fn lemma_racing_keeps_running(participants: Map<u64, Status>, racer: u64)
    requires
        participants.dom().finite(),
        participants.contains_key(racer),
        participants[racer] is Ready,
    ensures
        finished_ones(participants).len() + forfeited_ones(participants).len()
            < participants.len(),
{
    let finished = finished_ones(participants);
    let forfeited = forfeited_ones(participants);
    lemma_ones_within(participants);
    assert(finished.disjoint(forfeited));
    lemma_set_disjoint_lens(finished, forfeited);
    lemma_len_subset(finished + forfeited, participants.dom().remove(racer));
}

proof fn lemma_done_so_far(race: RaceState, actors: Seq<u64>, times: Seq<Timestamp>, done: int)
    requires
        race.valid(),
        actors.no_duplicates(),
        actors.len() == times.len(),
        forall|i: int| 0 <= i < actors.len() ==> race.is_racing(#[trigger] actors[i]),
        0 <= done < actors.len(),
    ensures
        ({
            let so_far = after_all_done(race, actors.take(done), times.take(done));
            &&& so_far is Running
            &&& so_far.valid()
            &&& so_far->started_at == race->started_at
            &&& so_far->finished_count == race->finished_count + done
            &&& so_far->forfeited_count == race->forfeited_count
            &&& so_far.participants().dom() == race.participants().dom()
            &&& forall|i: int| done <= i < actors.len() ==> so_far.is_racing(#[trigger] actors[i])
        }),
    decreases done,
{
    if done > 0 {
        lemma_done_so_far(race, actors, times, done - 1);
        let before = after_all_done(race, actors.take(done - 1), times.take(done - 1));
        let actor = actors[done - 1];
        let now = times[done - 1];
        assert(actors.take(done).drop_last() == actors.take(done - 1));
        assert(times.take(done).drop_last() == times.take(done - 1));
        assert(before.is_racing(actor));
        lemma_done_valid(before, actor, now);
        let after = before.participants().insert(actor, Status::Finished { at: now });
        lemma_ones_after_insert(before.participants(), actor, Status::Finished { at: now });
        lemma_ones_within(before.participants());
        assert(after.dom() =~= race.participants().dom());
        assert(before.is_racing(actors[done]));
        lemma_racing_keeps_running(after, actors[done]);
    } else {
        assert(race.is_racing(actors[0]));
    }
}

/// Of racers who finish one after the other, with nobody forfeiting in
/// between, each is placed one behind the one before: where `ahead` have
/// finished before them, the one at `k` comes in at place `ahead + k + 1`,
/// so that in a race just started the first is placed first and the k-th
/// k-th. Until then the race runs on, from the start that it had.
pub proof fn lemma_kth_done_places_kth(
    race: RaceState,
    actors: Seq<u64>,
    times: Seq<Timestamp>,
    k: int,
    who: Seq<char>,
)
    requires
        race.valid(),
        actors.no_duplicates(),
        actors.len() == times.len(),
        forall|i: int| 0 <= i < actors.len() ==> race.is_racing(#[trigger] actors[i]),
        0 <= k < actors.len(),
    ensures
        ({
            let so_far = after_all_done(race, actors.take(k), times.take(k));
            &&& so_far is Running
            &&& so_far->finished_count == race->finished_count + k
            &&& so_far->forfeited_count == race->forfeited_count
            &&& so_far.done_notices(actors[k], who, times[k])[0] == finished_text(
                who,
                (race->finished_count + k + 1) as nat,
                times[k].span_since(race->started_at).secs(),
            )
        }),
{
    lemma_done_so_far(race, actors, times, k);
}

/// Once everybody who was still racing has finished, the race is closed
/// and keeps nobody.
pub proof fn lemma_all_done_closes(race: RaceState, actors: Seq<u64>, times: Seq<Timestamp>)
    requires
        race.valid(),
        actors.len() >= 1,
        actors.no_duplicates(),
        actors.len() == times.len(),
        forall|i: int| 0 <= i < actors.len() ==> race.is_racing(#[trigger] actors[i]),
        race->finished_count + race->forfeited_count + actors.len() == race.participants().len(),
    ensures
        after_all_done(race, actors, times) == RaceState::Closed,
        after_all_done(race, actors, times).participants() == Map::<u64, Status>::empty(),
{
    let last = actors.len() - 1;
    lemma_done_so_far(race, actors, times, last);
    assert(actors.drop_last() == actors.take(last));
    assert(times.drop_last() == times.take(last));
    let before = after_all_done(race, actors.take(last), times.take(last));
    assert(before.is_racing(actors[last]));
}

} // verus!
