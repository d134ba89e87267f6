use race_bot::model::Status;
use race_bot::race::{Actor, Race};
use race_bot::time::Timestamp;

fn actor(id: u64, display: &str) -> Actor {
    Actor { id, display: display.to_string() }
}

fn at(secs: u64) -> Timestamp {
    Timestamp::from_secs(secs)
}

fn texts(notices: &[&str]) -> Vec<String> {
    notices.iter().map(|text| text.to_string()).collect()
}

/// An open race with `count` entrants, numbered from 1, none of them ready.
fn open_race_with(count: u64) -> Race {
    let mut race = Race::new();
    race.open(&actor(1, "A"));
    for id in 1..=count {
        race.enter(&actor(id, "someone"));
    }
    race
}

/// A running race with `count` racers, numbered from 1, started at `start`.
fn running_race_with(count: u64, start: Timestamp) -> Race {
    let mut race = open_race_with(count);
    for id in 1..=count {
        race.ready(&actor(id, "someone"), start);
    }
    race
}

#[test]
fn a_new_race_is_closed() {
    let race = Race::new();
    assert!(race.is_closed());
    assert!(!race.is_open());
    assert!(!race.is_running());
    assert_eq!(race.participant_count(), 0);
    assert_eq!(race.ready_count(), 0);
    assert_eq!(race.finished_count(), 0);
    assert_eq!(race.forfeited_count(), 0);
    assert_eq!(race.started_at(), None);
    assert_eq!(race.status_of(1), None);
}

#[test]
fn opening_a_closed_race_opens_it_with_nobody_in_it() {
    let mut race = Race::new();
    let notices = race.open(&actor(1, "<@1>"));
    assert_eq!(
        notices,
        texts(&["<@1> opened a race! Anyone who wants to play please !enter the race"])
    );
    assert!(race.is_open());
    assert_eq!(race.participant_count(), 0);
    assert_eq!(race.ready_count(), 0);
    assert_eq!(race.status_of(1), None);
}

#[test]
fn opening_an_open_race_changes_nothing() {
    let mut race = open_race_with(2);
    race.ready(&actor(1, "A"), at(5));
    let notices = race.open(&actor(3, "C"));
    assert_eq!(notices, texts(&["already opened!"]));
    assert!(race.is_open());
    assert_eq!(race.participant_count(), 2);
    assert_eq!(race.ready_count(), 1);
    assert_eq!(race.status_of(1), Some(Status::Ready));
    assert_eq!(race.status_of(2), Some(Status::Entered));
}

#[test]
fn opening_a_running_race_changes_nothing() {
    let mut race = running_race_with(2, at(7));
    let notices = race.open(&actor(3, "C"));
    assert_eq!(notices, texts(&["race already in progress!"]));
    assert!(race.is_running());
    assert_eq!(race.started_at(), Some(at(7)));
    assert_eq!(race.participant_count(), 2);
}

#[test]
fn entering_a_closed_race_is_refused() {
    let mut race = Race::new();
    let notices = race.enter(&actor(1, "A"));
    assert_eq!(notices, texts(&["Can't enter race, none are open!"]));
    assert!(race.is_closed());
    assert_eq!(race.participant_count(), 0);
}

#[test]
fn entering_an_open_race_adds_an_entrant() {
    let mut race = open_race_with(0);
    let notices = race.enter(&actor(9, "<@9>"));
    assert_eq!(
        notices,
        texts(&[
            "<@9> entered the race! Please !ready when you're ready to start, !leave if you change your mind."
        ])
    );
    assert!(race.is_open());
    assert_eq!(race.participant_count(), 1);
    assert_eq!(race.status_of(9), Some(Status::Entered));
    assert_eq!(race.ready_count(), 0);
}

#[test]
fn entering_twice_is_entering_once() {
    let mut race = open_race_with(0);
    race.enter(&actor(9, "<@9>"));
    race.enter(&actor(8, "<@8>"));
    let notices = race.enter(&actor(9, "<@9>"));
    assert_eq!(notices, texts(&["<@9> has already entered the race."]));
    assert_eq!(race.participant_count(), 2);
    assert_eq!(race.status_of(9), Some(Status::Entered));
}

#[test]
fn entering_again_when_ready_keeps_the_entrant_ready() {
    let mut race = open_race_with(2);
    race.ready(&actor(1, "A"), at(1));
    let notices = race.enter(&actor(1, "A"));
    assert_eq!(notices, texts(&["A has already entered the race."]));
    assert_eq!(race.status_of(1), Some(Status::Ready));
    assert_eq!(race.ready_count(), 1);
    assert_eq!(race.participant_count(), 2);
}

#[test]
fn entering_a_running_race_is_refused() {
    let mut race = running_race_with(1, at(3));
    let notices = race.enter(&actor(2, "B"));
    assert_eq!(notices, texts(&["Can't enter race, it's already in progress!"]));
    assert!(race.is_running());
    assert_eq!(race.participant_count(), 1);
    assert_eq!(race.status_of(2), None);
}

#[test]
fn getting_ready_in_a_closed_race_is_refused() {
    let mut race = Race::new();
    let notices = race.ready(&actor(1, "A"), at(1));
    assert_eq!(notices, texts(&["Can't enter race, none are open!"]));
    assert!(race.is_closed());
}

#[test]
fn getting_ready_marks_the_entrant() {
    let mut race = open_race_with(3);
    let notices = race.ready(&actor(2, "<@2>"), at(4));
    assert_eq!(notices, texts(&["<@2> is ready to play!"]));
    assert!(race.is_open());
    assert_eq!(race.ready_count(), 1);
    assert_eq!(race.status_of(2), Some(Status::Ready));
    assert_eq!(race.status_of(1), Some(Status::Entered));
    assert_eq!(race.started_at(), None);
}

#[test]
fn getting_ready_twice_is_getting_ready_once() {
    let mut race = open_race_with(3);
    race.ready(&actor(2, "<@2>"), at(4));
    let notices = race.ready(&actor(2, "<@2>"), at(5));
    assert_eq!(notices, texts(&["<@2> was already ready."]));
    assert!(race.is_open());
    assert_eq!(race.ready_count(), 1);
}

#[test]
fn getting_ready_without_entering_does_nothing() {
    let mut race = open_race_with(2);
    let notices = race.ready(&actor(7, "G"), at(4));
    assert_eq!(notices, Vec::<String>::new());
    assert!(race.is_open());
    assert_eq!(race.participant_count(), 2);
    assert_eq!(race.ready_count(), 0);
    assert_eq!(race.status_of(7), None);
}

#[test]
fn getting_ready_in_an_empty_race_starts_nothing() {
    let mut race = open_race_with(0);
    let notices = race.ready(&actor(7, "G"), at(4));
    assert_eq!(notices, Vec::<String>::new());
    assert!(race.is_open());
    assert_eq!(race.participant_count(), 0);
}

#[test]
fn the_last_to_get_ready_starts_the_race() {
    let mut race = open_race_with(2);
    race.ready(&actor(1, "A"), at(10));
    let notices = race.ready(&actor(2, "B"), at(20));
    assert_eq!(notices, texts(&["B is ready to play!", "All players ready, starting race!"]));
    assert!(race.is_running());
    assert_eq!(race.started_at(), Some(at(20)));
    assert_eq!(race.participant_count(), 2);
    assert_eq!(race.ready_count(), 2);
    assert_eq!(race.finished_count(), 0);
    assert_eq!(race.forfeited_count(), 0);
    assert_eq!(race.status_of(1), Some(Status::Ready));
    assert_eq!(race.status_of(2), Some(Status::Ready));
}

#[test]
fn a_single_entrant_starts_the_race_alone() {
    let mut race = open_race_with(1);
    let notices = race.ready(&actor(1, "A"), at(3));
    assert_eq!(notices, texts(&["A is ready to play!", "All players ready, starting race!"]));
    assert!(race.is_running());
    assert_eq!(race.started_at(), Some(at(3)));
}

#[test]
fn getting_ready_in_a_running_race_is_refused() {
    let mut race = running_race_with(2, at(3));
    let notices = race.ready(&actor(1, "A"), at(4));
    assert_eq!(notices, texts(&["Can't ready up, game in progress."]));
    assert!(race.is_running());
    assert_eq!(race.started_at(), Some(at(3)));
}

#[test]
fn leaving_a_closed_race_is_refused() {
    let mut race = Race::new();
    let notices = race.leave(&actor(1, "A"), at(1));
    assert_eq!(notices, texts(&["Can't enter race, none are open!"]));
    assert!(race.is_closed());
}

#[test]
fn leaving_takes_the_entrant_out() {
    let mut race = open_race_with(3);
    let notices = race.leave(&actor(2, "<@2>"), at(1));
    assert_eq!(notices, texts(&["<@2> left the race."]));
    assert!(race.is_open());
    assert_eq!(race.participant_count(), 2);
    assert_eq!(race.status_of(2), None);
    assert_eq!(race.ready_count(), 0);
}

#[test]
fn leaving_when_ready_takes_the_ready_one_out_of_the_count() {
    let mut race = open_race_with(3);
    race.ready(&actor(2, "B"), at(1));
    assert_eq!(race.ready_count(), 1);
    let notices = race.leave(&actor(2, "B"), at(2));
    assert_eq!(notices, texts(&["B left the race."]));
    assert!(race.is_open());
    assert_eq!(race.participant_count(), 2);
    assert_eq!(race.ready_count(), 0);
}

#[test]
fn leaving_can_start_the_race_for_those_who_stay() {
    let mut race = open_race_with(3);
    race.ready(&actor(1, "A"), at(1));
    race.ready(&actor(3, "C"), at(2));
    let notices = race.leave(&actor(2, "B"), at(30));
    assert_eq!(notices, texts(&["B left the race.", "All players ready, starting race!"]));
    assert!(race.is_running());
    assert_eq!(race.started_at(), Some(at(30)));
    assert_eq!(race.participant_count(), 2);
    assert_eq!(race.ready_count(), 2);
    assert_eq!(race.status_of(2), None);
}

#[test]
fn the_last_entrant_leaving_starts_nothing() {
    let mut race = open_race_with(1);
    let notices = race.leave(&actor(1, "A"), at(1));
    assert_eq!(notices, texts(&["A left the race."]));
    assert!(race.is_open());
    assert_eq!(race.participant_count(), 0);
    assert_eq!(race.ready_count(), 0);
}

#[test]
fn leaving_without_entering_changes_nothing() {
    let mut race = open_race_with(2);
    race.ready(&actor(1, "A"), at(1));
    let notices = race.leave(&actor(9, "I"), at(2));
    assert_eq!(notices, texts(&["I left the race."]));
    assert!(race.is_open());
    assert_eq!(race.participant_count(), 2);
    assert_eq!(race.ready_count(), 1);
}

#[test]
fn leaving_a_running_race_is_refused() {
    let mut race = running_race_with(2, at(3));
    let notices = race.leave(&actor(1, "A"), at(4));
    assert_eq!(notices, texts(&["Can't ready up, game in progress."]));
    assert!(race.is_running());
    assert_eq!(race.participant_count(), 2);
    assert_eq!(race.status_of(1), Some(Status::Ready));
}

#[test]
fn finishing_a_closed_race_is_refused() {
    let mut race = Race::new();
    let notices = race.done(&actor(1, "A"), at(1));
    assert_eq!(notices, texts(&["Can't finish race, it's not open yet!"]));
    assert!(race.is_closed());
}

#[test]
fn finishing_an_open_race_is_refused() {
    let mut race = open_race_with(2);
    let notices = race.done(&actor(1, "A"), at(1));
    assert_eq!(notices, texts(&["Can't finish race, it's not started yet!"]));
    assert!(race.is_open());
    assert_eq!(race.status_of(1), Some(Status::Entered));
}

#[test]
fn finishing_places_the_racer_and_tells_the_time() {
    let mut race = running_race_with(3, at(100));
    let notices = race.done(&actor(2, "<@2>"), at(100 + 3725));
    assert_eq!(notices, texts(&["<@2> finished in 1st place with a time of 01:02:05!"]));
    assert!(race.is_running());
    assert_eq!(race.finished_count(), 1);
    assert_eq!(race.forfeited_count(), 0);
    assert_eq!(race.ready_count(), 2);
    assert_eq!(race.status_of(2), Some(Status::Finished { at: at(3825) }));
    assert_eq!(race.started_at(), Some(at(100)));
}

#[test]
fn finishing_twice_is_finishing_once() {
    let mut race = running_race_with(3, at(100));
    race.done(&actor(2, "B"), at(110));
    let notices = race.done(&actor(2, "B"), at(120));
    assert_eq!(notices, texts(&["B was already finished."]));
    assert_eq!(race.finished_count(), 1);
    assert_eq!(race.status_of(2), Some(Status::Finished { at: at(110) }));
}

#[test]
fn finishing_after_forfeiting_is_refused() {
    let mut race = running_race_with(3, at(100));
    race.forfeit(&actor(2, "B"), at(110));
    let notices = race.done(&actor(2, "B"), at(120));
    assert_eq!(notices, texts(&["B was already forfeited."]));
    assert_eq!(race.finished_count(), 0);
    assert_eq!(race.forfeited_count(), 1);
    assert_eq!(race.status_of(2), Some(Status::Forfeited { at: at(110) }));
}

#[test]
fn finishing_without_racing_does_nothing() {
    let mut race = running_race_with(2, at(100));
    let notices = race.done(&actor(9, "I"), at(120));
    assert_eq!(notices, Vec::<String>::new());
    assert!(race.is_running());
    assert_eq!(race.finished_count(), 0);
    assert_eq!(race.participant_count(), 2);
}

#[test]
fn the_last_to_finish_closes_the_race() {
    let mut race = running_race_with(2, at(100));
    race.done(&actor(1, "A"), at(160));
    let notices = race.done(&actor(2, "B"), at(100 + 90000));
    assert_eq!(
        notices,
        texts(&[
            "B finished in 2nd place with a time of 25:00:00!",
            "All players finished, race is over!"
        ])
    );
    assert!(race.is_closed());
    assert_eq!(race.participant_count(), 0);
    assert_eq!(race.finished_count(), 0);
    assert_eq!(race.forfeited_count(), 0);
    assert_eq!(race.started_at(), None);
    assert_eq!(race.status_of(1), None);
    assert_eq!(race.status_of(2), None);
}

#[test]
fn forfeiting_a_closed_race_is_refused() {
    let mut race = Race::new();
    let notices = race.forfeit(&actor(1, "A"), at(1));
    assert_eq!(notices, texts(&["Can't forfeit from race, it's not open yet!"]));
    assert!(race.is_closed());
}

#[test]
fn forfeiting_an_open_race_is_refused() {
    let mut race = open_race_with(2);
    let notices = race.forfeit(&actor(1, "A"), at(1));
    assert_eq!(notices, texts(&["Can't forfeit from race, it's not started yet!"]));
    assert!(race.is_open());
    assert_eq!(race.participant_count(), 2);
}

#[test]
fn forfeiting_tells_the_time_and_no_place() {
    let mut race = running_race_with(3, at(100));
    let notices = race.forfeit(&actor(2, "<@2>"), at(161));
    assert_eq!(notices, texts(&["<@2> forfeit at 00:01:01!"]));
    assert!(race.is_running());
    assert_eq!(race.finished_count(), 0);
    assert_eq!(race.forfeited_count(), 1);
    assert_eq!(race.ready_count(), 2);
    assert_eq!(race.status_of(2), Some(Status::Forfeited { at: at(161) }));
}

#[test]
fn forfeiting_twice_is_forfeiting_once() {
    let mut race = running_race_with(3, at(100));
    race.forfeit(&actor(2, "B"), at(110));
    let notices = race.forfeit(&actor(2, "B"), at(120));
    assert_eq!(notices, texts(&["B was already forfeited."]));
    assert_eq!(race.forfeited_count(), 1);
}

#[test]
fn forfeiting_after_finishing_is_refused() {
    let mut race = running_race_with(3, at(100));
    race.done(&actor(2, "B"), at(110));
    let notices = race.forfeit(&actor(2, "B"), at(120));
    assert_eq!(notices, texts(&["B was already finished."]));
    assert_eq!(race.finished_count(), 1);
    assert_eq!(race.forfeited_count(), 0);
}

#[test]
fn forfeiting_without_racing_does_nothing() {
    let mut race = running_race_with(2, at(100));
    let notices = race.forfeit(&actor(9, "I"), at(120));
    assert_eq!(notices, Vec::<String>::new());
    assert!(race.is_running());
    assert_eq!(race.forfeited_count(), 0);
}

#[test]
fn the_last_to_forfeit_closes_the_race() {
    let mut race = running_race_with(2, at(100));
    race.done(&actor(1, "A"), at(160));
    let notices = race.forfeit(&actor(2, "B"), at(170));
    assert_eq!(notices, texts(&["B forfeit at 00:01:10!", "All players finished, race is over!"]));
    assert!(race.is_closed());
    assert_eq!(race.participant_count(), 0);
}

#[test]
fn a_forfeit_takes_no_place_from_those_who_finish() {
    let mut race = running_race_with(3, at(0));
    race.forfeit(&actor(1, "A"), at(5));
    let notices = race.done(&actor(2, "B"), at(6));
    assert_eq!(notices, texts(&["B finished in 1st place with a time of 00:00:06!"]));
    let notices = race.done(&actor(3, "C"), at(7));
    assert_eq!(
        notices,
        texts(&[
            "C finished in 2nd place with a time of 00:00:07!",
            "All players finished, race is over!"
        ])
    );
    assert!(race.is_closed());
}

#[test]
fn each_one_who_finishes_is_placed_behind_the_one_before() {
    let count: u64 = 25;
    let mut race = running_race_with(count, at(0));
    let places = [
        "1st", "2nd", "3rd", "4th", "5th", "6th", "7th", "8th", "9th", "10th", "11th", "12th",
        "13th", "14th", "15th", "16th", "17th", "18th", "19th", "20th", "21st", "22nd", "23rd",
        "24th", "25th",
    ];
    for id in 1..=count {
        let notices = race.done(&actor(id, "R"), at(id));
        let own = format!(
            "R finished in {} place with a time of 00:00:{:02}!",
            places[(id - 1) as usize],
            id
        );
        if id < count {
            assert_eq!(notices, vec![own]);
            assert!(race.is_running());
            assert_eq!(race.finished_count(), id as usize);
            assert_eq!(race.ready_count(), (count - id) as usize);
        } else {
            assert_eq!(notices, vec![own, "All players finished, race is over!".to_string()]);
            assert!(race.is_closed());
        }
    }
}

#[test]
fn the_hundred_and_eleventh_to_finish_is_told_so() {
    let count: u64 = 112;
    let mut race = running_race_with(count, at(0));
    for id in 1..=110 {
        race.done(&actor(id, "R"), at(1));
    }
    let notices = race.done(&actor(111, "R"), at(1));
    assert_eq!(notices, texts(&["R finished in 111th place with a time of 00:00:01!"]));
    assert_eq!(race.finished_count(), 111);
}

#[test]
fn a_time_before_the_start_counts_as_no_time() {
    let mut race = running_race_with(2, at(100));
    let notices = race.done(&actor(1, "A"), at(50));
    assert_eq!(notices, texts(&["A finished in 1st place with a time of 00:00:00!"]));
}

#[test]
fn the_time_is_cut_to_whole_seconds_after_subtracting() {
    let mut race = open_race_with(2);
    race.ready(&actor(1, "A"), Timestamp { nanos: 0 });
    race.ready(&actor(2, "B"), Timestamp { nanos: 900_000_000 });
    let notices = race.done(&actor(1, "A"), Timestamp { nanos: 1_100_000_000 });
    assert_eq!(notices, texts(&["A finished in 1st place with a time of 00:00:00!"]));
    let notices = race.forfeit(&actor(2, "B"), Timestamp { nanos: 2_899_999_999 });
    assert_eq!(notices, texts(&["B forfeit at 00:00:01!", "All players finished, race is over!"]));
}

#[test]
fn a_closed_race_can_be_opened_again() {
    let mut race = running_race_with(1, at(1));
    race.done(&actor(1, "A"), at(2));
    assert!(race.is_closed());
    let notices = race.open(&actor(2, "B"));
    assert_eq!(
        notices,
        texts(&["B opened a race! Anyone who wants to play please !enter the race"])
    );
    assert!(race.is_open());
    assert_eq!(race.participant_count(), 0);
    assert_eq!(race.status_of(1), None);
}

#[test]
fn the_counts_add_up_to_the_racers() {
    let mut race = running_race_with(5, at(0));
    race.done(&actor(1, "A"), at(1));
    race.forfeit(&actor(2, "B"), at(2));
    race.done(&actor(3, "C"), at(3));
    race.done(&actor(3, "C"), at(4));
    race.forfeit(&actor(9, "I"), at(5));
    assert_eq!(race.participant_count(), 5);
    assert_eq!(race.finished_count(), 2);
    assert_eq!(race.forfeited_count(), 1);
    assert_eq!(race.ready_count(), 2);
}
