//! The drain loop: completion counting, first-error-wins, forwarding, and
//! the report gate.

use bgg_top::orchestrate::{make_report, DrainState, Message};
use bgg_top::{review_users, Cli, Game};

fn snapshot(id: u32) -> Game {
    Game {
        id,
        name: String::from("done"),
        rating: 750,
        votes: 1,
        page: 3,
        bgg_num_votes: 0,
        bgg_geek_rating: 0,
        bgg_avg_rating: 0,
    }
}

#[test]
fn drain_counts_only_terminal_events() {
    let mut st = DrainState::new(2);
    assert!(!st.drain_done());
    let fwd = st.drain_step(Message::NoteErr(String::from("timeout")));
    assert_eq!(fwd, Some(Message::NoteErr(String::from("timeout"))));
    assert!(!st.drain_done());
    st.drain_step(Message::DieInterrupt);
    assert!(!st.drain_done());
    st.drain_step(Message::DieResult(snapshot(1)));
    assert!(st.drain_done());
}

#[test]
fn drain_forwards_results_but_not_deaths() {
    let mut st = DrainState::new(3);
    let fwd = st.drain_step(Message::DieResult(snapshot(4)));
    assert_eq!(fwd, Some(Message::DieResult(snapshot(4))));
    let fwd = st.drain_step(Message::DieErr(String::from("store broke")));
    assert_eq!(fwd, None);
    let fwd = st.drain_step(Message::DieInterrupt);
    assert_eq!(fwd, None);
}

#[test]
fn drain_forwards_progress_notes() {
    let mut st = DrainState::new(1);
    let fwd = st.drain_step(Message::NoteUserProgress(String::from("alice")));
    assert_eq!(fwd, Some(Message::NoteUserProgress(String::from("alice"))));
    let fwd = st.drain_step(Message::NoteGameProgress(snapshot(9)));
    assert_eq!(fwd, Some(Message::NoteGameProgress(snapshot(9))));
    assert!(!st.drain_done());
}

#[test]
fn first_fatal_error_wins_and_cancels() {
    // One worker dies on a store error while three others are mid-loop;
    // all of them still report a terminal event, the run ends complete,
    // and the first error is the run's result.
    let mut st = DrainState::new(4);
    assert!(!st.cancel);
    st.drain_step(Message::DieErr(String::from("first")));
    assert!(st.cancel);
    st.drain_step(Message::NoteErr(String::from("still trying")));
    st.drain_step(Message::DieInterrupt);
    st.drain_step(Message::DieErr(String::from("second")));
    assert!(!st.drain_done());
    st.drain_step(Message::DieInterrupt);
    assert!(st.drain_done());
    assert_eq!(st.drain_result(), Err(String::from("first")));
}

#[test]
fn clean_run_returns_ok() {
    let mut st = DrainState::new(2);
    st.drain_step(Message::DieResult(snapshot(1)));
    st.drain_step(Message::DieResult(snapshot(2)));
    assert!(st.drain_done());
    assert!(!st.cancel);
    assert_eq!(st.drain_result(), Ok(()));
}

#[test]
fn zero_jobs_drain_is_done_at_once() {
    let st = DrainState::new(0);
    assert!(st.drain_done());
    assert_eq!(st.drain_result(), Ok(()));
}

#[test]
fn report_waits_for_stability() {
    let games = vec![snapshot(1), snapshot(2)];
    let held_back = make_report(3, games.clone());
    assert!(held_back.is_empty());
    let ready = make_report(0, games.clone());
    assert_eq!(ready, games);
}

#[test]
fn review_pass_reports_success() {
    assert_eq!(review_users(), Ok(()));
}

#[test]
fn cli_commands_are_distinct() {
    let commands = [Cli::New, Cli::Report, Cli::Pull, Cli::Balance, Cli::Review];
    for (i, a) in commands.iter().enumerate() {
        for (j, b) in commands.iter().enumerate() {
            assert_eq!(a == b, i == j);
        }
    }
}
