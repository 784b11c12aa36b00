use web_chess::game::{Color, ExecExt, Game};
use web_chess::registry::Registry;

#[test]
fn a_new_session_waits_in_setup() {
    let g: Game<u32> = Game::new();
    assert!(!g.is_active());
    assert!(g.seat(Color::White).is_none());
    assert!(g.seat(Color::Black).is_none());
}

#[test]
fn active_iff_both_seats_were_last_set() {
    let mut g: Game<u32> = Game::new();
    assert!(!g.set_player(Color::White, Some(1)));
    assert!(!g.is_active());
    assert!(g.set_player(Color::Black, Some(2)));
    assert!(g.is_active());
    // replacing an occupant keeps the session active, no new activation
    assert!(!g.set_player(Color::White, Some(3)));
    assert!(g.is_active());
    assert_eq!(g.seat(Color::White), Some(&3));
    // clearing one seat leaves Active
    assert!(!g.set_player(Color::White, None));
    assert!(!g.is_active());
}

#[test]
fn clearing_a_seat_while_active_preserves_the_other() {
    let mut g: Game<u32> = Game::new();
    g.set_player(Color::White, Some(10));
    g.set_player(Color::Black, Some(20));
    assert!(g.is_active());
    g.set_player(Color::Black, None);
    assert!(!g.is_active());
    assert_eq!(g.seat(Color::White), Some(&10));
    assert!(g.seat(Color::Black).is_none());
}

#[test]
fn a_dropped_seat_rejoins_without_the_other_rejoining() {
    let mut g: Game<u32> = Game::new();
    g.set_player(Color::White, Some(10));
    g.set_player(Color::Black, Some(20));
    assert!(g.is_active());
    // seat 1's connection closes: the session demotes, seat 0 stays
    g.set_player(Color::Black, None);
    assert!(!g.is_active());
    assert_eq!(g.seat(Color::White), Some(&10));
    // a fresh join on seat 1 reactivates without seat 0 rejoining
    let reactivated = g.set_player(Color::Black, Some(21));
    assert!(reactivated);
    assert!(g.is_active());
    assert_eq!(g.seat(Color::White), Some(&10));
    assert_eq!(g.seat(Color::Black), Some(&21));
}

#[test]
fn each_activation_grants_its_loop_once() {
    let mut g: Game<u32> = Game::new();
    assert_eq!(g.start(), None);
    g.set_player(Color::White, Some(1));
    let activated = g.set_player(Color::Black, Some(2));
    assert!(activated);
    let first = g.start();
    assert!(first.is_some());
    // a second starter on the same activation is refused
    assert_eq!(g.start(), None);
    // a replacement mid-game neither stops nor re-grants the loop
    g.set_player(Color::White, Some(3));
    assert_eq!(g.start(), None);
    // demotion retires the loop; reactivation grants a fresh handle
    g.set_player(Color::Black, None);
    assert_eq!(g.start(), None);
    g.set_player(Color::Black, Some(4));
    let second = g.start();
    assert!(second.is_some());
    assert_ne!(first, second);
}

#[test]
fn turn_ready_tracks_the_activation() {
    let mut g: Game<u32> = Game::new();
    g.set_player(Color::White, Some(1));
    g.set_player(Color::Black, Some(2));
    let id = g.start().expect("the activating caller starts the loop");
    assert!(g.turn_ready(id));
    g.set_player(Color::White, None);
    assert!(!g.turn_ready(id));
    g.set_player(Color::White, Some(1));
    // a new activation: the old loop's handle no longer matches
    assert!(!g.turn_ready(id));
}

#[test]
fn next_mover_names_the_seat_to_move() {
    let mut g: Game<u32> = Game::new();
    assert!(g.next_mover(Color::White).is_err());
    g.set_player(Color::White, Some(1));
    g.set_player(Color::Black, Some(2));
    assert_eq!(g.next_mover(Color::White), Ok(&1));
    assert_eq!(g.next_mover(Color::Black), Ok(&2));
}

#[test]
fn accepted_moves_reach_the_broadcast_and_rejected_ones_never_do() {
    let mut g: Game<u32> = Game::new();
    g.set_player(Color::White, Some(1));
    g.set_player(Color::Black, Some(2));
    let mut rx = g.watch().into_inner();
    // rejected by the rules engine: nothing is published
    assert_eq!(g.apply_move("zzzz", false), None);
    assert!(rx.try_recv().is_err());
    // accepted: the token is published to every subscriber
    assert_eq!(g.apply_move("e2e4", true), Some("e2e4".to_string()));
    assert_eq!(rx.try_recv().unwrap(), "e2e4");
}

#[test]
fn a_spectator_gets_the_snapshot_first_and_only_later_moves() {
    let mut g: Game<u32> = Game::new();
    g.set_player(Color::White, Some(1));
    g.set_player(Color::Black, Some(2));
    // a move published before the attach is not replayed to the spectator
    g.apply_move("d2d4", true);
    let (snapshot_frame, sub) = g.attach("POSITION-AT-ATTACH");
    let mut rx = sub.into_inner();
    assert_eq!(snapshot_frame, "fen:POSITION-AT-ATTACH");
    assert!(rx.try_recv().is_err());
    // moves after the attach reach the spectator
    g.apply_move("g8f6", true);
    assert_eq!(rx.try_recv().unwrap(), "g8f6");
}

#[test]
fn create_join_move_scenario() {
    // create a session; the host keeps each one behind a lock, modeled
    // here by a RefCell
    let mut reg: Registry<std::cell::RefCell<Game<u32>>> = Registry::new();
    let code = reg.create(std::cell::RefCell::new(Game::new()));
    let cell = reg.get(&code).expect("the created session is addressable");
    let mut g = cell.borrow_mut();
    // join as seat 0 and seat 1: the session becomes Active
    assert!(!g.set_player(Color::White, Some(1)));
    assert!(g.set_player(Color::Black, Some(2)));
    assert!(g.is_active());
    // seat 0's participant sends a move, the engine accepts it: the
    // broadcast emits it to every subscriber
    let mut rx = g.watch().into_inner();
    let confirmed = g.apply_move("e2e4", true).expect("an accepted move is confirmed");
    assert_eq!(confirmed, "e2e4");
    assert_eq!(rx.try_recv().unwrap(), "e2e4");
    assert_eq!(web_chess::frame::move_frame(&confirmed), "move:e2e4");
}

#[test]
fn joining_a_nonexistent_code_finds_no_session() {
    let reg: Registry<std::cell::RefCell<Game<u32>>> = Registry::new();
    // "not found": no session handle, so no seat is taken and no loop starts
    assert!(reg.get(&"AAAAAB".to_string()).is_none());
}
