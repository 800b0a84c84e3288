use bluefelt::bundle::{Bundle, BundleMap};
use bluefelt::diff::{apply_diff, PatchKind, PatchOp, PatchPath};
use bluefelt::engine::{apply_verb, load_initial_state, Verb};
use bluefelt::state::StateDoc;

fn test_bundle() -> Bundle {
    Bundle { game_id: String::from("tic-tac-toe") }
}

fn place(row: u64, col: u64) -> Verb {
    Verb { name: String::from("place"), row: Some(row), col: Some(col) }
}

fn boards_equal(a: &StateDoc, b: &StateDoc) -> bool {
    if a.board.len() != b.board.len() {
        return false;
    }
    for r in 0..a.board.len() {
        if a.board[r] != b.board[r] {
            return false;
        }
    }
    a.turn == b.turn && a.outcome == b.outcome
}

#[test]
fn initial_state_shape() {
    let s = load_initial_state(&test_bundle());
    assert_eq!(s.board.len(), 3);
    for r in 0..3 {
        assert_eq!(s.board[r].len(), 3);
        for c in 0..3 {
            assert!(s.board[r][c].is_none());
        }
    }
    assert_eq!(s.players.len(), 2);
    assert_eq!(s.players[0].id, "p1");
    assert_eq!(s.players[0].mark, "mark_x");
    assert_eq!(s.players[1].id, "p2");
    assert_eq!(s.players[1].mark, "mark_o");
    assert_eq!(s.turn, "p1");
    assert!(s.outcome.is_none());
}

#[test]
fn place_produces_two_op_diff() {
    let b = test_bundle();
    let mut s = load_initial_state(&b);
    let actor = String::from("p1");
    let d = apply_verb(&b, &mut s, &actor, &place(0, 0));
    assert_eq!(d.len(), 2);
    assert!(matches!(d[0].kind, PatchKind::Replace));
    assert!(matches!(d[0].path, PatchPath::Cell { row: 0, col: 0 }));
    assert_eq!(d[0].value, "mark_x");
    assert!(matches!(d[1].kind, PatchKind::Replace));
    assert!(matches!(d[1].path, PatchPath::Turn));
    assert_eq!(d[1].value, "p2");
    assert_eq!(s.board[0][0].as_deref(), Some("mark_x"));
    assert_eq!(s.turn, "p2");
}

#[test]
fn diff_replay_round_trip() {
    let b = test_bundle();
    let mut s = load_initial_state(&b);
    let copy_of_pre = s.snapshot();
    let actor = String::from("p1");
    let d = apply_verb(&b, &mut s, &actor, &place(1, 2));
    assert_eq!(d.len(), 2);
    let mut replayed = copy_of_pre;
    apply_diff(&mut replayed, &d);
    assert!(boards_equal(&replayed, &s));
}

#[test]
fn wrong_turn_is_rejected_unchanged() {
    let b = test_bundle();
    let mut s = load_initial_state(&b);
    let before = s.snapshot();
    let actor = String::from("p2");
    let d = apply_verb(&b, &mut s, &actor, &place(0, 0));
    assert!(d.is_empty());
    assert!(boards_equal(&before, &s));
}

#[test]
fn occupied_cell_is_rejected_unchanged() {
    let b = test_bundle();
    let mut s = load_initial_state(&b);
    let p1 = String::from("p1");
    let p2 = String::from("p2");
    let d1 = apply_verb(&b, &mut s, &p1, &place(0, 0));
    assert_eq!(d1.len(), 2);
    let before = s.snapshot();
    let d2 = apply_verb(&b, &mut s, &p2, &place(0, 0));
    assert!(d2.is_empty());
    assert!(boards_equal(&before, &s));
}

#[test]
fn out_of_range_is_rejected() {
    let b = test_bundle();
    let mut s = load_initial_state(&b);
    let actor = String::from("p1");
    assert!(apply_verb(&b, &mut s, &actor, &place(3, 0)).is_empty());
    assert!(apply_verb(&b, &mut s, &actor, &place(0, 7)).is_empty());
    let missing = Verb { name: String::from("place"), row: None, col: Some(1) };
    assert!(apply_verb(&b, &mut s, &actor, &missing).is_empty());
    let unknown = Verb { name: String::from("discard"), row: Some(0), col: Some(0) };
    assert!(apply_verb(&b, &mut s, &actor, &unknown).is_empty());
    assert_eq!(s.turn, "p1");
}

#[test]
fn replay_of_single_op_updates_one_cell() {
    let b = test_bundle();
    let mut s = load_initial_state(&b);
    let d = vec![PatchOp {
        kind: PatchKind::Replace,
        path: PatchPath::Cell { row: 2, col: 1 },
        value: String::from("mark_o"),
    }];
    apply_diff(&mut s, &d);
    assert_eq!(s.board[2][1].as_deref(), Some("mark_o"));
    assert_eq!(s.turn, "p1");
}

#[test]
fn snapshot_is_independent_copy() {
    let b = test_bundle();
    let mut s = load_initial_state(&b);
    let snap = s.snapshot();
    let actor = String::from("p1");
    let d = apply_verb(&b, &mut s, &actor, &place(0, 0));
    assert_eq!(d.len(), 2);
    assert!(snap.board[0][0].is_none());
    assert_eq!(snap.turn, "p1");
}

#[test]
fn get_latest_resolves_only_known_game() {
    let bundles = BundleMap::load_dir("./games").unwrap();
    let found = bundles.get_latest("tic-tac-toe");
    assert!(found.is_some());
    assert_eq!(found.unwrap().game_id, "tic-tac-toe");
    assert!(bundles.get_latest("love-letter").is_none());
}

#[test]
fn list_games_names_the_known_game() {
    let bundles = BundleMap::load_dir("./games").unwrap();
    let games = bundles.list_games();
    assert_eq!(games.len(), 1);
    assert_eq!(games[0], "tic-tac-toe");
}
