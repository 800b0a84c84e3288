use bluefelt::abi::{HostCtx, HostEffect};
use bluefelt::bundle::Bundle;
use bluefelt::engine::Verb;
use bluefelt::hooks::win_hook;
use bluefelt::session::{new_lobby, Lobby, SubmitOutcome};
use bluefelt::transport::{classify_frame, WelcomeLatch, Frame, Keepalive, OutMsg, ReadStep};

fn test_bundle() -> Bundle {
    Bundle { game_id: String::from("tic-tac-toe") }
}

fn fresh_lobby() -> Lobby {
    Lobby::new(String::from("lobby-1"), test_bundle())
}

fn place(row: u64, col: u64) -> Verb {
    Verb { name: String::from("place"), row: Some(row), col: Some(col) }
}

fn submit(lobby: &mut Lobby, actor: &str, row: u64, col: u64) -> Vec<bluefelt::diff::PatchOp> {
    let actor = String::from(actor);
    match lobby.submit_verb(&actor, &place(row, col)) {
        SubmitOutcome::Processed { diff } => diff,
        SubmitOutcome::NotStarted => panic!("session should be active"),
    }
}

#[test]
fn join_is_idempotent() {
    let mut lobby = fresh_lobby();
    assert!(lobby.add_player(String::from("p1")));
    assert_eq!(lobby.players(), 1);
    assert!(lobby.add_player(String::from("p1")));
    assert_eq!(lobby.players(), 1);
    assert_eq!(lobby.player_list(), vec![String::from("p1")]);
    assert!(!lobby.is_started());
}

#[test]
fn third_distinct_join_is_rejected() {
    let mut lobby = fresh_lobby();
    assert!(lobby.add_player(String::from("p1")));
    assert!(lobby.add_player(String::from("p2")));
    assert!(lobby.is_started());
    assert!(!lobby.add_player(String::from("p3")));
    assert_eq!(lobby.players(), 2);
    assert_eq!(lobby.player_list(), vec![String::from("p1"), String::from("p2")]);
    // a reconnection is still accepted while the roster is full
    assert!(lobby.add_player(String::from("p2")));
    assert_eq!(lobby.players(), 2);
}

#[test]
fn remove_player_reports_presence() {
    let mut lobby = fresh_lobby();
    assert!(lobby.add_player(String::from("p1")));
    assert!(!lobby.remove_player("p2"));
    assert!(lobby.remove_player("p1"));
    assert_eq!(lobby.players(), 0);
    assert!(!lobby.remove_player("p1"));
}

#[test]
fn verbs_rejected_while_waiting() {
    let mut lobby = fresh_lobby();
    lobby.add_player(String::from("p1"));
    let actor = String::from("p1");
    let outcome = lobby.submit_verb(&actor, &place(0, 0));
    assert!(matches!(outcome, SubmitOutcome::NotStarted));
    assert!(lobby.state.board[0][0].is_none());
}

#[test]
fn first_move_replaces_cell_and_turn() {
    let mut lobby = fresh_lobby();
    lobby.add_player(String::from("p1"));
    lobby.add_player(String::from("p2"));
    let diff = submit(&mut lobby, "p1", 0, 0);
    assert_eq!(diff.len(), 2);
    assert_eq!(diff[0].value, "mark_x");
    assert_eq!(diff[1].value, "p2");
    assert_eq!(lobby.state.board[0][0].as_deref(), Some("mark_x"));
    assert_eq!(lobby.state.turn, "p2");
    assert!(lobby.state.outcome.is_none());
}

#[test]
fn completed_row_names_the_winner() {
    let mut lobby = fresh_lobby();
    lobby.add_player(String::from("p1"));
    lobby.add_player(String::from("p2"));
    assert_eq!(submit(&mut lobby, "p1", 0, 0).len(), 2);
    assert_eq!(submit(&mut lobby, "p2", 1, 0).len(), 2);
    assert_eq!(submit(&mut lobby, "p1", 0, 1).len(), 2);
    assert_eq!(submit(&mut lobby, "p2", 1, 1).len(), 2);
    assert!(lobby.state.outcome.is_none());
    // the move that completes row 0 ends the round for p1
    assert_eq!(submit(&mut lobby, "p1", 0, 2).len(), 2);
    assert_eq!(lobby.state.outcome.as_deref(), Some("p1"));
    // the round is over: a further verb has no effect
    let diff = submit(&mut lobby, "p2", 2, 2);
    assert!(diff.is_empty());
    assert!(lobby.state.board[2][2].is_none());
}

#[test]
fn full_board_without_line_is_a_draw() {
    let mut lobby = fresh_lobby();
    lobby.add_player(String::from("p1"));
    lobby.add_player(String::from("p2"));
    let moves: [(&str, u64, u64); 9] = [
        ("p1", 0, 0),
        ("p2", 0, 1),
        ("p1", 0, 2),
        ("p2", 1, 1),
        ("p1", 1, 0),
        ("p2", 1, 2),
        ("p1", 2, 1),
        ("p2", 2, 0),
        ("p1", 2, 2),
    ];
    for (actor, r, c) in moves.iter() {
        assert!(lobby.state.outcome.is_none());
        assert_eq!(submit(&mut lobby, actor, *r, *c).len(), 2);
    }
    assert_eq!(lobby.state.outcome.as_deref(), Some("draw"));
}

#[test]
fn illegal_session_verb_gives_empty_diff() {
    let mut lobby = fresh_lobby();
    lobby.add_player(String::from("p1"));
    lobby.add_player(String::from("p2"));
    // p2 tries to move out of turn
    let diff = submit(&mut lobby, "p2", 0, 0);
    assert!(diff.is_empty());
    assert!(lobby.state.board[0][0].is_none());
    assert_eq!(lobby.state.turn, "p1");
}

#[test]
fn new_lobby_shares_a_fresh_session() {
    let lobby = new_lobby(String::from("lobby-9"), test_bundle());
    assert_eq!(lobby.id, "lobby-9");
    assert_eq!(lobby.players(), 0);
    assert!(!lobby.is_started());
}

#[test]
fn snapshot_matches_session_state() {
    let mut lobby = fresh_lobby();
    lobby.add_player(String::from("p1"));
    lobby.add_player(String::from("p2"));
    submit(&mut lobby, "p1", 1, 1);
    let snap = lobby.snapshot();
    assert_eq!(snap.board[1][1].as_deref(), Some("mark_x"));
    assert_eq!(snap.turn, "p2");
}

#[test]
fn attach_before_start_sends_waiting_notice() {
    let lobby = fresh_lobby();
    let (latch, msgs) = WelcomeLatch::attach(&lobby);
    assert!(!latch.welcomed);
    assert_eq!(msgs.len(), 1);
    assert!(matches!(msgs[0], OutMsg::InfoWaiting));
}

#[test]
fn attach_after_start_sends_welcome_pair() {
    let mut lobby = fresh_lobby();
    lobby.add_player(String::from("p1"));
    lobby.add_player(String::from("p2"));
    let (latch, msgs) = WelcomeLatch::attach(&lobby);
    assert!(latch.welcomed);
    assert_eq!(msgs.len(), 2);
    assert!(matches!(msgs[0], OutMsg::Welcome { .. }));
    assert!(matches!(msgs[1], OutMsg::LegalMoves));
}

#[test]
fn watcher_sends_welcome_pair_exactly_once() {
    let mut lobby = fresh_lobby();
    lobby.add_player(String::from("p1"));
    let (mut latch, msgs) = WelcomeLatch::attach(&lobby);
    assert_eq!(msgs.len(), 1);
    // nothing to send while the session is still waiting
    assert!(latch.on_poll(&lobby).is_empty());
    lobby.add_player(String::from("p2"));
    // the transition is observed: the pair goes out once
    let pair = latch.on_poll(&lobby);
    assert_eq!(pair.len(), 2);
    assert!(matches!(pair[0], OutMsg::Welcome { .. }));
    assert!(matches!(pair[1], OutMsg::LegalMoves));
    // and never a second time for the same session
    assert!(latch.on_poll(&lobby).is_empty());
    assert!(latch.on_poll(&lobby).is_empty());
}

#[test]
fn keepalive_closes_after_three_consecutive_failures() {
    let mut k = Keepalive::new();
    assert!(!k.record_probe(false));
    assert!(!k.record_probe(false));
    assert!(k.record_probe(false));
    let mut k2 = Keepalive::new();
    assert!(!k2.record_probe(false));
    assert!(!k2.record_probe(false));
    assert!(!k2.record_probe(true));
    assert!(!k2.record_probe(false));
    assert!(!k2.record_probe(false));
    assert!(k2.record_probe(false));
}

#[test]
fn frames_follow_control_semantics() {
    let text = classify_frame(Frame::Text { payload: String::from("{\"verb\":\"place\"}") });
    match text {
        ReadStep::HandleText { payload } => assert_eq!(payload, "{\"verb\":\"place\"}"),
        _ => panic!("text frames are verb submissions"),
    }
    let ping = classify_frame(Frame::Ping { payload: vec![1, 2, 3] });
    match ping {
        ReadStep::ReplyPong { payload } => assert_eq!(payload, vec![1, 2, 3]),
        _ => panic!("ping frames are answered with pong"),
    }
    assert!(matches!(classify_frame(Frame::Pong { payload: vec![] }), ReadStep::Ignore));
    assert!(matches!(classify_frame(Frame::Binary { payload: vec![9] }), ReadStep::Ignore));
    assert!(matches!(classify_frame(Frame::Close), ReadStep::Stop));
}

#[test]
fn hook_requests_turn_advance_on_open_board() {
    let lobby = fresh_lobby();
    let mut ctx = HostCtx::for_invocation(&lobby.state);
    assert_eq!(ctx.zone_len("board"), 0);
    assert_eq!(ctx.zone_len("discard"), 0);
    assert!(ctx.grid("discard").is_empty());
    assert_eq!(ctx.grid("board").len(), 3);
    win_hook(&mut ctx);
    assert_eq!(ctx.effects.len(), 1);
    assert!(matches!(ctx.effects[0], HostEffect::AdvanceTurn));
}

#[test]
fn emit_records_an_observability_effect() {
    let lobby = fresh_lobby();
    let mut ctx = HostCtx::for_invocation(&lobby.state);
    ctx.emit(String::from("{\"note\":\"scanning\"}"));
    ctx.round_end(String::from("p1"));
    assert_eq!(ctx.effects.len(), 2);
    assert!(matches!(ctx.effects[0], HostEffect::Emit { .. }));
    assert!(matches!(ctx.effects[1], HostEffect::RoundEnd { .. }));
}

#[test]
fn completed_diagonal_names_the_winner() {
    let mut lobby = fresh_lobby();
    lobby.add_player(String::from("p1"));
    lobby.add_player(String::from("p2"));
    assert_eq!(submit(&mut lobby, "p1", 0, 0).len(), 2);
    assert_eq!(submit(&mut lobby, "p2", 0, 1).len(), 2);
    assert_eq!(submit(&mut lobby, "p1", 1, 1).len(), 2);
    assert_eq!(submit(&mut lobby, "p2", 0, 2).len(), 2);
    assert!(lobby.state.outcome.is_none());
    assert_eq!(submit(&mut lobby, "p1", 2, 2).len(), 2);
    assert_eq!(lobby.state.outcome.as_deref(), Some("p1"));
}

#[test]
fn owner_lookup_follows_bound_marks() {
    let lobby = fresh_lobby();
    let ctx = HostCtx::for_invocation(&lobby.state);
    let x = String::from("mark_x");
    let o = String::from("mark_o");
    let unknown = String::from("mark_z");
    assert_eq!(ctx.owner_of(&x).as_deref(), Some("p1"));
    assert_eq!(ctx.owner_of(&o).as_deref(), Some("p2"));
    assert!(ctx.owner_of(&unknown).is_none());
}
