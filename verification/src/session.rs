//! The Session Engine: one live game instance (a lobby) — its State
//! Document, its capacity-bounded roster, its started flag, and the verb
//! intake that drives rule-module invocation and diff production.
//!
//! The lobby is the authoritative state machine; the server around it wraps
//! one lobby in a shared handle, serialises access, and broadcasts what
//! `submit_verb` returns.

use vstd::prelude::*;

use std::sync::Arc;

use crate::abi::{effects_view, HostCtx, HostEffect, HostEffectView};
use crate::bundle::Bundle;
use crate::diff::{apply_ops, diff_view, PatchOp};
use crate::engine::{apply_verb, load_initial_state, place_ok, spec_place, place_diff, Verb};
use crate::hooks::{first_winner, hook_effects, win_hook};
use crate::state::{is_initial_state, StateDoc, StateView};

verus! {

/// A known user of the platform: stable identifier and display name.
pub struct User {
    pub id: String,
    pub name: String,
}

/// A roster holds an identifier at most once.
pub open spec fn roster_has(players: Seq<Seq<char>>, id: Seq<char>) -> bool {
    exists|i: int| 0 <= i < players.len() && players[i] == id
}

/// Whether a join attempt succeeds: reconnection of an enrolled player, or a
/// free seat.
pub open spec fn join_accepted(players: Seq<Seq<char>>, cap: nat, id: Seq<char>) -> bool {
    roster_has(players, id) || players.len() < cap
}

/// The roster after a join attempt: unchanged for an enrolled player or a
/// full roster, else the identifier appended.
pub open spec fn join_roster(players: Seq<Seq<char>>, cap: nat, id: Seq<char>) -> Seq<Seq<char>> {
    if roster_has(players, id) || players.len() >= cap {
        players
    } else {
        players.push(id)
    }
}

/// The started flag after a join attempt: set once a new player fills the
/// last free seat, and never cleared.
pub open spec fn join_started(players: Seq<Seq<char>>, cap: nat, started: bool, id: Seq<char>)
    -> bool {
    started || (!roster_has(players, id) && players.len() + 1 == cap)
}

/// The seat an enrolled identifier occupies.
pub open spec fn roster_index(players: Seq<Seq<char>>, id: Seq<char>) -> int {
    choose|i: int| 0 <= i < players.len() && players[i] == id
}

/// Law: joining is idempotent. Once an identifier is enrolled, a further
/// join attempt with the same identifier changes neither the roster's size
/// nor its ordering.
pub proof fn lemma_join_idempotent(players: Seq<Seq<char>>, cap: nat, id: Seq<char>)
    ensures
        join_roster(join_roster(players, cap, id), cap, id) == join_roster(players, cap, id),
{
    if !roster_has(players, id) && players.len() < cap {
        assert(players.push(id)[players.len() as int] == id);
        assert(roster_has(players.push(id), id));
    }
}

/// Law: roster capacity. While exactly `cap` distinct identifiers are
/// enrolled, a join attempt with a new identifier is rejected and the
/// roster is unchanged.
pub proof fn lemma_capacity_rejects(players: Seq<Seq<char>>, cap: nat, id: Seq<char>)
    requires
        players.len() == cap,
        !roster_has(players, id),
    ensures
        !join_accepted(players, cap, id),
        join_roster(players, cap, id) == players,
{
}

/// One live game instance.
pub struct Lobby {
    /// The session identifier clients address.
    pub id: String,
    /// The rule-module bundle this session is bound to.
    pub bundle: Bundle,
    /// The authoritative State Document, exclusively owned by this lobby.
    pub state: StateDoc,
    /// Enrolled player identifiers, in join order.
    pub players: Vec<String>,
    /// Whether the roster filled and verbs are accepted.
    pub game_started: bool,
    /// The game-defined roster bound.
    pub capacity: usize,
}

/// Mathematical image of a `Lobby`.
#[verifier::ext_equal]
pub struct LobbyView {
    pub id: Seq<char>,
    pub game_id: Seq<char>,
    pub state: StateView,
    pub players: Seq<Seq<char>>,
    pub started: bool,
    pub capacity: nat,
}

impl View for Lobby {
    type V = LobbyView;

    open spec fn view(&self) -> LobbyView {
        LobbyView {
            id: self.id@,
            game_id: self.bundle.game_id@,
            state: self.state@,
            players: self.players@.map_values(|s: String| s@),
            started: self.game_started,
            capacity: self.capacity as nat,
        }
    }
}

impl LobbyView {
    /// The invariant every lobby keeps: a well-formed document, a roster
    /// within capacity, and no identifier enrolled twice.
    pub open spec fn wf(self) -> bool {
        &&& self.state.wf()
        &&& self.capacity >= 1
        &&& self.players.len() <= self.capacity
        &&& forall|i: int, j: int|
            #![trigger self.players[i], self.players[j]]
            0 <= i < j < self.players.len() ==> self.players[i] != self.players[j]
    }

    /// An enrolled identifier occupies exactly one seat.
    pub proof fn lemma_roster_index_unique(self, i: int, id: Seq<char>)
        requires
            self.wf(),
            0 <= i < self.players.len(),
            self.players[i] == id,
        ensures
            roster_index(self.players, id) == i,
    {
        let k = roster_index(self.players, id);
        assert(0 <= k < self.players.len() && self.players[k] == id);
        if k != i {
            if k < i {
                assert(self.players[k] != self.players[i]);
            } else {
                assert(self.players[i] != self.players[k]);
            }
        }
    }
}

/// Whether a roster, as stored, holds an identifier.
fn roster_contains(players: &Vec<String>, id: &String) -> (r: bool)
    ensures
        r == roster_has(players@.map_values(|s: String| s@), id@),
{
    let ghost pv = players@.map_values(|s: String| s@);
    let mut i: usize = 0;
    while i < players.len()
        invariant
            pv == players@.map_values(|s: String| s@),
            pv.len() == players@.len(),
            i <= pv.len(),
            forall|j: int| 0 <= j < i ==> pv[j] != id@,
        decreases pv.len() - i,
    {
        if players[i] == *id {
            proof {
                assert(pv[i as int] == id@);
            }
            return true;
        }
        i += 1;
    }
    false
}

/// The document after the post-move hook's effects are replayed: the
/// recorded outcome of a finished round, and nothing else.
pub open spec fn round_outcome_after(s: StateView) -> Option<Seq<char>> {
    match first_winner(s.board, s.players) {
        Some(w) => Some(w),
        None => if crate::abi::count_marks(s.board) == 9 {
            Some("draw"@)
        } else {
            s.outcome
        },
    }
}

/// Effect of one requested host effect on the document. `round_end` records
/// the outcome of a round that has none yet; `advance_turn` asks for the
/// host rotation the verb application already performed, so the document is
/// already at the next eligible player; `emit` is observability only.
pub open spec fn apply_effect(s: StateView, e: HostEffectView) -> StateView {
    match e {
        HostEffectView::RoundEnd { outcome } => if s.outcome is None {
            StateView { outcome: Some(outcome), ..s }
        } else {
            s
        },
        HostEffectView::AdvanceTurn => s,
        HostEffectView::Emit { .. } => s,
    }
}

/// Effect of a whole effect log, replayed in call order.
pub open spec fn apply_effects_spec(s: StateView, es: Seq<HostEffectView>) -> StateView
    decreases es.len(),
{
    if es.len() == 0 {
        s
    } else {
        apply_effects_spec(apply_effect(s, es[0]), es.drop_first())
    }
}

/// Replaying effects never touches the board, the players or the turn.
pub proof fn lemma_apply_effects_frame(s: StateView, es: Seq<HostEffectView>)
    ensures
        apply_effects_spec(s, es).board == s.board,
        apply_effects_spec(s, es).players == s.players,
        apply_effects_spec(s, es).turn == s.turn,
    decreases es.len(),
{
    if es.len() > 0 {
        lemma_apply_effects_frame(apply_effect(s, es[0]), es.drop_first());
    }
}

/// Replaying exactly what the hook requests records the round outcome.
pub proof fn lemma_hook_replay(s: StateView)
    requires
        s.outcome is None,
    ensures
        apply_effects_spec(s, hook_effects(s.board, s.players)) == (StateView {
            outcome: round_outcome_after(s),
            ..s
        }),
{
    let es = hook_effects(s.board, s.players);
    assert(es.len() == 1);
    assert(es.drop_first() =~= Seq::<HostEffectView>::empty());
    assert(apply_effects_spec(apply_effect(s, es[0]), es.drop_first()) == apply_effect(s, es[0]));
    assert(apply_effects_spec(s, es) == apply_effect(s, es[0]));
    assert(apply_effect(s, es[0]) =~= StateView { outcome: round_outcome_after(s), ..s });
}

/// Replays a hook invocation's effect log against the document.
fn replay_effects(state: &mut StateDoc, effects: &Vec<HostEffect>)
    ensures
        final(state)@ == apply_effects_spec(old(state)@, effects_view(effects@)),
{
    let ghost es = effects_view(effects@);
    let mut i: usize = 0;
    proof {
        assert(es.skip(0) =~= es);
    }
    while i < effects.len()
        invariant
            es == effects_view(effects@),
            es.len() == effects@.len(),
            i <= es.len(),
            apply_effects_spec(state@, es.skip(i as int)) == apply_effects_spec(old(state)@, es),
        decreases es.len() - i,
    {
        proof {
            assert(es.skip(i as int)[0] == effects@[i as int]@);
            assert(es.skip(i as int).drop_first() =~= es.skip(i as int + 1));
        }
        let ghost prev = state@;
        match &effects[i] {
            HostEffect::RoundEnd { outcome } => {
                if state.outcome.is_none() {
                    state.outcome = Some(outcome.clone());
                    proof {
                        assert(state@ =~~= apply_effect(prev, es.skip(i as int)[0]));
                    }
                }
            },
            HostEffect::AdvanceTurn => {},
            HostEffect::Emit { .. } => {},
        }
        i += 1;
    }
    proof {
        assert(es.skip(es.len() as int) =~= Seq::<HostEffectView>::empty());
    }
}

/// What a verb submission came to.
pub enum SubmitOutcome {
    /// The session is still waiting for players: the verb is refused with an
    /// explicit signal, not silently dropped.
    NotStarted,
    /// The verb was processed. The diff is what every attached connection
    /// must receive; it is empty when the verb was illegal.
    Processed { diff: Vec<PatchOp> },
}

/// A fresh lobby for a resolved bundle, shared behind a counted handle.
pub fn new_lobby(id: String, bundle: Bundle) -> (l: Arc<Lobby>)
    ensures
        l@.wf(),
        l@.id == id@,
        is_initial_state(l@.state),
        l@.players.len() == 0,
        !l@.started,
        l@.capacity == 2,
{
    Arc::new(Lobby::new(id, bundle))
}

impl Lobby {
    /// A fresh lobby: initial document, empty roster, not started, and the
    /// reference game's two-seat capacity.
    pub fn new(id: String, bundle: Bundle) -> (l: Lobby)
        ensures
            l@.wf(),
            l@.id == id@,
            l@.game_id == bundle.game_id@,
            is_initial_state(l@.state),
            l@.players.len() == 0,
            !l@.started,
            l@.capacity == 2,
    {
        let state = load_initial_state(&bundle);
        let l = Lobby {
            id,
            bundle,
            state,
            players: Vec::new(),
            game_started: false,
            capacity: 2,
        };
        proof {
            assert(l@.players =~= Seq::<Seq<char>>::empty());
        }
        l
    }

    /// How many players are enrolled.
    pub fn players(&self) -> (n: usize)
        ensures
            n == self@.players.len(),
    {
        self.players.len()
    }

    /// A copy of the roster, in join order.
    pub fn player_list(&self) -> (r: Vec<String>)
        ensures
            r@.map_values(|s: String| s@) == self@.players,
    {
        let mut r: Vec<String> = Vec::new();
        let mut i: usize = 0;
        while i < self.players.len()
            invariant
                i <= self.players@.len(),
                r@.len() == i,
                forall|k: int| 0 <= k < i ==> (#[trigger] r@[k])@ == self.players@[k]@,
            decreases self.players@.len() - i,
        {
            r.push(self.players[i].clone());
            i += 1;
        }
        proof {
            assert(r@.map_values(|s: String| s@) =~= self@.players);
        }
        r
    }

    /// Whether the roster filled and the game started.
    pub fn is_started(&self) -> (r: bool)
        ensures
            r == self@.started,
    {
        self.game_started
    }

    /// A full copy of the document, safe to take while verbs keep being
    /// processed: the server snapshots under the same exclusive access as a
    /// mutation, so a snapshot is never a partially mutated document.
    pub fn snapshot(&self) -> (s: StateDoc)
        ensures
            s@ == self@.state,
    {
        self.state.snapshot()
    }

    /// A join attempt. Idempotent for an enrolled identifier (the
    /// reconnection case); appends a new identifier while a seat is free,
    /// and starts the game when the last seat fills; rejects a new
    /// identifier once the roster is full.
    pub fn add_player(&mut self, player_id: String) -> (joined: bool)
        requires
            old(self)@.wf(),
        ensures
            final(self)@.wf(),
            final(self)@.id == old(self)@.id,
            final(self)@.game_id == old(self)@.game_id,
            final(self)@.state == old(self)@.state,
            final(self)@.capacity == old(self)@.capacity,
            joined == join_accepted(old(self)@.players, old(self)@.capacity, player_id@),
            final(self)@.players == join_roster(
                old(self)@.players,
                old(self)@.capacity,
                player_id@,
            ),
            final(self)@.started == join_started(
                old(self)@.players,
                old(self)@.capacity,
                old(self)@.started,
                player_id@,
            ),
    {
        if roster_contains(&self.players, &player_id) {
            return true;
        }
        if self.players.len() < self.capacity {
            let ghost pre = self@.players;
            self.players.push(player_id);
            proof {
                assert(self@.players =~= pre.push(player_id@));
            }
            if self.players.len() == self.capacity {
                self.game_started = true;
            }
            return true;
        }
        false
    }

    /// Removes a player from the roster if present; reports "not present"
    /// otherwise (non-fatal). Leaving changes neither the document nor the
    /// started flag.
    pub fn remove_player(&mut self, player_id: &str) -> (removed: bool)
        requires
            old(self)@.wf(),
        ensures
            final(self)@.wf(),
            final(self)@.id == old(self)@.id,
            final(self)@.game_id == old(self)@.game_id,
            final(self)@.state == old(self)@.state,
            final(self)@.capacity == old(self)@.capacity,
            final(self)@.started == old(self)@.started,
            removed == roster_has(old(self)@.players, player_id@),
            !removed ==> final(self)@.players == old(self)@.players,
            removed ==> final(self)@.players == old(self)@.players.remove(
                roster_index(old(self)@.players, player_id@),
            ),
    {
        let pid = String::from_str(player_id);
        let ghost pv = self@.players;
        let mut i: usize = 0;
        while i < self.players.len()
            invariant
                self@ == old(self)@,
                old(self)@.wf(),
                pid@ == player_id@,
                pv == self@.players,
                pv.len() == self.players@.len(),
                i <= pv.len(),
                forall|j: int| 0 <= j < i ==> pv[j] != pid@,
            decreases pv.len() - i,
        {
            if self.players[i] == pid {
                proof {
                    assert(pv[i as int] == self.players@[i as int]@);
                    assert(pv[i as int] == player_id@);
                    self@.lemma_roster_index_unique(i as int, player_id@);
                }
                let ghost prevec = self.players@;
                self.players.remove(i);
                proof {
                    prevec.remove_ensures(i as int);
                    assert(self@.players =~= pv.remove(i as int)) by {
                        pv.remove_ensures(i as int);
                        assert(self.players@ == prevec.remove(i as int));
                        assert forall|k: int| 0 <= k < self@.players.len() implies self@.players[k]
                            == pv.remove(i as int)[k] by {
                            if k < i {
                                assert(prevec.remove(i as int)[k] == prevec[k]);
                                assert(pv.remove(i as int)[k] == pv[k]);
                            } else {
                                assert(prevec.remove(i as int)[k] == prevec[k + 1]);
                                assert(pv.remove(i as int)[k] == pv[k + 1]);
                            }
                        }
                    }
                    assert forall|a: int, b: int|
                        0 <= a < b < self@.players.len() implies self@.players[a]
                        != self@.players[b] by {
                        pv.remove_ensures(i as int);
                        let fp = pv.remove(i as int);
                        let a0 = if a < i {
                            a
                        } else {
                            a + 1
                        };
                        let b0 = if b < i {
                            b
                        } else {
                            b + 1
                        };
                        assert(fp[a] == pv[a0]);
                        assert(fp[b] == pv[b0]);
                        assert(pv[a0] != pv[b0]);
                    }
                }
                return true;
            }
            i += 1;
        }
        false
    }

    /// Processes one verb, strictly in arrival order. While the session is
    /// waiting for players the verb is refused explicitly. Once active, the
    /// verb is applied to the document, the bound rule module's post-move
    /// hook runs over the ABI for every applied verb, its effects are
    /// replayed, and the diff is handed back for broadcast.
    pub fn submit_verb(&mut self, actor: &String, verb: &Verb) -> (r: SubmitOutcome)
        requires
            old(self)@.wf(),
        ensures
            final(self)@.wf(),
            final(self)@.id == old(self)@.id,
            final(self)@.game_id == old(self)@.game_id,
            final(self)@.players == old(self)@.players,
            final(self)@.capacity == old(self)@.capacity,
            final(self)@.started == old(self)@.started,
            !old(self)@.started ==> r is NotStarted && final(self)@.state == old(self)@.state,
            old(self)@.started && !place_ok(old(self)@.state, actor@, verb@) ==> ((
            r matches SubmitOutcome::Processed { diff } && diff@.len() == 0) && final(self)@.state
                == old(self)@.state),
            old(self)@.started && place_ok(old(self)@.state, actor@, verb@) ==> (({
                let row = verb@.row->0 as int;
                let col = verb@.col->0 as int;
                let placed = spec_place(old(self)@.state, row, col);
                &&& (r matches SubmitOutcome::Processed { diff } && diff_view(diff@) == place_diff(
                    old(self)@.state,
                    row,
                    col,
                ) && apply_ops(old(self)@.state, diff_view(diff@)) == placed)
                &&& final(self)@.state == (StateView {
                    outcome: round_outcome_after(placed),
                    ..placed
                })
            })),
    {
        if !self.game_started {
            return SubmitOutcome::NotStarted;
        }
        let diff = apply_verb(&self.bundle, &mut self.state, actor, verb);
        if diff.len() > 0 {
            let ghost placed = self.state@;
            let mut ctx = HostCtx::for_invocation(&self.state);
            win_hook(&mut ctx);
            proof {
                assert(ctx@.effects =~= hook_effects(placed.board, placed.players));
                lemma_hook_replay(placed);
                lemma_apply_effects_frame(placed, ctx@.effects);
            }
            replay_effects(&mut self.state, &ctx.effects);
            proof {
                assert(self.state@ =~= StateView {
                    outcome: round_outcome_after(placed),
                    ..placed
                });
            }
        }
        SubmitOutcome::Processed { diff }
    }
}

} // verus!
