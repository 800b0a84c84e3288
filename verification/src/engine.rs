//! Verb application: validating a player action against the State Document
//! and, when it is legal, mutating exactly the affected paths and producing
//! the diff that reconstructs the mutation.

use vstd::prelude::*;

use crate::bundle::Bundle;
use crate::diff::{apply_op, apply_ops, diff_view, PatchKind, PatchOp, PatchOpView, PatchPath,
    PathView};
use crate::state::{is_initial_state, Player, StateDoc, StateView};

verus! {

/// A named player action with its arguments, as submitted for validation.
/// The reference game knows one verb, `place`, with a row and a column.
pub struct Verb {
    pub name: String,
    pub row: Option<u64>,
    pub col: Option<u64>,
}

/// Mathematical image of a `Verb`.
#[verifier::ext_equal]
pub struct VerbView {
    pub name: Seq<char>,
    pub row: Option<u64>,
    pub col: Option<u64>,
}

impl View for Verb {
    type V = VerbView;

    open spec fn view(&self) -> VerbView {
        VerbView { name: self.name@, row: self.row, col: self.col }
    }
}

/// When a `place` verb is legal: the round is still running, the verb is
/// well-formed with in-range coordinates, the actor holds the turn, and the
/// addressed cell is unoccupied.
pub open spec fn place_ok(s: StateView, actor: Seq<char>, v: VerbView) -> bool {
    &&& s.outcome is None
    &&& v.name == "place"@
    &&& v.row is Some
    &&& v.col is Some
    &&& v.row->0 < 3
    &&& v.col->0 < 3
    &&& actor == s.turn
    &&& s.cell(v.row->0 as int, v.col->0 as int) is None
}

/// The document after a legal `place`: the addressed cell now holds the
/// acting player's mark, and the turn pointer has moved to the next player
/// in seating rotation.
pub open spec fn spec_place(s: StateView, row: int, col: int) -> StateView {
    StateView {
        board: s.board.update(row, s.board[row].update(col, Some(s.turn_mark()))),
        turn: s.next_turn_id(),
        ..s
    }
}

/// The two-operation diff of a legal `place`: a replace of the addressed
/// cell, then a replace of the turn pointer.
pub open spec fn place_diff(s: StateView, row: int, col: int) -> Seq<PatchOpView> {
    seq![
        PatchOpView {
            kind: PatchKind::Replace,
            path: PathView::Cell { row, col },
            value: s.turn_mark(),
        },
        PatchOpView { kind: PatchKind::Replace, path: PathView::Turn, value: s.next_turn_id() },
    ]
}

/// Law: a verb submitted by a player who does not hold the turn is never
/// legal, so by `apply_verb`'s contract its diff is empty and the document
/// is unchanged.
pub proof fn lemma_wrong_turn_illegal(s: StateView, actor: Seq<char>, v: VerbView)
    requires
        actor != s.turn,
    ensures
        !place_ok(s, actor, v),
{
}

/// Law: a verb that targets an already-occupied cell is never legal, so by
/// `apply_verb`'s contract its diff is empty and the document is unchanged.
pub proof fn lemma_occupied_cell_illegal(s: StateView, actor: Seq<char>, v: VerbView)
    requires
        v.row is Some,
        v.col is Some,
        s.cell(v.row->0 as int, v.col->0 as int) is Some,
    ensures
        !place_ok(s, actor, v),
{
}

/// First seat whose player carries the given identifier.
pub fn find_player(players: &Vec<Player>, id: &String) -> (r: Option<usize>)
    ensures
        r matches Some(i) ==> i < players@.len() && players@[i as int]@.id == id@,
        r is None ==> forall|j: int|
            0 <= j < players@.len() ==> (#[trigger] players@[j]@.id) != id@,
{
    let mut i: usize = 0;
    while i < players.len()
        invariant
            i <= players@.len(),
            forall|j: int| 0 <= j < i ==> (#[trigger] players@[j]@.id) != id@,
        decreases players@.len() - i,
    {
        if players[i].id == *id {
            return Some(i);
        }
        i += 1;
    }
    None
}

/// The initial State Document for a resolved bundle's game.
pub fn load_initial_state(_bundle: &Bundle) -> (s: StateDoc)
    ensures
        is_initial_state(s@),
{
    StateDoc::initial()
}

/// Applies a verb submitted by `actor` to the document.
///
/// A rejected verb — wrong turn, a round already concluded, an unknown verb
/// name, missing or out-of-range coordinates, an occupied cell — leaves the
/// document untouched and yields the empty diff. A legal `place` mutates
/// exactly the addressed cell and the turn pointer and yields the
/// two-operation diff whose replay against the pre-verb document
/// reconstructs the post-verb document. This function never panics on
/// malformed input.
pub fn apply_verb(_bundle: &Bundle, state: &mut StateDoc, actor: &String, verb: &Verb) -> (d: Vec<
    PatchOp,
>)
    requires
        old(state)@.wf(),
    ensures
        final(state)@.wf(),
        final(state)@.players == old(state)@.players,
        place_ok(old(state)@, actor@, verb@) ==> ({
            let row = verb@.row->0 as int;
            let col = verb@.col->0 as int;
            &&& final(state)@ == spec_place(old(state)@, row, col)
            &&& diff_view(d@) == place_diff(old(state)@, row, col)
            &&& apply_ops(old(state)@, diff_view(d@)) == final(state)@
        }),
        !place_ok(old(state)@, actor@, verb@) ==> d@.len() == 0 && final(state)@ == old(state)@,
{
    let place_name = String::from_str("place");
    if state.outcome.is_some() {
        return Vec::new();
    }
    if !(verb.name == place_name) {
        return Vec::new();
    }
    let (row64, col64) = match (verb.row, verb.col) {
        (Some(r), Some(c)) => (r, c),
        _ => {
            return Vec::new();
        },
    };
    if !(row64 < 3 && col64 < 3) {
        return Vec::new();
    }
    if !(*actor == state.turn) {
        return Vec::new();
    }
    let r = row64 as usize;
    let c = col64 as usize;
    proof {
        assert(state@.board.len() == 3);
        assert(state@.board[r as int].len() == 3);
        assert(state.board@.len() == 3);
        assert(state.board@[r as int]@.len() == 3);
    }
    if state.board[r][c].is_some() {
        proof {
            assert(state@.cell(r as int, c as int) is Some);
        }
        return Vec::new();
    }
    let n = state.players.len();
    let ti = match find_player(&state.players, &state.turn) {
        Some(i) => i,
        None => {
            proof {
                let w = choose|i: int|
                    0 <= i < state@.players.len() && state@.players[i].id == state@.turn;
                assert(state@.players[w] == state.players@[w]@);
                assert(state.players@[w]@.id == state@.turn);
                assert(false);
            }
            return Vec::new();
        },
    };
    proof {
        assert(state@.players[ti as int] == state.players@[ti as int]@);
        state@.lemma_turn_index_unique(ti as int);
    }
    let mark = state.players[ti].mark.clone();
    let ni = if ti + 1 < n {
        ti + 1
    } else {
        0
    };
    proof {
        if ti + 1 < n {
            vstd::arithmetic::div_mod::lemma_small_mod((ti + 1) as nat, n as nat);
        } else {
            assert(ti as int + 1 == n as int);
            vstd::arithmetic::div_mod::lemma_mod_self_0(n as int);
        }
        assert(state@.next_index() == ni as int);
    }
    let next_id = state.players[ni].id.clone();
    let ghost pre = state@;
    let rv = &mut state.board[r];
    rv[c] = Some(mark.clone());
    state.turn = next_id.clone();
    proof {
        assert(state@ =~~= spec_place(pre, r as int, c as int));
    }
    let mut d: Vec<PatchOp> = Vec::new();
    d.push(PatchOp {
        kind: PatchKind::Replace,
        path: PatchPath::Cell { row: r, col: c },
        value: mark,
    });
    d.push(PatchOp { kind: PatchKind::Replace, path: PatchPath::Turn, value: next_id });
    proof {
        let ops = diff_view(d@);
        assert(ops =~= place_diff(pre, r as int, c as int));
        let s1 = apply_op(pre, ops[0]);
        assert(s1 =~~= StateView {
            board: pre.board.update(r as int, pre.board[r as int].update(c as int, Some(mark@))),
            ..pre
        });
        assert(ops.drop_first()[0] == ops[1]);
        assert(ops.drop_first().drop_first().len() == 0);
        assert(apply_ops(pre, ops) == apply_ops(s1, ops.drop_first()));
        assert(apply_ops(s1, ops.drop_first()) == apply_ops(
            apply_op(s1, ops.drop_first()[0]),
            ops.drop_first().drop_first(),
        ));
        assert(apply_op(s1, ops[1]) =~~= state@);
        // the mutated document is still well-formed
        assert(0 <= pre.next_index() < pre.players.len());
        assert(state@.players[pre.next_index()].id == state@.turn);
        assert(state@.turn_enrolled());
        assert(state@.grid_wf());
    }
    d
}

} // verus!
