//! The Diff Protocol: the ordered patch operations a verb application
//! produces and every client replays, left to right, against its copy of the
//! pre-verb document.

use vstd::prelude::*;

use crate::state::{StateDoc, StateView};

verus! {

/// The kind of one patch operation.
pub enum PatchKind {
    Replace,
    Add,
    Remove,
}

/// A pointer into the known shape of the State Document.
pub enum PatchPath {
    /// One cell of the grid zone.
    Cell { row: usize, col: usize },
    /// The turn pointer.
    Turn,
}

/// One patch operation: kind, target path, new value.
pub struct PatchOp {
    pub kind: PatchKind,
    pub path: PatchPath,
    pub value: String,
}

/// Mathematical image of a `PatchPath`.
pub enum PathView {
    Cell { row: int, col: int },
    Turn,
}

/// Mathematical image of a `PatchOp`.
#[verifier::ext_equal]
pub struct PatchOpView {
    pub kind: PatchKind,
    pub path: PathView,
    pub value: Seq<char>,
}

impl View for PatchOp {
    type V = PatchOpView;

    open spec fn view(&self) -> PatchOpView {
        PatchOpView {
            kind: self.kind,
            path: match self.path {
                PatchPath::Cell { row, col } => PathView::Cell { row: row as int, col: col as int },
                PatchPath::Turn => PathView::Turn,
            },
            value: self.value@,
        }
    }
}

/// Images of a whole diff, operation by operation.
pub open spec fn diff_view(d: Seq<PatchOp>) -> Seq<PatchOpView> {
    d.map_values(|op: PatchOp| op@)
}

/// Effect of one patch operation on a document. A `replace` rewrites the
/// addressed cell or the turn pointer; an operation whose path falls outside
/// the document's known shape, or whose kind the known shape does not admit,
/// leaves the document unchanged.
pub open spec fn apply_op(s: StateView, op: PatchOpView) -> StateView {
    match op.kind {
        PatchKind::Replace => match op.path {
            PathView::Cell { row, col } => {
                if 0 <= row < s.board.len() && 0 <= col < s.board[row].len() {
                    StateView {
                        board: s.board.update(row, s.board[row].update(col, Some(op.value))),
                        ..s
                    }
                } else {
                    s
                }
            },
            PathView::Turn => StateView { turn: op.value, ..s },
        },
        PatchKind::Add => s,
        PatchKind::Remove => s,
    }
}

/// Effect of a whole diff: its operations applied in order, left to right.
pub open spec fn apply_ops(s: StateView, ops: Seq<PatchOpView>) -> StateView
    decreases ops.len(),
{
    if ops.len() == 0 {
        s
    } else {
        apply_ops(apply_op(s, ops[0]), ops.drop_first())
    }
}

/// Replays a diff against a document, in order. This is what a client does
/// with each `event` message it receives.
pub fn apply_diff(state: &mut StateDoc, diff: &Vec<PatchOp>)
    ensures
        final(state)@ == apply_ops(old(state)@, diff_view(diff@)),
{
    let mut i: usize = 0;
    proof {
        assert(diff_view(diff@).skip(0) =~= diff_view(diff@));
    }
    while i < diff.len()
        invariant
            i <= diff.len(),
            apply_ops(state@, diff_view(diff@).skip(i as int))
                == apply_ops(old(state)@, diff_view(diff@)),
        decreases diff.len() - i,
    {
        proof {
            assert(diff_view(diff@).skip(i as int)[0] == diff@[i as int]@);
            assert(diff_view(diff@).skip(i as int).drop_first()
                =~= diff_view(diff@).skip(i as int + 1));
        }
        apply_one(state, &diff[i]);
        i += 1;
    }
    proof {
        assert(diff_view(diff@).skip(diff@.len() as int) =~= Seq::<PatchOpView>::empty());
    }
}

/// Replays a single patch operation against a document.
fn apply_one(state: &mut StateDoc, op: &PatchOp)
    ensures
        final(state)@ == apply_op(old(state)@, op@),
{
    match &op.kind {
        PatchKind::Replace => match &op.path {
            PatchPath::Cell { row, col } => {
                let r = *row;
                let c = *col;
                if r < state.board.len() {
                    let row_len = state.board[r].len();
                    if c < row_len {
                        let rv = &mut state.board[r];
                        rv[c] = Some(op.value.clone());
                        proof {
                            assert(state@ =~~= apply_op(old(state)@, op@));
                        }
                    }
                }
            },
            PatchPath::Turn => {
                state.turn = op.value.clone();
                proof {
                    assert(state@ =~~= apply_op(old(state)@, op@));
                }
            },
        },
        PatchKind::Add => {},
        PatchKind::Remove => {},
    }
}

} // verus!
