//! The reference rule module: the post-move hook of the grid game used to
//! validate the ABI. It observes state only through the capability context
//! and requests effects only through the capability calls.

use vstd::prelude::*;

use crate::abi::{count_marks, spec_owner, HostCtx, HostEffectView};
use crate::state::{grid_view_of, row_view_of, GridView, PlayerView};

verus! {

/// The three cells of one of the eight lines of the grid, in the fixed
/// order the hook scans them: rows, then columns, then diagonals.
pub open spec fn line_cells(l: int) -> ((int, int), (int, int), (int, int)) {
    if l == 0 {
        ((0, 0), (0, 1), (0, 2))
    } else if l == 1 {
        ((1, 0), (1, 1), (1, 2))
    } else if l == 2 {
        ((2, 0), (2, 1), (2, 2))
    } else if l == 3 {
        ((0, 0), (1, 0), (2, 0))
    } else if l == 4 {
        ((0, 1), (1, 1), (2, 1))
    } else if l == 5 {
        ((0, 2), (1, 2), (2, 2))
    } else if l == 6 {
        ((0, 0), (1, 1), (2, 2))
    } else {
        ((0, 2), (1, 1), (2, 0))
    }
}

/// Who owns the mark standing in one cell, if anyone.
pub open spec fn cell_owner(g: GridView, players: Seq<PlayerView>, r: int, c: int) -> Option<
    Seq<char>,
> {
    match g[r][c] {
        Some(m) => spec_owner(players, m),
        None => None,
    }
}

/// The winner a single line shows: three cells owned by one player.
pub open spec fn line_winner(g: GridView, players: Seq<PlayerView>, l: int) -> Option<Seq<char>> {
    let ((r0, c0), (r1, c1), (r2, c2)) = line_cells(l);
    match (cell_owner(g, players, r0, c0), cell_owner(g, players, r1, c1), cell_owner(
        g,
        players,
        r2,
        c2,
    )) {
        (Some(a), Some(b), Some(c)) => if a == b && b == c {
            Some(a)
        } else {
            None
        },
        _ => None,
    }
}

/// The winner of the first complete line at or after line `l`, in scan
/// order.
pub open spec fn first_winner_from(g: GridView, players: Seq<PlayerView>, l: int) -> Option<
    Seq<char>,
>
    decreases 8 - l,
{
    if l < 0 || l >= 8 {
        None
    } else if line_winner(g, players, l) is Some {
        line_winner(g, players, l)
    } else {
        first_winner_from(g, players, l + 1)
    }
}

/// The winner of the first complete line of the board, if any.
pub open spec fn first_winner(g: GridView, players: Seq<PlayerView>) -> Option<Seq<char>> {
    first_winner_from(g, players, 0)
}

/// What the hook asks of the host: conclude the round for the winner of the
/// first complete line; else conclude it as a draw once all nine cells are
/// filled; else move the turn onward.
pub open spec fn hook_effects(g: GridView, players: Seq<PlayerView>) -> Seq<HostEffectView> {
    match first_winner(g, players) {
        Some(w) => seq![HostEffectView::RoundEnd { outcome: w }],
        None => if count_marks(g) == 9 {
            seq![HostEffectView::RoundEnd { outcome: "draw"@ }]
        } else {
            seq![HostEffectView::AdvanceTurn]
        },
    }
}

/// The cells of one line, as the executable scan visits them.
fn line_coords(l: usize) -> (t: ((usize, usize), (usize, usize), (usize, usize)))
    requires
        l < 8,
    ensures
        t.0.0 as int == line_cells(l as int).0.0,
        t.0.1 as int == line_cells(l as int).0.1,
        t.1.0 as int == line_cells(l as int).1.0,
        t.1.1 as int == line_cells(l as int).1.1,
        t.2.0 as int == line_cells(l as int).2.0,
        t.2.1 as int == line_cells(l as int).2.1,
        t.0.0 < 3 && t.0.1 < 3 && t.1.0 < 3 && t.1.1 < 3 && t.2.0 < 3 && t.2.1 < 3,
{
    if l == 0 {
        ((0, 0), (0, 1), (0, 2))
    } else if l == 1 {
        ((1, 0), (1, 1), (1, 2))
    } else if l == 2 {
        ((2, 0), (2, 1), (2, 2))
    } else if l == 3 {
        ((0, 0), (1, 0), (2, 0))
    } else if l == 4 {
        ((0, 1), (1, 1), (2, 1))
    } else if l == 5 {
        ((0, 2), (1, 2), (2, 2))
    } else if l == 6 {
        ((0, 0), (1, 1), (2, 2))
    } else {
        ((0, 2), (1, 1), (2, 0))
    }
}

/// Who owns the mark standing in one cell of the hook's grid copy.
fn cell_owner_at(ctx: &HostCtx, board: &Vec<Vec<Option<String>>>, r: usize, c: usize) -> (w:
    Option<String>)
    requires
        grid_view_of(board@) == ctx@.board,
        ctx@.wf(),
        r < 3,
        c < 3,
    ensures
        (w matches Some(s) ==> cell_owner(ctx@.board, ctx@.players, r as int, c as int) == Some(
            s@,
        )),
        w is None ==> cell_owner(ctx@.board, ctx@.players, r as int, c as int) is None,
{
    proof {
        assert(board@.len() == 3);
        assert(ctx@.board[r as int] == row_view_of(board@[r as int]@));
        assert(board@[r as int]@.len() == 3);
    }
    match &board[r][c] {
        Some(m) => ctx.owner_of(m),
        None => None,
    }
}

/// The post-move hook: scan the eight lines for three marks owned by one
/// player; conclude the round for that player, or as a draw once all nine
/// cells are filled; otherwise ask the host to move the turn onward.
/// Exactly one effect is requested per invocation.
pub fn win_hook(ctx: &mut HostCtx)
    requires
        old(ctx)@.wf(),
    ensures
        final(ctx)@.board == old(ctx)@.board,
        final(ctx)@.players == old(ctx)@.players,
        final(ctx)@.effects == old(ctx)@.effects + hook_effects(
            old(ctx)@.board,
            old(ctx)@.players,
        ),
{
    let ghost bv = ctx@.board;
    let ghost pv = ctx@.players;
    let ghost ev0 = ctx@.effects;
    let board = ctx.grid("board");
    let mut l: usize = 0;
    while l < 8
        invariant
            bv == old(ctx)@.board,
            pv == old(ctx)@.players,
            ev0 == old(ctx)@.effects,
            ctx@.board == bv,
            ctx@.players == pv,
            ctx@.effects == ev0,
            ctx@.wf(),
            grid_view_of(board@) == bv,
            l <= 8,
            first_winner(bv, pv) == first_winner_from(bv, pv, l as int),
        decreases 8 - l,
    {
        let ((r0, c0), (r1, c1), (r2, c2)) = line_coords(l);
        let a = cell_owner_at(ctx, &board, r0, c0);
        let b = cell_owner_at(ctx, &board, r1, c1);
        let d = cell_owner_at(ctx, &board, r2, c2);
        match (a, b, d) {
            (Some(x), Some(y), Some(z)) => {
                if x == y && y == z {
                    proof {
                        assert(line_winner(bv, pv, l as int) == Some(x@));
                        assert(first_winner(bv, pv) == Some(x@));
                    }
                    ctx.round_end(x);
                    proof {
                        assert(ctx@.effects =~= ev0 + hook_effects(bv, pv));
                    }
                    return;
                }
                proof {
                    assert(line_winner(bv, pv, l as int) is None);
                }
            },
            _ => {
                proof {
                    assert(line_winner(bv, pv, l as int) is None);
                }
            },
        }
        proof {
            assert(first_winner_from(bv, pv, l as int) == first_winner_from(bv, pv, l as int + 1));
        }
        l += 1;
    }
    proof {
        assert(first_winner(bv, pv) is None);
    }
    let total = ctx.zone_len("board");
    if total == 9 {
        ctx.round_end(String::from_str("draw"));
        proof {
            assert(ctx@.effects =~= ev0 + hook_effects(bv, pv));
        }
    } else {
        ctx.advance_turn();
        proof {
            assert(ctx@.effects =~= ev0 + hook_effects(bv, pv));
        }
    }
}

} // verus!
