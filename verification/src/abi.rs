//! The Rule-Module ABI: the narrow, capability-limited surface through which
//! a sandboxed rule module observes and mutates shared state.
//!
//! The module never touches the State Document. For each hook invocation the
//! host copies what the module may read into a capability context (copy in);
//! the module calls the capabilities below, which record the host-side
//! effects it requests; the host then replays those effects against the
//! document (copy out). No shared mutable memory survives a call boundary.

use vstd::prelude::*;

use crate::state::{copy_grid, copy_players, grid_view_of, row_view_of, GridView, Player,
    PlayerView, StateDoc};

verus! {

/// One host-side effect a rule module requested through the ABI.
pub enum HostEffect {
    /// An observability message from the module; not behaviour-critical.
    Emit { payload: String },
    /// Move the turn pointer onward, by host-defined rotation.
    AdvanceTurn,
    /// Conclude the round with the given outcome token.
    RoundEnd { outcome: String },
}

/// Mathematical image of a `HostEffect`.
pub enum HostEffectView {
    Emit { payload: Seq<char> },
    AdvanceTurn,
    RoundEnd { outcome: Seq<char> },
}

impl View for HostEffect {
    type V = HostEffectView;

    open spec fn view(&self) -> HostEffectView {
        match self {
            HostEffect::Emit { payload } => HostEffectView::Emit { payload: payload@ },
            HostEffect::AdvanceTurn => HostEffectView::AdvanceTurn,
            HostEffect::RoundEnd { outcome } => HostEffectView::RoundEnd { outcome: outcome@ },
        }
    }
}

/// Images of a whole effect log, in call order.
pub open spec fn effects_view(e: Seq<HostEffect>) -> Seq<HostEffectView> {
    e.map_values(|x: HostEffect| x@)
}

/// Marks standing in one board row.
pub open spec fn count_marks_row(row: Seq<Option<Seq<char>>>) -> nat
    decreases row.len(),
{
    if row.len() == 0 {
        0
    } else {
        count_marks_row(row.drop_last()) + (if row.last() is Some {
            1nat
        } else {
            0nat
        })
    }
}

/// Marks standing in the whole grid: what `zone_len` reports of it.
pub open spec fn count_marks(g: GridView) -> nat
    decreases g.len(),
{
    if g.len() == 0 {
        0
    } else {
        count_marks(g.drop_last()) + count_marks_row(g.last())
    }
}

/// The player that owns a mark: the first seat whose bound mark matches.
pub open spec fn spec_owner(players: Seq<PlayerView>, mark: Seq<char>) -> Option<Seq<char>>
    decreases players.len(),
{
    if players.len() == 0 {
        None
    } else if players[0].mark == mark {
        Some(players[0].id)
    } else {
        spec_owner(players.drop_first(), mark)
    }
}

/// The capability context one hook invocation runs against.
pub struct HostCtx {
    /// Copy of the grid zone, made for this invocation.
    pub board: Vec<Vec<Option<String>>>,
    /// Copy of the player table: who owns which mark.
    pub players: Vec<Player>,
    /// Effects requested so far, in call order.
    pub effects: Vec<HostEffect>,
}

/// Mathematical image of a `HostCtx`.
#[verifier::ext_equal]
pub struct HostCtxView {
    pub board: GridView,
    pub players: Seq<PlayerView>,
    pub effects: Seq<HostEffectView>,
}

impl View for HostCtx {
    type V = HostCtxView;

    open spec fn view(&self) -> HostCtxView {
        HostCtxView {
            board: grid_view_of(self.board@),
            players: self.players@.map_values(|p: Player| p@),
            effects: effects_view(self.effects@),
        }
    }
}

impl HostCtxView {
    /// The shape the host guarantees of a context built from a well-formed
    /// document: the grid zone has three rows of three cells.
    pub open spec fn wf(self) -> bool {
        &&& self.board.len() == 3
        &&& forall|r: int| 0 <= r < 3 ==> (#[trigger] self.board[r]).len() == 3
    }
}

impl HostCtx {
    /// Copies what a hook invocation may read out of the document (copy in).
    pub fn for_invocation(state: &StateDoc) -> (ctx: HostCtx)
        requires
            state@.wf(),
        ensures
            ctx@.board == state@.board,
            ctx@.players == state@.players,
            ctx@.effects =~= Seq::<HostEffectView>::empty(),
            ctx@.wf(),
    {
        let ctx = HostCtx {
            board: copy_grid(&state.board),
            players: copy_players(&state.players),
            effects: Vec::new(),
        };
        proof {
            assert(effects_view(ctx.effects@) =~= Seq::<HostEffectView>::empty());
        }
        ctx
    }

    /// `emit`: send an encoded message from the module to the host.
    /// Observability only; it changes nothing the module can later read.
    pub fn emit(&mut self, payload: String)
        ensures
            final(self)@.board == old(self)@.board,
            final(self)@.players == old(self)@.players,
            final(self)@.effects == old(self)@.effects.push(
                HostEffectView::Emit { payload: payload@ },
            ),
    {
        let ghost pre = self.effects@;
        let ghost ev = HostEffectView::Emit { payload: payload@ };
        self.effects.push(HostEffect::Emit { payload });
        proof {
            assert(effects_view(self.effects@) =~= effects_view(pre).push(ev));
        }
    }

    /// `advance_turn`: ask the host to move the turn pointer to the next
    /// player of its rotation.
    pub fn advance_turn(&mut self)
        ensures
            final(self)@.board == old(self)@.board,
            final(self)@.players == old(self)@.players,
            final(self)@.effects == old(self)@.effects.push(HostEffectView::AdvanceTurn),
    {
        let ghost pre = self.effects@;
        self.effects.push(HostEffect::AdvanceTurn);
        proof {
            assert(effects_view(self.effects@) =~= effects_view(pre).push(
                HostEffectView::AdvanceTurn,
            ));
        }
    }

    /// `round_end`: ask the host to conclude the round with the given
    /// outcome token (a player identifier, or the draw sentinel).
    pub fn round_end(&mut self, outcome: String)
        ensures
            final(self)@.board == old(self)@.board,
            final(self)@.players == old(self)@.players,
            final(self)@.effects == old(self)@.effects.push(
                HostEffectView::RoundEnd { outcome: outcome@ },
            ),
    {
        let ghost pre = self.effects@;
        let ghost ev = HostEffectView::RoundEnd { outcome: outcome@ };
        self.effects.push(HostEffect::RoundEnd { outcome });
        proof {
            assert(effects_view(self.effects@) =~= effects_view(pre).push(ev));
        }
    }

    /// `zone_len`: how many marks stand in a named zone. A zone this
    /// context does not know reports zero; the module must tolerate absence.
    pub fn zone_len(&self, zone_id: &str) -> (n: u32)
        requires
            self@.wf(),
        ensures
            zone_id@ == "board"@ ==> n as nat == count_marks(self@.board),
            zone_id@ != "board"@ ==> n == 0,
    {
        let known = String::from_str("board");
        let asked = String::from_str(zone_id);
        if !(asked == known) {
            return 0;
        }
        let mut n: u32 = 0;
        let mut r: usize = 0;
        while r < self.board.len()
            invariant
                self@.wf(),
                self@.board.len() == self.board@.len(),
                r <= self.board@.len(),
                n as nat == count_marks(self@.board.take(r as int)),
                n <= 3 * r,
            decreases self.board@.len() - r,
        {
            let row = &self.board[r];
            proof {
                assert(self@.board[r as int] == row_view_of(self.board@[r as int]@));
                assert(row@.len() == 3);
            }
            let mut c: usize = 0;
            let mut rn: u32 = 0;
            while c < row.len()
                invariant
                    row_view_of(row@).len() == row@.len(),
                    c <= row@.len(),
                    row@.len() == 3,
                    rn as nat == count_marks_row(row_view_of(row@).take(c as int)),
                    rn <= c,
                decreases row@.len() - c,
            {
                proof {
                    assert(row_view_of(row@).take(c as int + 1).drop_last() =~= row_view_of(
                        row@,
                    ).take(c as int));
                }
                if row[c].is_some() {
                    rn += 1;
                }
                c += 1;
            }
            proof {
                assert(row_view_of(row@).take(row@.len() as int) =~= row_view_of(row@));
                assert(self@.board.take(r as int + 1).drop_last() =~= self@.board.take(r as int));
                assert(self@.board[r as int] == row_view_of(row@));
            }
            n += rn;
            r += 1;
        }
        proof {
            assert(self@.board.take(self.board@.len() as int) =~= self@.board);
        }
        n
    }

    /// `owner_of`: the identifier of the player that owns a mark, or no
    /// owner. The module receives its own copy of the identifier.
    pub fn owner_of(&self, ent_id: &String) -> (w: Option<String>)
        ensures
            (w matches Some(s) ==> spec_owner(self@.players, ent_id@) == Some(s@)),
            w is None ==> spec_owner(self@.players, ent_id@) is None,
    {
        let ghost pv = self@.players;
        let mut i: usize = 0;
        proof {
            assert(pv.skip(0) =~= pv);
        }
        while i < self.players.len()
            invariant
                pv == self@.players,
                pv.len() == self.players@.len(),
                forall|k: int| 0 <= k < pv.len() ==> pv[k] == self.players@[k]@,
                i <= pv.len(),
                spec_owner(pv, ent_id@) == spec_owner(pv.skip(i as int), ent_id@),
            decreases pv.len() - i,
        {
            proof {
                assert(pv.skip(i as int)[0] == pv[i as int]);
                assert(pv.skip(i as int).drop_first() =~= pv.skip(i as int + 1));
            }
            if self.players[i].mark == *ent_id {
                return Some(self.players[i].id.clone());
            }
            i += 1;
        }
        proof {
            assert(pv.skip(pv.len() as int) =~= Seq::<PlayerView>::empty());
        }
        None
    }

    /// `get_grid`: a copy of a grid-shaped zone, owned by the module. A
    /// zone this context does not know comes back empty.
    pub fn grid(&self, zone_id: &str) -> (g: Vec<Vec<Option<String>>>)
        ensures
            zone_id@ == "board"@ ==> grid_view_of(g@) == self@.board,
            zone_id@ != "board"@ ==> g@.len() == 0,
    {
        let known = String::from_str("board");
        let asked = String::from_str(zone_id);
        if asked == known {
            copy_grid(&self.board)
        } else {
            Vec::new()
        }
    }
}

} // verus!
