//! The State Document: the structured, mutable state of one game session.
//!
//! A document holds one grid zone (a fixed 3 x 3 board of optional marks),
//! the list of enrolled players with their bound marks, the `turn` pointer
//! naming the player whose verbs are currently legal, and the recorded round
//! outcome once a round has concluded.

use vstd::prelude::*;

verus! {

/// A participant in one game: a stable identifier and the mark bound to it.
pub struct Player {
    pub id: String,
    pub mark: String,
}

/// Mathematical image of a `Player`.
#[verifier::ext_equal]
pub struct PlayerView {
    pub id: Seq<char>,
    pub mark: Seq<char>,
}

impl View for Player {
    type V = PlayerView;

    open spec fn view(&self) -> PlayerView {
        PlayerView { id: self.id@, mark: self.mark@ }
    }
}

/// Mathematical image of the grid zone: rows of optional marks.
pub type GridView = Seq<Seq<Option<Seq<char>>>>;

/// Mathematical image of one executable board row.
pub open spec fn row_view_of(row: Seq<Option<String>>) -> Seq<Option<Seq<char>>> {
    Seq::new(
        row.len(),
        |c: int|
            match row[c] {
                Some(m) => Some(m@),
                None => None,
            },
    )
}

/// Mathematical image of an executable board.
pub open spec fn grid_view_of(b: Seq<Vec<Option<String>>>) -> GridView {
    Seq::new(b.len(), |r: int| row_view_of(b[r]@))
}

/// The authoritative document for one game session.
pub struct StateDoc {
    /// The single grid zone, named "board": rows of cells, each cell either
    /// empty or holding the mark of the player who filled it.
    pub board: Vec<Vec<Option<String>>>,
    /// Enrolled players, in seating order.
    pub players: Vec<Player>,
    /// Identifier of the player whose verbs are currently legal.
    pub turn: String,
    /// Recorded round outcome: a player identifier, or the draw sentinel;
    /// `None` while the round is still running.
    pub outcome: Option<String>,
}

/// Mathematical image of a `StateDoc`.
#[verifier::ext_equal]
pub struct StateView {
    pub board: GridView,
    pub players: Seq<PlayerView>,
    pub turn: Seq<char>,
    pub outcome: Option<Seq<char>>,
}

impl View for StateDoc {
    type V = StateView;

    open spec fn view(&self) -> StateView {
        StateView {
            board: grid_view_of(self.board@),
            players: self.players@.map_values(|p: Player| p@),
            turn: self.turn@,
            outcome: match self.outcome {
                Some(o) => Some(o@),
                None => None,
            },
        }
    }
}

impl StateView {
    /// The grid zone has its fixed shape: three rows of three cells.
    pub open spec fn grid_wf(self) -> bool {
        &&& self.board.len() == 3
        &&& forall|r: int| 0 <= r < 3 ==> (#[trigger] self.board[r]).len() == 3
    }

    /// No two players share an identifier.
    pub open spec fn distinct_ids(self) -> bool {
        forall|i: int, j: int|
            #![trigger self.players[i], self.players[j]]
            0 <= i < j < self.players.len() ==> self.players[i].id != self.players[j].id
    }

    /// No two players share a mark.
    pub open spec fn distinct_marks(self) -> bool {
        forall|i: int, j: int|
            #![trigger self.players[i], self.players[j]]
            0 <= i < j < self.players.len() ==> self.players[i].mark != self.players[j].mark
    }

    /// The turn pointer names an enrolled player.
    pub open spec fn turn_enrolled(self) -> bool {
        exists|i: int|
            0 <= i < self.players.len() && (#[trigger] self.players[i]).id == self.turn
    }

    /// Well-formedness: the invariant every document owned by a session keeps.
    pub open spec fn wf(self) -> bool {
        &&& self.grid_wf()
        &&& self.players.len() >= 1
        &&& self.distinct_ids()
        &&& self.distinct_marks()
        &&& self.turn_enrolled()
    }

    /// Seat index of the player the turn pointer names.
    pub open spec fn turn_index(self) -> int {
        choose|i: int|
            0 <= i < self.players.len() && (#[trigger] self.players[i]).id == self.turn
    }

    /// Seat index of the player whose turn comes next, by rotation.
    pub open spec fn next_index(self) -> int {
        (self.turn_index() + 1) % (self.players.len() as int)
    }

    /// Mark bound to the player currently on turn.
    pub open spec fn turn_mark(self) -> Seq<char> {
        self.players[self.turn_index()].mark
    }

    /// Identifier of the player whose turn comes next.
    pub open spec fn next_turn_id(self) -> Seq<char> {
        self.players[self.next_index()].id
    }

    /// Contents of one board cell.
    pub open spec fn cell(self, r: int, c: int) -> Option<Seq<char>> {
        self.board[r][c]
    }

    /// The turn index is the only seat whose identifier matches the pointer.
    pub proof fn lemma_turn_index_unique(self, i: int)
        requires
            self.wf(),
            0 <= i < self.players.len(),
            self.players[i].id == self.turn,
        ensures
            self.turn_index() == i,
    {
        let t = self.turn_index();
        assert(0 <= t < self.players.len() && self.players[t].id == self.turn);
        if t != i {
            if t < i {
                assert(self.players[t].id != self.players[i].id);
            } else {
                assert(self.players[i].id != self.players[t].id);
            }
        }
    }
}

/// What the document of a fresh round looks like: an empty 3 x 3 board, the
/// two players of the reference game with their bound marks, and the first
/// player on turn.
pub open spec fn is_initial_state(s: StateView) -> bool {
    &&& s.wf()
    &&& s.players.len() == 2
    &&& s.players[0].id == "p1"@
    &&& s.players[0].mark == "mark_x"@
    &&& s.players[1].id == "p2"@
    &&& s.players[1].mark == "mark_o"@
    &&& s.turn == "p1"@
    &&& s.outcome is None
    &&& forall|r: int, c: int| 0 <= r < 3 && 0 <= c < 3 ==> s.cell(r, c) is None
}

/// A copy of one board row, cell by cell.
pub fn copy_row(row: &Vec<Option<String>>) -> (r: Vec<Option<String>>)
    ensures
        row_view_of(r@) == row_view_of(row@),
{
    let mut r: Vec<Option<String>> = Vec::new();
    let mut j: usize = 0;
    while j < row.len()
        invariant
            j <= row@.len(),
            r@.len() == j,
            forall|c: int| 0 <= c < j ==> row_view_of(r@)[c] == row_view_of(row@)[c],
        decreases row@.len() - j,
    {
        match &row[j] {
            Some(m) => r.push(Some(m.clone())),
            None => r.push(None),
        }
        j += 1;
    }
    proof {
        assert(row_view_of(r@) =~= row_view_of(row@));
    }
    r
}

/// A copy of the whole board, row by row.
pub fn copy_grid(b: &Vec<Vec<Option<String>>>) -> (g: Vec<Vec<Option<String>>>)
    ensures
        grid_view_of(g@) == grid_view_of(b@),
{
    let mut g: Vec<Vec<Option<String>>> = Vec::new();
    let mut i: usize = 0;
    while i < b.len()
        invariant
            i <= b@.len(),
            g@.len() == i,
            forall|r: int| 0 <= r < i ==> grid_view_of(g@)[r] == grid_view_of(b@)[r],
        decreases b@.len() - i,
    {
        g.push(copy_row(&b[i]));
        i += 1;
    }
    proof {
        assert(grid_view_of(g@) =~= grid_view_of(b@));
    }
    g
}

/// A copy of the player table.
pub fn copy_players(ps: &Vec<Player>) -> (r: Vec<Player>)
    ensures
        r@.map_values(|p: Player| p@) == ps@.map_values(|p: Player| p@),
{
    let mut r: Vec<Player> = Vec::new();
    let mut i: usize = 0;
    while i < ps.len()
        invariant
            i <= ps@.len(),
            r@.len() == i,
            forall|k: int| 0 <= k < i ==> (#[trigger] r@[k])@ == ps@[k]@,
        decreases ps@.len() - i,
    {
        let p = Player { id: ps[i].id.clone(), mark: ps[i].mark.clone() };
        r.push(p);
        i += 1;
    }
    proof {
        assert(r@.map_values(|p: Player| p@) =~= ps@.map_values(|p: Player| p@));
    }
    r
}

impl StateDoc {
    /// A fresh, empty board row.
    fn empty_row() -> (row: Vec<Option<String>>)
        ensures
            row@.len() == 3,
            forall|c: int| 0 <= c < 3 ==> row@[c] is None,
    {
        let mut row: Vec<Option<String>> = Vec::new();
        row.push(None);
        row.push(None);
        row.push(None);
        row
    }

    /// The initial document of a fresh round: an empty 3 x 3 board, two
    /// players with the marks the reference game binds, and the first player
    /// on turn.
    pub fn initial() -> (s: StateDoc)
        ensures
            is_initial_state(s@),
    {
        let mut board: Vec<Vec<Option<String>>> = Vec::new();
        board.push(Self::empty_row());
        board.push(Self::empty_row());
        board.push(Self::empty_row());
        let mut players: Vec<Player> = Vec::new();
        players.push(
            Player { id: String::from_str("p1"), mark: String::from_str("mark_x") },
        );
        players.push(
            Player { id: String::from_str("p2"), mark: String::from_str("mark_o") },
        );
        let s = StateDoc {
            board,
            players,
            turn: String::from_str("p1"),
            outcome: None,
        };
        proof {
            reveal_strlit("p1");
            reveal_strlit("p2");
            reveal_strlit("mark_x");
            reveal_strlit("mark_o");
            assert("p1"@[1] != "p2"@[1]);
            assert("mark_x"@[5] != "mark_o"@[5]);
            assert(s@.players[0].id == "p1"@);
            assert(s@.players[1].id == "p2"@);
            assert(s@.players[0].id != s@.players[1].id);
            assert(s@.players[0].mark != s@.players[1].mark);
            assert(s@.players[0].id == s@.turn);
        }
        s
    }

    /// A full copy of the document at a point in time, safe to hand to a
    /// newly attached client while the session keeps mutating the original.
    pub fn snapshot(&self) -> (s: StateDoc)
        ensures
            s@ == self@,
    {
        let s = StateDoc {
            board: copy_grid(&self.board),
            players: copy_players(&self.players),
            turn: self.turn.clone(),
            outcome: match &self.outcome {
                Some(o) => Some(o.clone()),
                None => None,
            },
        };
        proof {
            assert(s@ =~~= self@);
        }
        s
    }
}

} // verus!
