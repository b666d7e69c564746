use vstd::prelude::*;

verus! {

/// A player's mark: `O` or `X`.
#[derive(Debug, Clone, Copy, PartialEq, Eq, Structural)]
pub enum Sign {
    O,
    X,
}

impl Sign {
    /// The other player's sign.
    pub open spec fn flip(self) -> Sign {
        match self {
            Sign::O => Sign::X,
            Sign::X => Sign::O,
        }
    }

    /// The other player's sign, for alternating turns.
    pub fn other(&self) -> (r: Sign)
        ensures
            r == self.flip(),
    {
        match self {
            Sign::O => Sign::X,
            Sign::X => Sign::O,
        }
    }

    /// The one-character label of this sign, for display by a front end.
    pub fn label(&self) -> (r: &'static str)
        ensures
            self is O ==> r@ == "O"@,
            self is X ==> r@ == "X"@,
    {
        match self {
            Sign::O => "O",
            Sign::X => "X",
        }
    }
}

/// The state of a single cell: empty, or marked once with a sign.
#[derive(Debug, Clone, Copy, PartialEq, Eq, Structural)]
pub enum TileState {
    Marked(Sign),
    Empty,
}

/// The classification of a board: still playable, full without a winner,
/// or won by one sign.
#[derive(Debug, Clone, Copy, PartialEq, Eq, Structural)]
pub enum GameState {
    NotOver,
    Full,
    Won(Sign),
}

/// Cell `i` (1-based, `1 <= i <= 9`) of board `b` holds the mark `s`.
pub open spec fn cell_marked(b: Seq<TileState>, i: int, s: Sign) -> bool {
    b[i - 1] == TileState::Marked(s)
}

/// The eight winning lines, as triples of 1-based cell indices:
/// three rows, three columns, two diagonals.
pub open spec fn triple(k: int) -> (int, int, int) {
    if k == 0 {
        (1, 2, 3)
    } else if k == 1 {
        (4, 5, 6)
    } else if k == 2 {
        (7, 8, 9)
    } else if k == 3 {
        (1, 4, 7)
    } else if k == 4 {
        (2, 5, 8)
    } else if k == 5 {
        (3, 6, 9)
    } else if k == 6 {
        (1, 5, 9)
    } else {
        (3, 5, 7)
    }
}

/// All three cells of winning line `k` hold the mark `s`.
pub open spec fn triple_marked(b: Seq<TileState>, k: int, s: Sign) -> bool {
    &&& cell_marked(b, triple(k).0, s)
    &&& cell_marked(b, triple(k).1, s)
    &&& cell_marked(b, triple(k).2, s)
}

/// Sign `s` wins on board `b`: some winning line is uniformly marked with `s`.
pub open spec fn wins(b: Seq<TileState>, s: Sign) -> bool {
    exists|k: int| 0 <= k < 8 && #[trigger] triple_marked(b, k, s)
}

/// Every cell of board `b` is marked.
pub open spec fn full(b: Seq<TileState>) -> bool {
    forall|i: int| 0 <= i < 9 ==> #[trigger] b[i] is Marked
}

/// The 3-by-3 grid: nine cells, addressed by the 1-based indices 1 through 9.
#[derive(Debug)]
pub struct Board {
    tiles: Vec<TileState>,
}

impl View for Board {
    type V = Seq<TileState>;

    closed spec fn view(&self) -> Seq<TileState> {
        self.tiles@
    }
}

impl Board {
    /// A board always holds exactly nine cells.
    pub open spec fn wf(&self) -> bool {
        self@.len() == 9
    }

    /// A fresh board: all nine cells empty.
    pub fn new() -> (r: Board)
        ensures
            r.wf(),
            forall|i: int| 0 <= i < 9 ==> #[trigger] r@[i] is Empty,
    {
        let mut tiles: Vec<TileState> = Vec::new();
        let mut i: usize = 0;
        while i < 9
            invariant
                i <= 9,
                tiles@.len() == i,
                forall|j: int| 0 <= j < i ==> #[trigger] tiles@[j] is Empty,
            decreases 9 - i,
        {
            tiles.push(TileState::Empty);
            i = i + 1;
        }
        Board { tiles }
    }

    /// A board read from a nine-character picture, cell 1 first:
    /// `'O'` and `'X'` are marks, `' '` is an empty cell.
    pub fn from_str(sequence: &str) -> (r: Board)
        requires
            sequence@.len() == 9,
            forall|i: int|
                0 <= i < 9 ==> (#[trigger] sequence@[i] == 'O' || sequence@[i] == 'X'
                    || sequence@[i] == ' '),
        ensures
            r.wf(),
            forall|i: int| 0 <= i < 9 ==> #[trigger] r@[i] == tile_of_char(sequence@[i]),
    {
        let mut tiles: Vec<TileState> = Vec::new();
        let mut i: usize = 0;
        while i < 9
            invariant
                sequence@.len() == 9,
                i <= 9,
                tiles@.len() == i,
                forall|j: int| 0 <= j < i ==> #[trigger] tiles@[j] == tile_of_char(sequence@[j]),
            decreases 9 - i,
        {
            let c = sequence.get_char(i);
            let t = if c == 'O' {
                TileState::Marked(Sign::O)
            } else if c == 'X' {
                TileState::Marked(Sign::X)
            } else {
                TileState::Empty
            };
            tiles.push(t);
            i = i + 1;
        }
        Board { tiles }
    }

    /// The state of cell `index` (1-based).
    pub fn get_tile(&self, index: u8) -> (r: TileState)
        requires
            self.wf(),
            1 <= index <= 9,
        ensures
            r == self@[index - 1],
    {
        self.tiles[(index - 1) as usize]
    }

    /// Mark cell `index` with `sign`. Succeeds exactly when the cell is still
    /// empty; an occupied cell is reported as an error and the board is left
    /// unchanged. Cells never return to empty.
    pub fn set_tile(&mut self, index: u8, sign: Sign) -> (r: Result<u8, &'static str>)
        requires
            old(self).wf(),
            1 <= index <= 9,
        ensures
            final(self).wf(),
            old(self)@[index - 1] is Empty ==> r == Ok::<u8, &'static str>(index) && final(self)@
                == old(self)@.update(index - 1, TileState::Marked(sign)),
            old(self)@[index - 1] is Marked ==> final(self)@ == old(self)@ && (r matches Err(m)
                && m@ == "This tile is already marked. Please try another tile"@),
    {
        let i = (index - 1) as usize;
        match self.tiles[i] {
            TileState::Empty => {
                self.tiles.set(i, TileState::Marked(sign));
                Ok(index)
            },
            TileState::Marked(_) => Err("This tile is already marked. Please try another tile"),
        }
    }

    /// Every cell is marked.
    pub fn is_full(&self) -> (r: bool)
        requires
            self.wf(),
        ensures
            r == full(self@),
    {
        let mut i: usize = 0;
        while i < 9
            invariant
                self.wf(),
                i <= 9,
                forall|j: int| 0 <= j < i ==> #[trigger] self@[j] is Marked,
            decreases 9 - i,
        {
            match self.tiles[i] {
                TileState::Empty => {
                    return false;
                },
                TileState::Marked(_) => {},
            }
            i = i + 1;
        }
        true
    }

    /// The three cells `a`, `b`, `c` all hold one sign: that sign; else nothing.
    fn check_triple(&self, a: u8, b: u8, c: u8) -> (r: Option<Sign>)
        requires
            self.wf(),
            1 <= a <= 9,
            1 <= b <= 9,
            1 <= c <= 9,
        ensures
            match r {
                Some(s) => cell_marked(self@, a as int, s) && cell_marked(self@, b as int, s)
                    && cell_marked(self@, c as int, s),
                None => forall|s: Sign|
                    !(cell_marked(self@, a as int, s) && cell_marked(self@, b as int, s)
                        && #[trigger] cell_marked(self@, c as int, s)),
            },
    {
        let ta = self.tiles[(a - 1) as usize];
        let tb = self.tiles[(b - 1) as usize];
        let tc = self.tiles[(c - 1) as usize];
        match (ta, tb, tc) {
            (TileState::Marked(s1), TileState::Marked(s2), TileState::Marked(s3)) => {
                if s1 == s2 && s2 == s3 {
                    Some(s1)
                } else {
                    None
                }
            },
            _ => None,
        }
    }

    /// The winner, if some winning line is uniformly marked. When both signs
    /// hold a winning line (which alternating play never produces), one of
    /// the two winning signs is returned.
    pub fn get_winner(&self) -> (r: Option<Sign>)
        requires
            self.wf(),
        ensures
            match r {
                Some(s) => wins(self@, s),
                None => !wins(self@, Sign::O) && !wins(self@, Sign::X),
            },
    {
        if let Some(s) = self.check_triple(1, 2, 3) {
            assert(triple_marked(self@, 0, s));
            return Some(s);
        }
        if let Some(s) = self.check_triple(4, 5, 6) {
            assert(triple_marked(self@, 1, s));
            return Some(s);
        }
        if let Some(s) = self.check_triple(7, 8, 9) {
            assert(triple_marked(self@, 2, s));
            return Some(s);
        }
        if let Some(s) = self.check_triple(1, 4, 7) {
            assert(triple_marked(self@, 3, s));
            return Some(s);
        }
        if let Some(s) = self.check_triple(2, 5, 8) {
            assert(triple_marked(self@, 4, s));
            return Some(s);
        }
        if let Some(s) = self.check_triple(3, 6, 9) {
            assert(triple_marked(self@, 5, s));
            return Some(s);
        }
        if let Some(s) = self.check_triple(1, 5, 9) {
            assert(triple_marked(self@, 6, s));
            return Some(s);
        }
        if let Some(s) = self.check_triple(3, 5, 7) {
            assert(triple_marked(self@, 7, s));
            return Some(s);
        }
        assert forall|s: Sign| !wins(self@, s) by {
            assert forall|k: int| 0 <= k < 8 implies !triple_marked(self@, k, s) by {
                assert(1 <= triple(k).2 <= 9);
            }
        }
        None
    }

    /// The classification of this board: won if some sign holds a winning
    /// line (checked before fullness, so a winning final move is reported as
    /// won, not full), else full if every cell is marked, else not over.
    pub fn get_game_state(&self) -> (r: GameState)
        requires
            self.wf(),
        ensures
            match r {
                GameState::Won(s) => wins(self@, s),
                GameState::Full => full(self@) && !wins(self@, Sign::O) && !wins(self@, Sign::X),
                GameState::NotOver => !full(self@) && !wins(self@, Sign::O) && !wins(
                    self@,
                    Sign::X,
                ),
            },
    {
        if let Some(winner) = self.get_winner() {
            GameState::Won(winner)
        } else if self.is_full() {
            GameState::Full
        } else {
            GameState::NotOver
        }
    }
}

/// A board with every cell empty has no winner and is not full: a fresh
/// game is always classified as not over.
pub proof fn lemma_fresh_board(b: Seq<TileState>)
    requires
        b.len() == 9,
        forall|i: int| 0 <= i < 9 ==> #[trigger] b[i] is Empty,
    ensures
        !full(b),
        !wins(b, Sign::O),
        !wins(b, Sign::X),
{
    assert(!(b[0] is Marked));
    assert forall|k: int, s: Sign| 0 <= k < 8 implies !triple_marked(b, k, s) by {
        assert(1 <= triple(k).0 <= 9);
        assert(b[triple(k).0 - 1] is Empty);
    }
}

/// Marking all three cells of any one of the eight winning lines with sign
/// `s` makes `s` a winner, whatever the other cells hold.
pub proof fn lemma_triple_win(b: Seq<TileState>, k: int, s: Sign)
    requires
        b.len() == 9,
        0 <= k < 8,
        triple_marked(b, k, s),
    ensures
        wins(b, s),
{
}

/// When one sign wins and the other does not, the winner is unique: any
/// winning sign is that one. (When both signs hold winning lines at once —
/// which alternating single-mark play never produces — either may be
/// reported, so uniqueness is stated only away from that case.)
pub proof fn lemma_sole_winner(b: Seq<TileState>, s: Sign)
    requires
        wins(b, s),
        !wins(b, s.flip()),
    ensures
        forall|w: Sign| #[trigger] wins(b, w) ==> w == s,
{
    assert forall|w: Sign| #[trigger] wins(b, w) implies w == s by {
        if w != s {
            assert(w == s.flip());
        }
    }
}

/// A board whose nine cells are all marked, with no winning line uniformly
/// marked, is a draw: it is full and neither sign wins.
pub proof fn lemma_draw(b: Seq<TileState>)
    requires
        b.len() == 9,
        forall|i: int| 0 <= i < 9 ==> #[trigger] b[i] is Marked,
        forall|k: int, s: Sign| 0 <= k < 8 ==> !#[trigger] triple_marked(b, k, s),
    ensures
        full(b),
        !wins(b, Sign::O),
        !wins(b, Sign::X),
{
}

/// The board tile denoted by one character of a board picture.
pub open spec fn tile_of_char(c: char) -> TileState {
    if c == 'O' {
        TileState::Marked(Sign::O)
    } else if c == 'X' {
        TileState::Marked(Sign::X)
    } else {
        TileState::Empty
    }
}

} // verus!
