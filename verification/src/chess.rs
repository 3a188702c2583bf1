//! Squares, positions and moves, as far as a request speaks of them.
//!
//! Notation is read by `shakmaty`. Positions stay in its own `Fen` type and
//! are carried through untouched; squares and moves are brought down to
//! board indices, on which the rest of the crate works.
use shakmaty::fen::Fen;
use shakmaty::uci::UciMove;
use vstd::prelude::*;

verus! {

#[verifier::external_type_specification]
#[verifier::external_body]
pub struct ExFen(shakmaty::fen::Fen);

/// The position that `shakmaty` reads from a text in Forsyth-Edwards
/// notation, or `None` where it rejects the text.
pub uninterp spec fn fen_of(text: Seq<char>) -> Option<Fen>;

/// Index of the square on which the king of the side to move stands in a
/// position, or `None` where that side has no king, or more than one.
pub uninterp spec fn king_to_move(position: Fen) -> Option<u8>;

/// Indices of the squares that a move in UCI notation leaves and reaches, or
/// `None` where `shakmaty` rejects the text. A drop reaches a square and
/// leaves none; the null move does neither.
pub uninterp spec fn uci_squares(text: Seq<char>) -> Option<(Option<u8>, Option<u8>)>;

/// The standard starting position in Forsyth-Edwards notation.
pub open spec fn spec_start_fen() -> Seq<char> {
    "rnbqkbnr/pppppppp/8/8/8/8/PPPPPPPP/RNBQKBNR w KQkq - 0 1"@
}

/// Index of the square that a name denotes: a file letter from `a` to `h`
/// followed by a rank digit from `1` to `8`, files counted first.
pub open spec fn spec_square_name(name: Seq<char>) -> Option<u8> {
    if name.len() == 2 && 'a' <= name[0] <= 'h' && '1' <= name[1] <= '8' {
        Some(((name[0] as int - 'a' as int) + 8 * (name[1] as int - '1' as int)) as u8)
    } else {
        None
    }
}

/// `Square::from_str` of `shakmaty`, with the square given as its index.
/// Claims that exactly the two-character lowercase names are accepted, and
/// that the index is the file plus eight times the rank.
#[verifier::external_body]
fn square_index_of_name(name: &str) -> (r: Option<u8>)
    ensures
        r == spec_square_name(name@),
{
    name.parse::<shakmaty::Square>().ok().map(u8::from)
}

/// `Fen::from_str` of `shakmaty`. Claims only that the outcome is a function
/// of the text.
#[verifier::external_body]
pub(crate) fn fen_from_text(text: &str) -> (r: Option<Fen>)
    ensures
        r == fen_of(text@),
{
    text.parse::<Fen>().ok()
}

/// `Fen::default` of `shakmaty`. Claims that it is the position read from
/// the standard starting position's notation.
#[verifier::external_body]
pub(crate) fn fen_start() -> (r: Fen)
    ensures
        Some(r) == fen_of(spec_start_fen()),
{
    Fen::default()
}

/// `Board::king_of` of `shakmaty`, asked for the side to move. Claims that
/// the outcome is a function of the position and that a square's index is
/// below 64.
#[verifier::external_body]
fn king_index(position: &Fen) -> (r: Option<u8>)
    ensures
        r == king_to_move(*position),
        r matches Some(index) ==> index < 64,
{
    position.0.board.king_of(position.0.turn).map(u8::from)
}

/// `UciMove::from_str` of `shakmaty`, with the squares given as indices.
/// Claims that the outcome is a function of the text, that indices are below
/// 64, and that a move that leaves a square also reaches one.
#[verifier::external_body]
fn uci_indices(text: &str) -> (r: Option<(Option<u8>, Option<u8>)>)
    ensures
        r == uci_squares(text@),
        r matches Some((from, to)) ==> {
            &&& from matches Some(index) ==> index < 64
            &&& to matches Some(index) ==> index < 64
            &&& from is Some ==> to is Some
        },
{
    match text.parse::<UciMove>() {
        Ok(UciMove::Normal { from, to, .. }) => Some((Some(u8::from(from)), Some(u8::from(to)))),
        Ok(UciMove::Put { to, .. }) => Some((None, Some(u8::from(to)))),
        Ok(UciMove::Null) => Some((None, None)),
        Err(_) => None,
    }
}

/// A square of the board.
#[derive(Debug, Copy, Clone, PartialEq, Eq, Structural)]
pub struct Square {
    index: u8,
}

impl Square {
    #[verifier::type_invariant]
    spec fn inv(self) -> bool {
        self.index < 64
    }

    /// Index of the square: files counted first, from a1 at 0 to h8 at 63.
    /// It is taken modulo 64, so that it lies on the board for every value
    /// of the type and not only for those that were built here.
    pub closed spec fn spec_index(self) -> int {
        (self.index % 64) as int
    }

    /// Index of the file, from 0 for the a-file to 7 for the h-file.
    pub open spec fn spec_file(self) -> int {
        self.spec_index() % 8
    }

    /// Index of the rank, from 0 for the first rank to 7 for the eighth.
    pub open spec fn spec_rank(self) -> int {
        self.spec_index() / 8
    }

    /// Every square lies on the board.
    pub proof fn lemma_on_board(self)
        ensures
            0 <= self.spec_index() < 64,
            0 <= self.spec_file() < 8,
            0 <= self.spec_rank() < 8,
    {
    }

    pub fn new(index: u8) -> (r: Option<Square>)
        ensures
            r is Some <==> index < 64,
            r matches Some(square) ==> square.spec_index() == index,
    {
        if index < 64 {
            Some(Square { index })
        } else {
            None
        }
    }

    pub fn from_coords(file: u8, rank: u8) -> (r: Option<Square>)
        ensures
            r is Some <==> file < 8 && rank < 8,
            r matches Some(square) ==> square.spec_file() == file && square.spec_rank() == rank,
    {
        if file < 8 && rank < 8 {
            Some(Square { index: rank * 8 + file })
        } else {
            None
        }
    }

    pub fn index(self) -> (r: u8)
        ensures
            r == self.spec_index(),
            r < 64,
    {
        proof {
            use_type_invariant(self);
        }
        self.index
    }

    pub fn file(self) -> (r: u8)
        ensures
            r == self.spec_file(),
            r < 8,
    {
        proof {
            use_type_invariant(self);
        }
        self.index % 8
    }

    pub fn rank(self) -> (r: u8)
        ensures
            r == self.spec_rank(),
            r < 8,
    {
        proof {
            use_type_invariant(self);
        }
        self.index / 8
    }

    /// Reads a square from its name.
    pub fn parse(name: &str) -> (r: Option<Square>)
        ensures
            r is Some <==> spec_square_name(name@) is Some,
            r matches Some(square) ==> square.spec_index() == spec_square_name(name@).unwrap(),
    {
        match square_index_of_name(name) {
            Some(index) => {
                assert(index < 64) by {
                    let s = name@;
                    assert(0 <= s[0] as int - 'a' as int <= 7);
                    assert(0 <= s[1] as int - '1' as int <= 7);
                }
                Square::new(index)
            },
            None => None,
        }
    }
}

/// The square that a king-square query gave, if it gave one.
pub fn square_of_index(index: Option<u8>) -> (r: Option<Square>)
    ensures
        r is Some <==> (index matches Some(i) && i < 64),
        r matches Some(square) ==> square.spec_index() == index.unwrap(),
{
    match index {
        Some(i) => Square::new(i),
        None => None,
    }
}

/// The square of the king of the side to move, where it has exactly one.
pub fn king_square(position: &Fen) -> (r: Option<Square>)
    ensures
        r is Some <==> king_to_move(*position) is Some,
        r matches Some(square) ==> square.spec_index() == king_to_move(*position).unwrap(),
{
    square_of_index(king_index(position))
}

/// An index that may be absent, as an integer that may be absent.
pub open spec fn spec_widen(index: Option<u8>) -> Option<int> {
    match index {
        Some(i) => Some(i as int),
        None => None,
    }
}

/// The squares that a move marks on the board.
#[derive(Debug, Copy, Clone, PartialEq, Eq, Structural)]
pub enum LastMove {
    /// A piece went from one square to another.
    Normal { from: Square, to: Square },
    /// A piece was dropped on a square.
    Put { to: Square },
    /// The null move, which marks nothing.
    Null,
}

impl LastMove {
    /// Index of the square that the move leaves, if it leaves one.
    pub open spec fn spec_from(self) -> Option<int> {
        match self {
            LastMove::Normal { from, to } => Some(from.spec_index()),
            _ => None,
        }
    }

    /// Index of the square that the move reaches, if it reaches one.
    pub open spec fn spec_to(self) -> Option<int> {
        match self {
            LastMove::Normal { from, to } => Some(to.spec_index()),
            LastMove::Put { to } => Some(to.spec_index()),
            LastMove::Null => None,
        }
    }

    /// Whether the move marks the squares of the given indices, and no other.
    pub open spec fn spec_marks(self, squares: (Option<u8>, Option<u8>)) -> bool {
        &&& self.spec_from() == spec_widen(squares.0)
        &&& self.spec_to() == spec_widen(squares.1)
    }

    /// The move that marks the squares of the given indices. There is none
    /// for an index off the board, nor for a move that leaves a square and
    /// reaches none.
    pub fn from_indices(squares: (Option<u8>, Option<u8>)) -> (r: Option<LastMove>)
        ensures
            r is Some <==> {
                &&& squares.0 matches Some(index) ==> index < 64 && squares.1 is Some
                &&& squares.1 matches Some(index) ==> index < 64
            },
            r matches Some(m) ==> m.spec_marks(squares),
    {
        match squares {
            (Some(from), Some(to)) => match (Square::new(from), Square::new(to)) {
                (Some(from), Some(to)) => Some(LastMove::Normal { from, to }),
                _ => None,
            },
            (None, Some(to)) => match Square::new(to) {
                Some(to) => Some(LastMove::Put { to }),
                None => None,
            },
            (Some(_), None) => None,
            (None, None) => Some(LastMove::Null),
        }
    }

    /// Reads a move from UCI notation.
    pub fn parse(text: &str) -> (r: Option<LastMove>)
        ensures
            r is Some <==> uci_squares(text@) is Some,
            r matches Some(m) ==> m.spec_marks(uci_squares(text@).unwrap()),
    {
        match uci_indices(text) {
            Some(squares) => LastMove::from_indices(squares),
            None => None,
        }
    }
}

} // verus!
