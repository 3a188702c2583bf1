//! The request model: what a client may ask for, and how each field of
//! untrusted input is read into it.
use crate::assets::{text_eq, BoardTheme, PieceSet};
use crate::chess::{
    fen_from_text, fen_of, fen_start, king_square, king_to_move, spec_square_name,
    spec_start_fen, spec_widen, uci_squares, LastMove, Square,
};
use shakmaty::fen::Fen;
use vstd::prelude::*;
use vstd::string::StrSliceExecFns;

verus! {

/// Longest player name, in characters.
pub const PLAYER_NAME_MAX: usize = 100;

/// Longest date, in characters.
pub const DATE_MAX: usize = 10;

/// Longest comment, in characters.
pub const COMMENT_MAX: usize = 255;

/// Why a field of a request was refused.
#[derive(Debug, Copy, Clone, PartialEq, Eq, Structural)]
pub enum ErrorKind {
    /// A text is longer than its field allows.
    TooLong,
    /// A position is not in Forsyth-Edwards notation.
    InvalidFen,
    /// A move is not in UCI notation.
    InvalidMove,
    /// A text is neither a boolean token nor the name of a square.
    InvalidSquareName,
    /// A value is neither a text nor a boolean.
    ExpectedSquareOrBool,
    /// A value is neither a boolean token nor a boolean.
    InvalidCoordinates,
    /// A text names neither side.
    InvalidOrientation,
    /// A text names no board theme.
    InvalidTheme,
    /// A text names no piece set.
    InvalidPieceSet,
    /// An animation has no frame.
    NoFrames,
}

impl ErrorKind {
    pub open spec fn spec_message(self) -> Seq<char> {
        match self {
            ErrorKind::TooLong => "text too long"@,
            ErrorKind::InvalidFen => "invalid fen"@,
            ErrorKind::InvalidMove => "invalid uci move"@,
            ErrorKind::InvalidSquareName => "invalid square name"@,
            ErrorKind::ExpectedSquareOrBool => "expected square name or boolean"@,
            ErrorKind::InvalidCoordinates => "invalid coordinates value"@,
            ErrorKind::InvalidOrientation => "invalid orientation"@,
            ErrorKind::InvalidTheme => "invalid theme"@,
            ErrorKind::InvalidPieceSet => "invalid piece set"@,
            ErrorKind::NoFrames => "no frames"@,
        }
    }

    /// The words in which the refusal is reported.
    pub fn message(self) -> (r: &'static str)
        ensures
            r@ == self.spec_message(),
    {
        match self {
            ErrorKind::TooLong => "text too long",
            ErrorKind::InvalidFen => "invalid fen",
            ErrorKind::InvalidMove => "invalid uci move",
            ErrorKind::InvalidSquareName => "invalid square name",
            ErrorKind::ExpectedSquareOrBool => "expected square name or boolean",
            ErrorKind::InvalidCoordinates => "invalid coordinates value",
            ErrorKind::InvalidOrientation => "invalid orientation",
            ErrorKind::InvalidTheme => "invalid theme",
            ErrorKind::InvalidPieceSet => "invalid piece set",
            ErrorKind::NoFrames => "no frames",
        }
    }
}

/// The fields of a request.
#[derive(Debug, Copy, Clone, PartialEq, Eq, Structural)]
pub enum Field {
    White,
    Black,
    Date,
    Comment,
    Fen,
    LastMove,
    Check,
    Orientation,
    Theme,
    Piece,
    Coordinates,
    Frames,
}

impl Field {
    pub open spec fn spec_name(self) -> Seq<char> {
        match self {
            Field::White => "white"@,
            Field::Black => "black"@,
            Field::Date => "date"@,
            Field::Comment => "comment"@,
            Field::Fen => "fen"@,
            Field::LastMove => "lastMove"@,
            Field::Check => "check"@,
            Field::Orientation => "orientation"@,
            Field::Theme => "theme"@,
            Field::Piece => "piece"@,
            Field::Coordinates => "coordinates"@,
            Field::Frames => "frames"@,
        }
    }

    /// The name under which clients send the field.
    pub fn name(self) -> (r: &'static str)
        ensures
            r@ == self.spec_name(),
    {
        match self {
            Field::White => "white",
            Field::Black => "black",
            Field::Date => "date",
            Field::Comment => "comment",
            Field::Fen => "fen",
            Field::LastMove => "lastMove",
            Field::Check => "check",
            Field::Orientation => "orientation",
            Field::Theme => "theme",
            Field::Piece => "piece",
            Field::Coordinates => "coordinates",
            Field::Frames => "frames",
        }
    }
}

/// A refused request: the field at fault, the reason, and for a field of a
/// frame the frame's place in the animation.
#[derive(Debug, Copy, Clone, PartialEq, Eq, Structural)]
pub struct RequestError {
    pub field: Field,
    pub kind: ErrorKind,
    pub frame: Option<usize>,
}

/// A value of a field that takes a text or a boolean.
#[derive(Debug, Clone)]
pub enum Value {
    Text(String),
    Bool(bool),
    /// Anything else: a number, a list, a map, nothing.
    Other,
}

/// What a boolean token stands for.
pub open spec fn spec_bool_token(name: Seq<char>) -> Option<bool> {
    if name == "1"@ || name == "yes"@ || name == "true"@ {
        Some(true)
    } else if name == "0"@ || name == "no"@ || name == "false"@ {
        Some(false)
    } else {
        None
    }
}

/// Reads a boolean token.
pub fn bool_token(name: &str) -> (r: Option<bool>)
    ensures
        r == spec_bool_token(name@),
{
    if text_eq(name, "1") || text_eq(name, "yes") || text_eq(name, "true") {
        Some(true)
    } else if text_eq(name, "0") || text_eq(name, "no") || text_eq(name, "false") {
        Some(false)
    } else {
        None
    }
}

/// The side from which the board is seen.
#[derive(Debug, Copy, Clone, PartialEq, Eq, Structural)]
pub enum Orientation {
    White,
    Black,
}

impl Default for Orientation {
    fn default() -> (r: Orientation)
        ensures
            r == Orientation::White,
    {
        Orientation::White
    }
}

/// The point opposite to a point of the pixel grid, on both axes.
pub open spec fn spec_mirror(point: (int, int)) -> (int, int) {
    (7 - point.0, 7 - point.1)
}

impl Orientation {
    pub open spec fn spec_fold<T>(self, white: T, black: T) -> T {
        match self {
            Orientation::White => white,
            Orientation::Black => black,
        }
    }

    /// Column of a square on the pixel grid, counted from the left.
    pub open spec fn spec_x(self, square: Square) -> int {
        self.spec_fold(square.spec_file(), 7 - square.spec_file())
    }

    /// Row of a square on the pixel grid, counted from the top.
    pub open spec fn spec_y(self, square: Square) -> int {
        self.spec_fold(7 - square.spec_rank(), square.spec_rank())
    }

    pub open spec fn spec_project(self, square: Square) -> (int, int) {
        (self.spec_x(square), self.spec_y(square))
    }

    /// The side that a name selects, if any.
    pub open spec fn spec_parse(name: Seq<char>) -> Option<Orientation> {
        if name == "white"@ {
            Some(Orientation::White)
        } else if name == "black"@ {
            Some(Orientation::Black)
        } else {
            None
        }
    }

    /// The first value for White, the second for Black.
    pub fn fold<T>(self, white: T, black: T) -> (r: T)
        ensures
            r == self.spec_fold(white, black),
    {
        match self {
            Orientation::White => white,
            Orientation::Black => black,
        }
    }

    pub fn x(self, square: Square) -> (r: usize)
        ensures
            r == self.spec_x(square),
            r < 8,
    {
        let file: usize = square.file() as usize;
        self.fold(file, 7 - file)
    }

    pub fn y(self, square: Square) -> (r: usize)
        ensures
            r == self.spec_y(square),
            r < 8,
    {
        let rank: usize = square.rank() as usize;
        self.fold(7 - rank, rank)
    }

    /// Column and row of a square on the pixel grid.
    pub fn project(self, square: Square) -> (r: (usize, usize))
        ensures
            (r.0 as int, r.1 as int) == self.spec_project(square),
            r.0 < 8,
            r.1 < 8,
    {
        (self.x(square), self.y(square))
    }

    /// Reads a side from its name.
    pub fn parse(name: &str) -> (r: Option<Orientation>)
        ensures
            r == Self::spec_parse(name@),
    {
        if text_eq(name, "white") {
            Some(Orientation::White)
        } else if text_eq(name, "black") {
            Some(Orientation::Black)
        } else {
            None
        }
    }
}

/// Seen from Black, every square lies opposite to where it lies seen from
/// White, and the other way round; mirroring a point twice gives it back.
pub proof fn lemma_orientations_mirror(square: Square, point: (int, int))
    ensures
        Orientation::Black.spec_project(square) == spec_mirror(
            Orientation::White.spec_project(square),
        ),
        Orientation::White.spec_project(square) == spec_mirror(
            Orientation::Black.spec_project(square),
        ),
        spec_mirror(spec_mirror(point)) == point,
{
}

/// A text of at most `CAP` characters.
#[derive(Debug)]
pub struct BoundedText<const CAP: usize> {
    text: String,
}

pub type PlayerName = BoundedText<100>;

pub type Date = BoundedText<10>;

pub type Comment = BoundedText<255>;

impl<const CAP: usize> BoundedText<CAP> {
    #[verifier::type_invariant]
    spec fn inv(self) -> bool {
        self.text@.len() <= CAP
    }

    pub closed spec fn view(&self) -> Seq<char> {
        self.text@
    }

    /// Takes a text as it is, or refuses it where it is too long. Nothing is
    /// ever cut off.
    pub fn new(text: &str) -> (r: Option<Self>)
        ensures
            r is Some <==> text@.len() <= CAP,
            r matches Some(bounded) ==> bounded@ == text@,
    {
        if text.unicode_len() <= CAP {
            Some(BoundedText { text: text.to_owned() })
        } else {
            None
        }
    }

    pub fn as_str(&self) -> (r: &str)
        ensures
            r@ == self@,
            r@.len() <= CAP,
    {
        proof {
            use_type_invariant(self);
        }
        self.text.as_str()
    }
}

impl<const CAP: usize> Clone for BoundedText<CAP> {
    fn clone(&self) -> (r: Self)
        ensures
            r@ == self@,
    {
        proof {
            use_type_invariant(self);
        }
        BoundedText { text: self.text.clone() }
    }
}

/// Whether the coordinates are drawn along the edges of the board.
#[derive(Debug, Copy, Clone, PartialEq, Eq, Structural)]
pub enum Coordinates {
    No,
    Yes,
}

impl Default for Coordinates {
    fn default() -> (r: Coordinates)
        ensures
            r == Coordinates::Yes,
    {
        Coordinates::Yes
    }
}

impl Coordinates {
    pub open spec fn spec_from_bool(yes: bool) -> Coordinates {
        if yes {
            Coordinates::Yes
        } else {
            Coordinates::No
        }
    }

    /// What a text stands for: a boolean token, or nothing.
    pub open spec fn spec_from_text(name: Seq<char>) -> Result<Coordinates, ErrorKind> {
        match spec_bool_token(name) {
            Some(yes) => Ok(Self::spec_from_bool(yes)),
            None => Err(ErrorKind::InvalidCoordinates),
        }
    }

    /// What a value stands for.
    pub open spec fn spec_parse(value: Value) -> Result<Coordinates, ErrorKind> {
        match value {
            Value::Text(name) => Self::spec_from_text(name@),
            Value::Bool(yes) => Ok(Self::spec_from_bool(yes)),
            Value::Other => Err(ErrorKind::InvalidCoordinates),
        }
    }

    pub fn from_bool(yes: bool) -> (r: Coordinates)
        ensures
            r == Self::spec_from_bool(yes),
    {
        if yes {
            Coordinates::Yes
        } else {
            Coordinates::No
        }
    }

    pub fn from_text(name: &str) -> (r: Result<Coordinates, ErrorKind>)
        ensures
            r == Self::spec_from_text(name@),
    {
        match bool_token(name) {
            Some(yes) => Ok(Coordinates::from_bool(yes)),
            None => Err(ErrorKind::InvalidCoordinates),
        }
    }

    /// Reads the field from a text or a boolean.
    pub fn parse(value: &Value) -> (r: Result<Coordinates, ErrorKind>)
        ensures
            r == Self::spec_parse(*value),
    {
        match value {
            Value::Text(name) => Coordinates::from_text(name.as_str()),
            Value::Bool(yes) => Ok(Coordinates::from_bool(*yes)),
            Value::Other => Err(ErrorKind::InvalidCoordinates),
        }
    }
}

/// Which square, if any, is marked as being in check.
#[derive(Debug, Copy, Clone, PartialEq, Eq, Structural)]
pub enum CheckSquare {
    /// None.
    No,
    /// The square of the king of the side to move.
    Yes,
    /// This square, whatever stands on it.
    Square(Square),
}

impl Default for CheckSquare {
    fn default() -> (r: CheckSquare)
        ensures
            r == CheckSquare::No,
    {
        CheckSquare::No
    }
}

/// A check mark with its square given by index.
pub enum CheckMark {
    No,
    Yes,
    Square(int),
}

impl CheckSquare {
    pub open spec fn view(&self) -> CheckMark {
        match *self {
            CheckSquare::No => CheckMark::No,
            CheckSquare::Yes => CheckMark::Yes,
            CheckSquare::Square(square) => CheckMark::Square(square.spec_index()),
        }
    }

    pub open spec fn spec_from_bool(yes: bool) -> CheckMark {
        if yes {
            CheckMark::Yes
        } else {
            CheckMark::No
        }
    }

    /// What a text stands for: a boolean token, else the name of a square,
    /// else nothing.
    pub open spec fn spec_from_text(name: Seq<char>) -> Result<CheckMark, ErrorKind> {
        match spec_bool_token(name) {
            Some(yes) => Ok(Self::spec_from_bool(yes)),
            None => match spec_square_name(name) {
                Some(index) => Ok(CheckMark::Square(index as int)),
                None => Err(ErrorKind::InvalidSquareName),
            },
        }
    }

    /// What a value stands for.
    pub open spec fn spec_parse(value: Value) -> Result<CheckMark, ErrorKind> {
        match value {
            Value::Text(name) => Self::spec_from_text(name@),
            Value::Bool(yes) => Ok(Self::spec_from_bool(yes)),
            Value::Other => Err(ErrorKind::ExpectedSquareOrBool),
        }
    }

    /// Whether a result of reading is the one that the model gives.
    pub open spec fn spec_agrees(
        r: Result<CheckSquare, ErrorKind>,
        model: Result<CheckMark, ErrorKind>,
    ) -> bool {
        match r {
            Ok(check) => model == Ok::<CheckMark, ErrorKind>(check@),
            Err(kind) => model == Err::<CheckMark, ErrorKind>(kind),
        }
    }

    /// The index of the marked square, given that of the king of the side to
    /// move.
    pub open spec fn spec_resolve(self, king: Option<int>) -> Option<int> {
        match self {
            CheckSquare::No => None,
            CheckSquare::Yes => king,
            CheckSquare::Square(square) => Some(square.spec_index()),
        }
    }

    pub fn from_bool(yes: bool) -> (r: CheckSquare)
        ensures
            r@ == Self::spec_from_bool(yes),
    {
        if yes {
            CheckSquare::Yes
        } else {
            CheckSquare::No
        }
    }

    pub fn from_text(name: &str) -> (r: Result<CheckSquare, ErrorKind>)
        ensures
            Self::spec_agrees(r, Self::spec_from_text(name@)),
    {
        match bool_token(name) {
            Some(yes) => Ok(CheckSquare::from_bool(yes)),
            None => match Square::parse(name) {
                Some(square) => Ok(CheckSquare::Square(square)),
                None => Err(ErrorKind::InvalidSquareName),
            },
        }
    }

    /// Reads the field from a text or a boolean.
    pub fn parse(value: &Value) -> (r: Result<CheckSquare, ErrorKind>)
        ensures
            Self::spec_agrees(r, Self::spec_parse(*value)),
    {
        match value {
            Value::Text(name) => CheckSquare::from_text(name.as_str()),
            Value::Bool(yes) => Ok(CheckSquare::from_bool(*yes)),
            Value::Other => Err(ErrorKind::ExpectedSquareOrBool),
        }
    }

    /// The marked square, given the square of the king of the side to move.
    pub fn resolve(self, king: Option<Square>) -> (r: Option<Square>)
        ensures
            r == match self {
                CheckSquare::No => None,
                CheckSquare::Yes => king,
                CheckSquare::Square(square) => Some(square),
            },
    {
        match self {
            CheckSquare::No => None,
            CheckSquare::Yes => king,
            CheckSquare::Square(square) => Some(square),
        }
    }

    /// The marked square in a position. An explicit square is taken as it
    /// is; the position is asked only for the king of the side to move.
    pub fn to_square(self, position: &Fen) -> (r: Option<Square>)
        ensures
            spec_index_of(r) == self.spec_resolve(spec_widen(king_to_move(*position))),
            self is No ==> r is None,
            self matches CheckSquare::Square(square) ==> r == Some(square),
    {
        match self {
            CheckSquare::No => None,
            CheckSquare::Yes => king_square(position),
            CheckSquare::Square(square) => Some(square),
        }
    }
}

/// The index of a square that may be absent.
pub open spec fn spec_index_of(square: Option<Square>) -> Option<int> {
    match square {
        Some(square) => Some(square.spec_index()),
        None => None,
    }
}

/// The truthy tokens and `true` stand for one value, the falsy tokens and
/// `false` for the other, in both fields that take them; the coordinates
/// field takes no other text.
pub proof fn lemma_bool_tokens(name: Seq<char>)
    ensures
        name == "1"@ || name == "yes"@ || name == "true"@ ==> {
            &&& Coordinates::spec_from_text(name) == Ok::<Coordinates, ErrorKind>(
                Coordinates::spec_from_bool(true),
            )
            &&& CheckSquare::spec_from_text(name) == Ok::<CheckMark, ErrorKind>(
                CheckSquare::spec_from_bool(true),
            )
        },
        name == "0"@ || name == "no"@ || name == "false"@ ==> {
            &&& Coordinates::spec_from_text(name) == Ok::<Coordinates, ErrorKind>(
                Coordinates::spec_from_bool(false),
            )
            &&& CheckSquare::spec_from_text(name) == Ok::<CheckMark, ErrorKind>(
                CheckSquare::spec_from_bool(false),
            )
        },
        !(name == "1"@ || name == "yes"@ || name == "true"@ || name == "0"@ || name == "no"@
            || name == "false"@) ==> {
            &&& Coordinates::spec_from_text(name) == Err::<Coordinates, ErrorKind>(
                ErrorKind::InvalidCoordinates,
            )
            &&& CheckSquare::spec_from_text(name) is Ok ==> spec_square_name(name) is Some
        },
        Coordinates::spec_from_bool(true) != Coordinates::spec_from_bool(false),
        CheckSquare::spec_from_bool(true) != CheckSquare::spec_from_bool(false),
{
    reveal_strlit("1");
    reveal_strlit("yes");
    reveal_strlit("true");
    reveal_strlit("0");
    reveal_strlit("no");
    reveal_strlit("false");
}

/// A still request as the client sent it: every field optional, nothing
/// read yet.
#[derive(Debug, Clone, Default)]
pub struct RawParams {
    pub white: Option<String>,
    pub black: Option<String>,
    pub date: Option<String>,
    pub comment: Option<String>,
    pub fen: Option<String>,
    pub last_move: Option<String>,
    pub check: Option<Value>,
    pub orientation: Option<String>,
    pub theme: Option<String>,
    pub piece: Option<String>,
    pub coordinates: Option<Value>,
}

/// A frame of an animation as the client sent it.
#[derive(Debug, Clone, Default)]
pub struct RawFrame {
    pub fen: Option<String>,
    pub delay: Option<u16>,
    pub last_move: Option<String>,
    pub check: Option<Value>,
}

/// An animation request as the client sent it.
#[derive(Debug, Clone, Default)]
pub struct RawBody {
    pub white: Option<String>,
    pub black: Option<String>,
    pub date: Option<String>,
    pub comment: Option<String>,
    pub frames: Vec<RawFrame>,
    pub orientation: Option<String>,
    pub delay: Option<u16>,
    pub theme: Option<String>,
    pub piece: Option<String>,
    pub coordinates: Option<Value>,
}

/// A request for one still image.
#[derive(Debug)]
pub struct RequestParams {
    pub white: Option<PlayerName>,
    pub black: Option<PlayerName>,
    pub date: Option<Date>,
    pub comment: Option<Comment>,
    pub fen: Fen,
    pub last_move: Option<LastMove>,
    pub check: CheckSquare,
    pub orientation: Orientation,
    pub theme: BoardTheme,
    pub piece: PieceSet,
    pub coordinates: Coordinates,
}

/// One frame of an animation.
#[derive(Debug)]
pub struct RequestFrame {
    pub fen: Fen,
    pub delay: Option<u16>,
    pub last_move: Option<LastMove>,
    pub check: CheckSquare,
}

/// A request for an animation. It has at least one frame.
#[derive(Debug)]
pub struct RequestBody {
    pub white: Option<PlayerName>,
    pub black: Option<PlayerName>,
    pub date: Option<Date>,
    pub comment: Option<Comment>,
    pub frames: Vec<RequestFrame>,
    pub orientation: Orientation,
    pub delay: u16,
    pub theme: BoardTheme,
    pub piece: PieceSet,
    pub coordinates: Coordinates,
}

/// The characters of a text that may be absent.
pub open spec fn spec_raw_view(raw: Option<String>) -> Option<Seq<char>> {
    match raw {
        Some(text) => Some(text@),
        None => None,
    }
}

/// The characters of a bounded text that may be absent.
pub open spec fn spec_text_view<const CAP: usize>(text: Option<BoundedText<CAP>>) -> Option<
    Seq<char>,
> {
    match text {
        Some(text) => Some(text@),
        None => None,
    }
}

/// The reason for which a result of reading a field is a refusal, if it is.
pub open spec fn spec_refusal<T>(r: Result<T, ErrorKind>) -> Option<ErrorKind> {
    match r {
        Ok(_) => None,
        Err(kind) => Some(kind),
    }
}

/// A text field is refused where it is longer than its bound.
pub open spec fn spec_text_error(raw: Option<String>, cap: int) -> Option<ErrorKind> {
    match raw {
        Some(text) => if text@.len() > cap {
            Some(ErrorKind::TooLong)
        } else {
            None
        },
        None => None,
    }
}

/// The position of a frame: the one sent, else the starting position.
pub open spec fn spec_fen_field(raw: Option<String>) -> Option<Fen> {
    match raw {
        Some(text) => fen_of(text@),
        None => fen_of(spec_start_fen()),
    }
}

pub open spec fn spec_fen_error(raw: Option<String>) -> Option<ErrorKind> {
    match raw {
        Some(text) => if fen_of(text@) is None {
            Some(ErrorKind::InvalidFen)
        } else {
            None
        },
        None => None,
    }
}

pub open spec fn spec_move_error(raw: Option<String>) -> Option<ErrorKind> {
    match raw {
        Some(text) => if uci_squares(text@) is None {
            Some(ErrorKind::InvalidMove)
        } else {
            None
        },
        None => None,
    }
}

/// Whether a move is the one sent: none where none was sent.
pub open spec fn spec_move_value(raw: Option<String>, last_move: Option<LastMove>) -> bool {
    match raw {
        Some(text) => last_move is Some && uci_squares(text@) is Some && last_move.unwrap().spec_marks(
            uci_squares(text@).unwrap(),
        ),
        None => last_move is None,
    }
}

/// The check mark of a frame: the one sent, else none.
pub open spec fn spec_check_field(raw: Option<Value>) -> Result<CheckMark, ErrorKind> {
    match raw {
        Some(value) => CheckSquare::spec_parse(value),
        None => Ok(CheckMark::No),
    }
}

/// The side sent, else White.
pub open spec fn spec_orientation_field(raw: Option<String>) -> Result<Orientation, ErrorKind> {
    match raw {
        Some(name) => match Orientation::spec_parse(name@) {
            Some(orientation) => Ok(orientation),
            None => Err(ErrorKind::InvalidOrientation),
        },
        None => Ok(Orientation::White),
    }
}

/// The board theme sent, else the standard one.
pub open spec fn spec_theme_field(raw: Option<String>) -> Result<BoardTheme, ErrorKind> {
    match raw {
        Some(name) => match BoardTheme::spec_parse(name@) {
            Some(theme) => Ok(theme),
            None => Err(ErrorKind::InvalidTheme),
        },
        None => Ok(BoardTheme::Standard),
    }
}

/// The piece set sent, else the standard one.
pub open spec fn spec_piece_field(raw: Option<String>) -> Result<PieceSet, ErrorKind> {
    match raw {
        Some(name) => match PieceSet::spec_parse(name@) {
            Some(pieces) => Ok(pieces),
            None => Err(ErrorKind::InvalidPieceSet),
        },
        None => Ok(PieceSet::Standard),
    }
}

/// The choice sent, else to show the coordinates.
pub open spec fn spec_coordinates_field(raw: Option<Value>) -> Result<Coordinates, ErrorKind> {
    match raw {
        Some(value) => Coordinates::spec_parse(value),
        None => Ok(Coordinates::Yes),
    }
}

/// The refusal of a field where it has a reason, else the one that follows.
pub open spec fn spec_first(
    field: Field,
    kind: Option<ErrorKind>,
    rest: Option<RequestError>,
) -> Option<RequestError> {
    match kind {
        Some(kind) => Some(RequestError { field, kind, frame: None }),
        None => rest,
    }
}

/// The refusal of the caption fields, taken in the order white, black, date,
/// comment; else the one that follows.
pub open spec fn spec_captions_error(
    white: Option<String>,
    black: Option<String>,
    date: Option<String>,
    comment: Option<String>,
    rest: Option<RequestError>,
) -> Option<RequestError> {
    spec_first(
        Field::White,
        spec_text_error(white, 100),
        spec_first(
            Field::Black,
            spec_text_error(black, 100),
            spec_first(
                Field::Date,
                spec_text_error(date, 10),
                spec_first(Field::Comment, spec_text_error(comment, 255), rest),
            ),
        ),
    )
}

/// The refusal of the display fields, taken in the order orientation, theme,
/// piece, coordinates.
pub open spec fn spec_display_error(
    orientation: Option<String>,
    theme: Option<String>,
    piece: Option<String>,
    coordinates: Option<Value>,
) -> Option<RequestError> {
    spec_first(
        Field::Orientation,
        spec_refusal(spec_orientation_field(orientation)),
        spec_first(
            Field::Theme,
            spec_refusal(spec_theme_field(theme)),
            spec_first(
                Field::Piece,
                spec_refusal(spec_piece_field(piece)),
                spec_first(
                    Field::Coordinates,
                    spec_refusal(spec_coordinates_field(coordinates)),
                    None,
                ),
            ),
        ),
    )
}

/// The refusal of the fields of a position, taken in the order fen,
/// lastMove, check; else the one that follows.
pub open spec fn spec_position_error(
    fen: Option<String>,
    last_move: Option<String>,
    check: Option<Value>,
    rest: Option<RequestError>,
) -> Option<RequestError> {
    spec_first(
        Field::Fen,
        spec_fen_error(fen),
        spec_first(
            Field::LastMove,
            spec_move_error(last_move),
            spec_first(Field::Check, spec_refusal(spec_check_field(check)), rest),
        ),
    )
}

/// Reads a bounded text field.
pub fn text_field<const CAP: usize>(raw: &Option<String>) -> (r: Result<
    Option<BoundedText<CAP>>,
    ErrorKind,
>)
    ensures
        match r {
            Ok(text) => spec_text_error(*raw, CAP as int) is None && spec_text_view(text)
                == spec_raw_view(*raw),
            Err(kind) => spec_text_error(*raw, CAP as int) == Some(kind),
        },
{
    match raw {
        Some(text) => match BoundedText::<CAP>::new(text.as_str()) {
            Some(bounded) => Ok(Some(bounded)),
            None => Err(ErrorKind::TooLong),
        },
        None => Ok(None),
    }
}

/// Reads the position field.
pub fn fen_field(raw: &Option<String>) -> (r: Result<Fen, ErrorKind>)
    ensures
        match r {
            Ok(fen) => spec_fen_error(*raw) is None && Some(fen) == spec_fen_field(*raw),
            Err(kind) => spec_fen_error(*raw) == Some(kind),
        },
{
    match raw {
        Some(text) => match fen_from_text(text.as_str()) {
            Some(fen) => Ok(fen),
            None => Err(ErrorKind::InvalidFen),
        },
        None => Ok(fen_start()),
    }
}

/// Reads the last-move field.
pub fn move_field(raw: &Option<String>) -> (r: Result<Option<LastMove>, ErrorKind>)
    ensures
        match r {
            Ok(last_move) => spec_move_error(*raw) is None && spec_move_value(*raw, last_move),
            Err(kind) => spec_move_error(*raw) == Some(kind),
        },
{
    match raw {
        Some(text) => match LastMove::parse(text.as_str()) {
            Some(last_move) => Ok(Some(last_move)),
            None => Err(ErrorKind::InvalidMove),
        },
        None => Ok(None),
    }
}

/// Reads the check field.
pub fn check_field(raw: &Option<Value>) -> (r: Result<CheckSquare, ErrorKind>)
    ensures
        CheckSquare::spec_agrees(r, spec_check_field(*raw)),
{
    match raw {
        Some(value) => CheckSquare::parse(value),
        None => Ok(CheckSquare::No),
    }
}

/// Reads the orientation field.
pub fn orientation_field(raw: &Option<String>) -> (r: Result<Orientation, ErrorKind>)
    ensures
        r == spec_orientation_field(*raw),
{
    match raw {
        Some(name) => match Orientation::parse(name.as_str()) {
            Some(orientation) => Ok(orientation),
            None => Err(ErrorKind::InvalidOrientation),
        },
        None => Ok(Orientation::White),
    }
}

/// Reads the theme field.
pub fn theme_field(raw: &Option<String>) -> (r: Result<BoardTheme, ErrorKind>)
    ensures
        r == spec_theme_field(*raw),
{
    match raw {
        Some(name) => match BoardTheme::parse(name.as_str()) {
            Some(theme) => Ok(theme),
            None => Err(ErrorKind::InvalidTheme),
        },
        None => Ok(BoardTheme::Standard),
    }
}

/// Reads the piece field.
pub fn piece_field(raw: &Option<String>) -> (r: Result<PieceSet, ErrorKind>)
    ensures
        r == spec_piece_field(*raw),
{
    match raw {
        Some(name) => match PieceSet::parse(name.as_str()) {
            Some(pieces) => Ok(pieces),
            None => Err(ErrorKind::InvalidPieceSet),
        },
        None => Ok(PieceSet::Standard),
    }
}

/// Reads the coordinates field.
pub fn coordinates_field(raw: &Option<Value>) -> (r: Result<Coordinates, ErrorKind>)
    ensures
        r == spec_coordinates_field(*raw),
{
    match raw {
        Some(value) => Coordinates::parse(value),
        None => Ok(Coordinates::Yes),
    }
}

/// The refusal of a field outside the frames.
fn refuse(field: Field, kind: ErrorKind) -> (r: RequestError)
    ensures
        r == (RequestError { field, kind, frame: None }),
{
    RequestError { field, kind, frame: None }
}

impl RequestParams {
    /// The first refusal among the fields of a still request, in the order
    /// white, black, date, comment, fen, lastMove, check, orientation,
    /// theme, piece, coordinates.
    pub open spec fn spec_error(raw: RawParams) -> Option<RequestError> {
        spec_captions_error(
            raw.white,
            raw.black,
            raw.date,
            raw.comment,
            spec_position_error(
                raw.fen,
                raw.last_move,
                raw.check,
                spec_display_error(raw.orientation, raw.theme, raw.piece, raw.coordinates),
            ),
        )
    }

    /// Whether the request holds what was sent, with the defaults where
    /// nothing was.
    pub open spec fn spec_reads(self, raw: RawParams) -> bool {
        &&& spec_text_view(self.white) == spec_raw_view(raw.white)
        &&& spec_text_view(self.black) == spec_raw_view(raw.black)
        &&& spec_text_view(self.date) == spec_raw_view(raw.date)
        &&& spec_text_view(self.comment) == spec_raw_view(raw.comment)
        &&& Some(self.fen) == spec_fen_field(raw.fen)
        &&& spec_move_value(raw.last_move, self.last_move)
        &&& Ok::<CheckMark, ErrorKind>(self.check@) == spec_check_field(raw.check)
        &&& Ok::<Orientation, ErrorKind>(self.orientation) == spec_orientation_field(
            raw.orientation,
        )
        &&& Ok::<BoardTheme, ErrorKind>(self.theme) == spec_theme_field(raw.theme)
        &&& Ok::<PieceSet, ErrorKind>(self.piece) == spec_piece_field(raw.piece)
        &&& Ok::<Coordinates, ErrorKind>(self.coordinates) == spec_coordinates_field(
            raw.coordinates,
        )
    }

    /// Reads a still request. It is refused as a whole for the first field
    /// at fault; nothing is cut to fit.
    pub fn parse(raw: &RawParams) -> (r: Result<RequestParams, RequestError>)
        ensures
            match r {
                Ok(params) => Self::spec_error(*raw) is None && params.spec_reads(*raw),
                Err(error) => Self::spec_error(*raw) == Some(error),
            },
    {
        let white = match text_field::<100>(&raw.white) {
            Ok(text) => text,
            Err(kind) => { return Err(refuse(Field::White, kind)); },
        };
        let black = match text_field::<100>(&raw.black) {
            Ok(text) => text,
            Err(kind) => { return Err(refuse(Field::Black, kind)); },
        };
        let date = match text_field::<10>(&raw.date) {
            Ok(text) => text,
            Err(kind) => { return Err(refuse(Field::Date, kind)); },
        };
        let comment = match text_field::<255>(&raw.comment) {
            Ok(text) => text,
            Err(kind) => { return Err(refuse(Field::Comment, kind)); },
        };
        let fen = match fen_field(&raw.fen) {
            Ok(fen) => fen,
            Err(kind) => { return Err(refuse(Field::Fen, kind)); },
        };
        let last_move = match move_field(&raw.last_move) {
            Ok(last_move) => last_move,
            Err(kind) => { return Err(refuse(Field::LastMove, kind)); },
        };
        let check = match check_field(&raw.check) {
            Ok(check) => check,
            Err(kind) => { return Err(refuse(Field::Check, kind)); },
        };
        let orientation = match orientation_field(&raw.orientation) {
            Ok(orientation) => orientation,
            Err(kind) => { return Err(refuse(Field::Orientation, kind)); },
        };
        let theme = match theme_field(&raw.theme) {
            Ok(theme) => theme,
            Err(kind) => { return Err(refuse(Field::Theme, kind)); },
        };
        let piece = match piece_field(&raw.piece) {
            Ok(piece) => piece,
            Err(kind) => { return Err(refuse(Field::Piece, kind)); },
        };
        let coordinates = match coordinates_field(&raw.coordinates) {
            Ok(coordinates) => coordinates,
            Err(kind) => { return Err(refuse(Field::Coordinates, kind)); },
        };
        Ok(
            RequestParams {
                white,
                black,
                date,
                comment,
                fen,
                last_move,
                check,
                orientation,
                theme,
                piece,
                coordinates,
            },
        )
    }
}

impl RequestFrame {
    /// The first refusal among the fields of a frame, in the order fen,
    /// lastMove, check. It does not say which frame.
    pub open spec fn spec_error(raw: RawFrame) -> Option<RequestError> {
        spec_position_error(raw.fen, raw.last_move, raw.check, None)
    }

    /// Whether the frame holds what was sent, with the defaults where
    /// nothing was.
    pub open spec fn spec_reads(self, raw: RawFrame) -> bool {
        &&& Some(self.fen) == spec_fen_field(raw.fen)
        &&& self.delay == raw.delay
        &&& spec_move_value(raw.last_move, self.last_move)
        &&& Ok::<CheckMark, ErrorKind>(self.check@) == spec_check_field(raw.check)
    }

    /// Reads the frame at a place of an animation.
    pub fn parse(raw: &RawFrame, index: usize) -> (r: Result<RequestFrame, RequestError>)
        ensures
            match r {
                Ok(frame) => Self::spec_error(*raw) is None && frame.spec_reads(*raw),
                Err(error) => Self::spec_error(*raw) == Some(
                    RequestError { field: error.field, kind: error.kind, frame: None },
                ) && error.frame == Some(index),
            },
    {
        let fen = match fen_field(&raw.fen) {
            Ok(fen) => fen,
            Err(kind) => {
                return Err(RequestError { field: Field::Fen, kind, frame: Some(index) });
            },
        };
        let last_move = match move_field(&raw.last_move) {
            Ok(last_move) => last_move,
            Err(kind) => {
                return Err(RequestError { field: Field::LastMove, kind, frame: Some(index) });
            },
        };
        let check = match check_field(&raw.check) {
            Ok(check) => check,
            Err(kind) => {
                return Err(RequestError { field: Field::Check, kind, frame: Some(index) });
            },
        };
        Ok(RequestFrame { fen, delay: raw.delay, last_move, check })
    }
}

impl RequestBody {
    /// The first refusal among the fields outside the frames, in the order
    /// white, black, date, comment, orientation, theme, piece, coordinates.
    pub open spec fn spec_outer_error(raw: RawBody) -> Option<RequestError> {
        spec_captions_error(
            raw.white,
            raw.black,
            raw.date,
            raw.comment,
            spec_display_error(raw.orientation, raw.theme, raw.piece, raw.coordinates),
        )
    }

    /// Whether a refusal is the one owed to an animation request: that of
    /// the fields outside the frames where there is one; else that of an
    /// animation without frames; else that of the first frame at fault.
    pub open spec fn spec_refused(raw: RawBody, error: RequestError) -> bool {
        if Self::spec_outer_error(raw) is Some {
            Self::spec_outer_error(raw) == Some(error)
        } else if raw.frames@.len() == 0 {
            error == (RequestError { field: Field::Frames, kind: ErrorKind::NoFrames, frame: None })
        } else {
            &&& error.frame matches Some(index)
            &&& index < raw.frames@.len()
            &&& RequestFrame::spec_error(raw.frames@[index as int]) == Some(
                RequestError { field: error.field, kind: error.kind, frame: None },
            )
            &&& forall|j: int| 0 <= j < index ==> RequestFrame::spec_error(#[trigger] raw.frames@[j]) is None
        }
    }

    /// Whether the request holds what was sent, frame by frame in the order
    /// sent, with the defaults where nothing was.
    pub open spec fn spec_reads(self, raw: RawBody) -> bool {
        &&& spec_text_view(self.white) == spec_raw_view(raw.white)
        &&& spec_text_view(self.black) == spec_raw_view(raw.black)
        &&& spec_text_view(self.date) == spec_raw_view(raw.date)
        &&& spec_text_view(self.comment) == spec_raw_view(raw.comment)
        &&& self.frames@.len() == raw.frames@.len()
        &&& self.frames@.len() > 0
        &&& forall|i: int|
            0 <= i < self.frames@.len() ==> {
                &&& RequestFrame::spec_error(#[trigger] raw.frames@[i]) is None
                &&& self.frames@[i].spec_reads(raw.frames@[i])
            }
        &&& Ok::<Orientation, ErrorKind>(self.orientation) == spec_orientation_field(
            raw.orientation,
        )
        &&& self.delay == match raw.delay {
            Some(delay) => delay,
            None => 0u16,
        }
        &&& Ok::<BoardTheme, ErrorKind>(self.theme) == spec_theme_field(raw.theme)
        &&& Ok::<PieceSet, ErrorKind>(self.piece) == spec_piece_field(raw.piece)
        &&& Ok::<Coordinates, ErrorKind>(self.coordinates) == spec_coordinates_field(
            raw.coordinates,
        )
    }

    /// Reads an animation request. The fields outside the frames are read
    /// first, then the frames in order; one field at fault refuses the whole
    /// request.
    pub fn parse(raw: &RawBody) -> (r: Result<RequestBody, RequestError>)
        ensures
            match r {
                Ok(body) => Self::spec_outer_error(*raw) is None && body.spec_reads(*raw),
                Err(error) => Self::spec_refused(*raw, error),
            },
    {
        let white = match text_field::<100>(&raw.white) {
            Ok(text) => text,
            Err(kind) => { return Err(refuse(Field::White, kind)); },
        };
        let black = match text_field::<100>(&raw.black) {
            Ok(text) => text,
            Err(kind) => { return Err(refuse(Field::Black, kind)); },
        };
        let date = match text_field::<10>(&raw.date) {
            Ok(text) => text,
            Err(kind) => { return Err(refuse(Field::Date, kind)); },
        };
        let comment = match text_field::<255>(&raw.comment) {
            Ok(text) => text,
            Err(kind) => { return Err(refuse(Field::Comment, kind)); },
        };
        let orientation = match orientation_field(&raw.orientation) {
            Ok(orientation) => orientation,
            Err(kind) => { return Err(refuse(Field::Orientation, kind)); },
        };
        let theme = match theme_field(&raw.theme) {
            Ok(theme) => theme,
            Err(kind) => { return Err(refuse(Field::Theme, kind)); },
        };
        let piece = match piece_field(&raw.piece) {
            Ok(piece) => piece,
            Err(kind) => { return Err(refuse(Field::Piece, kind)); },
        };
        let coordinates = match coordinates_field(&raw.coordinates) {
            Ok(coordinates) => coordinates,
            Err(kind) => { return Err(refuse(Field::Coordinates, kind)); },
        };
        if raw.frames.len() == 0 {
            return Err(refuse(Field::Frames, ErrorKind::NoFrames));
        }
        let mut frames: Vec<RequestFrame> = Vec::new();
        let mut i: usize = 0;
        while i < raw.frames.len()
            invariant
                i <= raw.frames@.len(),
                frames@.len() == i,
                Self::spec_outer_error(*raw) is None,
                raw.frames@.len() > 0,
                forall|j: int|
                    0 <= j < i ==> {
                        &&& RequestFrame::spec_error(#[trigger] raw.frames@[j]) is None
                        &&& frames@[j].spec_reads(raw.frames@[j])
                    },
            decreases raw.frames@.len() - i,
        {
            match RequestFrame::parse(&raw.frames[i], i) {
                Ok(frame) => {
                    frames.push(frame);
                },
                Err(error) => {
                    return Err(error);
                },
            }
            i += 1;
        }
        let delay: u16 = match raw.delay {
            Some(delay) => delay,
            None => 0,
        };
        Ok(
            RequestBody {
                white,
                black,
                date,
                comment,
                frames,
                orientation,
                delay,
                theme,
                piece,
                coordinates,
            },
        )
    }
}

} // verus!
