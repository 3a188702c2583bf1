//! Board themes, piece sets and the table of sprite sheets they select.
use vstd::prelude::*;
use vstd::string::StringExecFns;

verus! {

/// Number of board themes, and of piece sets.
pub const STYLES: usize = 7;

/// Number of sprite sheets: one for each pair of a board theme and a piece set.
pub const SPRITES: usize = 49;

/// Whether two strings hold the same characters.
pub fn text_eq(a: &str, b: &str) -> (r: bool)
    ensures
        r == (a@ == b@),
{
    let x: String = a.to_owned();
    let y: String = b.to_owned();
    x == y
}

/// Visual style of the board.
#[derive(Debug, Copy, Clone, PartialEq, Eq, Structural)]
pub enum BoardTheme {
    Standard,
    Moon,
    Summer,
    Wood,
    Walnut,
    CherryBlossom,
    Ocean,
}

impl Default for BoardTheme {
    fn default() -> (r: BoardTheme)
        ensures
            r == BoardTheme::Standard,
    {
        BoardTheme::Standard
    }
}

impl BoardTheme {
    /// Position of the theme in the order of declaration.
    pub open spec fn spec_index(self) -> int {
        match self {
            BoardTheme::Standard => 0,
            BoardTheme::Moon => 1,
            BoardTheme::Summer => 2,
            BoardTheme::Wood => 3,
            BoardTheme::Walnut => 4,
            BoardTheme::CherryBlossom => 5,
            BoardTheme::Ocean => 6,
        }
    }

    /// The name by which clients select the theme.
    pub open spec fn spec_name(self) -> Seq<char> {
        match self {
            BoardTheme::Standard => "standard"@,
            BoardTheme::Moon => "moon"@,
            BoardTheme::Summer => "summer"@,
            BoardTheme::Wood => "wood"@,
            BoardTheme::Walnut => "walnut"@,
            BoardTheme::CherryBlossom => "cherry_blossom"@,
            BoardTheme::Ocean => "ocean"@,
        }
    }

    /// The theme that a name selects, if any.
    pub open spec fn spec_parse(name: Seq<char>) -> Option<BoardTheme> {
        if name == "standard"@ {
            Some(BoardTheme::Standard)
        } else if name == "moon"@ {
            Some(BoardTheme::Moon)
        } else if name == "summer"@ {
            Some(BoardTheme::Summer)
        } else if name == "wood"@ {
            Some(BoardTheme::Wood)
        } else if name == "walnut"@ {
            Some(BoardTheme::Walnut)
        } else if name == "cherry_blossom"@ {
            Some(BoardTheme::CherryBlossom)
        } else if name == "ocean"@ {
            Some(BoardTheme::Ocean)
        } else {
            None
        }
    }

    pub fn index(self) -> (r: usize)
        ensures
            r == self.spec_index(),
            r < STYLES,
    {
        match self {
            BoardTheme::Standard => 0,
            BoardTheme::Moon => 1,
            BoardTheme::Summer => 2,
            BoardTheme::Wood => 3,
            BoardTheme::Walnut => 4,
            BoardTheme::CherryBlossom => 5,
            BoardTheme::Ocean => 6,
        }
    }

    /// The theme at a position of the order of declaration.
    pub fn from_index(index: usize) -> (r: Option<BoardTheme>)
        ensures
            r is Some <==> index < STYLES,
            r matches Some(theme) ==> theme.spec_index() == index,
    {
        match index {
            0 => Some(BoardTheme::Standard),
            1 => Some(BoardTheme::Moon),
            2 => Some(BoardTheme::Summer),
            3 => Some(BoardTheme::Wood),
            4 => Some(BoardTheme::Walnut),
            5 => Some(BoardTheme::CherryBlossom),
            6 => Some(BoardTheme::Ocean),
            _ => None,
        }
    }

    pub fn name(self) -> (r: &'static str)
        ensures
            r@ == self.spec_name(),
    {
        match self {
            BoardTheme::Standard => "standard",
            BoardTheme::Moon => "moon",
            BoardTheme::Summer => "summer",
            BoardTheme::Wood => "wood",
            BoardTheme::Walnut => "walnut",
            BoardTheme::CherryBlossom => "cherry_blossom",
            BoardTheme::Ocean => "ocean",
        }
    }

    /// Reads a theme from the name that selects it.
    pub fn parse(name: &str) -> (r: Option<BoardTheme>)
        ensures
            r == Self::spec_parse(name@),
    {
        if text_eq(name, "standard") {
            Some(BoardTheme::Standard)
        } else if text_eq(name, "moon") {
            Some(BoardTheme::Moon)
        } else if text_eq(name, "summer") {
            Some(BoardTheme::Summer)
        } else if text_eq(name, "wood") {
            Some(BoardTheme::Wood)
        } else if text_eq(name, "walnut") {
            Some(BoardTheme::Walnut)
        } else if text_eq(name, "cherry_blossom") {
            Some(BoardTheme::CherryBlossom)
        } else if text_eq(name, "ocean") {
            Some(BoardTheme::Ocean)
        } else {
            None
        }
    }
}

/// Every board theme is selected by its own name, and by no other's.
pub proof fn lemma_theme_names(theme: BoardTheme)
    ensures
        BoardTheme::spec_parse(theme.spec_name()) == Some(theme),
{
    reveal_strlit("standard");
    reveal_strlit("moon");
    reveal_strlit("summer");
    reveal_strlit("wood");
    reveal_strlit("walnut");
    reveal_strlit("cherry_blossom");
    reveal_strlit("ocean");
    assert("standard"@.len() == 8 && "moon"@.len() == 4 && "summer"@.len() == 6);
    assert("wood"@.len() == 4 && "walnut"@.len() == 6 && "ocean"@.len() == 5);
    assert("cherry_blossom"@.len() == 14);
    assert("moon"@[0] == 'm' && "wood"@[0] == 'w');
    assert("summer"@[0] == 's' && "walnut"@[0] == 'w');
}

/// One value for each board theme.
pub struct ByBoardTheme<T> {
    inner: [T; 7],
}

impl<T> ByBoardTheme<T> {
    /// The value held for a theme.
    pub closed spec fn spec_by_board_theme(&self, board: BoardTheme) -> T {
        self.inner@[board.spec_index()]
    }

    /// Builds the table by asking `f` once for each theme, in the order of
    /// declaration.
    pub fn new<F>(mut f: F) -> (r: ByBoardTheme<T>) where F: FnMut(BoardTheme) -> T
        requires
            forall|board: BoardTheme| call_requires(f, (board,)),
        ensures
            forall|board: BoardTheme|
                call_ensures(f, (board,), #[trigger] r.spec_by_board_theme(board)),
    {
        let r = ByBoardTheme {
            inner: [
                f(BoardTheme::Standard),
                f(BoardTheme::Moon),
                f(BoardTheme::Summer),
                f(BoardTheme::Wood),
                f(BoardTheme::Walnut),
                f(BoardTheme::CherryBlossom),
                f(BoardTheme::Ocean),
            ],
        };
        r
    }

    pub fn by_board_theme(&self, board: BoardTheme) -> (r: &T)
        ensures
            *r == self.spec_by_board_theme(board),
    {
        &self.inner[board.index()]
    }
}

/// Visual style of the pieces.
#[derive(Debug, Copy, Clone, PartialEq, Eq, Structural)]
pub enum PieceSet {
    Standard,
    Pixel,
    Wood,
    Celtic,
    Fantasy,
    Cherry,
    Walnut,
}

impl Default for PieceSet {
    fn default() -> (r: PieceSet)
        ensures
            r == PieceSet::Standard,
    {
        PieceSet::Standard
    }
}

impl PieceSet {
    /// Position of the piece set in the order of declaration.
    pub open spec fn spec_index(self) -> int {
        match self {
            PieceSet::Standard => 0,
            PieceSet::Pixel => 1,
            PieceSet::Wood => 2,
            PieceSet::Celtic => 3,
            PieceSet::Fantasy => 4,
            PieceSet::Cherry => 5,
            PieceSet::Walnut => 6,
        }
    }

    /// The name by which clients select the piece set.
    pub open spec fn spec_name(self) -> Seq<char> {
        match self {
            PieceSet::Standard => "standard"@,
            PieceSet::Pixel => "pixel"@,
            PieceSet::Wood => "wood"@,
            PieceSet::Celtic => "celtic"@,
            PieceSet::Fantasy => "fantasy"@,
            PieceSet::Cherry => "cherry"@,
            PieceSet::Walnut => "walnut"@,
        }
    }

    /// The piece set that a name selects, if any.
    pub open spec fn spec_parse(name: Seq<char>) -> Option<PieceSet> {
        if name == "standard"@ {
            Some(PieceSet::Standard)
        } else if name == "pixel"@ {
            Some(PieceSet::Pixel)
        } else if name == "wood"@ {
            Some(PieceSet::Wood)
        } else if name == "celtic"@ {
            Some(PieceSet::Celtic)
        } else if name == "fantasy"@ {
            Some(PieceSet::Fantasy)
        } else if name == "cherry"@ {
            Some(PieceSet::Cherry)
        } else if name == "walnut"@ {
            Some(PieceSet::Walnut)
        } else {
            None
        }
    }

    pub fn index(self) -> (r: usize)
        ensures
            r == self.spec_index(),
            r < STYLES,
    {
        match self {
            PieceSet::Standard => 0,
            PieceSet::Pixel => 1,
            PieceSet::Wood => 2,
            PieceSet::Celtic => 3,
            PieceSet::Fantasy => 4,
            PieceSet::Cherry => 5,
            PieceSet::Walnut => 6,
        }
    }

    /// The piece set at a position of the order of declaration.
    pub fn from_index(index: usize) -> (r: Option<PieceSet>)
        ensures
            r is Some <==> index < STYLES,
            r matches Some(pieces) ==> pieces.spec_index() == index,
    {
        match index {
            0 => Some(PieceSet::Standard),
            1 => Some(PieceSet::Pixel),
            2 => Some(PieceSet::Wood),
            3 => Some(PieceSet::Celtic),
            4 => Some(PieceSet::Fantasy),
            5 => Some(PieceSet::Cherry),
            6 => Some(PieceSet::Walnut),
            _ => None,
        }
    }

    pub fn name(self) -> (r: &'static str)
        ensures
            r@ == self.spec_name(),
    {
        match self {
            PieceSet::Standard => "standard",
            PieceSet::Pixel => "pixel",
            PieceSet::Wood => "wood",
            PieceSet::Celtic => "celtic",
            PieceSet::Fantasy => "fantasy",
            PieceSet::Cherry => "cherry",
            PieceSet::Walnut => "walnut",
        }
    }

    /// Reads a piece set from the name that selects it.
    pub fn parse(name: &str) -> (r: Option<PieceSet>)
        ensures
            r == Self::spec_parse(name@),
    {
        if text_eq(name, "standard") {
            Some(PieceSet::Standard)
        } else if text_eq(name, "pixel") {
            Some(PieceSet::Pixel)
        } else if text_eq(name, "wood") {
            Some(PieceSet::Wood)
        } else if text_eq(name, "celtic") {
            Some(PieceSet::Celtic)
        } else if text_eq(name, "fantasy") {
            Some(PieceSet::Fantasy)
        } else if text_eq(name, "cherry") {
            Some(PieceSet::Cherry)
        } else if text_eq(name, "walnut") {
            Some(PieceSet::Walnut)
        } else {
            None
        }
    }
}

/// Every piece set is selected by its own name, and by no other's.
pub proof fn lemma_piece_names(pieces: PieceSet)
    ensures
        PieceSet::spec_parse(pieces.spec_name()) == Some(pieces),
{
    reveal_strlit("standard");
    reveal_strlit("pixel");
    reveal_strlit("wood");
    reveal_strlit("celtic");
    reveal_strlit("fantasy");
    reveal_strlit("cherry");
    reveal_strlit("walnut");
    assert("standard"@.len() == 8 && "pixel"@.len() == 5 && "wood"@.len() == 4);
    assert("celtic"@.len() == 6 && "fantasy"@.len() == 7 && "cherry"@.len() == 6);
    assert("walnut"@.len() == 6);
    assert("celtic"@[1] == 'e' && "cherry"@[1] == 'h');
    assert("celtic"@[0] == 'c' && "cherry"@[0] == 'c' && "walnut"@[0] == 'w');
}

/// One value for each piece set.
pub struct ByPieceSet<T> {
    inner: [T; 7],
}

impl<T> ByPieceSet<T> {
    /// The value held for a piece set.
    pub closed spec fn spec_by_piece_set(&self, piece_set: PieceSet) -> T {
        self.inner@[piece_set.spec_index()]
    }

    /// Builds the table by asking `f` once for each piece set, in the order
    /// of declaration.
    pub fn new<F>(mut f: F) -> (r: ByPieceSet<T>) where F: FnMut(PieceSet) -> T
        requires
            forall|pieces: PieceSet| call_requires(f, (pieces,)),
        ensures
            forall|pieces: PieceSet|
                call_ensures(f, (pieces,), #[trigger] r.spec_by_piece_set(pieces)),
    {
        let r = ByPieceSet {
            inner: [
                f(PieceSet::Standard),
                f(PieceSet::Pixel),
                f(PieceSet::Wood),
                f(PieceSet::Celtic),
                f(PieceSet::Fantasy),
                f(PieceSet::Cherry),
                f(PieceSet::Walnut),
            ],
        };
        r
    }

    pub fn by_piece_set(&self, piece_set: PieceSet) -> (r: &T)
        ensures
            *r == self.spec_by_piece_set(piece_set),
    {
        &self.inner[piece_set.index()]
    }
}

/// Place of a pair's sprite sheet in the table: themes in the order of
/// declaration, and under each theme the piece sets in theirs.
pub open spec fn spec_sprite_index(board: BoardTheme, pieces: PieceSet) -> int {
    board.spec_index() * 7 + pieces.spec_index()
}

pub fn sprite_index(board: BoardTheme, pieces: PieceSet) -> (r: usize)
    ensures
        r == spec_sprite_index(board, pieces),
        r < SPRITES,
{
    board.index() * STYLES + pieces.index()
}

/// Name of the file that holds a pair's sprite sheet.
pub open spec fn spec_sprite_name(board: BoardTheme, pieces: PieceSet) -> Seq<char> {
    board.spec_name() + "-"@ + pieces.spec_name() + ".gif"@
}

pub fn sprite_name(board: BoardTheme, pieces: PieceSet) -> (r: String)
    ensures
        r@ == spec_sprite_name(board, pieces),
{
    let mut name: String = board.name().to_owned();
    name.append("-");
    name.append(pieces.name());
    name.append(".gif");
    name
}

/// Whether a list of resources holds a non-empty sprite sheet for every pair.
pub open spec fn spec_complete(resources: Seq<Seq<u8>>) -> bool {
    &&& resources.len() == SPRITES
    &&& forall|i: int| 0 <= i < resources.len() ==> (#[trigger] resources[i]).len() > 0
}

/// The sprite sheets of all pairs, complete once built.
pub struct SpriteTable {
    sheets: Vec<Vec<u8>>,
}

impl SpriteTable {
    #[verifier::type_invariant]
    spec fn inv(self) -> bool {
        spec_complete(self.sheets.deep_view())
    }

    /// The sheet held for a pair.
    pub closed spec fn spec_sheet(&self, board: BoardTheme, pieces: PieceSet) -> Vec<u8> {
        self.sheets@[spec_sprite_index(board, pieces)]
    }

    /// The bytes held for a pair.
    pub open spec fn spec_sprite(&self, board: BoardTheme, pieces: PieceSet) -> Seq<u8> {
        self.spec_sheet(board, pieces)@
    }

    /// Builds the table from the sheets in table order. A list that lacks a
    /// pair, or holds an empty sheet, gives no table.
    pub fn new(resources: Vec<Vec<u8>>) -> (r: Option<SpriteTable>)
        ensures
            r is Some <==> spec_complete(resources.deep_view()),
            r matches Some(table) ==> forall|board: BoardTheme, pieces: PieceSet|
                #[trigger] table.spec_sheet(board, pieces) == resources@[spec_sprite_index(
                    board,
                    pieces,
                )],
    {
        if resources.len() != SPRITES {
            return None;
        }
        let mut i: usize = 0;
        while i < SPRITES
            invariant
                i <= SPRITES,
                resources.len() == SPRITES,
                forall|j: int| 0 <= j < i ==> (#[trigger] resources@[j]).len() > 0,
            decreases SPRITES - i,
        {
            if resources[i].len() == 0 {
                assert(resources.deep_view()[i as int].len() == 0);
                return None;
            }
            i += 1;
        }
        assert(spec_complete(resources.deep_view())) by {
            assert forall|j: int| 0 <= j < resources.deep_view().len() implies (
            #[trigger] resources.deep_view()[j]).len() > 0 by {
                assert(resources@[j].len() > 0);
            }
        }
        Some(SpriteTable { sheets: resources })
    }
}

impl SpriteTable {
    /// Builds the table by asking `load` for the sheet of every pair, in
    /// table order. One empty sheet, and there is no table.
    pub fn load<F>(load: F) -> (r: Option<SpriteTable>) where
        F: FnMut(BoardTheme, PieceSet) -> Vec<u8>,

        requires
            forall|board: BoardTheme, pieces: PieceSet| call_requires(load, (board, pieces)),
        ensures
            r matches Some(table) ==> forall|board: BoardTheme, pieces: PieceSet|
                {
                    &&& call_ensures(load, (board, pieces), #[trigger] table.spec_sheet(board, pieces))
                    &&& table.spec_sheet(board, pieces)@.len() > 0
                },
            r is None ==> exists|board: BoardTheme, pieces: PieceSet, sheet: Vec<u8>|
                #[trigger] call_ensures(load, (board, pieces), sheet) && sheet@.len() == 0,
    {
        let mut ask = load;
        let mut resources: Vec<Vec<u8>> = Vec::new();
        let mut i: usize = 0;
        while i < SPRITES
            invariant
                i <= SPRITES,
                resources@.len() == i,
                ask == load,
                forall|board: BoardTheme, pieces: PieceSet| call_requires(load, (board, pieces)),
                forall|board: BoardTheme, pieces: PieceSet|
                    spec_sprite_index(board, pieces) < i ==> {
                        &&& call_ensures(
                            load,
                            (board, pieces),
                            #[trigger] resources@[spec_sprite_index(board, pieces)],
                        )
                        &&& resources@[spec_sprite_index(board, pieces)]@.len() > 0
                    },
                forall|j: int| 0 <= j < i ==> (#[trigger] resources@[j]).len() > 0,
            decreases SPRITES - i,
        {
            let board = match BoardTheme::from_index(i / STYLES) {
                Some(board) => board,
                None => { return None; },
            };
            let pieces = match PieceSet::from_index(i % STYLES) {
                Some(pieces) => pieces,
                None => { return None; },
            };
            assert(spec_sprite_index(board, pieces) == i);
            let sheet = ask(board, pieces);
            if sheet.len() == 0 {
                assert(call_ensures(load, (board, pieces), sheet) && sheet@.len() == 0);
                return None;
            }
            resources.push(sheet);
            i += 1;
        }
        assert(spec_complete(resources.deep_view())) by {
            assert forall|j: int| 0 <= j < resources.deep_view().len() implies (
            #[trigger] resources.deep_view()[j]).len() > 0 by {
                assert(resources@[j].len() > 0);
            }
        }
        SpriteTable::new(resources)
    }
}

/// The sprite sheet of a pair: never empty, whatever the pair.
pub fn sprite_data<'a>(table: &'a SpriteTable, board: BoardTheme, pieces: PieceSet) -> (r: &'a [u8])
    ensures
        r@ == table.spec_sprite(board, pieces),
        r@.len() > 0,
{
    proof {
        use_type_invariant(table);
        let i = spec_sprite_index(board, pieces);
        assert(table.sheets.deep_view()[i].len() > 0);
    }
    let i: usize = sprite_index(board, pieces);
    table.sheets[i].as_slice()
}

} // verus!
