//! The grid the adventure is played on: its cells, the walls between them,
//! the words that are known on it and the portal that a magic word opens.

use vstd::prelude::*;

verus! {

/// A cell of the grid. East grows `x`, north grows `y`.
#[derive(Clone, Copy, Debug, PartialEq, Eq, Structural)]
pub struct Position {
    pub x: i32,
    pub y: i32,
}

/// The sides of a cell through which it can be left.
#[derive(Clone, Copy, Debug, PartialEq, Eq, Structural)]
pub struct Exits {
    pub north: bool,
    pub south: bool,
    pub east: bool,
    pub west: bool,
}

/// Where the board's magic word takes whoever holds it.
#[derive(Clone, Copy, Debug, PartialEq, Eq, Structural)]
pub struct Portal {
    pub word: u32,
    pub target: Position,
}

/// The board as contracts see it.
pub struct BoardView {
    pub width: int,
    pub height: int,
    pub exits: Map<Position, Exits>,
    pub magic_words: Seq<u32>,
    pub fake_words: Seq<u32>,
    pub portal: Option<Portal>,
}

/// A grid of cells, each with its exits, together with the words that are
/// known on it and its portal.
pub struct Board {
    width: i32,
    height: i32,
    rows: Vec<Vec<Exits>>,
    magic_words: Vec<u32>,
    fake_words: Vec<u32>,
    portal: Option<Portal>,
}

/// The cell that lies `dx` to the east and `dy` to the north of `pos`.
pub open spec fn shifted(pos: Position, dx: int, dy: int) -> Position {
    Position { x: (pos.x + dx) as i32, y: (pos.y + dy) as i32 }
}

/// Whether a cell with these exits can be left by the step `(dx, dy)`.
/// A wall only stops a single step to the north, south, east or west.
pub open spec fn leads(exits: Exits, dx: int, dy: int) -> bool {
    if dx == 0 && dy == 1 {
        exits.north
    } else if dx == 0 && dy == -1 {
        exits.south
    } else if dx == 1 && dy == 0 {
        exits.east
    } else if dx == -1 && dy == 0 {
        exits.west
    } else {
        true
    }
}

/// The exits of a cell without walls.
pub open spec fn no_walls() -> Exits {
    Exits { north: true, south: true, east: true, west: true }
}

/// The exits of a cell walled in on every side.
pub open spec fn all_walls() -> Exits {
    Exits { north: false, south: false, east: false, west: false }
}

impl Exits {
    /// A cell without walls.
    pub fn open() -> (e: Exits)
        ensures
            e == no_walls(),
    {
        Exits { north: true, south: true, east: true, west: true }
    }

    /// A cell walled in on every side.
    pub fn closed() -> (e: Exits)
        ensures
            e == all_walls(),
    {
        Exits { north: false, south: false, east: false, west: false }
    }
}

impl BoardView {
    /// Whether `(x, y)` names a cell of the grid.
    pub open spec fn in_grid(self, x: int, y: int) -> bool {
        0 <= x < self.width && 0 <= y < self.height
    }

    /// Whether `pos` is a cell of the grid.
    pub open spec fn contains(self, pos: Position) -> bool {
        self.in_grid(pos.x as int, pos.y as int)
    }

    /// Whether the move by `(dx, dy)` from `pos` is legal: it starts and ends
    /// on the grid and no wall of the starting cell stands in its way.
    pub open spec fn can_move(self, pos: Position, dx: int, dy: int) -> bool {
        &&& self.contains(pos)
        &&& self.in_grid(pos.x + dx, pos.y + dy)
        &&& leads(self.exits[pos], dx, dy)
    }

    /// Whether any of the four single steps is legal from `pos`.
    pub open spec fn has_legal_step(self, pos: Position) -> bool {
        ||| self.can_move(pos, 0, 1)
        ||| self.can_move(pos, 0, -1)
        ||| self.can_move(pos, 1, 0)
        ||| self.can_move(pos, -1, 0)
    }

    /// What holds of every board: it has at least one cell and no more
    /// columns or rows than a coordinate can count, every cell has its
    /// exits, and the portal, if there is one, ends on the grid.
    pub open spec fn valid(self) -> bool {
        &&& 0 < self.width <= i32::MAX
        &&& 0 < self.height <= i32::MAX
        &&& forall|p: Position| self.exits.dom().contains(p) <==> self.contains(p)
        &&& (self.portal matches Some(portal) ==> self.contains(portal.target))
    }
}

impl View for Board {
    type V = BoardView;

    closed spec fn view(&self) -> BoardView {
        BoardView {
            width: self.width as int,
            height: self.height as int,
            exits: Map::new(
                |p: Position| 0 <= p.x < self.width && 0 <= p.y < self.height,
                |p: Position| self.rows@[p.y as int]@[p.x as int],
            ),
            magic_words: self.magic_words@,
            fake_words: self.fake_words@,
            portal: self.portal,
        }
    }
}

/// A row of `width` cells without walls.
fn open_row(width: i32) -> (row: Vec<Exits>)
    requires
        width > 0,
    ensures
        row@.len() == width,
        forall|x: int| 0 <= x < width ==> row@[x] == no_walls(),
{
    let mut row: Vec<Exits> = Vec::new();
    let mut x: i32 = 0;
    while x < width
        invariant
            0 <= x <= width,
            row@.len() == x,
            forall|i: int| 0 <= i < x ==> row@[i] == no_walls(),
        decreases width - x,
    {
        row.push(Exits::open());
        x = x + 1;
    }
    row
}

impl Board {
    /// How the fields hang together.
    pub closed spec fn shaped(&self) -> bool {
        &&& self.width > 0
        &&& self.height > 0
        &&& self.rows@.len() == self.height
        &&& forall|y: int| 0 <= y < self.height ==> (#[trigger] self.rows@[y])@.len() == self.width
    }

    /// The invariant of a board. Every board that this module hands out
    /// satisfies it.
    pub open spec fn wf(&self) -> bool {
        self.shaped() && self@.valid()
    }

    /// A board of `width` by `height` cells without walls, words or portal,
    /// or `None` where it would have no cell.
    pub fn new(width: i32, height: i32) -> (made: Option<Board>)
        ensures
            made.is_some() <==> width > 0 && height > 0,
            made matches Some(board) ==> {
                &&& board.wf()
                &&& board@.width == width
                &&& board@.height == height
                &&& forall|p: Position| board@.contains(p) ==> board@.exits[p] == no_walls()
                &&& board@.magic_words == Seq::<u32>::empty()
                &&& board@.fake_words == Seq::<u32>::empty()
                &&& board@.portal.is_none()
            },
    {
        if width <= 0 || height <= 0 {
            return None;
        }
        let mut rows: Vec<Vec<Exits>> = Vec::new();
        let mut y: i32 = 0;
        while y < height
            invariant
                width > 0,
                0 <= y <= height,
                rows@.len() == y,
                forall|j: int| 0 <= j < y ==> (#[trigger] rows@[j])@.len() == width,
                forall|j: int, i: int|
                    0 <= j < y && 0 <= i < width ==> (#[trigger] rows@[j]@[i]) == no_walls(),
            decreases height - y,
        {
            let row = open_row(width);
            rows.push(row);
            y = y + 1;
        }
        let board = Board {
            width,
            height,
            rows,
            magic_words: Vec::new(),
            fake_words: Vec::new(),
            portal: None,
        };
        Some(board)
    }

    /// The number of columns.
    pub fn width(&self) -> (w: i32)
        ensures
            w == self@.width,
    {
        self.width
    }

    /// The number of rows.
    pub fn height(&self) -> (h: i32)
        ensures
            h == self@.height,
    {
        self.height
    }

    /// Whether `pos` is a cell of this board.
    pub fn contains(&self, pos: &Position) -> (inside: bool)
        ensures
            inside == self@.contains(*pos),
    {
        0 <= pos.x && pos.x < self.width && 0 <= pos.y && pos.y < self.height
    }

    /// The exits of the cell at `pos`.
    pub fn exits(&self, pos: &Position) -> (e: Exits)
        requires
            self.wf(),
            self@.contains(*pos),
        ensures
            e == self@.exits[*pos],
    {
        self.rows[pos.y as usize][pos.x as usize]
    }

    /// Gives the cell at `pos` these exits and leaves every other cell, the
    /// words and the portal as they were.
    pub fn set_exits(&mut self, pos: &Position, exits: Exits)
        requires
            old(self).wf(),
            old(self)@.contains(*pos),
        ensures
            final(self).wf(),
            final(self)@ == (BoardView {
                exits: old(self)@.exits.insert(*pos, exits),
                ..old(self)@
            }),
    {
        self.rows[pos.y as usize][pos.x as usize] = exits;
        proof {
            assert(self@.exits =~= old(self)@.exits.insert(*pos, exits));
        }
    }

    /// Makes `magic` the board's magic words and `fake` its fake words.
    pub fn set_words(&mut self, magic: Vec<u32>, fake: Vec<u32>)
        requires
            old(self).wf(),
        ensures
            final(self).wf(),
            final(self)@ == (BoardView {
                magic_words: magic@,
                fake_words: fake@,
                ..old(self)@
            }),
    {
        self.magic_words = magic;
        self.fake_words = fake;
        proof {
            assert(self@.exits =~= old(self)@.exits);
        }
    }

    /// Places the portal: the magic word `word` leads to `target`.
    pub fn set_portal(&mut self, word: u32, target: Position)
        requires
            old(self).wf(),
            old(self)@.contains(target),
        ensures
            final(self).wf(),
            final(self)@ == (BoardView {
                portal: Some(Portal { word, target }),
                ..old(self)@
            }),
    {
        self.portal = Some(Portal { word, target });
        proof {
            assert(self@.exits =~= old(self)@.exits);
        }
    }

    /// The portal, if the board has one.
    pub fn portal(&self) -> (p: Option<Portal>)
        ensures
            p == self@.portal,
    {
        self.portal
    }

    /// The ids of the board's magic words, in the order they were given.
    pub fn magic_words(&self) -> (words: &Vec<u32>)
        ensures
            words@ == self@.magic_words,
    {
        &self.magic_words
    }

    /// The ids of the board's fake words, in the order they were given.
    pub fn fake_words(&self) -> (words: &Vec<u32>)
        ensures
            words@ == self@.fake_words,
    {
        &self.fake_words
    }
}

impl Position {
    /// The cell `(x, y)` of `board`.
    pub fn new(x: i32, y: i32, board: &Board) -> (pos: Position)
        requires
            board@.in_grid(x as int, y as int),
        ensures
            pos == (Position { x, y }),
            board@.contains(pos),
    {
        Position { x, y }
    }
}

/// Whether the move by `(dx, dy)` from `pos` is legal on `board`.
pub fn move_in_bounds(pos: &Position, dx: &i32, dy: &i32, board: &Board) -> (legal: bool)
    requires
        board.wf(),
    ensures
        legal == board@.can_move(*pos, *dx as int, *dy as int),
{
    if !board.contains(pos) {
        return false;
    }
    let x: i64 = pos.x as i64 + *dx as i64;
    let y: i64 = pos.y as i64 + *dy as i64;
    if x < 0 || x >= board.width() as i64 || y < 0 || y >= board.height() as i64 {
        return false;
    }
    let exits = board.exits(pos);
    if *dx == 0 && *dy == 1 {
        exits.north
    } else if *dx == 0 && *dy == -1 {
        exits.south
    } else if *dx == 1 && *dy == 0 {
        exits.east
    } else if *dx == -1 && *dy == 0 {
        exits.west
    } else {
        true
    }
}

/// The cell reached from `pos` by the legal move `(dx, dy)`.
pub fn move_pos(pos: Position, dx: i32, dy: i32, board: &Board) -> (moved: Position)
    requires
        board.wf(),
        board@.can_move(pos, dx as int, dy as int),
    ensures
        moved == shifted(pos, dx as int, dy as int),
        moved.x == pos.x + dx,
        moved.y == pos.y + dy,
        board@.contains(moved),
{
    Position { x: pos.x + dx, y: pos.y + dy }
}

} // verus!
