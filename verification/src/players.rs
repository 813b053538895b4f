//! The players and how each of them moves.

use crate::board::{move_in_bounds, move_pos, shifted, Board, BoardView, Position};
use crate::chance::{draw_below, shuffle};
use crate::command::{command_of, read_command, Command, Input, Notice};
use crate::inventory::{
    all_fake_words, all_magic_words, fake_words_of, magic_words_of, Thing,
};
use std::collections::VecDeque;
use vstd::prelude::*;

verus! {

/// Everyone on the board, in the order in which they take their turns.
pub type Players = VecDeque<Player>;

/// One of those who move on the board.
pub enum Player {
    /// The one the user steers.
    Explorer(ExplorerData),
    /// Wanders at random.
    Gnome(GnomeData),
    /// Seeks the portal.
    Leprechaun(LeprechaunData),
}

/// The four ways a player can step.
#[derive(Clone, Copy, Debug, PartialEq, Eq, Structural)]
pub enum Direction {
    North,
    South,
    East,
    West,
}

/// The explorer: where it stands, the energy it has left and what it
/// carries, oldest first.
pub struct ExplorerData {
    pub pos: Position,
    pub energy: i32,
    pub things: Vec<Thing>,
}

/// A gnome: where it stands, the energy it has left and what it carries.
pub struct GnomeData {
    pub pos: Position,
    pub energy: i32,
    pub things: Vec<Thing>,
}

/// The leprechaun: where it stands and what it carries. It has no energy
/// to run out of.
pub struct LeprechaunData {
    pub pos: Position,
    pub things: Vec<Thing>,
}

/// An explorer as contracts see it.
pub struct ExplorerView {
    pub pos: Position,
    pub energy: int,
    pub things: Seq<Thing>,
}

/// A gnome as contracts see it.
pub struct GnomeView {
    pub pos: Position,
    pub energy: int,
    pub things: Seq<Thing>,
}

/// A leprechaun as contracts see it.
pub struct LeprechaunView {
    pub pos: Position,
    pub things: Seq<Thing>,
}

/// A player as contracts see it.
pub enum PlayerView {
    Explorer(ExplorerView),
    Gnome(GnomeView),
    Leprechaun(LeprechaunView),
}

impl View for ExplorerData {
    type V = ExplorerView;

    open spec fn view(&self) -> ExplorerView {
        ExplorerView { pos: self.pos, energy: self.energy as int, things: self.things@ }
    }
}

impl View for GnomeData {
    type V = GnomeView;

    open spec fn view(&self) -> GnomeView {
        GnomeView { pos: self.pos, energy: self.energy as int, things: self.things@ }
    }
}

impl View for LeprechaunData {
    type V = LeprechaunView;

    open spec fn view(&self) -> LeprechaunView {
        LeprechaunView { pos: self.pos, things: self.things@ }
    }
}

impl View for Player {
    type V = PlayerView;

    open spec fn view(&self) -> PlayerView {
        match *self {
            Player::Explorer(data) => PlayerView::Explorer(data@),
            Player::Gnome(data) => PlayerView::Gnome(data@),
            Player::Leprechaun(data) => PlayerView::Leprechaun(data@),
        }
    }
}

impl PlayerView {
    /// The cell the player stands on.
    pub open spec fn position(self) -> Position {
        match self {
            PlayerView::Explorer(e) => e.pos,
            PlayerView::Gnome(g) => g.pos,
            PlayerView::Leprechaun(l) => l.pos,
        }
    }

    /// What the player carries, oldest first.
    pub open spec fn things(self) -> Seq<Thing> {
        match self {
            PlayerView::Explorer(e) => e.things,
            PlayerView::Gnome(g) => g.things,
            PlayerView::Leprechaun(l) => l.things,
        }
    }

    /// Whether the player is the explorer.
    pub open spec fn is_explorer(self) -> bool {
        self is Explorer
    }

    /// Only an explorer dies, and it does when its energy is used up.
    pub open spec fn is_dead(self) -> bool {
        match self {
            PlayerView::Explorer(e) => e.energy <= 0,
            _ => false,
        }
    }
}

/// The step that goes with a direction, east first and north second.
pub open spec fn delta(direction: Direction) -> (int, int) {
    match direction {
        Direction::North => (0, 1),
        Direction::South => (0, -1),
        Direction::East => (1, 0),
        Direction::West => (-1, 0),
    }
}

/// Whether one step from `pos` in `direction` is legal on `board`.
pub open spec fn can_step(board: BoardView, pos: Position, direction: Direction) -> bool {
    board.can_move(pos, delta(direction).0, delta(direction).1)
}

/// The cell one step from `pos` in `direction`.
pub open spec fn stepped(pos: Position, direction: Direction) -> Position {
    shifted(pos, delta(direction).0, delta(direction).1)
}

/// Whether the cell at `room` has an opening in its wall on the side `wall`.
pub open spec fn opening(board: BoardView, room: Position, wall: Direction) -> bool {
    board.contains(room) && match wall {
        Direction::North => board.exits[room].north,
        Direction::South => board.exits[room].south,
        Direction::East => board.exits[room].east,
        Direction::West => board.exits[room].west,
    }
}

/// Whether `word` is one of the board's magic words.
pub open spec fn magic_word(word: Thing, board: BoardView) -> bool {
    match word {
        Thing::MagicWord { id } => board.magic_words.contains(id),
        _ => false,
    }
}

/// Whether `word` is the magic word that opens the board's portal.
pub open spec fn opens_portal(word: Thing, board: BoardView) -> bool {
    match board.portal {
        Some(portal) => magic_word(word, board) && word == (Thing::MagicWord { id: portal.word }),
        None => false,
    }
}

/// Whether some thing among `things` opens the board's portal.
pub open spec fn holds_key(things: Seq<Thing>, board: BoardView) -> bool {
    exists|i: int| 0 <= i < things.len() && opens_portal(#[trigger] things[i], board)
}

/// Where a teleport takes a player who carries `things`, if anywhere.
pub open spec fn teleport_target(things: Seq<Thing>, board: BoardView) -> Option<Position> {
    match board.portal {
        Some(portal) => if holds_key(things, board) {
            Some(portal.target)
        } else {
            None
        },
        None => None,
    }
}

/// The explorer after the command to walk in `direction`: one cell on where
/// the step is legal, and where it was otherwise. Walking costs no energy.
pub open spec fn explorer_walked(e: ExplorerView, board: BoardView, direction: Direction)
    -> ExplorerView {
    if can_step(board, e.pos, direction) && opening(board, e.pos, direction) {
        ExplorerView { pos: stepped(e.pos, direction), ..e }
    } else {
        e
    }
}

/// What an input does to the explorer: its state afterwards, and the notice
/// that is given where the input did not end the turn.
pub open spec fn explorer_after(e: ExplorerView, board: BoardView, input: Input) -> (
    ExplorerView,
    Option<Notice>,
) {
    match input {
        Input::Failed => (e, Some(Notice::ReadFailed)),
        Input::Line(text) => match command_of(text@) {
            Command::Go(direction) => (explorer_walked(e, board, direction), None),
            Command::Teleport => match teleport_target(e.things, board) {
                Some(target) => (ExplorerView { pos: target, ..e }, None),
                None => (e, Some(Notice::CannotTeleport)),
            },
            Command::Unknown => (e, Some(Notice::InvalidCommand)),
            Command::Blank => (e, Some(Notice::IgnoredWhitespace)),
        },
    }
}

/// The explorer's turn over a run of inputs. Each input before the first
/// that ends the turn leaves the explorer as it was and draws a notice; that
/// first one decides where the explorer is afterwards, and what follows it
/// is not looked at. Where no input ends the turn, the turn is not `done`.
pub open spec fn explorer_turn(
    e: ExplorerView,
    board: BoardView,
    inputs: Seq<Input>,
    after: ExplorerView,
    notices: Seq<Notice>,
    done: bool,
) -> bool {
    &&& notices.len() <= inputs.len()
    &&& forall|i: int|
        0 <= i < notices.len() ==> explorer_after(e, board, #[trigger] inputs[i]).1 == Some(
            notices[i],
        )
    &&& done ==> {
        &&& notices.len() < inputs.len()
        &&& explorer_after(e, board, inputs[notices.len() as int]).0 == after
        &&& explorer_after(e, board, inputs[notices.len() as int]).1.is_none()
    }
    &&& !done ==> notices.len() == inputs.len() && after == e
}

/// The gnome after one step in `direction`, which costs it one energy.
pub open spec fn gnome_walked(g: GnomeView, direction: Direction) -> GnomeView {
    GnomeView { pos: stepped(g.pos, direction), energy: g.energy - 1, things: g.things }
}

/// The leprechaun after its turn: at the portal's far end if it holds the
/// word that opens it, and where it was otherwise.
pub open spec fn leprechaun_after(l: LeprechaunView, board: BoardView) -> LeprechaunView {
    match teleport_target(l.things, board) {
        Some(target) => LeprechaunView { pos: target, ..l },
        None => l,
    }
}

/// The game is over when every explorer among the players is dead.
pub open spec fn game_over(players: Seq<Player>) -> bool {
    forall|i: int|
        0 <= i < players.len() && (#[trigger] players[i])@.is_explorer() ==> players[i]@.is_dead()
}

/// `count` times `thing`.
pub open spec fn copies(thing: Thing, count: nat) -> Seq<Thing> {
    Seq::new(count, |i: int| thing)
}

/// What the explorer sets out with.
pub open spec fn explorer_kit() -> Seq<Thing> {
    seq![
        Thing::Torch,
        Thing::GoldCoin { denom: 5 },
        Thing::GoldCoin { denom: 10 },
        Thing::GoldCoin { denom: 25 },
    ]
}

/// What each gnome sets out with.
pub open spec fn gnome_purse() -> Seq<Thing> {
    copies(Thing::GoldCoin { denom: 25 }, 3)
}

/// The leprechaun's hoard before it is shuffled.
pub open spec fn hoard(board: BoardView) -> Seq<Thing> {
    copies(Thing::GoldCoin { denom: 5 }, 8) + copies(Thing::GoldCoin { denom: 10 }, 8) + copies(
        Thing::GoldCoin { denom: 25 },
        8,
    ) + copies(Thing::FakeCoin { denom: 5 }, 5) + copies(Thing::FakeCoin { denom: 10 }, 5)
        + copies(Thing::FakeCoin { denom: 25 }, 5) + magic_words_of(board.magic_words)
        + fake_words_of(board.fake_words)
}

/// The players at the start of a game in which the leprechaun carries
/// `lep_things`: the explorer, two gnomes and the leprechaun, in this order.
pub open spec fn starting_players(lep_things: Seq<Thing>) -> Seq<PlayerView> {
    seq![
        PlayerView::Explorer(
            ExplorerView { pos: Position { x: 0, y: 0 }, energy: 65, things: explorer_kit() },
        ),
        PlayerView::Gnome(
            GnomeView { pos: Position { x: 0, y: 4 }, energy: 41, things: gnome_purse() },
        ),
        PlayerView::Gnome(
            GnomeView { pos: Position { x: 2, y: 2 }, energy: 37, things: gnome_purse() },
        ),
        PlayerView::Leprechaun(
            LeprechaunView { pos: Position { x: 4, y: 4 }, things: lep_things },
        ),
    ]
}

/// The players as contracts see them, one view for each.
pub open spec fn views(players: Seq<Player>) -> Seq<PlayerView> {
    Seq::new(players.len(), |i: int| players[i]@)
}

/// Adds `count` times `thing` at the end of `things`.
fn push_copies(things: &mut Vec<Thing>, thing: Thing, count: usize)
    ensures
        final(things)@ == old(things)@ + copies(thing, count as nat),
{
    let mut pushed: usize = 0;
    while pushed < count
        invariant
            pushed <= count,
            things@ == old(things)@ + copies(thing, pushed as nat),
        decreases count - pushed,
    {
        things.push(thing);
        pushed = pushed + 1;
        assert(things@ =~= old(things)@ + copies(thing, pushed as nat));
    }
}

/// The leprechaun's hoard for `board`, not yet shuffled: eight gold coins
/// and then five fake coins of each denomination, then every magic word and
/// every fake word of the board.
pub fn leprechaun_hoard(board: &Board) -> (things: Vec<Thing>)
    ensures
        things@ == hoard(board@),
{
    let mut things: Vec<Thing> = Vec::new();
    push_copies(&mut things, Thing::GoldCoin { denom: 5 }, 8);
    push_copies(&mut things, Thing::GoldCoin { denom: 10 }, 8);
    push_copies(&mut things, Thing::GoldCoin { denom: 25 }, 8);
    push_copies(&mut things, Thing::FakeCoin { denom: 5 }, 5);
    push_copies(&mut things, Thing::FakeCoin { denom: 10 }, 5);
    push_copies(&mut things, Thing::FakeCoin { denom: 25 }, 5);
    let mut magic = all_magic_words(board);
    things.append(&mut magic);
    let mut fake = all_fake_words(board);
    things.append(&mut fake);
    assert(things@ =~= hoard(board@));
    things
}

/// The players at the start of a game, the leprechaun carrying `lep_things`
/// in the order given.
pub fn seat_players(board: &Board, lep_things: Vec<Thing>) -> (players: Players)
    requires
        board.wf(),
        board@.width > 4,
        board@.height > 4,
    ensures
        views(players@) == starting_players(lep_things@),
{
    let mut players: Players = VecDeque::new();

    let mut kit: Vec<Thing> = Vec::new();
    kit.push(Thing::Torch);
    kit.push(Thing::GoldCoin { denom: 5 });
    kit.push(Thing::GoldCoin { denom: 10 });
    kit.push(Thing::GoldCoin { denom: 25 });
    assert(kit@ =~= explorer_kit());
    let explorer = Player::Explorer(
        ExplorerData { pos: Position::new(0, 0, board), energy: 65, things: kit },
    );

    let mut purse_a: Vec<Thing> = Vec::new();
    push_copies(&mut purse_a, Thing::GoldCoin { denom: 25 }, 3);
    assert(purse_a@ =~= gnome_purse());
    let gnome_a = Player::Gnome(
        GnomeData { pos: Position::new(0, 4, board), energy: 41, things: purse_a },
    );

    let mut purse_b: Vec<Thing> = Vec::new();
    push_copies(&mut purse_b, Thing::GoldCoin { denom: 25 }, 3);
    assert(purse_b@ =~= gnome_purse());
    let gnome_b = Player::Gnome(
        GnomeData { pos: Position::new(2, 2, board), energy: 37, things: purse_b },
    );

    let leprechaun = Player::Leprechaun(
        LeprechaunData { pos: Position::new(4, 4, board), things: lep_things },
    );

    players.push_back(explorer);
    players.push_back(gnome_a);
    players.push_back(gnome_b);
    players.push_back(leprechaun);
    assert(views(players@) =~= starting_players(lep_things@));

    players
}

/// The players at the start of a game on `board`: one explorer with 65
/// energy, two gnomes with 41 and 37, and the leprechaun with its hoard,
/// shuffled.
pub fn build_players(board: &Board) -> (players: Players)
    requires
        board.wf(),
        board@.width > 4,
        board@.height > 4,
    ensures
        players@.len() == 4,
        views(players@) == starting_players(players@[3]@.things()),
        players@[3]@.things().to_multiset() == hoard(board@).to_multiset(),
        forall|i: int| 0 <= i < 4 ==> ((#[trigger] players@[i])@.is_explorer() <==> i == 0),
{
    let mut lep_things = leprechaun_hoard(board);
    shuffle(&mut lep_things);
    let players = seat_players(board, lep_things);
    proof {
        let seated = starting_players(lep_things@);
        assert(views(players@).len() == 4);
        assert forall|i: int| 0 <= i < 4 implies (#[trigger] players@[i])@ == seated[i] by {
            assert(views(players@)[i] == players@[i]@);
        }
    }
    players
}

/// Whether the game is over: whether every explorer among the players is
/// dead. It is over, too, where there is no explorer at all.
pub fn is_game_over(players: &Players) -> (over: bool)
    ensures
        over == game_over(players@),
{
    let mut i: usize = 0;
    while i < players.len()
        invariant
            i <= players@.len(),
            forall|j: int|
                0 <= j < i && (#[trigger] players@[j])@.is_explorer() ==> players@[j]@.is_dead(),
        decreases players@.len() - i,
    {
        let player = &players[i];
        if is_explorer(player) && !is_dead(player) {
            return false;
        }
        i = i + 1;
    }
    true
}

/// Whether `other` stands on `pos`.
pub fn is_occupant(other: &Player, pos: &Position) -> (there: bool)
    ensures
        there == (other@.position() == *pos),
{
    match other {
        Player::Explorer(data) => data.pos == *pos,
        Player::Gnome(data) => data.pos == *pos,
        Player::Leprechaun(data) => data.pos == *pos,
    }
}

/// Where the explorer stands.
pub fn get_exp_pos(data: &ExplorerData) -> (pos: Position)
    ensures
        pos == data@.pos,
{
    data.pos
}

/// Where the gnome stands.
pub fn get_gnome_pos(data: &GnomeData) -> (pos: Position)
    ensures
        pos == data@.pos,
{
    data.pos
}

/// Where the leprechaun stands.
pub fn get_lep_pos(data: &LeprechaunData) -> (pos: Position)
    ensures
        pos == data@.pos,
{
    data.pos
}

/// Whether `player` is the explorer.
pub fn is_explorer(player: &Player) -> (explorer: bool)
    ensures
        explorer == player@.is_explorer(),
{
    match player {
        Player::Explorer(_) => true,
        _ => false,
    }
}

/// Whether `player` is dead: an explorer whose energy is used up. Gnomes
/// and the leprechaun do not die.
pub fn is_dead(player: &Player) -> (dead: bool)
    ensures
        dead == player@.is_dead(),
{
    match player {
        Player::Explorer(data) => data.energy <= 0,
        _ => false,
    }
}

/// The step that goes with `direction`: north is up the second axis, east
/// up the first.
pub fn dir_to_dx_dy(direction: &Direction) -> (step: (i32, i32))
    ensures
        step.0 == delta(*direction).0,
        step.1 == delta(*direction).1,
        step == match *direction {
            Direction::North => (0i32, 1i32),
            Direction::South => (0i32, -1i32),
            Direction::East => (1i32, 0i32),
            Direction::West => (-1i32, 0i32),
        },
{
    match *direction {
        Direction::North => (0, 1),
        Direction::South => (0, -1),
        Direction::East => (1, 0),
        Direction::West => (-1, 0),
    }
}

/// Whether the cell at `room` has an opening in its wall on the side `wall`.
pub fn is_opening(room: &Position, wall: &Direction, board: &Board) -> (open: bool)
    requires
        board.wf(),
    ensures
        open == opening(board@, *room, *wall),
{
    if !board.contains(room) {
        return false;
    }
    let exits = board.exits(room);
    match *wall {
        Direction::North => exits.north,
        Direction::South => exits.south,
        Direction::East => exits.east,
        Direction::West => exits.west,
    }
}

/// Whether `word` is one of the board's magic words.
pub fn is_magic_word(word: &Thing, board: &Board) -> (magic: bool)
    ensures
        magic == magic_word(*word, board@),
{
    match *word {
        Thing::MagicWord { id } => {
            let known = board.magic_words();
            let mut i: usize = 0;
            while i < known.len()
                invariant
                    *word == (Thing::MagicWord { id }),
                    known@ == board@.magic_words,
                    i <= known@.len(),
                    forall|j: int| 0 <= j < i ==> known@[j] != id,
                decreases known@.len() - i,
            {
                if known[i] == id {
                    assert(known@[i as int] == id);
                    return true;
                }
                i = i + 1;
            }
            false
        },
        _ => false,
    }
}

/// Whether `word` is the magic word that opens the board's portal.
pub fn open_sesame(word: &Thing, board: &Board) -> (opens: bool)
    ensures
        opens == opens_portal(*word, board@),
{
    match board.portal() {
        Some(portal) => *word == (Thing::MagicWord { id: portal.word }) && is_magic_word(
            word,
            board,
        ),
        None => false,
    }
}

/// Where the first thing among `things` that opens the portal lies.
pub fn find_word(things: &Vec<Thing>, board: &Board) -> (found: Option<usize>)
    ensures
        found.is_some() == holds_key(things@, board@),
        found matches Some(at) ==> {
            &&& at < things@.len()
            &&& opens_portal(things@[at as int], board@)
            &&& forall|j: int| 0 <= j < at ==> !opens_portal(#[trigger] things@[j], board@)
        },
{
    let mut i: usize = 0;
    while i < things.len()
        invariant
            i <= things@.len(),
            forall|j: int| 0 <= j < i ==> !opens_portal(#[trigger] things@[j], board@),
        decreases things@.len() - i,
    {
        if open_sesame(&things[i], board) {
            return Some(i);
        }
        i = i + 1;
    }
    None
}

/// Where a teleport takes a player who carries `things`, if anywhere.
pub fn portal_for(things: &Vec<Thing>, board: &Board) -> (target: Option<Position>)
    ensures
        target == teleport_target(things@, board@),
{
    match board.portal() {
        Some(portal) => match find_word(things, board) {
            Some(_) => Some(portal.target),
            None => None,
        },
        None => None,
    }
}

/// Sends the explorer through the portal if it holds the word for it, and
/// says whether it went.
pub fn teleport_exp(data: &mut ExplorerData, board: &Board) -> (gone: bool)
    ensures
        gone == teleport_target(old(data)@.things, board@).is_some(),
        final(data)@ == match teleport_target(old(data)@.things, board@) {
            Some(target) => (ExplorerView { pos: target, ..old(data)@ }),
            None => old(data)@,
        },
{
    match portal_for(&data.things, board) {
        Some(target) => {
            data.pos = target;
            true
        },
        None => false,
    }
}

/// Sends the leprechaun through the portal if it holds the word for it.
pub fn teleport_lep(data: &mut LeprechaunData, board: &Board)
    ensures
        final(data)@ == leprechaun_after(old(data)@, board@),
{
    match portal_for(&data.things, board) {
        Some(target) => {
            data.pos = target;
        },
        None => {},
    }
}

/// Walks the explorer one cell in `direction` where the destination is on
/// the board and the wall on that side has an opening, and leaves it where
/// it is otherwise.
pub fn step_exp(data: &mut ExplorerData, direction: &Direction, board: &Board)
    requires
        board.wf(),
    ensures
        final(data)@ == explorer_walked(old(data)@, board@, *direction),
{
    let (dx, dy) = dir_to_dx_dy(direction);
    if move_in_bounds(&data.pos, &dx, &dy, board) && is_opening(&data.pos, direction, board) {
        data.pos = move_pos(data.pos, dx, dy, board);
    }
}

/// Walks the explorer one cell to the north if it can go there.
pub fn move_exp_north(data: &mut ExplorerData, board: &Board)
    requires
        board.wf(),
    ensures
        final(data)@ == explorer_walked(old(data)@, board@, Direction::North),
{
    step_exp(data, &Direction::North, board);
}

/// Walks the explorer one cell to the south if it can go there.
pub fn move_exp_south(data: &mut ExplorerData, board: &Board)
    requires
        board.wf(),
    ensures
        final(data)@ == explorer_walked(old(data)@, board@, Direction::South),
{
    step_exp(data, &Direction::South, board);
}

/// Walks the explorer one cell to the east if it can go there.
pub fn move_exp_east(data: &mut ExplorerData, board: &Board)
    requires
        board.wf(),
    ensures
        final(data)@ == explorer_walked(old(data)@, board@, Direction::East),
{
    step_exp(data, &Direction::East, board);
}

/// Walks the explorer one cell to the west if it can go there.
pub fn move_exp_west(data: &mut ExplorerData, board: &Board)
    requires
        board.wf(),
    ensures
        final(data)@ == explorer_walked(old(data)@, board@, Direction::West),
{
    step_exp(data, &Direction::West, board);
}

/// Acts on one input for the explorer. A command to walk ends the turn,
/// whether or not the explorer could move; a teleport ends it only if it
/// succeeds. Every other input leaves the explorer as it was and is
/// answered with a notice, after which the next input is due.
pub fn explorer_step(data: ExplorerData, board: &Board, input: &Input) -> (next: (
    ExplorerData,
    Option<Notice>,
))
    requires
        board.wf(),
    ensures
        next.0@ == explorer_after(data@, board@, *input).0,
        next.1 == explorer_after(data@, board@, *input).1,
        next.1.is_some() ==> next.0@ == data@,
        next.0.energy == data.energy,
        next.0.things@ == data.things@,
{
    let mut data = data;
    match input {
        Input::Failed => (data, Some(Notice::ReadFailed)),
        Input::Line(text) => match read_command(text.as_str()) {
            Command::Go(direction) => {
                match direction {
                    Direction::North => move_exp_north(&mut data, board),
                    Direction::South => move_exp_south(&mut data, board),
                    Direction::East => move_exp_east(&mut data, board),
                    Direction::West => move_exp_west(&mut data, board),
                }
                (data, None)
            },
            Command::Teleport => if teleport_exp(&mut data, board) {
                (data, None)
            } else {
                (data, Some(Notice::CannotTeleport))
            },
            Command::Unknown => (data, Some(Notice::InvalidCommand)),
            Command::Blank => (data, Some(Notice::IgnoredWhitespace)),
        },
    }
}

/// How far the explorer's turn got on the inputs it was given.
pub struct ExplorerTurn {
    /// The explorer afterwards.
    pub data: ExplorerData,
    /// One notice for each input that did not end the turn, in their order.
    pub notices: Vec<Notice>,
    /// Whether an input ended the turn. If none did, more input is due.
    pub done: bool,
}

/// How far a player's turn got.
pub struct Turn {
    /// The player afterwards.
    pub player: Player,
    /// One notice for each input that did not end the turn, in their order.
    pub notices: Vec<Notice>,
    /// Whether the turn is over. If it is not, more input is due.
    pub done: bool,
}

/// The explorer's turn: takes the inputs one by one until one of them ends
/// the turn.
pub fn move_exp(data: ExplorerData, board: &Board, inputs: &Vec<Input>) -> (turn: ExplorerTurn)
    requires
        board.wf(),
    ensures
        explorer_turn(data@, board@, inputs@, turn.data@, turn.notices@, turn.done),
        turn.data.energy == data.energy,
        turn.data.things@ == data.things@,
{
    let ghost start = data@;
    let mut current = data;
    let mut notices: Vec<Notice> = Vec::new();
    let mut at: usize = 0;
    while at < inputs.len()
        invariant
            board.wf(),
            at == notices@.len(),
            at <= inputs@.len(),
            start == data@,
            current@ == start,
            forall|i: int|
                0 <= i < at ==> explorer_after(start, board@, #[trigger] inputs@[i]).1 == Some(
                    notices@[i],
                ),
        decreases inputs@.len() - at,
    {
        let (next, notice) = explorer_step(current, board, &inputs[at]);
        match notice {
            None => {
                return ExplorerTurn { data: next, notices, done: true };
            },
            Some(given) => {
                notices.push(given);
                current = next;
            },
        }
        at = at + 1;
    }
    ExplorerTurn { data: current, notices, done: false }
}

/// Tries the direction at `index` among `choices`: hands it out where it is
/// legal from `pos`, and strikes it from the choices where it is not.
pub fn try_direction(
    choices: &mut Vec<Direction>,
    index: usize,
    pos: &Position,
    board: &Board,
) -> (found: Option<Direction>)
    requires
        board.wf(),
        index < old(choices)@.len(),
    ensures
        match found {
            Some(direction) => {
                &&& direction == old(choices)@[index as int]
                &&& can_step(board@, *pos, direction)
                &&& final(choices)@ == old(choices)@
            },
            None => {
                &&& !can_step(board@, *pos, old(choices)@[index as int])
                &&& final(choices)@ == old(choices)@.remove(index as int)
            },
        },
{
    let direction = choices[index];
    let (dx, dy) = dir_to_dx_dy(&direction);
    if move_in_bounds(pos, &dx, &dy, board) {
        Some(direction)
    } else {
        choices.remove(index);
        None
    }
}

/// Picks at random a direction in which a step from `pos` is legal. It
/// draws among the four directions and, where the one drawn is not legal,
/// draws again among the rest: each legal direction is as likely as any
/// other, and after four draws at most one is found.
pub fn choose_direction(pos: &Position, board: &Board) -> (direction: Direction)
    requires
        board.wf(),
        board@.has_legal_step(*pos),
    ensures
        can_step(board@, *pos, direction),
{
    let mut choices: Vec<Direction> = Vec::new();
    choices.push(Direction::North);
    choices.push(Direction::South);
    choices.push(Direction::East);
    choices.push(Direction::West);
    proof {
        assert(choices@[0] == Direction::North);
        assert(choices@[1] == Direction::South);
        assert(choices@[2] == Direction::East);
        assert(choices@[3] == Direction::West);
        lemma_legal_step_has_direction(board@, *pos);
    }
    let ghost legal: Direction = choose|d: Direction| can_step(board@, *pos, d);
    loop
        invariant
            board.wf(),
            can_step(board@, *pos, legal),
            forall|d: Direction| can_step(board@, *pos, d) ==> choices@.contains(d),
        decreases choices@.len(),
    {
        assert(choices@.contains(legal));
        let index = draw_below(choices.len());
        let ghost before = choices@;
        match try_direction(&mut choices, index, pos, board) {
            Some(direction) => {
                return direction;
            },
            None => {
                assert forall|d: Direction| can_step(board@, *pos, d) implies choices@.contains(
                    d,
                ) by {
                    assert(before.contains(d));
                    let k = choose|k: int| 0 <= k < before.len() && before[k] == d;
                    if k < index {
                        assert(choices@[k] == d);
                    } else {
                        assert(choices@[k - 1] == d);
                    }
                }
            },
        }
    }
}

/// Walks the gnome one step in `direction`, which costs it one energy.
pub fn walk_gnome(data: GnomeData, direction: &Direction, board: &Board) -> (moved: GnomeData)
    requires
        board.wf(),
        can_step(board@, data.pos, *direction),
        data.energy > i32::MIN,
    ensures
        moved@ == gnome_walked(data@, *direction),
        board@.contains(moved.pos),
{
    let (dx, dy) = dir_to_dx_dy(direction);
    GnomeData {
        pos: move_pos(data.pos, dx, dy, board),
        energy: data.energy - 1,
        things: data.things,
    }
}

/// The gnome's turn: one step in a direction picked at random among those
/// that are legal from where it stands. There has to be one.
pub fn move_gnome(data: GnomeData, board: &Board) -> (moved: GnomeData)
    requires
        board.wf(),
        board@.has_legal_step(data.pos),
        data.energy > i32::MIN,
    ensures
        exists|d: Direction| can_step(board@, data.pos, d) && moved@ == gnome_walked(data@, d),
        moved.energy == data.energy - 1,
        moved.things@ == data.things@,
        board@.contains(moved.pos),
{
    let direction = choose_direction(&data.pos, board);
    walk_gnome(data, &direction, board)
}

/// The leprechaun's turn: through the portal if it holds the word for it.
pub fn move_lep(data: LeprechaunData, board: &Board) -> (moved: LeprechaunData)
    ensures
        moved@ == leprechaun_after(data@, board@),
{
    let mut data = data;
    teleport_lep(&mut data, board);
    data
}

/// What a turn does to a player. The explorer acts on its inputs; a gnome
/// takes one legal step; the leprechaun makes for the portal. Only the
/// explorer's turn can stay open and draw notices.
pub open spec fn player_turn(
    player: PlayerView,
    board: BoardView,
    inputs: Seq<Input>,
    after: PlayerView,
    notices: Seq<Notice>,
    done: bool,
) -> bool {
    match player {
        PlayerView::Explorer(e) => {
            &&& after is Explorer
            &&& explorer_turn(e, board, inputs, after->Explorer_0, notices, done)
        },
        PlayerView::Gnome(g) => {
            &&& done
            &&& notices.len() == 0
            &&& exists|d: Direction|
                can_step(board, g.pos, d) && after == PlayerView::Gnome(gnome_walked(g, d))
        },
        PlayerView::Leprechaun(l) => {
            &&& done
            &&& notices.len() == 0
            &&& after == PlayerView::Leprechaun(leprechaun_after(l, board))
        },
    }
}

/// Whether `player` can take its turn on `board`: a gnome needs a legal
/// step from where it stands, and energy left to count down.
pub open spec fn can_take_turn(player: PlayerView, board: BoardView) -> bool {
    match player {
        PlayerView::Gnome(g) => board.has_legal_step(g.pos) && g.energy > i32::MIN,
        _ => true,
    }
}

/// One turn of `player`. `inputs` is what the user typed, line by line, and
/// is looked at only on the explorer's turn.
pub fn move_player(player: Player, board: &Board, inputs: &Vec<Input>) -> (turn: Turn)
    requires
        board.wf(),
        can_take_turn(player@, board@),
    ensures
        player_turn(player@, board@, inputs@, turn.player@, turn.notices@, turn.done),
        turn.player@.position() != player@.position() ==> board@.contains(turn.player@.position()),
        board@.contains(player@.position()) ==> board@.contains(turn.player@.position()),
        turn.player@.things() == player@.things(),
{
    let ghost before = player@;
    let turn = match player {
        Player::Explorer(data) => {
            let went = move_exp(data, board, inputs);
            Turn { player: Player::Explorer(went.data), notices: went.notices, done: went.done }
        },
        Player::Gnome(data) => {
            Turn { player: Player::Gnome(move_gnome(data, board)), notices: Vec::new(), done: true }
        },
        Player::Leprechaun(data) => {
            Turn {
                player: Player::Leprechaun(move_lep(data, board)),
                notices: Vec::new(),
                done: true,
            }
        },
    };
    proof {
        lemma_turn_keeps_to_board(
            before,
            board@,
            inputs@,
            turn.player@,
            turn.notices@,
            turn.done,
        );
    }
    turn
}

/// A game starts with four players of whom exactly one is an explorer: it
/// comes first and has 65 energy. The two gnomes after it have 41 and 37.
pub proof fn lemma_start_has_one_explorer(lep_things: Seq<Thing>)
    ensures
        starting_players(lep_things).len() == 4,
        forall|i: int|
            0 <= i < 4 ==> ((#[trigger] starting_players(lep_things)[i]).is_explorer() <==> i
                == 0),
        starting_players(lep_things)[0]->Explorer_0.energy == 65,
        starting_players(lep_things)[1] is Gnome,
        starting_players(lep_things)[1]->Gnome_0.energy == 41,
        starting_players(lep_things)[2] is Gnome,
        starting_players(lep_things)[2]->Gnome_0.energy == 37,
        starting_players(lep_things)[3] is Leprechaun,
{
}

/// A cell from which some single step is legal has a direction to go in.
pub proof fn lemma_legal_step_has_direction(board: BoardView, pos: Position)
    ensures
        board.has_legal_step(pos) <==> exists|d: Direction| can_step(board, pos, d),
{
    if board.has_legal_step(pos) {
        if board.can_move(pos, 0, 1) {
            assert(can_step(board, pos, Direction::North));
        } else if board.can_move(pos, 0, -1) {
            assert(can_step(board, pos, Direction::South));
        } else if board.can_move(pos, 1, 0) {
            assert(can_step(board, pos, Direction::East));
        } else {
            assert(can_step(board, pos, Direction::West));
        }
    }
    if exists|d: Direction| can_step(board, pos, d) {
        let d = choose|d: Direction| can_step(board, pos, d);
        match d {
            Direction::North => {},
            Direction::South => {},
            Direction::East => {},
            Direction::West => {},
        }
    }
}

/// North is one up the second axis, south one down; east is one up the
/// first axis, west one down. A legal step in a direction changes the
/// position by just that much.
pub proof fn lemma_step_follows_direction(board: BoardView, pos: Position, direction: Direction)
    requires
        board.valid(),
        can_step(board, pos, direction),
    ensures
        delta(Direction::North) == (0int, 1int),
        delta(Direction::South) == (0int, -1int),
        delta(Direction::East) == (1int, 0int),
        delta(Direction::West) == (-1int, 0int),
        stepped(pos, direction).x == pos.x + delta(direction).0,
        stepped(pos, direction).y == pos.y + delta(direction).1,
        board.contains(stepped(pos, direction)),
        opening(board, pos, direction),
{
}

/// No turn takes a player off the board: where a turn moves a player, the
/// new position is a cell of the board, and a player that stood on the
/// board stands on it afterwards. A turn changes nothing of what a player
/// carries.
pub proof fn lemma_turn_keeps_to_board(
    player: PlayerView,
    board: BoardView,
    inputs: Seq<Input>,
    after: PlayerView,
    notices: Seq<Notice>,
    done: bool,
)
    requires
        board.valid(),
        player_turn(player, board, inputs, after, notices, done),
    ensures
        after.position() != player.position() ==> board.contains(after.position()),
        board.contains(player.position()) ==> board.contains(after.position()),
        after.things() == player.things(),
{
    match player {
        PlayerView::Explorer(e) => {
            if done {
                let last = inputs[notices.len() as int];
                assert(explorer_after(e, board, last).0 == after->Explorer_0);
            }
        },
        PlayerView::Gnome(g) => {
            let d = choose|d: Direction|
                can_step(board, g.pos, d) && after == PlayerView::Gnome(gnome_walked(g, d));
            lemma_step_follows_direction(board, g.pos, d);
        },
        PlayerView::Leprechaun(l) => {},
    }
}

/// A gnome's turn costs it exactly one energy, and no turn of the explorer
/// gives it energy.
pub proof fn lemma_turn_spends_energy(
    player: PlayerView,
    board: BoardView,
    inputs: Seq<Input>,
    after: PlayerView,
    notices: Seq<Notice>,
    done: bool,
)
    requires
        player_turn(player, board, inputs, after, notices, done),
    ensures
        player matches PlayerView::Gnome(g) ==> after is Gnome && after->Gnome_0.energy == g.energy
            - 1,
        player matches PlayerView::Explorer(e) ==> after is Explorer && after->Explorer_0.energy
            <= e.energy,
{
    match player {
        PlayerView::Explorer(e) => {
            if done {
                let last = inputs[notices.len() as int];
                assert(explorer_after(e, board, last).0 == after->Explorer_0);
            }
        },
        _ => {},
    }
}

/// With one explorer among the players, the game is over exactly when that
/// explorer's energy is used up, whatever the others are and have.
pub proof fn lemma_game_over_is_the_explorers(players: Seq<Player>, who: int)
    requires
        0 <= who < players.len(),
        players[who]@ is Explorer,
        forall|i: int| 0 <= i < players.len() && i != who ==> !(#[trigger] players[i])@.is_explorer(),
    ensures
        game_over(players) <==> players[who]@->Explorer_0.energy <= 0,
{
    if game_over(players) {
        assert(players[who]@.is_explorer());
    }
}

} // verus!
