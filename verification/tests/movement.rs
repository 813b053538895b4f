use textadventure::board::{move_in_bounds, move_pos, Board, Exits, Portal, Position};
use textadventure::command::{Input, Notice};
use textadventure::inventory::Thing;
use textadventure::players::{
    choose_direction, dir_to_dx_dy, explorer_step, find_word, is_magic_word, is_opening, move_exp,
    move_exp_east, move_exp_north, move_exp_south, move_exp_west, move_gnome, move_lep,
    move_player, open_sesame, portal_for, step_exp, teleport_exp, teleport_lep, try_direction,
    walk_gnome, Direction, ExplorerData, GnomeData, LeprechaunData, Player,
};

const ALL: [Direction; 4] = [Direction::North, Direction::South, Direction::East, Direction::West];

fn field(width: i32, height: i32) -> Board {
    Board::new(width, height).unwrap()
}

fn at(x: i32, y: i32) -> Position {
    Position { x, y }
}

fn only(direction: Direction) -> Exits {
    Exits {
        north: direction == Direction::North,
        south: direction == Direction::South,
        east: direction == Direction::East,
        west: direction == Direction::West,
    }
}

fn walled(width: i32, height: i32) -> Board {
    let mut board = field(width, height);
    for x in 0..width {
        for y in 0..height {
            board.set_exits(&at(x, y), Exits::closed());
        }
    }
    board
}

fn lines(texts: &[&str]) -> Vec<Input> {
    texts.iter().map(|text| Input::Line(text.to_string())).collect()
}

fn explorer_at(x: i32, y: i32) -> ExplorerData {
    ExplorerData { pos: at(x, y), energy: 65, things: vec![Thing::Torch] }
}

fn gnome_at(x: i32, y: i32, energy: i32) -> GnomeData {
    GnomeData { pos: at(x, y), energy, things: vec![Thing::GoldCoin { denom: 25 }; 3] }
}

fn portal_board() -> Board {
    let mut board = field(5, 5);
    board.set_words(vec![7, 11], vec![7, 3]);
    board.set_portal(7, at(3, 4));
    board
}

#[test]
fn board_needs_a_cell() {
    assert!(Board::new(0, 5).is_none());
    assert!(Board::new(5, 0).is_none());
    assert!(Board::new(-1, 3).is_none());
    assert!(Board::new(1, 1).is_some());
}

#[test]
fn board_knows_its_size_and_cells() {
    let board = field(4, 3);
    assert_eq!(board.width(), 4);
    assert_eq!(board.height(), 3);
    assert!(board.contains(&at(0, 0)));
    assert!(board.contains(&at(3, 2)));
    assert!(!board.contains(&at(4, 2)));
    assert!(!board.contains(&at(3, 3)));
    assert!(!board.contains(&at(-1, 0)));
    assert!(!board.contains(&at(0, -1)));
    assert_eq!(Position::new(3, 2, &board), at(3, 2));
}

#[test]
fn board_starts_without_walls_words_or_portal() {
    let board = field(3, 3);
    assert_eq!(board.exits(&at(1, 1)), Exits::open());
    assert_eq!(board.exits(&at(0, 2)), Exits { north: true, south: true, east: true, west: true });
    assert!(board.magic_words().is_empty());
    assert!(board.fake_words().is_empty());
    assert_eq!(board.portal(), None);
}

#[test]
fn board_keeps_the_exits_it_is_given() {
    let mut board = field(3, 3);
    board.set_exits(&at(1, 2), only(Direction::West));
    assert_eq!(board.exits(&at(1, 2)), only(Direction::West));
    assert_eq!(board.exits(&at(2, 1)), Exits::open());
    assert_eq!(board.exits(&at(1, 1)), Exits::open());
    board.set_exits(&at(1, 2), Exits::closed());
    assert_eq!(
        board.exits(&at(1, 2)),
        Exits { north: false, south: false, east: false, west: false }
    );
}

#[test]
fn board_keeps_its_words_and_portal() {
    let board = portal_board();
    assert_eq!(board.magic_words(), &vec![7, 11]);
    assert_eq!(board.fake_words(), &vec![7, 3]);
    assert_eq!(board.portal(), Some(Portal { word: 7, target: at(3, 4) }));
    assert_eq!(board.exits(&at(3, 4)), Exits::open());
}

#[test]
fn moves_end_on_the_board() {
    let board = field(3, 2);
    assert!(move_in_bounds(&at(0, 0), &0, &1, &board));
    assert!(move_in_bounds(&at(0, 0), &1, &0, &board));
    assert!(!move_in_bounds(&at(0, 0), &0, &-1, &board));
    assert!(!move_in_bounds(&at(0, 0), &-1, &0, &board));
    assert!(!move_in_bounds(&at(2, 1), &1, &0, &board));
    assert!(!move_in_bounds(&at(2, 1), &0, &1, &board));
    assert!(move_in_bounds(&at(0, 0), &2, &1, &board));
    assert!(!move_in_bounds(&at(0, 0), &3, &1, &board));
    assert!(move_in_bounds(&at(1, 1), &0, &0, &board));
    assert!(!move_in_bounds(&at(0, 0), &i32::MAX, &0, &board));
    assert!(!move_in_bounds(&at(2, 1), &i32::MAX, &i32::MAX, &board));
    assert!(!move_in_bounds(&at(0, 0), &i32::MIN, &i32::MIN, &board));
}

#[test]
fn moves_start_on_the_board() {
    let board = field(3, 2);
    assert!(!move_in_bounds(&at(-1, 0), &1, &0, &board));
    assert!(!move_in_bounds(&at(3, 0), &-1, &0, &board));
    assert!(!move_in_bounds(&at(i32::MAX, i32::MAX), &1, &1, &board));
}

#[test]
fn walls_stop_single_steps_only() {
    let mut board = field(3, 3);
    board.set_exits(&at(1, 1), only(Direction::South));
    assert!(move_in_bounds(&at(1, 1), &0, &-1, &board));
    assert!(!move_in_bounds(&at(1, 1), &0, &1, &board));
    assert!(!move_in_bounds(&at(1, 1), &1, &0, &board));
    assert!(!move_in_bounds(&at(1, 1), &-1, &0, &board));
    assert!(move_in_bounds(&at(1, 1), &1, &1, &board));
    assert!(move_in_bounds(&at(1, 1), &0, &0, &board));
    // The wall belongs to the cell that is left, not to the one that is entered.
    assert!(move_in_bounds(&at(1, 2), &0, &-1, &board));
}

#[test]
fn move_pos_adds_the_step() {
    let board = field(5, 5);
    assert_eq!(move_pos(at(2, 2), 0, 1, &board), at(2, 3));
    assert_eq!(move_pos(at(2, 2), 0, -1, &board), at(2, 1));
    assert_eq!(move_pos(at(2, 2), 1, 0, &board), at(3, 2));
    assert_eq!(move_pos(at(2, 2), -1, 0, &board), at(1, 2));
    assert_eq!(move_pos(at(0, 4), 4, -4, &board), at(4, 0));
}

#[test]
fn directions_map_to_their_steps() {
    assert_eq!(dir_to_dx_dy(&Direction::North), (0, 1));
    assert_eq!(dir_to_dx_dy(&Direction::South), (0, -1));
    assert_eq!(dir_to_dx_dy(&Direction::East), (1, 0));
    assert_eq!(dir_to_dx_dy(&Direction::West), (-1, 0));
}

#[test]
fn north_goes_up_the_second_axis() {
    let board = field(5, 5);
    let (dx, dy) = dir_to_dx_dy(&Direction::North);
    assert_eq!(move_pos(at(1, 1), dx, dy, &board), at(1, 2));
    let (dx, dy) = dir_to_dx_dy(&Direction::South);
    assert_eq!(move_pos(at(1, 1), dx, dy, &board), at(1, 0));
    let (dx, dy) = dir_to_dx_dy(&Direction::East);
    assert_eq!(move_pos(at(1, 1), dx, dy, &board), at(2, 1));
    let (dx, dy) = dir_to_dx_dy(&Direction::West);
    assert_eq!(move_pos(at(1, 1), dx, dy, &board), at(0, 1));
}

#[test]
fn openings_are_the_exits_of_the_room() {
    let mut board = field(3, 3);
    board.set_exits(&at(1, 1), Exits { north: true, south: false, east: true, west: false });
    assert!(is_opening(&at(1, 1), &Direction::North, &board));
    assert!(!is_opening(&at(1, 1), &Direction::South, &board));
    assert!(is_opening(&at(1, 1), &Direction::East, &board));
    assert!(!is_opening(&at(1, 1), &Direction::West, &board));
    assert!(is_opening(&at(0, 0), &Direction::West, &board));
    assert!(!is_opening(&at(3, 0), &Direction::West, &board));
}

#[test]
fn explorer_example_invalid_blank_then_north() {
    let mut board = field(5, 5);
    board.set_exits(&at(0, 0), only(Direction::North));
    let turn = move_exp(explorer_at(0, 0), &board, &lines(&["X", "", "N"]));
    assert_eq!(turn.notices, vec![Notice::InvalidCommand, Notice::IgnoredWhitespace]);
    assert!(turn.done);
    assert_eq!(turn.data.pos, at(0, 1));
    assert_eq!(turn.data.energy, 65);
    assert_eq!(turn.data.things, vec![Thing::Torch]);
    assert_eq!(turn.notices[0].message(), "Invalid command");
    assert_eq!(turn.notices[1].message(), "Ignoring leading whitespace");
}

#[test]
fn explorer_turn_stays_open_without_a_command() {
    let board = field(5, 5);
    let turn = move_exp(explorer_at(2, 2), &board, &lines(&["x", " ", "T"]));
    assert!(!turn.done);
    assert_eq!(
        turn.notices,
        vec![Notice::InvalidCommand, Notice::IgnoredWhitespace, Notice::CannotTeleport]
    );
    assert_eq!(turn.data.pos, at(2, 2));
    let turn = move_exp(explorer_at(2, 2), &board, &vec![]);
    assert!(!turn.done);
    assert!(turn.notices.is_empty());
    assert_eq!(turn.data.pos, at(2, 2));
}

#[test]
fn explorer_turn_ends_at_the_first_command() {
    let board = field(5, 5);
    let turn = move_exp(explorer_at(2, 2), &board, &lines(&["E", "N", "?"]));
    assert!(turn.done);
    assert!(turn.notices.is_empty());
    assert_eq!(turn.data.pos, at(3, 2));
}

#[test]
fn explorer_is_told_when_reading_fails() {
    let board = field(5, 5);
    let inputs = vec![Input::Failed, Input::Failed, Input::Line("W\n".to_string())];
    let turn = move_exp(explorer_at(2, 2), &board, &inputs);
    assert_eq!(turn.notices, vec![Notice::ReadFailed, Notice::ReadFailed]);
    assert!(turn.done);
    assert_eq!(turn.data.pos, at(1, 2));
    assert_eq!(Notice::ReadFailed.message(), "Failed to read line");
}

#[test]
fn explorer_walks_each_way() {
    let board = field(5, 5);
    for (line, x, y) in [("N", 2, 3), ("S", 2, 1), ("E", 3, 2), ("W", 1, 2)] {
        let (data, notice) = explorer_step(explorer_at(2, 2), &board, &Input::Line(line.into()));
        assert_eq!(notice, None);
        assert_eq!(data.pos, at(x, y));
        assert_eq!(data.energy, 65);
    }
}

#[test]
fn explorer_stays_at_a_wall_and_the_turn_is_spent() {
    let mut board = field(5, 5);
    board.set_exits(&at(2, 2), only(Direction::East));
    for line in ["N", "S", "W"] {
        let (data, notice) = explorer_step(explorer_at(2, 2), &board, &Input::Line(line.into()));
        assert_eq!(notice, None);
        assert_eq!(data.pos, at(2, 2));
        assert_eq!(data.energy, 65);
    }
    let (data, notice) = explorer_step(explorer_at(2, 2), &board, &Input::Line("E".into()));
    assert_eq!(notice, None);
    assert_eq!(data.pos, at(3, 2));
}

#[test]
fn explorer_stays_at_the_edge_and_the_turn_is_spent() {
    let board = field(5, 5);
    let turn = move_exp(explorer_at(0, 0), &board, &lines(&["S"]));
    assert!(turn.done);
    assert!(turn.notices.is_empty());
    assert_eq!(turn.data.pos, at(0, 0));
    let turn = move_exp(explorer_at(4, 4), &board, &lines(&["E"]));
    assert!(turn.done);
    assert_eq!(turn.data.pos, at(4, 4));
}

#[test]
fn explorer_steps_by_name() {
    let board = field(5, 5);
    let mut data = explorer_at(2, 2);
    move_exp_north(&mut data, &board);
    assert_eq!(data.pos, at(2, 3));
    move_exp_east(&mut data, &board);
    assert_eq!(data.pos, at(3, 3));
    move_exp_south(&mut data, &board);
    assert_eq!(data.pos, at(3, 2));
    move_exp_west(&mut data, &board);
    assert_eq!(data.pos, at(2, 2));
    step_exp(&mut data, &Direction::West, &board);
    step_exp(&mut data, &Direction::West, &board);
    step_exp(&mut data, &Direction::West, &board);
    assert_eq!(data.pos, at(0, 2));
    assert_eq!(data.energy, 65);
}

#[test]
fn explorer_energy_never_grows() {
    let board = portal_board();
    for line in ["N", "S", "E", "W", "T", "x", ""] {
        for energy in [i32::MIN, -1, 0, 1, 65, i32::MAX] {
            let data = ExplorerData {
                pos: at(0, 0),
                energy,
                things: vec![Thing::MagicWord { id: 7 }],
            };
            let (next, _) = explorer_step(data, &board, &Input::Line(line.into()));
            assert!(next.energy <= energy);
        }
    }
}

#[test]
fn magic_words_are_those_of_the_board() {
    let board = portal_board();
    assert!(is_magic_word(&Thing::MagicWord { id: 7 }, &board));
    assert!(is_magic_word(&Thing::MagicWord { id: 11 }, &board));
    assert!(!is_magic_word(&Thing::MagicWord { id: 3 }, &board));
    assert!(!is_magic_word(&Thing::FakeWord { id: 7 }, &board));
    assert!(!is_magic_word(&Thing::GoldCoin { denom: 7 }, &board));
    assert!(!is_magic_word(&Thing::Torch, &board));
    assert!(!is_magic_word(&Thing::MagicWord { id: 7 }, &field(5, 5)));
}

#[test]
fn one_magic_word_opens_the_portal() {
    let board = portal_board();
    assert!(open_sesame(&Thing::MagicWord { id: 7 }, &board));
    assert!(!open_sesame(&Thing::MagicWord { id: 11 }, &board));
    assert!(!open_sesame(&Thing::FakeWord { id: 7 }, &board));
    assert!(!open_sesame(&Thing::Torch, &board));
    assert!(!open_sesame(&Thing::MagicWord { id: 7 }, &field(5, 5)));
    let mut unknown = field(5, 5);
    unknown.set_portal(7, at(1, 1));
    assert!(!open_sesame(&Thing::MagicWord { id: 7 }, &unknown));
}

#[test]
fn the_first_key_is_found() {
    let board = portal_board();
    let key = Thing::MagicWord { id: 7 };
    let things = vec![Thing::FakeWord { id: 7 }, Thing::Torch, key, Thing::MagicWord { id: 11 }, key];
    assert_eq!(find_word(&things, &board), Some(2));
    assert_eq!(find_word(&things[..2].to_vec(), &board), None);
    assert_eq!(find_word(&vec![], &board), None);
    assert_eq!(find_word(&things, &field(5, 5)), None);
    assert_eq!(portal_for(&things, &board), Some(at(3, 4)));
    assert_eq!(portal_for(&vec![Thing::MagicWord { id: 11 }], &board), None);
    assert_eq!(portal_for(&things, &field(5, 5)), None);
}

#[test]
fn explorer_teleports_with_the_word() {
    let board = portal_board();
    let mut data = explorer_at(0, 0);
    data.things.push(Thing::MagicWord { id: 7 });
    let turn = move_exp(data, &board, &lines(&["T", "N"]));
    assert!(turn.done);
    assert!(turn.notices.is_empty());
    assert_eq!(turn.data.pos, at(3, 4));
    assert_eq!(turn.data.energy, 65);
    assert_eq!(turn.data.things, vec![Thing::Torch, Thing::MagicWord { id: 7 }]);
}

#[test]
fn explorer_cannot_teleport_without_the_word() {
    let board = portal_board();
    let mut data = explorer_at(0, 0);
    data.things.push(Thing::FakeWord { id: 7 });
    data.things.push(Thing::MagicWord { id: 11 });
    let turn = move_exp(data, &board, &lines(&["T", "T", "N"]));
    assert!(turn.done);
    assert_eq!(turn.notices, vec![Notice::CannotTeleport, Notice::CannotTeleport]);
    assert_eq!(turn.data.pos, at(0, 1));
    assert_eq!(Notice::CannotTeleport.message(), "Cannot teleport");
}

#[test]
fn teleport_says_whether_it_went() {
    let board = portal_board();
    let mut with = explorer_at(1, 1);
    with.things.push(Thing::MagicWord { id: 7 });
    assert!(teleport_exp(&mut with, &board));
    assert_eq!(with.pos, at(3, 4));
    let mut without = explorer_at(1, 1);
    assert!(!teleport_exp(&mut without, &board));
    assert_eq!(without.pos, at(1, 1));
}

#[test]
fn leprechaun_goes_through_the_portal() {
    let board = portal_board();
    let things = vec![Thing::GoldCoin { denom: 5 }, Thing::MagicWord { id: 7 }];
    let moved = move_lep(LeprechaunData { pos: at(4, 4), things: things.clone() }, &board);
    assert_eq!(moved.pos, at(3, 4));
    assert_eq!(moved.things, things);
    let again = move_lep(moved, &board);
    assert_eq!(again.pos, at(3, 4));
}

#[test]
fn leprechaun_stays_without_word_or_portal() {
    let board = portal_board();
    let moved = move_lep(
        LeprechaunData { pos: at(4, 4), things: vec![Thing::FakeWord { id: 7 }] },
        &board,
    );
    assert_eq!(moved.pos, at(4, 4));
    let mut data = LeprechaunData { pos: at(4, 4), things: vec![Thing::MagicWord { id: 7 }] };
    teleport_lep(&mut data, &field(5, 5));
    assert_eq!(data.pos, at(4, 4));
    teleport_lep(&mut data, &board);
    assert_eq!(data.pos, at(3, 4));
}

#[test]
fn gnome_takes_the_only_legal_step() {
    for direction in ALL {
        let mut board = field(3, 3);
        board.set_exits(&at(1, 1), only(direction));
        let (dx, dy) = dir_to_dx_dy(&direction);
        for _ in 0..25 {
            let moved = move_gnome(gnome_at(1, 1, 41), &board);
            assert_eq!(moved.pos, at(1 + dx, 1 + dy));
            assert_eq!(moved.energy, 40);
            assert_eq!(moved.things, vec![Thing::GoldCoin { denom: 25 }; 3]);
        }
    }
}

#[test]
fn gnome_in_a_corridor_of_two_cells() {
    let board = field(1, 2);
    for _ in 0..25 {
        assert_eq!(move_gnome(gnome_at(0, 0, 5), &board).pos, at(0, 1));
        assert_eq!(move_gnome(gnome_at(0, 1, 5), &board).pos, at(0, 0));
    }
    let board = field(2, 1);
    for _ in 0..25 {
        assert_eq!(move_gnome(gnome_at(0, 0, 5), &board).pos, at(1, 0));
        assert_eq!(move_gnome(gnome_at(1, 0, 5), &board).pos, at(0, 0));
    }
}

#[test]
fn gnome_in_a_corner_goes_one_of_two_ways() {
    let board = field(5, 5);
    let mut north = false;
    let mut east = false;
    for _ in 0..200 {
        let moved = move_gnome(gnome_at(0, 0, 41), &board);
        assert!(moved.pos == at(0, 1) || moved.pos == at(1, 0));
        north = north || moved.pos == at(0, 1);
        east = east || moved.pos == at(1, 0);
    }
    assert!(north && east);
}

#[test]
fn gnome_goes_every_way_in_the_open() {
    let board = field(3, 3);
    let mut seen = vec![];
    for _ in 0..400 {
        let direction = choose_direction(&at(1, 1), &board);
        if !seen.contains(&direction) {
            seen.push(direction);
        }
    }
    assert_eq!(seen.len(), 4);
}

#[test]
fn gnome_stays_on_the_board_and_pays_for_each_step() {
    let mut board = field(4, 4);
    board.set_exits(&at(1, 1), only(Direction::North));
    board.set_exits(&at(2, 2), Exits { north: false, south: true, east: true, west: false });
    let mut gnome = gnome_at(0, 0, 37);
    for turn in 1..=300 {
        let before = gnome.pos;
        gnome = move_gnome(gnome, &board);
        assert!(board.contains(&gnome.pos));
        assert_eq!((gnome.pos.x - before.x).abs() + (gnome.pos.y - before.y).abs(), 1);
        assert!(move_in_bounds(&before, &(gnome.pos.x - before.x), &(gnome.pos.y - before.y), &board));
        assert_eq!(gnome.energy, 37 - turn);
    }
}

#[test]
fn gnome_energy_goes_below_zero() {
    let board = field(1, 2);
    assert_eq!(move_gnome(gnome_at(0, 0, 1), &board).energy, 0);
    assert_eq!(move_gnome(gnome_at(0, 0, 0), &board).energy, -1);
    assert_eq!(move_gnome(gnome_at(0, 0, i32::MIN + 1), &board).energy, i32::MIN);
}

#[test]
fn gnome_walks_where_it_is_sent() {
    let board = field(3, 3);
    let moved = walk_gnome(gnome_at(1, 1, 9), &Direction::West, &board);
    assert_eq!(moved.pos, at(0, 1));
    assert_eq!(moved.energy, 8);
    assert_eq!(moved.things.len(), 3);
}

#[test]
fn a_legal_choice_is_handed_out() {
    let board = field(3, 3);
    let mut choices = ALL.to_vec();
    assert_eq!(try_direction(&mut choices, 2, &at(0, 0), &board), Some(Direction::East));
    assert_eq!(choices, ALL.to_vec());
}

#[test]
fn an_illegal_choice_is_struck() {
    let board = field(3, 3);
    let mut choices = ALL.to_vec();
    assert_eq!(try_direction(&mut choices, 1, &at(0, 0), &board), None);
    assert_eq!(choices, vec![Direction::North, Direction::East, Direction::West]);
    assert_eq!(try_direction(&mut choices, 2, &at(0, 0), &board), None);
    assert_eq!(choices, vec![Direction::North, Direction::East]);
    assert_eq!(try_direction(&mut choices, 0, &at(0, 0), &board), Some(Direction::North));
    assert_eq!(choices, vec![Direction::North, Direction::East]);
}

#[test]
fn turn_of_an_explorer_reads_the_inputs() {
    let mut board = field(5, 5);
    board.set_exits(&at(0, 0), only(Direction::North));
    let turn = move_player(Player::Explorer(explorer_at(0, 0)), &board, &lines(&["X", "", "N"]));
    assert!(turn.done);
    assert_eq!(turn.notices, vec![Notice::InvalidCommand, Notice::IgnoredWhitespace]);
    match turn.player {
        Player::Explorer(data) => assert_eq!(data.pos, at(0, 1)),
        _ => panic!("an explorer stays an explorer"),
    }
    let turn = move_player(Player::Explorer(explorer_at(0, 0)), &board, &lines(&["?"]));
    assert!(!turn.done);
    assert_eq!(turn.notices, vec![Notice::InvalidCommand]);
}

#[test]
fn turn_of_a_gnome_needs_no_input() {
    let mut board = walled(3, 3);
    board.set_exits(&at(2, 2), only(Direction::South));
    let turn = move_player(Player::Gnome(gnome_at(2, 2, 41)), &board, &lines(&["N", "x"]));
    assert!(turn.done);
    assert!(turn.notices.is_empty());
    match turn.player {
        Player::Gnome(data) => {
            assert_eq!(data.pos, at(2, 1));
            assert_eq!(data.energy, 40);
        }
        _ => panic!("a gnome stays a gnome"),
    }
}

#[test]
fn turn_of_the_leprechaun_needs_no_input() {
    let board = portal_board();
    let data = LeprechaunData { pos: at(0, 0), things: vec![Thing::MagicWord { id: 7 }] };
    let turn = move_player(Player::Leprechaun(data), &board, &vec![]);
    assert!(turn.done);
    assert!(turn.notices.is_empty());
    match turn.player {
        Player::Leprechaun(data) => assert_eq!(data.pos, at(3, 4)),
        _ => panic!("a leprechaun stays a leprechaun"),
    }
}

#[test]
fn turns_keep_everyone_on_the_board() {
    let mut board = portal_board();
    board.set_exits(&at(2, 2), only(Direction::West));
    let mut players = textadventure::players::build_players(&board);
    for line in ["N", "E", "E", "S", "W", "E", "N", "N"] {
        for _ in 0..players.len() {
            let player = players.pop_front().unwrap();
            let turn = move_player(player, &board, &lines(&[line]));
            assert!(turn.done);
            let spot = match &turn.player {
                Player::Explorer(data) => data.pos,
                Player::Gnome(data) => data.pos,
                Player::Leprechaun(data) => data.pos,
            };
            assert!(board.contains(&spot));
            players.push_back(turn.player);
        }
    }
    assert_eq!(players.len(), 4);
    assert!(!textadventure::players::is_game_over(&players));
}
