use tetris::chance::{piece_index, random_index};
use tetris::play::{Input, Play, Rules, StackMino};
use tetris::shapes::{Game, PIECES};
use tetris::stage::{BLOCK_SIZE, STAGE_HEIGHT, STAGE_WIDTH, STAGE_X, STAGE_Y};

const BLOCK: i32 = BLOCK_SIZE as i32;
const FLOOR: i32 = STAGE_Y + STAGE_HEIGHT as i32;
const RIGHT_EDGE: i32 = STAGE_X + STAGE_WIDTH as i32;

fn at(rules: Rules, index: usize, x: i32, y: i32, counter: i32) -> Play {
    Play {
        rules,
        index,
        position_x: x,
        position_y: y,
        counter,
        rotate_count: 0,
        is_rotate: false,
        stack_minos: Vec::new(),
    }
}

#[test]
fn piece_index_is_the_remainder_by_four() {
    assert_eq!(piece_index(0), 0);
    assert_eq!(piece_index(3), 3);
    assert_eq!(piece_index(4), 0);
    assert_eq!(piece_index(7), 3);
    assert_eq!(piece_index(usize::MAX), usize::MAX % 4);
}

#[test]
fn random_index_is_in_the_catalog() {
    for _ in 0..200 {
        assert!(random_index() < PIECES);
    }
}

#[test]
fn new_game_starts_at_the_top_left_of_the_stage() {
    let play = Play::new(Rules::Stacking, 6);
    assert_eq!(play.rules, Rules::Stacking);
    assert_eq!(play.index, 2);
    assert_eq!(play.position_x, STAGE_X);
    assert_eq!(play.position_y, STAGE_Y);
    assert_eq!(play.counter, 0);
    assert_eq!(play.rotate_count, 0);
    assert!(!play.is_rotate);
    assert!(play.stack_minos.is_empty());
    assert!(play.has_room(0));
}

#[test]
fn begin_picks_a_piece_of_the_catalog() {
    for _ in 0..50 {
        let play = Play::begin(Rules::Plain);
        assert!(play.index < PIECES);
        assert_eq!(play.rules, Rules::Plain);
        assert_eq!((play.position_x, play.position_y), (STAGE_X, STAGE_Y));
        assert_eq!(play.counter, 0);
        assert!(play.stack_minos.is_empty());
    }
}

#[test]
fn left_at_the_left_edge_moves_nothing() {
    let mut play = Play::new(Rules::Stacking, 0);
    play.press(Input::Left);
    assert_eq!(play.position_x, STAGE_X);
    assert_eq!(play.position_y, STAGE_Y);
}

#[test]
fn right_at_the_right_edge_moves_nothing() {
    let mut play = at(Rules::Stacking, 0, RIGHT_EDGE, STAGE_Y, 0);
    play.press(Input::Right);
    assert_eq!(play.position_x, RIGHT_EDGE);
    assert_eq!(play.position_y, STAGE_Y);
}

#[test]
fn left_and_right_move_by_one_block() {
    let mut play = Play::new(Rules::Plain, 0);
    play.press(Input::Right);
    assert_eq!(play.position_x, STAGE_X + BLOCK);
    play.press(Input::Right);
    assert_eq!(play.position_x, STAGE_X + 2 * BLOCK);
    play.press(Input::Left);
    assert_eq!(play.position_x, STAGE_X + BLOCK);
    let mut last = at(Rules::Plain, 0, RIGHT_EDGE - 1, STAGE_Y, 0);
    last.press(Input::Right);
    assert_eq!(last.position_x, RIGHT_EDGE - 1 + BLOCK);
}

#[test]
fn right_stops_after_ten_blocks() {
    let mut play = Play::new(Rules::Stacking, 0);
    for _ in 0..25 {
        play.press(Input::Right);
    }
    assert_eq!(play.position_x, RIGHT_EDGE);
    for _ in 0..25 {
        play.press(Input::Left);
    }
    assert_eq!(play.position_x, STAGE_X);
}

#[test]
fn up_turns_and_counts_round_to_zero() {
    let mut play = Play::new(Rules::Stacking, 0);
    let mut counts: Vec<i32> = Vec::new();
    let mut turns: Vec<bool> = Vec::new();
    for _ in 0..6 {
        play.press(Input::Up);
        counts.push(play.rotate_count);
        turns.push(play.is_rotate);
    }
    assert_eq!(counts, vec![1, 2, 3, 4, 0, 1]);
    assert_eq!(turns, vec![true, false, true, false, true, false]);
}

#[test]
fn up_only_turns_under_the_plain_rules() {
    let mut play = Play::new(Rules::Plain, 0);
    play.press(Input::Up);
    assert!(play.is_rotate);
    assert_eq!(play.rotate_count, 0);
    play.press(Input::Up);
    assert!(!play.is_rotate);
    assert_eq!(play.rotate_count, 0);
}

#[test]
fn down_drops_one_block_under_the_stacking_rules_only() {
    let mut play = Play::new(Rules::Stacking, 0);
    play.press(Input::Down);
    assert_eq!(play.position_y, STAGE_Y + BLOCK);
    assert_eq!(play.counter, 0);
    let mut far = at(Rules::Stacking, 0, STAGE_X, 5000, 0);
    far.press(Input::Down);
    assert_eq!(far.position_y, 5000 + BLOCK);
    let mut plain = Play::new(Rules::Plain, 0);
    plain.press(Input::Down);
    assert_eq!(plain.position_y, STAGE_Y);
}

#[test]
fn other_inputs_change_nothing() {
    let mut play = at(Rules::Stacking, 1, 304, 108, 17);
    play.press(Input::Other);
    play.press(Input::Quit);
    assert_eq!(
        (play.index, play.position_x, play.position_y, play.counter, play.rotate_count, play.is_rotate),
        (1, 304, 108, 17, 0, false)
    );
}

#[test]
fn poll_applies_the_inputs_in_order() {
    let mut play = Play::new(Rules::Stacking, 0);
    let quit = play.poll(&vec![Input::Right, Input::Right, Input::Down, Input::Up, Input::Left, Input::Other]);
    assert!(!quit);
    assert_eq!(play.position_x, STAGE_X + BLOCK);
    assert_eq!(play.position_y, STAGE_Y + BLOCK);
    assert!(play.is_rotate);
    assert_eq!(play.rotate_count, 1);
    assert!(!play.poll(&Vec::new()));
}

#[test]
fn poll_stops_at_the_first_quit() {
    let mut play = Play::new(Rules::Stacking, 0);
    let quit = play.poll(&vec![Input::Right, Input::Quit, Input::Right, Input::Down]);
    assert!(quit);
    assert_eq!(play.position_x, STAGE_X + BLOCK);
    assert_eq!(play.position_y, STAGE_Y);
}

#[test]
fn on_floor_from_one_block_above_the_bottom_edge() {
    assert!(!Play::on_floor(FLOOR - BLOCK - 1));
    assert!(Play::on_floor(FLOOR - BLOCK));
    assert!(Play::on_floor(FLOOR));
    assert!(Play::on_floor(i32::MAX - BLOCK));
    assert!(!Play::on_floor(0));
}

#[test]
fn gravity_at_the_threshold_drops_one_block() {
    let mut play = at(Rules::Stacking, 0, STAGE_X, 132, 60);
    play.fall(FLOOR - BLOCK - 1);
    assert_eq!(play.position_y, 132 + BLOCK);
    assert_eq!(play.counter, 0);
    assert_eq!(play.position_x, STAGE_X);
}

#[test]
fn gravity_waits_below_the_threshold() {
    let mut play = at(Rules::Stacking, 0, STAGE_X, 132, 59);
    play.fall(156);
    assert_eq!(play.position_y, 132);
    assert_eq!(play.counter, 60);
}

#[test]
fn gravity_holds_a_piece_on_the_floor() {
    let mut play = at(Rules::Plain, 0, STAGE_X, 492, 60);
    play.fall(FLOOR - BLOCK);
    assert_eq!(play.position_y, 492);
    assert_eq!(play.counter, 61);
    play.fall(FLOOR - BLOCK);
    assert_eq!(play.counter, 62);
    assert_eq!(play.position_y, 492);
}

#[test]
fn settle_keeps_the_piece_and_brings_the_next() {
    let game = Game::new();
    let mut play = at(Rules::Stacking, 1, 328, 468, 33);
    play.is_rotate = true;
    play.rotate_count = 3;
    play.settle(game.tetrimino(1), 6);
    assert_eq!(play.stack_minos.len(), 1);
    assert_eq!(play.stack_minos[0].mino, game.tetriminoes[1]);
    assert_eq!((play.stack_minos[0].x, play.stack_minos[0].y), (328, 468));
    assert_eq!((play.position_x, play.position_y), (STAGE_X, STAGE_Y));
    assert_eq!(play.index, 2);
    assert_eq!(play.counter, 33);
    assert!(play.is_rotate);
    assert_eq!(play.rotate_count, 3);
}

#[test]
fn sixty_one_frames_drop_the_square_by_one_block() {
    let game = Game::new();
    let mut play = Play::new(Rules::Stacking, 0);
    let none: Vec<Input> = Vec::new();
    for frame in 1..=60 {
        assert!(play.frame(&game, &none).is_some());
        assert_eq!(play.counter, frame);
        assert_eq!(play.position_y, STAGE_Y);
    }
    let drawing = play.frame(&game, &none).unwrap();
    assert_eq!(drawing.bottom_y, STAGE_Y + BLOCK);
    assert_eq!(play.position_y, STAGE_Y + BLOCK);
    assert_eq!(play.counter, 0);
    assert_eq!(play.position_x, STAGE_X);
    assert_eq!(play.index, 0);
    assert!(play.stack_minos.is_empty());
}

#[test]
fn frame_shows_the_stage_after_the_inputs() {
    let game = Game::new();
    let mut play = Play::new(Rules::Stacking, 0);
    let drawing = play.frame_with(&game, &vec![Input::Right, Input::Down], 0).unwrap();
    assert_eq!(drawing.blocks, vec![(304, 84), (328, 84), (304, 108), (328, 108)]);
    assert_eq!(drawing.bottom_y, 108);
    assert_eq!(play.counter, 1);
    assert_eq!((play.position_x, play.position_y), (304, 84));
}

#[test]
fn frame_with_a_quit_shows_nothing_and_skips_gravity() {
    let game = Game::new();
    let mut play = at(Rules::Stacking, 0, STAGE_X, 492, 60);
    let drawn = play.frame(&game, &vec![Input::Right, Input::Quit, Input::Down]);
    assert!(drawn.is_none());
    assert_eq!(play.counter, 60);
    assert_eq!((play.position_x, play.position_y), (STAGE_X + BLOCK, 492));
    assert!(play.stack_minos.is_empty());
}

#[test]
fn landing_settles_the_piece_once_and_respawns() {
    let game = Game::new();
    let mut play = at(Rules::Stacking, 0, 304, 492, 10);
    let none: Vec<Input> = Vec::new();
    let drawing = play.frame_with(&game, &none, 7).unwrap();
    assert_eq!(drawing.bottom_y, 516);
    assert_eq!(drawing.blocks, vec![(304, 492), (328, 492), (304, 516), (328, 516)]);
    assert_eq!(play.stack_minos.len(), 1);
    assert_eq!(play.stack_minos[0].mino, game.tetriminoes[0]);
    assert_eq!((play.stack_minos[0].x, play.stack_minos[0].y), (304, 492));
    assert_eq!((play.position_x, play.position_y), (STAGE_X, STAGE_Y));
    assert_eq!(play.index, 3);
    assert_eq!(play.counter, 11);
    let next = play.frame_with(&game, &none, 1).unwrap();
    assert_eq!(play.stack_minos.len(), 1);
    assert_eq!(play.index, 3);
    assert_eq!(next.blocks.len(), 8);
    assert_eq!(&next.blocks[..4], &[(304, 492), (328, 492), (304, 516), (328, 516)]);
    assert_eq!(&next.blocks[4..], &[(280, 60), (280, 84), (304, 84), (304, 108)]);
    assert_eq!(next.bottom_y, 108);
}

#[test]
fn a_piece_one_block_above_the_floor_does_not_land() {
    let game = Game::new();
    let mut play = at(Rules::Stacking, 0, STAGE_X, 468, 60);
    let none: Vec<Input> = Vec::new();
    play.frame_with(&game, &none, 2).unwrap();
    assert!(play.stack_minos.is_empty());
    assert_eq!(play.position_y, 492);
    assert_eq!(play.counter, 0);
    assert_eq!(play.index, 0);
    play.frame_with(&game, &none, 2).unwrap();
    assert_eq!(play.stack_minos.len(), 1);
    assert_eq!(play.stack_minos[0].y, 492);
    assert_eq!(play.index, 2);
    assert_eq!(play.counter, 1);
}

#[test]
fn landing_past_the_threshold_keeps_the_counter() {
    let game = Game::new();
    let mut play = at(Rules::Stacking, 2, STAGE_X, 444, 60);
    let none: Vec<Input> = Vec::new();
    play.frame_with(&game, &none, 0).unwrap();
    assert_eq!(play.stack_minos.len(), 1);
    assert_eq!(play.counter, 61);
    assert_eq!(play.position_y, STAGE_Y);
    play.frame_with(&game, &none, 0).unwrap();
    assert_eq!(play.counter, 0);
    assert_eq!(play.position_y, STAGE_Y + BLOCK);
    assert_eq!(play.stack_minos.len(), 1);
}

#[test]
fn soft_drop_past_the_floor_lands_in_the_same_frame() {
    let game = Game::new();
    let mut play = Play::new(Rules::Stacking, 2);
    let downs: Vec<Input> = vec![Input::Down; 30];
    assert!(play.has_room(downs.len()));
    let drawing = play.frame_with(&game, &downs, 5).unwrap();
    assert_eq!(drawing.bottom_y, STAGE_Y + 30 * BLOCK + 3 * BLOCK);
    assert_eq!(play.stack_minos.len(), 1);
    assert_eq!(play.stack_minos[0].y, STAGE_Y + 30 * BLOCK);
    assert_eq!(play.position_y, STAGE_Y);
    assert_eq!(play.index, 1);
}

#[test]
fn frame_by_chance_brings_a_piece_of_the_catalog() {
    let game = Game::new();
    let none: Vec<Input> = Vec::new();
    for _ in 0..50 {
        let mut play = at(Rules::Stacking, 0, STAGE_X, 492, 0);
        play.frame(&game, &none).unwrap();
        assert_eq!(play.stack_minos.len(), 1);
        assert!(play.index < PIECES);
        assert_eq!((play.position_x, play.position_y), (STAGE_X, STAGE_Y));
    }
}

#[test]
fn plain_rules_rest_on_the_floor_for_good() {
    let game = Game::new();
    let mut play = at(Rules::Plain, 0, STAGE_X, 492, 60);
    for frame in 0..5 {
        let drawing = play.frame(&game, &vec![Input::Down]).unwrap();
        assert_eq!(drawing.bottom_y, 516);
        assert_eq!(play.position_y, 492);
        assert_eq!(play.counter, 61 + frame);
        assert_eq!(play.index, 0);
        assert!(play.stack_minos.is_empty());
    }
}

#[test]
fn plain_rules_fall_to_the_floor() {
    let game = Game::new();
    let mut play = Play::new(Rules::Plain, 0);
    let none: Vec<Input> = Vec::new();
    for _ in 0..(61 * 18) {
        play.frame(&game, &none).unwrap();
    }
    assert_eq!(play.position_y, STAGE_Y + 18 * BLOCK);
    assert_eq!(play.counter, 0);
    for _ in 0..200 {
        play.frame(&game, &none).unwrap();
    }
    assert_eq!(play.position_y, STAGE_Y + 18 * BLOCK);
    assert_eq!(play.counter, 200);
}

#[test]
fn draw_lays_out_landed_pieces_first_and_never_turned() {
    let game = Game::new();
    let mut play = at(Rules::Stacking, 2, 400, 100, 0);
    play.is_rotate = true;
    play.stack_minos.push(StackMino { mino: game.tetrimino(2), x: 280, y: 444 });
    play.stack_minos.push(StackMino { mino: game.tetrimino(0), x: 304, y: 492 });
    let drawing = play.draw(&game);
    assert_eq!(
        drawing.blocks,
        vec![
            (280, 444), (280, 468), (280, 492), (280, 516),
            (304, 492), (328, 492), (304, 516), (328, 516),
            (472, 100), (448, 100), (424, 100), (400, 100),
        ]
    );
    assert_eq!(drawing.bottom_y, 100);
}

#[test]
fn has_room_tells_when_the_numbers_fit() {
    let play = Play::new(Rules::Stacking, 0);
    assert!(play.has_room(0));
    assert!(play.has_room(1000));
    assert!(!play.has_room(usize::MAX));
    let limit = ((i32::MAX - STAGE_Y) / BLOCK - 4) as usize;
    assert!(play.has_room(limit));
    assert!(!play.has_room(limit + 1));
    assert!(!at(Rules::Stacking, 0, STAGE_X, STAGE_Y, i32::MAX).has_room(0));
    assert!(at(Rules::Stacking, 0, i32::MAX - 72, STAGE_Y, 0).has_room(0));
    assert!(!at(Rules::Stacking, 0, i32::MAX - 71, STAGE_Y, 0).has_room(0));
}
