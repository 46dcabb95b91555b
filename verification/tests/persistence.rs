use game_of_life::codec::{from_be_bytes, to_be_bytes, LoadError, DUMP_BYTES};
use game_of_life::game::{GameState, State};
use game_of_life::grid::{ALIVE, DEAD, HOVER};

fn sample() -> GameState {
    let mut game = GameState::init();
    game.draw_point(0, 0, false);
    game.draw_point(16, 0, false);
    game.draw_point(48, 32, false);
    game.draw_point(799, 799, false);
    game.hover(32, 0);
    game
}

fn dump_of(words: &[(usize, u32)]) -> Vec<u8> {
    let mut data = vec![0u8; 10000];
    for &(i, w) in words {
        data[4 * i..4 * i + 4].copy_from_slice(&w.to_be_bytes());
    }
    data
}

#[test]
fn word_bytes_come_most_significant_first() {
    assert_eq!(to_be_bytes(0x0102_0304), [1, 2, 3, 4]);
    assert_eq!(to_be_bytes(0), [0, 0, 0, 0]);
    assert_eq!(to_be_bytes(1), [0, 0, 0, 1]);
    assert_eq!(to_be_bytes(2), [0, 0, 0, 2]);
    assert_eq!(to_be_bytes(256), [0, 0, 1, 0]);
    assert_eq!(to_be_bytes(u32::MAX), [255, 255, 255, 255]);
    assert_eq!(to_be_bytes(0xdead_beef), 0xdead_beefu32.to_be_bytes());
}

#[test]
fn word_is_read_most_significant_byte_first() {
    assert_eq!(from_be_bytes([1, 2, 3, 4]), 0x0102_0304);
    assert_eq!(from_be_bytes([0, 0, 0, 0]), 0);
    assert_eq!(from_be_bytes([0, 0, 0, 2]), 2);
    assert_eq!(from_be_bytes([2, 0, 0, 0]), 0x0200_0000);
    assert_eq!(from_be_bytes([255, 255, 255, 255]), u32::MAX);
    assert_eq!(from_be_bytes([0xca, 0xfe, 0xba, 0xbe]), u32::from_be_bytes([0xca, 0xfe, 0xba, 0xbe]));
}

#[test]
fn word_round_trip() {
    for w in [0u32, 1, 2, 255, 256, 65535, 65536, 0x00ff_ffff, 0x0100_0000, 0x8000_0000, u32::MAX] {
        assert_eq!(from_be_bytes(to_be_bytes(w)), w);
    }
}

#[test]
fn dump_of_the_empty_grid_is_all_zero() {
    let bytes = GameState::init().save();
    assert_eq!(bytes.len(), 10000);
    assert_eq!(bytes.len(), DUMP_BYTES);
    assert!(bytes.iter().all(|&b| b == 0));
}

#[test]
fn dump_holds_one_word_for_each_cell() {
    let bytes = sample().save();
    assert_eq!(bytes.len(), 10000);
    assert_eq!(&bytes[0..4], &[0, 0, 0, 1]);
    assert_eq!(&bytes[4..8], &[0, 0, 0, 1]);
    assert_eq!(&bytes[8..12], &[0, 0, 0, 2]);
    assert_eq!(&bytes[12..16], &[0, 0, 0, 0]);
    assert_eq!(&bytes[4 * 103..4 * 103 + 4], &[0, 0, 0, 1]);
    assert_eq!(&bytes[9996..10000], &[0, 0, 0, 1]);
    let set: usize = bytes.iter().filter(|&&b| b != 0).count();
    assert_eq!(set, 5);
}

#[test]
fn save_does_not_change_the_game() {
    let game = sample();
    let before = *game.screen();
    let _ = game.save();
    assert_eq!(*game.screen(), before);
    assert_eq!(game.state(), State::Paused);
}

#[test]
fn load_gives_back_what_save_wrote() {
    let game = sample();
    let bytes = game.save();
    let mut other = GameState::init();
    other.draw_point(400, 400, false);
    assert_eq!(other.load(&bytes), Ok(()));
    assert_eq!(*other.screen(), *game.screen());
    assert_eq!(other.save(), bytes);
}

#[test]
fn load_after_save_on_the_same_game_changes_nothing() {
    let mut game = sample();
    let before = *game.screen();
    let bytes = game.save();
    assert_eq!(game.load(&bytes), Ok(()));
    assert_eq!(*game.screen(), before);
}

#[test]
fn load_restores_the_grid_after_edits() {
    let mut game = sample();
    let before = *game.screen();
    let bytes = game.save();
    game.clear();
    game.draw_point(500, 500, false);
    game.hover(600, 600);
    assert_eq!(game.load(&bytes), Ok(()));
    assert_eq!(*game.screen(), before);
}

#[test]
fn load_keeps_the_mode() {
    let bytes = sample().save();
    let mut game = GameState::init();
    game.toggle();
    assert_eq!(game.load(&bytes), Ok(()));
    assert_eq!(game.state(), State::Playing);
}

#[test]
fn load_reads_words_into_cells() {
    let mut game = GameState::init();
    let data = dump_of(&[(0, 1), (7, 2), (2499, 1)]);
    assert_eq!(game.load(&data), Ok(()));
    assert_eq!(game.screen()[0], ALIVE);
    assert_eq!(game.screen()[7], HOVER);
    assert_eq!(game.screen()[2499], ALIVE);
    assert_eq!(game.screen().iter().filter(|&&c| c == DEAD).count(), 2497);
}

#[test]
fn load_ignores_bytes_after_the_dump() {
    let game = sample();
    let mut bytes = game.save();
    bytes.extend_from_slice(&[9, 9, 9, 9, 9]);
    let mut other = GameState::init();
    assert_eq!(other.load(&bytes), Ok(()));
    assert_eq!(*other.screen(), *game.screen());
}

#[test]
fn load_refuses_a_short_dump() {
    let mut game = sample();
    let before = *game.screen();
    let bytes = game.save();
    assert_eq!(game.load(&bytes[..9999]), Err(LoadError::Truncated));
    assert_eq!(game.load(&bytes[..4]), Err(LoadError::Truncated));
    assert_eq!(game.load(&[]), Err(LoadError::Truncated));
    assert_eq!(*game.screen(), before);
}

#[test]
fn load_refuses_a_word_that_is_no_code() {
    let mut game = sample();
    let before = *game.screen();
    assert_eq!(game.load(&dump_of(&[(0, 3)])), Err(LoadError::BadCell));
    assert_eq!(game.load(&dump_of(&[(2499, 3)])), Err(LoadError::BadCell));
    assert_eq!(game.load(&dump_of(&[(100, 0x0100_0000)])), Err(LoadError::BadCell));
    assert_eq!(game.load(&dump_of(&[(100, 0x0000_0100)])), Err(LoadError::BadCell));
    assert_eq!(game.load(&dump_of(&[(100, u32::MAX)])), Err(LoadError::BadCell));
    assert_eq!(*game.screen(), before);
}

#[test]
fn load_refuses_two_marks() {
    let mut game = sample();
    let before = *game.screen();
    assert_eq!(game.load(&dump_of(&[(3, 2), (4, 2)])), Err(LoadError::ManyHovers));
    assert_eq!(game.load(&dump_of(&[(0, 2), (1, 1), (2499, 2)])), Err(LoadError::ManyHovers));
    assert_eq!(game.load(&dump_of(&[(5, 2), (6, 2), (7, 2)])), Err(LoadError::ManyHovers));
    assert_eq!(*game.screen(), before);
}

#[test]
fn bad_word_is_reported_before_two_marks() {
    let mut game = GameState::init();
    assert_eq!(game.load(&dump_of(&[(3, 2), (4, 2), (5, 9)])), Err(LoadError::BadCell));
    assert_eq!(game.load(&dump_of(&[(1, 9), (3, 2), (4, 2)])), Err(LoadError::BadCell));
}

#[test]
fn short_dump_is_reported_before_its_words() {
    let mut game = GameState::init();
    let data = dump_of(&[(0, 9), (1, 2), (2, 2)]);
    assert_eq!(game.load(&data[..9000]), Err(LoadError::Truncated));
}
