use pico_lab::eeprom::{address_bytes, write_frame};
use pico_lab::memory_game::{
    button_label, highscore_frame, sequence_from_bytes, MemoryGame, Press, TurnStart,
};

#[test]
fn eeprom_address_is_big_endian() {
    assert_eq!(address_bytes(0), [0, 0]);
    assert_eq!(address_bytes(0x1234), [0x12, 0x34]);
    assert_eq!(address_bytes(0xffff), [0xff, 0xff]);
}

#[test]
fn eeprom_write_frame_prefixes_address() {
    assert_eq!(write_frame(0x0102, &[7, 8, 9]), vec![1, 2, 7, 8, 9]);
    assert_eq!(write_frame(0, &[]), vec![0, 0]);
}

#[test]
fn sequence_bytes_reduced_mod_four() {
    assert_eq!(sequence_from_bytes([0, 5, 10, 255]), [0, 1, 2, 3]);
    assert_eq!(sequence_from_bytes([4, 8, 7, 3]), [0, 0, 3, 3]);
    let once = sequence_from_bytes([200, 13, 99, 42]);
    assert_eq!(sequence_from_bytes(once), once);
}

#[test]
fn button_labels() {
    assert_eq!(button_label(0), Some('A'));
    assert_eq!(button_label(1), Some('B'));
    assert_eq!(button_label(2), Some('X'));
    assert_eq!(button_label(3), Some('Y'));
    assert_eq!(button_label(4), None);
}

#[test]
fn highscore_written_only_when_beaten() {
    assert_eq!(highscore_frame(3, 2), Some(vec![0, 0, 3]));
    assert_eq!(highscore_frame(2, 2), None);
    assert_eq!(highscore_frame(0, 5), None);
}

#[test]
fn game_round_completes() {
    let mut g = MemoryGame::new();
    assert_eq!(g.begin_turn(), TurnStart { round_won: false, needs_sequence: true });
    g.set_sequence([6, 3, 4, 9]);
    assert_eq!(g.sequence, [2, 3, 0, 1]);
    for b in [2u8, 3, 0, 1] {
        assert_eq!(g.press(b), Press::Correct);
    }
    assert_eq!(g.progress, 4);
    assert_eq!(g.begin_turn(), TurnStart { round_won: true, needs_sequence: true });
    assert_eq!(g.score, 1);
    assert_eq!(g.progress, 0);
}

#[test]
fn game_turn_mid_round_keeps_sequence() {
    let mut g = MemoryGame::new();
    g.set_sequence([1, 1, 1, 1]);
    assert_eq!(g.press(1), Press::Correct);
    assert_eq!(g.begin_turn(), TurnStart { round_won: false, needs_sequence: false });
    assert_eq!(g.progress, 1);
}

#[test]
fn game_mistake_reports_score_and_resets() {
    let mut g = MemoryGame::new();
    g.set_sequence([0, 1, 2, 3]);
    for b in [0u8, 1, 2, 3] {
        g.press(b);
    }
    g.begin_turn();
    g.set_sequence([3, 3, 3, 3]);
    assert_eq!(g.press(3), Press::Correct);
    assert_eq!(g.press(2), Press::Wrong { score: 1 });
    assert_eq!(g.score, 0);
    assert_eq!(g.progress, 0);
    assert_eq!(g.begin_turn(), TurnStart { round_won: false, needs_sequence: true });
}

#[test]
fn draw_has_no_modulo_bias() {
    for position in 0..4usize {
        let mut counts = [0u32; 4];
        for b in 0..=255u8 {
            let mut raw = [17u8, 42, 99, 200];
            raw[position] = b;
            counts[sequence_from_bytes(raw)[position] as usize] += 1;
        }
        assert_eq!(counts, [64, 64, 64, 64]);
    }
}
