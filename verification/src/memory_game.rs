//! The memory game: four buttons A, B, X and Y, a random sequence of four of
//! them shown on the display, and a score of the rounds repeated without a
//! mistake. The best score is kept in the EEPROM.
//!
//! The firmware runs the loop; this module decides each turn. A turn starts
//! with [`MemoryGame::begin_turn`], which closes a completed round and says
//! whether a new sequence must be drawn ([`MemoryGame::set_sequence`]), then
//! one button press is judged by [`MemoryGame::press`]. After a mistake,
//! [`highscore_frame`] says what to write to the EEPROM.

use vstd::prelude::*;
use crate::eeprom::{spec_address_bytes, write_frame};

verus! {

/// Number of buttons in a sequence.
pub const SEQUENCE_LEN: usize = 4;

/// Number of distinct buttons.
pub const BUTTON_COUNT: u8 = 4;

/// EEPROM address of the best score.
pub const HIGHSCORE_ADDRESS: u16 = 0;

/// How long each button of a new sequence stays on the display.
pub const SHOW_BUTTON_MS: u64 = 500;

/// How long the green LED lights after a correct press.
pub const CORRECT_FLASH_MS: u64 = 300;

/// How long the green LED lights after a completed round.
pub const ROUND_WON_FLASH_MS: u64 = 2000;

/// How long the red LED and the mistake message stay after a wrong press.
pub const MISTAKE_FLASH_MS: u64 = 2000;

/// State of a game between turns.
pub struct MemoryGame {
    /// The sequence to repeat, as button numbers (0 = A, 1 = B, 2 = X, 3 = Y).
    pub sequence: [u8; 4],
    /// How many buttons of the sequence have been pressed correctly.
    pub progress: usize,
    /// Rounds completed since the last mistake.
    pub score: u8,
}

/// What the firmware does at the start of a turn.
#[derive(Clone, Copy, Debug, PartialEq, Eq, Structural)]
pub struct TurnStart {
    /// A round was just completed: the score went up; celebrate.
    pub round_won: bool,
    /// A new sequence must be drawn and shown before the next press.
    pub needs_sequence: bool,
}

/// How a button press was judged.
#[derive(Clone, Copy, Debug, PartialEq, Eq, Structural)]
pub enum Press {
    /// The press matched the next button of the sequence.
    Correct,
    /// The press did not match; the game starts over. `score` is the score
    /// that was reached, to be compared with the best score.
    Wrong { score: u8 },
}

/// A sequence drawn from four random bytes: each byte taken modulo four.
pub open spec fn spec_sequence_from_bytes(raw: Seq<u8>) -> Seq<u8> {
    raw.map_values(|b: u8| (b % 4) as u8)
}

/// The letter of a button number, if it is one.
pub open spec fn spec_button_label(value: u8) -> Option<char> {
    if value == 0 {
        Some('A')
    } else if value == 1 {
        Some('B')
    } else if value == 2 {
        Some('X')
    } else if value == 3 {
        Some('Y')
    } else {
        None
    }
}

/// The best score after a game that ended with `score`, when `stored` was the
/// best before it.
pub open spec fn spec_highscore_after(score: u8, stored: u8) -> u8 {
    if score > stored {
        score
    } else {
        stored
    }
}

/// Turns four random bytes into a sequence of button numbers.
pub fn sequence_from_bytes(raw: [u8; 4]) -> (sequence: [u8; 4])
    ensures
        sequence@ == spec_sequence_from_bytes(raw@),
        forall|i: int| 0 <= i < 4 ==> #[trigger] sequence@[i] == raw@[i] % 4,
{
    let sequence: [u8; 4] = [raw[0] % 4, raw[1] % 4, raw[2] % 4, raw[3] % 4];
    assert(sequence@ =~= spec_sequence_from_bytes(raw@));
    sequence
}

/// The letter shown for a button number: A, B, X or Y; `None` for a number
/// that names no button.
pub fn button_label(value: u8) -> (label: Option<char>)
    ensures
        label == spec_button_label(value),
{
    if value == 0 {
        Some('A')
    } else if value == 1 {
        Some('B')
    } else if value == 2 {
        Some('X')
    } else if value == 3 {
        Some('Y')
    } else {
        None
    }
}

/// The EEPROM write that records a game's score as the new best, or `None`
/// when the score does not beat the stored best.
pub fn highscore_frame(score: u8, stored: u8) -> (frame: Option<Vec<u8>>)
    ensures
        frame is Some <==> score > stored,
        frame matches Some(bytes) ==> bytes@ == spec_address_bytes(HIGHSCORE_ADDRESS) + seq![score],
{
    if score > stored {
        let data: [u8; 1] = [score];
        let bytes = write_frame(HIGHSCORE_ADDRESS, &data);
        assert(data@ =~= seq![score]);
        Some(bytes)
    } else {
        None
    }
}

impl MemoryGame {
    /// The progress is within the sequence and every entry names a button.
    pub open spec fn wf(self) -> bool {
        &&& self.progress <= 4
        &&& forall|i: int| 0 <= i < 4 ==> #[trigger] self.sequence@[i] < 4
    }

    /// The start of a turn: a completed round raises the score by one and
    /// starts over.
    pub open spec fn spec_begin_turn(self) -> (MemoryGame, TurnStart) {
        let after = if self.progress == 4 {
            MemoryGame { sequence: self.sequence, progress: 0, score: (self.score + 1) as u8 }
        } else {
            self
        };
        (after, TurnStart { round_won: self.progress == 4, needs_sequence: after.progress == 0 })
    }

    /// A press of button `value`: the next button of the sequence advances,
    /// any other ends the game.
    pub open spec fn spec_press(self, value: u8) -> (MemoryGame, Press) {
        if value == self.sequence@[self.progress as int] {
            (
                MemoryGame { sequence: self.sequence, progress: (self.progress + 1) as usize, score: self.score },
                Press::Correct,
            )
        } else {
            (
                MemoryGame { sequence: self.sequence, progress: 0, score: 0 },
                Press::Wrong { score: self.score },
            )
        }
    }

    /// A new game: no progress, no score.
    pub fn new() -> (game: MemoryGame)
        ensures
            game.wf(),
            game.progress == 0,
            game.score == 0,
            game.sequence@ == seq![0u8, 0u8, 0u8, 0u8],
    {
        let game = MemoryGame { sequence: [0u8, 0u8, 0u8, 0u8], progress: 0, score: 0 };
        assert(game.sequence@ =~= seq![0u8, 0u8, 0u8, 0u8]);
        game
    }

    /// Starts a turn. A completed round (all four buttons pressed) raises
    /// the score and starts over; the result says so, and whether a new
    /// sequence must be drawn.
    pub fn begin_turn(&mut self) -> (start: TurnStart)
        requires
            old(self).wf(),
            old(self).progress == 4 ==> old(self).score < 255,
        ensures
            (*final(self), start) == old(self).spec_begin_turn(),
            final(self).wf(),
            start.round_won <==> old(self).progress == 4,
            old(self).progress < 4 ==> *final(self) == *old(self),
            old(self).progress == 4 ==> final(self).progress == 0 && final(self).score
                == old(self).score + 1 && final(self).sequence == old(self).sequence,
            start.needs_sequence <==> final(self).progress == 0,
    {
        proof {
            lemma_turn_closes_only_full_rounds(*old(self));
        }
        let round_won = self.progress == 4;
        if round_won {
            self.progress = 0;
            self.score = self.score + 1;
        }
        TurnStart { round_won, needs_sequence: self.progress == 0 }
    }

    /// Installs the sequence drawn from four random bytes.
    pub fn set_sequence(&mut self, raw: [u8; 4])
        requires
            old(self).wf(),
        ensures
            final(self).sequence@ == spec_sequence_from_bytes(raw@),
            forall|i: int| 0 <= i < 4 ==> #[trigger] final(self).sequence@[i] == raw@[i] % 4,
            final(self).progress == old(self).progress,
            final(self).score == old(self).score,
            final(self).wf(),
    {
        self.sequence = sequence_from_bytes(raw);
    }

    /// Judges a press of button `value` against the next button of the
    /// sequence.
    pub fn press(&mut self, value: u8) -> (outcome: Press)
        requires
            old(self).wf(),
            old(self).progress < 4,
        ensures
            (*final(self), outcome) == old(self).spec_press(value),
            final(self).wf(),
            final(self).sequence == old(self).sequence,
            value == old(self).sequence@[old(self).progress as int] ==> outcome == Press::Correct
                && final(self).progress == old(self).progress + 1 && final(self).score == old(
                self,
            ).score,
            value != old(self).sequence@[old(self).progress as int] ==> outcome == (Press::Wrong {
                score: old(self).score,
            }) && final(self).progress == 0 && final(self).score == 0,
    {
        proof {
            lemma_press_judges(*old(self), value);
        }
        if value == self.sequence[self.progress] {
            self.progress = self.progress + 1;
            Press::Correct
        } else {
            let score = self.score;
            self.progress = 0;
            self.score = 0;
            Press::Wrong { score }
        }
    }
}

/// A turn closes a round only once all four buttons are pressed: then the
/// score goes up by one and a new sequence is due. A turn started in the
/// middle of a round wins nothing and changes nothing; it asks for a new
/// sequence only before the first press.
pub proof fn lemma_turn_closes_only_full_rounds(game: MemoryGame)
    requires
        game.wf(),
    ensures
        ({
            let (after, start) = game.spec_begin_turn();
            &&& start.round_won <==> game.progress == 4
            &&& game.progress < 4 ==> after == game && start.needs_sequence == (game.progress
                == 0)
            &&& game.progress == 4 ==> after.progress == 0 && after.score == (game.score + 1) as u8
                && after.sequence == game.sequence && start.needs_sequence
            &&& start.needs_sequence <==> after.progress == 0
        }),
{
}

/// A press that matches the next button only moves the progress on by one:
/// the score and the sequence stay. A press that does not match reports the
/// score as it was and clears progress and score. So a mistake reports the
/// rounds completed since the last mistake, no more and no fewer.
pub proof fn lemma_press_judges(game: MemoryGame, value: u8)
    requires
        game.wf(),
        game.progress < 4,
    ensures
        ({
            let (after, outcome) = game.spec_press(value);
            &&& after.sequence == game.sequence
            &&& value == game.sequence@[game.progress as int] ==> outcome == Press::Correct
                && after.progress == game.progress + 1 && after.score == game.score
            &&& value != game.sequence@[game.progress as int] ==> outcome == (Press::Wrong {
                score: game.score,
            }) && after.progress == 0 && after.score == 0
        }),
{
}

/// Within a round, correct presses leave the score alone: after up to three
/// correct presses from the start of a round, a wrong press reports the score
/// the round began with.
pub proof fn lemma_mistake_reports_rounds(game: MemoryGame, correct: nat, wrong: u8)
    requires
        game.wf(),
        game.progress == 0,
        correct < 4,
        wrong != game.sequence@[correct as int],
    ensures
        spec_presses(game, correct).score == game.score,
        spec_presses(game, correct).progress == correct,
        spec_presses(game, correct).spec_press(wrong).1 == (Press::Wrong { score: game.score }),
{
    if correct > 0 {
        lemma_mistake_reports_rounds_prefix(game, (correct - 1) as nat);
    }
}

/// The game after the first `count` buttons of its sequence are pressed in
/// order.
pub open spec fn spec_presses(game: MemoryGame, count: nat) -> MemoryGame
    decreases count,
{
    if count == 0 {
        game
    } else {
        let before = spec_presses(game, (count - 1) as nat);
        before.spec_press(game.sequence@[(count - 1) as int]).0
    }
}

proof fn lemma_mistake_reports_rounds_prefix(game: MemoryGame, count: nat)
    requires
        game.wf(),
        game.progress == 0,
        count < 4,
    ensures
        spec_presses(game, count).score == game.score,
        spec_presses(game, count).progress == count,
        spec_presses(game, count).sequence == game.sequence,
        spec_presses(game, count + 1).score == game.score,
        spec_presses(game, count + 1).progress == count + 1,
        spec_presses(game, count + 1).sequence == game.sequence,
    decreases count,
{
    if count > 0 {
        lemma_mistake_reports_rounds_prefix(game, (count - 1) as nat);
    }
}

/// Each drawn button is its own byte modulo four.
pub proof fn lemma_draw_reduces_each_byte(raw: Seq<u8>)
    ensures
        forall|i: int| 0 <= i < raw.len() ==> #[trigger] spec_sequence_from_bytes(raw)[i] == raw[i] % 4,
{
}

/// The four buttons have four different letters, A, B, X and Y, in the
/// order of their numbers, and no other number has a letter.
pub proof fn lemma_button_labels(value: u8)
    ensures
        value == 0 <==> spec_button_label(value) == Some('A'),
        value == 1 <==> spec_button_label(value) == Some('B'),
        value == 2 <==> spec_button_label(value) == Some('X'),
        value == 3 <==> spec_button_label(value) == Some('Y'),
        spec_button_label(value) is None <==> value >= 4,
{
}

/// Pressing the four buttons of the sequence in order, from the start of a
/// round, completes it: the next turn raises the score by one, starts over
/// and asks for a new sequence.
pub proof fn lemma_round_completes(game: MemoryGame)
    requires
        game.wf(),
        game.progress == 0,
        game.score < 255,
    ensures
        ({
            let (g1, p1) = game.spec_press(game.sequence@[0]);
            let (g2, p2) = g1.spec_press(game.sequence@[1]);
            let (g3, p3) = g2.spec_press(game.sequence@[2]);
            let (g4, p4) = g3.spec_press(game.sequence@[3]);
            let (g5, start) = g4.spec_begin_turn();
            &&& p1 == Press::Correct && p2 == Press::Correct
            &&& p3 == Press::Correct && p4 == Press::Correct
            &&& g4.progress == 4
            &&& start == (TurnStart { round_won: true, needs_sequence: true })
            &&& g5.score == game.score + 1
            &&& g5.progress == 0
            &&& g5.sequence == game.sequence
        }),
{
}

/// A wrong press, at any point of a round, ends the game: the score reached
/// is reported and the next round starts from nothing.
pub proof fn lemma_mistake_resets(game: MemoryGame, value: u8)
    requires
        game.wf(),
        game.progress < 4,
        value != game.sequence@[game.progress as int],
    ensures
        ({
            let (after, outcome) = game.spec_press(value);
            &&& outcome == (Press::Wrong { score: game.score })
            &&& after.score == 0
            &&& after.progress == 0
            &&& after.spec_begin_turn().1.needs_sequence
        }),
{
}

/// Every turn and press keeps a game well formed.
pub proof fn lemma_wf_kept(game: MemoryGame, value: u8)
    requires
        game.wf(),
    ensures
        game.spec_begin_turn().0.wf(),
        game.progress < 4 ==> game.spec_press(value).0.wf(),
{
}

/// A drawn sequence names only buttons, and drawing again from it changes
/// nothing.
pub proof fn lemma_sequence_names_buttons(raw: Seq<u8>)
    ensures
        spec_sequence_from_bytes(raw).len() == raw.len(),
        forall|i: int| 0 <= i < raw.len() ==> #[trigger] spec_sequence_from_bytes(raw)[i] < 4,
        spec_sequence_from_bytes(spec_sequence_from_bytes(raw)) == spec_sequence_from_bytes(raw),
{
    let s = spec_sequence_from_bytes(raw);
    assert forall|i: int| 0 <= i < raw.len() implies #[trigger] s[i] < 4 by {
        assert(s[i] == (raw[i] % 4) as u8);
    }
    assert(spec_sequence_from_bytes(s) =~= s);
}

/// How many of the bytes `0 .. n`, put at position `i` of `raw`, draw the
/// button `value` there.
pub open spec fn spec_bytes_drawing(raw: Seq<u8>, i: int, value: u8, n: nat) -> nat
    decreases n,
{
    if n == 0 {
        0
    } else {
        spec_bytes_drawing(raw, i, value, (n - 1) as nat) + if spec_sequence_from_bytes(
            raw.update(i, (n - 1) as u8),
        )[i] == value {
            1nat
        } else {
            0nat
        }
    }
}

/// Each block of four consecutive bytes draws every button exactly once.
proof fn lemma_bytes_drawing_blocks(raw: Seq<u8>, i: int, value: u8, k: nat)
    requires
        0 <= i < raw.len(),
        value < 4,
        k <= 64,
    ensures
        spec_bytes_drawing(raw, i, value, 4 * k) == k,
    decreases k,
{
    if k > 0 {
        let j = (k - 1) as nat;
        lemma_bytes_drawing_blocks(raw, i, value, j);
        let base = 4 * j;
        assert(spec_bytes_drawing(raw, i, value, base + 1) == spec_bytes_drawing(raw, i, value, base)
            + if spec_sequence_from_bytes(raw.update(i, base as u8))[i] == value { 1nat } else { 0nat });
        assert(spec_bytes_drawing(raw, i, value, base + 2) == spec_bytes_drawing(raw, i, value, base + 1)
            + if spec_sequence_from_bytes(raw.update(i, (base + 1) as u8))[i] == value { 1nat } else { 0nat });
        assert(spec_bytes_drawing(raw, i, value, base + 3) == spec_bytes_drawing(raw, i, value, base + 2)
            + if spec_sequence_from_bytes(raw.update(i, (base + 2) as u8))[i] == value { 1nat } else { 0nat });
        assert(spec_bytes_drawing(raw, i, value, base + 4) == spec_bytes_drawing(raw, i, value, base + 3)
            + if spec_sequence_from_bytes(raw.update(i, (base + 3) as u8))[i] == value { 1nat } else { 0nat });
        assert(spec_sequence_from_bytes(raw.update(i, base as u8))[i] == (base % 4) as u8);
        assert(spec_sequence_from_bytes(raw.update(i, (base + 1) as u8))[i] == ((base + 1) % 4) as u8);
        assert(spec_sequence_from_bytes(raw.update(i, (base + 2) as u8))[i] == ((base + 2) % 4) as u8);
        assert(spec_sequence_from_bytes(raw.update(i, (base + 3) as u8))[i] == ((base + 3) % 4) as u8);
        assert(4 * k == base + 4);
    }
}

/// The draw has no bias: at every position, each button is drawn by exactly
/// 64 of the 256 byte values, and what a position draws depends on its own
/// byte alone. Uniform, independent random bytes thus give uniform,
/// independent buttons.
pub proof fn lemma_draw_is_uniform(raw: Seq<u8>, other: Seq<u8>, i: int, value: u8)
    requires
        0 <= i < raw.len(),
        raw.len() == other.len(),
        value < 4,
    ensures
        spec_bytes_drawing(raw, i, value, 256) == 64,
        raw[i] == other[i] ==> spec_sequence_from_bytes(raw)[i] == spec_sequence_from_bytes(
            other,
        )[i],
{
    lemma_bytes_drawing_blocks(raw, i, value, 64);
}

/// The best score never goes down and is at least the score of the last
/// game: it is the larger of the two.
pub proof fn lemma_highscore_is_max(score: u8, stored: u8)
    ensures
        spec_highscore_after(score, stored) >= stored,
        spec_highscore_after(score, stored) >= score,
        spec_highscore_after(score, stored) == score || spec_highscore_after(score, stored)
            == stored,
{
}

/// The best score is read back from where it is written: the write frame
/// starts with the address bytes that a read of the best score sends, and its
/// one data byte is the score.
pub proof fn lemma_highscore_read_back(score: u8, stored: u8)
    requires
        score > stored,
    ensures
        ({
            let frame = spec_address_bytes(HIGHSCORE_ADDRESS) + seq![score];
            &&& frame.take(2) == spec_address_bytes(HIGHSCORE_ADDRESS)
            &&& frame.len() == 3
            &&& frame[2] == spec_highscore_after(score, stored)
        }),
{
    let frame = spec_address_bytes(HIGHSCORE_ADDRESS) + seq![score];
    assert(frame.take(2) =~= spec_address_bytes(HIGHSCORE_ADDRESS));
}

} // verus!
