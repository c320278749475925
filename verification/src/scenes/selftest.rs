//! The boot screen: two seconds of log lines, then a tune, then the menu.

use vstd::prelude::*;
use vstd::string::{StrSliceExecFns, StringExecFns};
use crate::log_buffer::{LogEntry, LogLevel};
use crate::output::Output;
use crate::scenes::{SceneWrapper, UpdateResult};

verus! {

/// Time that a tick adds to the scene's clock, in milliseconds.
pub const TICK_MS: u32 = 32;

/// Duration to show logs before the tune starts.
pub const LOG_DISPLAY_MS: u32 = 2000;

/// Duration after the logs at which the scene ends at the latest.
pub const FINAL_DELAY_MS: u32 = 3000;

/// Maximum number of log lines that fit on the screen.
pub const MAX_LOG_LINES: usize = 16;

/// Number of notes in the tune.
pub const TUNE_LENGTH: u32 = 10;

/// Number of ticks for which each note of the tune is asked for.
pub const TICKS_PER_NOTE: u32 = 3;

/// Length of each note in milliseconds.
pub const NOTE_MS: u32 = 50;

/// The frequency of a note of the tune, in hertz.
pub open spec fn tune_frequency(note: int) -> u32 {
    if note == 0 {
        293
    } else if note == 1 {
        329
    } else if note == 2 {
        349
    } else if note == 3 {
        329
    } else if note == 4 {
        293
    } else {
        261
    }
}

/// The last `MAX_LOG_LINES` entries, in their order.
pub open spec fn last_lines<T>(entries: Seq<T>) -> Seq<T> {
    if entries.len() <= MAX_LOG_LINES {
        entries
    } else {
        entries.skip(entries.len() - MAX_LOG_LINES)
    }
}

/// The note of the tune at a position.
pub fn tune_note(note: u32) -> (sample: (u32, u32))
    requires
        note < TUNE_LENGTH,
    ensures
        sample == (tune_frequency(note as int), NOTE_MS),
{
    let frequencies: [u32; 10] = [293, 329, 349, 329, 293, 261, 261, 261, 261, 261];
    (frequencies[note as usize], NOTE_MS)
}

pub struct SelfTestScene {
    elapsed_ms: u32,
    notes_played: u32,
    /// Cached log entries for display.
    log_entries: Vec<LogEntry>,
}

impl SelfTestScene {
    /// Time since the scene started, in milliseconds.
    pub closed spec fn spec_elapsed_ms(&self) -> u32 {
        self.elapsed_ms
    }

    /// Number of ticks in which a note was asked for.
    pub closed spec fn spec_notes_played(&self) -> u32 {
        self.notes_played
    }

    /// The log lines to show.
    pub closed spec fn lines(&self) -> Seq<LogEntry> {
        self.log_entries@
    }

    /// Whether the scene still shows log lines.
    pub open spec fn shows_logs(&self) -> bool {
        self.spec_elapsed_ms() < LOG_DISPLAY_MS
    }

    pub fn new() -> (scene: Self)
        ensures
            scene.spec_elapsed_ms() == 0,
            scene.spec_notes_played() == 0,
            scene.lines() == Seq::<LogEntry>::empty(),
    {
        Self { elapsed_ms: 0, notes_played: 0, log_entries: Vec::new() }
    }

    #[verifier::when_used_as_spec(spec_elapsed_ms)]
    pub fn elapsed_ms(&self) -> (ms: u32)
        ensures
            ms == self.spec_elapsed_ms(),
    {
        self.elapsed_ms
    }

    #[verifier::when_used_as_spec(spec_notes_played)]
    pub fn notes_played(&self) -> (notes: u32)
        ensures
            notes == self.spec_notes_played(),
    {
        self.notes_played
    }

    /// The log lines to show, oldest first.
    pub fn log_entries(&self) -> (entries: &Vec<LogEntry>)
        ensures
            entries@ == self.lines(),
    {
        &self.log_entries
    }

    /// One tick. While the logs are shown, the scene keeps the last
    /// `MAX_LOG_LINES` of `log_entries`. After that it asks `output` for the
    /// tune, each note for `TICKS_PER_NOTE` ticks, and ends with the last of
    /// them, or when `FINAL_DELAY_MS` have passed.
    pub fn update(&mut self, log_entries: &Vec<LogEntry>, output: &Output) -> (result: UpdateResult)
        requires
            old(self).spec_elapsed_ms() <= u32::MAX - TICK_MS,
            old(self).spec_notes_played() < TUNE_LENGTH * TICKS_PER_NOTE,
        ensures
            final(self).spec_elapsed_ms() == old(self).spec_elapsed_ms() + TICK_MS,
            final(self).shows_logs() ==> {
                &&& result == UpdateResult::Stay
                &&& final(self).spec_notes_played() == old(self).spec_notes_played()
                &&& final(self).lines().len() == last_lines(log_entries@).len()
                &&& forall|i: int|
                    0 <= i < final(self).lines().len() ==> (#[trigger] final(self).lines()[i]).level
                        == last_lines(log_entries@)[i].level && final(self).lines()[i].text()
                        == last_lines(log_entries@)[i].text()
            },
            !final(self).shows_logs() ==> {
                &&& final(self).lines() == old(self).lines()
                &&& final(self).spec_notes_played() == old(self).spec_notes_played() + 1
                &&& result == if final(self).spec_notes_played() >= TUNE_LENGTH * TICKS_PER_NOTE
                    || final(self).spec_elapsed_ms() >= LOG_DISPLAY_MS + FINAL_DELAY_MS {
                    UpdateResult::ChangeScene(SceneWrapper::MenuScene)
                } else {
                    UpdateResult::Stay
                }
            },
    {
        self.elapsed_ms += TICK_MS;

        if self.elapsed_ms < LOG_DISPLAY_MS {
            let n = log_entries.len();
            let start: usize = if n <= MAX_LOG_LINES {
                0
            } else {
                n - MAX_LOG_LINES
            };
            let mut kept: Vec<LogEntry> = Vec::new();
            let mut i: usize = start;
            while i < n
                invariant
                    start <= i <= n,
                    n == log_entries@.len(),
                    start == if n <= MAX_LOG_LINES {
                        0
                    } else {
                        n - MAX_LOG_LINES
                    },
                    kept@.len() == i - start,
                    forall|k: int|
                        0 <= k < kept@.len() ==> (#[trigger] kept@[k]).level == log_entries@[start
                            + k].level && kept@[k].text() == log_entries@[start + k].text(),
                decreases n - i,
            {
                let entry = &log_entries[i];
                kept.push(LogEntry { level: entry.level, message: entry.message.clone() });
                i += 1;
            }
            self.log_entries = kept;
            return UpdateResult::Stay;
        }
        let (frequency_hz, duration_ms) = tune_note(self.notes_played / TICKS_PER_NOTE);
        output.play_tone(frequency_hz, duration_ms);
        self.notes_played += 1;

        if self.notes_played >= TUNE_LENGTH * TICKS_PER_NOTE {
            return UpdateResult::ChangeScene(SceneWrapper::MenuScene);
        }
        if self.elapsed_ms >= LOG_DISPLAY_MS + FINAL_DELAY_MS {
            return UpdateResult::ChangeScene(SceneWrapper::MenuScene);
        }
        UpdateResult::Stay
    }
}


/// Row of the screen on which the first log line is written.
pub const LOG_FIRST_ROW: i32 = 12;

/// Distance between two log lines on the screen.
pub const LOG_ROW_HEIGHT: i32 = 11;

/// Column of the screen at which every log line starts.
pub const LOG_COLUMN: i32 = 2;

/// Number of log lines that fit on the screen: the last of them is written
/// on the lowest row that is not below the screen.
pub const LOG_ROWS_ON_SCREEN: usize = 25;

/// One line of text on the screen.
pub struct LogRow {
    /// Row of the screen on which the line is written.
    pub y: i32,
    pub text: String,
}

/// The pieces into which the line breaks cut a text. There is one piece more
/// than there are line breaks.
pub open spec fn pieces(text: Seq<char>) -> Seq<Seq<char>>
    decreases text.len(),
{
    if text.len() == 0 {
        seq![Seq::empty()]
    } else {
        let before = pieces(text.drop_last());
        if text.last() == '\n' {
            before.push(Seq::empty())
        } else {
            before.update(before.len() - 1, before.last().push(text.last()))
        }
    }
}

/// The line that shows a piece of a message: the first piece after the
/// letter of the level in brackets, every other piece after four blanks.
pub open spec fn row_text(level: LogLevel, piece: Seq<char>, first: bool) -> Seq<char> {
    if first {
        "["@ + level.prefix_text() + "] "@ + piece
    } else {
        "    "@ + piece
    }
}

/// The lines that show one entry.
pub open spec fn entry_rows(level: LogLevel, text: Seq<char>) -> Seq<Seq<char>> {
    Seq::new(pieces(text).len(), |i: int| row_text(level, pieces(text)[i], i == 0))
}

/// The lines that show the entries, one entry after the other.
pub open spec fn all_rows(entries: Seq<LogEntry>) -> Seq<Seq<char>>
    decreases entries.len(),
{
    if entries.len() == 0 {
        Seq::empty()
    } else {
        all_rows(entries.drop_last()) + entry_rows(entries.last().level, entries.last().text())
    }
}

/// The first `LOG_ROWS_ON_SCREEN` of the lines, or all of them if they are
/// fewer.
pub open spec fn on_screen(rows: Seq<Seq<char>>) -> Seq<Seq<char>> {
    if rows.len() <= LOG_ROWS_ON_SCREEN {
        rows
    } else {
        rows.take(LOG_ROWS_ON_SCREEN as int)
    }
}

/// A text has at least one piece.
pub proof fn lemma_pieces_nonempty(text: Seq<char>)
    ensures
        pieces(text).len() >= 1,
    decreases text.len(),
{
    if text.len() > 0 {
        lemma_pieces_nonempty(text.drop_last());
    }
}

/// Cuts a text into its pieces.
pub fn split_pieces(text: &str) -> (out: Vec<String>)
    ensures
        out@.len() == pieces(text@).len(),
        forall|i: int| 0 <= i < out@.len() ==> (#[trigger] out@[i])@ == pieces(text@)[i],
{
    let n = text.unicode_len();
    let mut out: Vec<String> = Vec::new();
    let mut start: usize = 0;
    let mut i: usize = 0;
    proof {
        assert(text@.take(0) =~= Seq::<char>::empty());
        assert(text@.subrange(0, 0) =~= Seq::<char>::empty());
    }
    while i < n
        invariant
            start <= i <= n,
            n == text@.len(),
            pieces(text@.take(i as int)).len() == out@.len() + 1,
            forall|k: int|
                0 <= k < out@.len() ==> (#[trigger] out@[k])@ == pieces(text@.take(i as int))[k],
            pieces(text@.take(i as int)).last() == text@.subrange(start as int, i as int),
        decreases n - i,
    {
        let c = text.get_char(i);
        proof {
            assert(text@.take(i + 1).drop_last() =~= text@.take(i as int));
            assert(text@.take(i + 1).last() == c);
        }
        if c == '\n' {
            let piece = String::from_str(text.substring_char(start, i));
            out.push(piece);
            start = i + 1;
            proof {
                assert(text@.subrange(i + 1, i + 1) =~= Seq::<char>::empty());
            }
        } else {
            proof {
                assert(text@.subrange(start as int, i as int).push(c) =~= text@.subrange(
                    start as int,
                    i + 1,
                ));
            }
        }
        i += 1;
    }
    proof {
        assert(text@.take(n as int) =~= text@);
    }
    out.push(String::from_str(text.substring_char(start, n)));
    out
}

/// Writes the lines that show one entry.
pub fn rows_of_entry(entry: &LogEntry) -> (rows: Vec<String>)
    ensures
        rows@.len() == entry_rows(entry.level, entry.text()).len(),
        forall|i: int|
            0 <= i < rows@.len() ==> (#[trigger] rows@[i])@ == entry_rows(
                entry.level,
                entry.text(),
            )[i],
{
    let parts = split_pieces(entry.as_str());
    let mut rows: Vec<String> = Vec::new();
    let mut i: usize = 0;
    while i < parts.len()
        invariant
            i <= parts@.len(),
            parts@.len() == pieces(entry.text()).len(),
            forall|k: int|
                0 <= k < parts@.len() ==> (#[trigger] parts@[k])@ == pieces(entry.text())[k],
            rows@.len() == i,
            forall|k: int|
                0 <= k < i ==> (#[trigger] rows@[k])@ == row_text(
                    entry.level,
                    pieces(entry.text())[k],
                    k == 0,
                ),
        decreases parts@.len() - i,
    {
        let mut row = if i == 0 {
            let mut head = String::from_str("[");
            head.append(entry.level.prefix());
            head.append("] ");
            head
        } else {
            String::from_str("    ")
        };
        row.append(parts[i].as_str());
        rows.push(row);
        i += 1;
    }
    rows
}

/// The texts of the rows.
pub open spec fn row_texts(rows: Seq<LogRow>) -> Seq<Seq<char>> {
    Seq::new(rows.len(), |i: int| rows[i].text@)
}

impl SelfTestScene {
    /// The log lines as they are written on the screen: one row for each
    /// piece of each message, from `LOG_FIRST_ROW` downwards, as far as the
    /// screen reaches.
    pub fn log_rows(&self) -> (rows: Vec<LogRow>)
        ensures
            row_texts(rows@) == on_screen(all_rows(self.lines())),
            forall|i: int|
                0 <= i < rows@.len() ==> (#[trigger] rows@[i]).y == LOG_FIRST_ROW + LOG_ROW_HEIGHT
                    * i,
    {
        let mut rows: Vec<LogRow> = Vec::new();
        let ghost mut seen: Seq<Seq<char>> = Seq::empty();
        let mut k: usize = 0;
        proof {
            assert(self.log_entries@.take(0) =~= Seq::<LogEntry>::empty());
            assert(row_texts(rows@) =~= on_screen(seen));
        }
        while k < self.log_entries.len()
            invariant
                k <= self.log_entries@.len(),
                seen == all_rows(self.log_entries@.take(k as int)),
                row_texts(rows@) == on_screen(seen),
                rows@.len() <= LOG_ROWS_ON_SCREEN,
                forall|i: int|
                    0 <= i < rows@.len() ==> (#[trigger] rows@[i]).y == LOG_FIRST_ROW
                        + LOG_ROW_HEIGHT * i,
            decreases self.log_entries@.len() - k,
        {
            let entry = &self.log_entries[k];
            let texts = rows_of_entry(entry);
            let ghost entry_texts = entry_rows(entry.level, entry.text());
            let ghost before = seen;
            let total = texts.len();
            let mut j: usize = 0;
            while j < total
                invariant
                    j <= total,
                    total == entry_texts.len(),
                    texts@.len() == total,
                    forall|m: int| 0 <= m < total ==> (#[trigger] texts@[m])@ == entry_texts[m],
                    seen == before + entry_texts.take(j as int),
                    row_texts(rows@) == on_screen(seen),
                    rows@.len() <= LOG_ROWS_ON_SCREEN,
                    forall|i: int|
                        0 <= i < rows@.len() ==> (#[trigger] rows@[i]).y == LOG_FIRST_ROW
                            + LOG_ROW_HEIGHT * i,
                decreases total - j,
            {
                proof {
                    assert(entry_texts.take(j + 1) =~= entry_texts.take(j as int).push(
                        entry_texts[j as int],
                    ));
                    assert(before + entry_texts.take(j + 1) =~= seen.push(entry_texts[j as int]));
                }
                let ghost old_rows = rows@;
                if rows.len() < LOG_ROWS_ON_SCREEN {
                    let y: i32 = LOG_FIRST_ROW + LOG_ROW_HEIGHT * (rows.len() as i32);
                    rows.push(LogRow { y, text: texts[j].clone() });
                    proof {
                        assert(row_texts(old_rows).len() == old_rows.len());
                        assert(row_texts(rows@) =~= row_texts(old_rows).push(entry_texts[j as int]));
                        assert(on_screen(seen.push(entry_texts[j as int])) =~= on_screen(
                            seen,
                        ).push(entry_texts[j as int]));
                    }
                } else {
                    proof {
                        assert(row_texts(old_rows).len() == old_rows.len());
                        assert(on_screen(seen.push(entry_texts[j as int])) =~= on_screen(seen));
                    }
                }
                proof {
                    seen = seen.push(entry_texts[j as int]);
                }
                j += 1;
            }
            proof {
                assert(entry_texts.take(total as int) =~= entry_texts);
                assert(self.log_entries@.take(k + 1).drop_last() =~= self.log_entries@.take(
                    k as int,
                ));
                assert(self.log_entries@.take(k + 1).last() == *entry);
            }
            k += 1;
        }
        proof {
            assert(self.log_entries@.take(self.log_entries@.len() as int) =~= self.log_entries@);
        }
        rows
    }
}

} // verus!
