//! A ring of the most recent log lines, of fixed size and without allocation,
//! for showing them on screen.

use vstd::prelude::*;
use vstd::string::StrSliceExecFns;

verus! {

/// Maximum number of log lines to store.
pub const LOG_BUFFER_CAPACITY: usize = 32;

/// Storage of a single log line, in bytes.
pub const LOG_LINE_MAX_LEN: usize = 80;

/// Log level for filtering, from the least to the most important.
#[derive(Clone, Copy, Debug, PartialEq, Eq, PartialOrd, Ord, Structural)]
pub enum LogLevel {
    Trace,
    Debug,
    Info,
    Warn,
    Error,
    /// Above error: for messages that are always captured.
    Notice,
}

impl LogLevel {
    /// The place of the level in the order of importance.
    pub open spec fn spec_rank(self) -> u8 {
        match self {
            LogLevel::Trace => 0,
            LogLevel::Debug => 1,
            LogLevel::Info => 2,
            LogLevel::Warn => 3,
            LogLevel::Error => 4,
            LogLevel::Notice => 5,
        }
    }

    /// The place of the level in the order of importance.
    #[verifier::when_used_as_spec(spec_rank)]
    pub fn rank(self) -> (rank: u8)
        ensures
            rank == self.spec_rank(),
    {
        match self {
            LogLevel::Trace => 0,
            LogLevel::Debug => 1,
            LogLevel::Info => 2,
            LogLevel::Warn => 3,
            LogLevel::Error => 4,
            LogLevel::Notice => 5,
        }
    }

    /// The letter that stands for the level in a log line.
    pub open spec fn prefix_text(self) -> Seq<char> {
        match self {
            LogLevel::Trace => "T"@,
            LogLevel::Debug => "D"@,
            LogLevel::Info => "I"@,
            LogLevel::Warn => "W"@,
            LogLevel::Error => "E"@,
            LogLevel::Notice => "N"@,
        }
    }

    /// Get a short prefix for the log level.
    pub fn prefix(&self) -> (prefix: &'static str)
        ensures
            prefix@ == self.prefix_text(),
    {
        match self {
            LogLevel::Trace => "T",
            LogLevel::Debug => "D",
            LogLevel::Info => "I",
            LogLevel::Warn => "W",
            LogLevel::Error => "E",
            LogLevel::Notice => "N",
        }
    }
}

#[verifier::external_type_specification]
#[verifier::external_body]
pub struct ExFixedString<const N: usize>(heapless::String<N>);

#[verifier::external_type_specification]
#[verifier::external_body]
#[verifier::reject_recursive_types(T)]
pub struct ExFixedDeque<T, const N: usize>(heapless::Deque<T, N>);

/// The characters that a fixed-capacity string holds.
pub uninterp spec fn message_text(message: heapless::String<80>) -> Seq<char>;

/// Number of bytes that a character takes in UTF-8.
pub open spec fn utf8_width(c: char) -> nat {
    if (c as u32) < 0x80 {
        1
    } else if (c as u32) < 0x800 {
        2
    } else if (c as u32) < 0x1_0000 {
        3
    } else {
        4
    }
}

/// Number of bytes that a text takes in UTF-8.
pub open spec fn utf8_len(text: Seq<char>) -> nat
    decreases text.len(),
{
    if text.len() == 0 {
        0
    } else {
        utf8_len(text.drop_last()) + utf8_width(text.last())
    }
}

/// `heapless::String::new`: an empty string.
#[verifier::external_body]
fn message_new() -> (message: heapless::String<80>)
    ensures
        message_text(message) == Seq::<char>::empty(),
{
    heapless::String::new()
}

/// `heapless::String::push`: appends the character if its UTF-8 encoding
/// still fits into the 80 bytes of storage, and otherwise leaves the string
/// as it is and returns an error.
#[verifier::external_body]
fn message_push(message: &mut heapless::String<80>, c: char) -> (pushed: Result<(), ()>)
    ensures
        pushed is Ok <==> utf8_len(message_text(*old(message))) + utf8_width(c) <= 80,
        message_text(*final(message)) == if pushed is Ok {
            message_text(*old(message)).push(c)
        } else {
            message_text(*old(message))
        },
{
    message.push(c)
}

/// `heapless::String::as_str`: the string as a slice.
#[verifier::external_body]
fn message_as_str(message: &heapless::String<80>) -> (text: &str)
    ensures
        text@ == message_text(*message),
{
    message.as_str()
}

/// `Clone` of `heapless::String`: the copy holds the same bytes as the
/// string it was made from.
pub assume_specification<const N: usize>[ <heapless::String<N> as Clone>::clone ](
    message: &heapless::String<N>,
) -> (copy: heapless::String<N>)
    ensures
        copy == *message,
;

/// A single log entry.
#[derive(Clone, Debug)]
pub struct LogEntry {
    /// Log level.
    pub level: LogLevel,
    /// Log message, cut off to fit.
    pub message: heapless::String<80>,
}

/// Whether `kept` is what is stored of `text`: the longest start of `text`
/// that has at most `LOG_LINE_MAX_LEN - 1` characters and takes at most
/// `LOG_LINE_MAX_LEN` bytes in UTF-8.
pub open spec fn is_stored_text(text: Seq<char>, kept: Seq<char>) -> bool {
    &&& kept.len() <= text.len()
    &&& kept.len() <= 79
    &&& kept == text.take(kept.len() as int)
    &&& utf8_len(kept) <= 80
    &&& (kept.len() == text.len() || kept.len() == 79 || utf8_len(
        text.take(kept.len() as int + 1),
    ) > 80)
}

/// A text of up to 79 ASCII characters is stored whole, a longer one up to
/// its 79th character.
pub proof fn lemma_ascii_is_stored_to_79(text: Seq<char>, kept: Seq<char>)
    requires
        is_stored_text(text, kept),
        forall|i: int| 0 <= i < text.len() ==> (#[trigger] text[i] as u32) < 0x80,
    ensures
        kept == if text.len() <= 79 {
            text
        } else {
            text.take(79)
        },
{
    let n = kept.len() as int;
    if n < text.len() && n < 79 {
        lemma_ascii_len(text.take(n + 1));
    }
}

/// An ASCII text takes one byte for each character.
pub proof fn lemma_ascii_len(text: Seq<char>)
    requires
        forall|i: int| 0 <= i < text.len() ==> (#[trigger] text[i] as u32) < 0x80,
    ensures
        utf8_len(text) == text.len(),
    decreases text.len(),
{
    if text.len() > 0 {
        lemma_ascii_len(text.drop_last());
    }
}

/// What is stored of a text is determined by the text.
pub proof fn lemma_stored_text_is_unique(text: Seq<char>, a: Seq<char>, b: Seq<char>)
    requires
        is_stored_text(text, a),
        is_stored_text(text, b),
    ensures
        a == b,
{
    let m = a.len() as int;
    let n = b.len() as int;
    if m < n {
        lemma_utf8_len_grows(b, m + 1);
        assert(b.take(m + 1) =~= text.take(m + 1));
    } else if n < m {
        lemma_utf8_len_grows(a, n + 1);
        assert(a.take(n + 1) =~= text.take(n + 1));
    }
}

/// A start of a text takes no more bytes than the text.
pub proof fn lemma_utf8_len_grows(text: Seq<char>, n: int)
    requires
        0 <= n <= text.len(),
    ensures
        utf8_len(text.take(n)) <= utf8_len(text),
    decreases text.len(),
{
    if n == text.len() {
        assert(text.take(n) =~= text);
    } else {
        lemma_utf8_len_grows(text.drop_last(), n);
        assert(text.drop_last().take(n) =~= text.take(n));
    }
}

impl LogEntry {
    /// The characters of the message.
    pub open spec fn text(&self) -> Seq<char> {
        message_text(self.message)
    }

    /// Create a new log entry, cutting the message off if needed.
    pub fn new(level: LogLevel, message: &str) -> (entry: Self)
        ensures
            entry.level == level,
            is_stored_text(message@, entry.text()),
    {
        let mut msg = message_new();
        let total = message.unicode_len();
        let limit: usize = if total < LOG_LINE_MAX_LEN - 1 {
            total
        } else {
            LOG_LINE_MAX_LEN - 1
        };
        let mut i: usize = 0;
        let mut full = false;
        while i < limit && !full
            invariant
                i <= limit,
                limit <= 79,
                limit <= message@.len(),
                limit == message@.len() || limit == 79,
                message_text(msg) == message@.take(i as int),
                utf8_len(message_text(msg)) <= 80,
                full ==> utf8_len(message@.take(i + 1)) > 80,
                full ==> i < limit,
            decreases limit - i + if full { 0int } else { 1int },
        {
            let c = message.get_char(i);
            proof {
                assert(message@.take(i + 1).drop_last() =~= message@.take(i as int));
            }
            if message_push(&mut msg, c).is_err() {
                full = true;
            } else {
                proof {
                    assert(message@.take(i as int).push(c) =~= message@.take(i + 1));
                }
                i += 1;
            }
        }
        Self { level, message: msg }
    }

    /// The message as a string slice.
    pub fn as_str(&self) -> (text: &str)
        ensures
            text@ == self.text(),
    {
        message_as_str(&self.message)
    }
}


/// The entries that a ring holds, oldest first.
pub uninterp spec fn ring_entries(ring: heapless::Deque<LogEntry, 32>) -> Seq<LogEntry>;

/// `heapless::Deque::new`: an empty ring.
#[verifier::external_body]
fn ring_new() -> (ring: heapless::Deque<LogEntry, 32>)
    ensures
        ring_entries(ring) == Seq::<LogEntry>::empty(),
{
    heapless::Deque::new()
}

/// `heapless::Deque::len`: the number of entries, which is never above the
/// capacity of 32.
#[verifier::external_body]
fn ring_len(ring: &heapless::Deque<LogEntry, 32>) -> (len: usize)
    ensures
        len == ring_entries(*ring).len(),
        len <= 32,
{
    ring.len()
}

/// `heapless::Deque::is_empty`.
#[verifier::external_body]
fn ring_is_empty(ring: &heapless::Deque<LogEntry, 32>) -> (empty: bool)
    ensures
        empty == (ring_entries(*ring).len() == 0),
{
    ring.is_empty()
}

/// `heapless::Deque::is_full`: whether the ring holds as many entries as its
/// capacity of 32.
#[verifier::external_body]
fn ring_is_full(ring: &heapless::Deque<LogEntry, 32>) -> (full: bool)
    ensures
        full ==> ring_entries(*ring).len() == 32,
        !full ==> ring_entries(*ring).len() < 32,
{
    ring.is_full()
}

/// `heapless::Deque::pop_front`: takes the oldest entry out, if there is one.
#[verifier::external_body]
fn ring_pop_front(ring: &mut heapless::Deque<LogEntry, 32>) -> (front: Option<LogEntry>)
    ensures
        front == if ring_entries(*old(ring)).len() > 0 {
            Some(ring_entries(*old(ring))[0])
        } else {
            None
        },
        ring_entries(*final(ring)) == if ring_entries(*old(ring)).len() > 0 {
            ring_entries(*old(ring)).drop_first()
        } else {
            ring_entries(*old(ring))
        },
{
    ring.pop_front()
}

/// `heapless::Deque::push_back`: appends the entry as the newest if the ring
/// is not full, and otherwise hands it back and leaves the ring as it is.
#[verifier::external_body]
fn ring_push_back(
    ring: &mut heapless::Deque<LogEntry, 32>,
    entry: LogEntry,
) -> (pushed: Result<(), LogEntry>)
    ensures
        pushed is Ok <==> ring_entries(*old(ring)).len() < 32,
        pushed matches Err(back) ==> back == entry,
        ring_entries(*final(ring)) == if ring_entries(*old(ring)).len() < 32 {
            ring_entries(*old(ring)).push(entry)
        } else {
            ring_entries(*old(ring))
        },
{
    ring.push_back(entry)
}

/// `heapless::Deque::clear`: removes every entry.
#[verifier::external_body]
fn ring_clear(ring: &mut heapless::Deque<LogEntry, 32>)
    ensures
        ring_entries(*final(ring)) == Seq::<LogEntry>::empty(),
{
    ring.clear()
}

/// `heapless::Deque::iter`: the entries from the oldest to the newest.
#[verifier::external_body]
fn ring_iter(ring: &heapless::Deque<LogEntry, 32>) -> (entries: Vec<&LogEntry>)
    ensures
        entries@.len() == ring_entries(*ring).len(),
        forall|i: int| 0 <= i < entries@.len() ==> *(#[trigger] entries@[i]) == ring_entries(*ring)[i],
{
    ring.iter().collect()
}

/// Ring buffer for log entries. When it is full, a new entry pushes the
/// oldest one out.
pub struct LogBuffer {
    entries: heapless::Deque<LogEntry, 32>,
    /// Minimum level to capture (entries below this are ignored).
    min_level: LogLevel,
    /// Whether capture is enabled.
    enabled: bool,
}

/// The entries of a full ring without the oldest, those of any other ring
/// as they are: what stays when a new entry comes.
pub open spec fn with_room<T>(entries: Seq<T>) -> Seq<T> {
    if entries.len() >= LOG_BUFFER_CAPACITY {
        entries.drop_first()
    } else {
        entries
    }
}

/// The entries of a ring after each of `added` was stored, in order.
pub open spec fn stored_all<T>(entries: Seq<T>, added: Seq<T>) -> Seq<T>
    decreases added.len(),
{
    if added.len() == 0 {
        entries
    } else {
        with_room(stored_all(entries, added.drop_last())).push(added.last())
    }
}

/// The ring keeps the newest: after any run of stores it holds the last
/// `LOG_BUFFER_CAPACITY` of all the entries that it held or was given, or
/// all of them if they are fewer, and never more than its capacity.
pub proof fn lemma_ring_keeps_the_newest<T>(entries: Seq<T>, added: Seq<T>)
    requires
        entries.len() <= LOG_BUFFER_CAPACITY,
    ensures
        stored_all(entries, added).len() <= LOG_BUFFER_CAPACITY,
        stored_all(entries, added) == if (entries + added).len() <= LOG_BUFFER_CAPACITY {
            entries + added
        } else {
            (entries + added).skip((entries + added).len() - LOG_BUFFER_CAPACITY)
        },
    decreases added.len(),
{
    if added.len() > 0 {
        lemma_ring_keeps_the_newest(entries, added.drop_last());
    }
}

impl LogBuffer {
    /// The entries, oldest first.
    pub closed spec fn entries(&self) -> Seq<LogEntry> {
        ring_entries(self.entries)
    }

    pub closed spec fn spec_min_level(&self) -> LogLevel {
        self.min_level
    }

    pub closed spec fn spec_enabled(&self) -> bool {
        self.enabled
    }

    /// Whether an entry of this level is captured.
    pub open spec fn captures(&self, level: LogLevel) -> bool {
        self.spec_enabled() && level.spec_rank() >= self.spec_min_level().spec_rank()
    }

    /// Create a new empty log buffer that captures `Info` and above.
    pub fn new() -> (buffer: Self)
        ensures
            buffer.entries() == Seq::<LogEntry>::empty(),
            buffer.spec_min_level() == LogLevel::Info,
            buffer.spec_enabled(),
    {
        Self { entries: ring_new(), min_level: LogLevel::Info, enabled: true }
    }

    /// Set the minimum log level to capture.
    pub fn set_min_level(&mut self, level: LogLevel)
        ensures
            final(self).spec_min_level() == level,
            final(self).entries() == old(self).entries(),
            final(self).spec_enabled() == old(self).spec_enabled(),
    {
        self.min_level = level;
    }

    /// Get the minimum log level.
    #[verifier::when_used_as_spec(spec_min_level)]
    pub fn min_level(&self) -> (level: LogLevel)
        ensures
            level == self.spec_min_level(),
    {
        self.min_level
    }

    /// Enable or disable log capture.
    pub fn set_enabled(&mut self, enabled: bool)
        ensures
            final(self).spec_enabled() == enabled,
            final(self).entries() == old(self).entries(),
            final(self).spec_min_level() == old(self).spec_min_level(),
    {
        self.enabled = enabled;
    }

    /// Check if capture is enabled.
    #[verifier::when_used_as_spec(spec_enabled)]
    pub fn is_enabled(&self) -> (enabled: bool)
        ensures
            enabled == self.spec_enabled(),
    {
        self.enabled
    }

    /// Push a log entry, removing the oldest if full. An entry below the
    /// minimum level, or any entry while capture is disabled, is dropped.
    pub fn push(&mut self, level: LogLevel, message: &str)
        ensures
            final(self).spec_min_level() == old(self).spec_min_level(),
            final(self).spec_enabled() == old(self).spec_enabled(),
            !old(self).captures(level) ==> final(self).entries() == old(self).entries(),
            old(self).captures(level) ==> {
                &&& final(self).entries().len() == with_room(old(self).entries()).len() + 1
                &&& final(self).entries().drop_last() == with_room(old(self).entries())
                &&& final(self).entries().last().level == level
                &&& is_stored_text(message@, final(self).entries().last().text())
            },
    {
        if !self.enabled || level.rank() < self.min_level.rank() {
            return ;
        }
        let entry = LogEntry::new(level, message);
        self.store(entry);
    }

    /// Push a pre-formatted log entry, under the same rules as `push`.
    pub fn push_entry(&mut self, entry: LogEntry)
        ensures
            final(self).spec_min_level() == old(self).spec_min_level(),
            final(self).spec_enabled() == old(self).spec_enabled(),
            final(self).entries() == if old(self).captures(entry.level) {
                with_room(old(self).entries()).push(entry)
            } else {
                old(self).entries()
            },
    {
        if !self.enabled || entry.level.rank() < self.min_level.rank() {
            return ;
        }
        self.store(entry);
    }

    /// Makes room if the ring is full and appends the entry.
    fn store(&mut self, entry: LogEntry)
        ensures
            final(self).spec_min_level() == old(self).spec_min_level(),
            final(self).spec_enabled() == old(self).spec_enabled(),
            final(self).entries() == with_room(old(self).entries()).push(entry),
    {
        if ring_is_full(&self.entries) {
            let _ = ring_pop_front(&mut self.entries);
        }
        let _ = ring_push_back(&mut self.entries, entry);
    }

    /// Get number of entries.
    pub fn len(&self) -> (len: usize)
        ensures
            len == self.entries().len(),
            len <= LOG_BUFFER_CAPACITY,
    {
        ring_len(&self.entries)
    }

    /// Check if buffer is empty.
    pub fn is_empty(&self) -> (empty: bool)
        ensures
            empty == (self.entries().len() == 0),
    {
        ring_is_empty(&self.entries)
    }

    /// Clear all entries.
    pub fn clear(&mut self)
        ensures
            final(self).entries() == Seq::<LogEntry>::empty(),
            final(self).spec_min_level() == old(self).spec_min_level(),
            final(self).spec_enabled() == old(self).spec_enabled(),
    {
        ring_clear(&mut self.entries);
    }

    /// The entries, oldest first.
    pub fn iter(&self) -> (entries: Vec<&LogEntry>)
        ensures
            entries@.len() == self.entries().len(),
            forall|i: int| 0 <= i < entries@.len() ==> *(#[trigger] entries@[i]) == self.entries()[i],
    {
        ring_iter(&self.entries)
    }

    /// Get the most recent `count` entries (newest first).
    pub fn recent(&self, count: usize) -> (entries: Vec<&LogEntry>)
        ensures
            entries@.len() == if count <= self.entries().len() {
                count as nat
            } else {
                self.entries().len()
            },
            forall|i: int|
                0 <= i < entries@.len() ==> *(#[trigger] entries@[i]) == self.entries()[
                    self.entries().len() - 1 - i],
    {
        let all = ring_iter(&self.entries);
        let n = all.len();
        let take: usize = if count <= n {
            count
        } else {
            n
        };
        let mut recent: Vec<&LogEntry> = Vec::new();
        let mut i: usize = 0;
        while i < take
            invariant
                i <= take <= n,
                n == all@.len(),
                all@.len() == self.entries().len(),
                forall|k: int| 0 <= k < all@.len() ==> *(#[trigger] all@[k]) == self.entries()[k],
                recent@.len() == i,
                forall|k: int|
                    0 <= k < i ==> *(#[trigger] recent@[k]) == self.entries()[n - 1 - k],
            decreases take - i,
        {
            recent.push(all[n - 1 - i]);
            i += 1;
        }
        recent
    }

    /// Get entry by index (0 = oldest).
    pub fn get(&self, index: usize) -> (entry: Option<&LogEntry>)
        ensures
            entry is Some <==> index < self.entries().len(),
            entry matches Some(e) ==> *e == self.entries()[index as int],
    {
        let all = ring_iter(&self.entries);
        if index < all.len() {
            Some(all[index])
        } else {
            None
        }
    }
}

impl Default for LogBuffer {
    fn default() -> (buffer: Self)
        ensures
            buffer.entries() == Seq::<LogEntry>::empty(),
            buffer.spec_min_level() == LogLevel::Info,
            buffer.spec_enabled(),
    {
        Self::new()
    }
}

} // verus!
