//! Incremental parser for Server-Sent-Event streams.
//!
//! The parser keeps the text that has arrived but is not yet terminated by a
//! newline, and, for streams that label their payloads, the label of the
//! last `event:` line that no `data:` line has consumed yet. What it does is
//! defined by [`scan`], a function on text; the executable methods are proved
//! to compute it.

use vstd::prelude::*;
use vstd::utf8::{decode_utf8, valid_utf8};
use crate::text::{decode_lossy, string_of, trim_range, trimmed, utf8_lossy};

verus! {

broadcast use vstd::string::axiom_spec_iter;

/// The two ways in which the API frames its events.
#[derive(Debug, Clone, Copy, PartialEq, Eq, Structural)]
pub enum Framing {
    /// Every `data:` line is an event of its own; `event:` lines mean nothing.
    DataOnly,
    /// An `event:` line names the event and the next `data:` line carries it.
    Labelled,
}

/// One parsed event: its label (empty where the stream has none) and its
/// payload, both trimmed and otherwise as received.
#[derive(Debug, Clone, PartialEq, Eq)]
pub struct Frame {
    pub event: String,
    pub data: String,
}

/// What a [`Frame`] holds, as text.
pub struct FrameText {
    pub event: Seq<char>,
    pub data: Seq<char>,
}

impl View for Frame {
    type V = FrameText;

    open spec fn view(&self) -> FrameText {
        FrameText { event: self.event@, data: self.data@ }
    }
}

/// The frames of a vector, each as text.
pub open spec fn frame_texts(frames: Seq<Frame>) -> Seq<FrameText> {
    frames.map_values(|f: Frame| f@)
}

/// The prefix of a line that sets the event label.
pub open spec fn event_tag() -> Seq<char> {
    seq!['e', 'v', 'e', 'n', 't', ':']
}

/// The prefix of a line that carries a payload.
pub open spec fn data_tag() -> Seq<char> {
    seq!['d', 'a', 't', 'a', ':']
}

/// The effect of one complete line: the frame it emits, if any, and the
/// pending label after it.
pub struct LineEffect {
    pub frame: Option<FrameText>,
    pub label: Seq<char>,
}

/// What a line (without its newline) does, given the pending label.
pub open spec fn line_effect(framing: Framing, label: Seq<char>, line: Seq<char>) -> LineEffect {
    let ignored = LineEffect { frame: None, label };
    if framing == Framing::Labelled && event_tag().is_prefix_of(line) {
        LineEffect { frame: None, label: trimmed(line.skip(6)) }
    } else if data_tag().is_prefix_of(line) {
        let payload = trimmed(line.skip(5));
        if payload.len() == 0 {
            ignored
        } else if framing == Framing::DataOnly {
            LineEffect { frame: Some(FrameText { event: Seq::empty(), data: payload }), label }
        } else if label.len() > 0 {
            LineEffect {
                frame: Some(FrameText { event: label, data: payload }),
                label: Seq::empty(),
            }
        } else {
            ignored
        }
    } else {
        ignored
    }
}

/// The number of characters before the first newline, or the length of the
/// text if it holds none.
pub open spec fn line_end(text: Seq<char>) -> int
    decreases text.len(),
{
    if text.len() == 0 || text.first() == '\n' {
        0
    } else {
        1 + line_end(text.drop_first())
    }
}

/// The outcome of scanning text: the frames emitted in order, the
/// unterminated remainder, and the pending label.
pub struct Scan {
    pub frames: Seq<FrameText>,
    pub rest: Seq<char>,
    pub label: Seq<char>,
}

/// Scans text line by line, starting with the given pending label.
pub open spec fn scan(framing: Framing, label: Seq<char>, text: Seq<char>) -> Scan
    decreases text.len(),
{
    let n = line_end(text);
    if 0 <= n < text.len() {
        let effect = line_effect(framing, label, text.take(n));
        let later = scan(framing, effect.label, text.skip(n + 1));
        Scan {
            frames: match effect.frame {
                Some(f) => seq![f] + later.frames,
                None => later.frames,
            },
            rest: later.rest,
            label: later.label,
        }
    } else {
        Scan { frames: Seq::empty(), rest: text, label }
    }
}

/// `line_end` stays within the text, passes no newline, and stops on one
/// unless the text has none.
pub proof fn lemma_line_end_bounds(text: Seq<char>)
    ensures
        0 <= line_end(text) <= text.len(),
        forall|i: int| 0 <= i < line_end(text) ==> text[i] != '\n',
        line_end(text) < text.len() ==> text[line_end(text)] == '\n',
    decreases text.len(),
{
    if text.len() == 0 || text.first() == '\n' {
    } else {
        let tail = text.drop_first();
        lemma_line_end_bounds(tail);
        assert forall|i: int| 0 <= i < line_end(text) implies text[i] != '\n' by {
            if i > 0 {
                assert(text[i] == tail[i - 1]);
            }
        }
        assert(line_end(text) < text.len() ==> text[line_end(text)] == tail[line_end(tail)]);
    }
}

/// A position that no newline precedes, and that holds one or ends the
/// text, is `line_end`.
pub proof fn lemma_line_end_is(text: Seq<char>, n: int)
    requires
        0 <= n <= text.len(),
        forall|i: int| 0 <= i < n ==> text[i] != '\n',
        n < text.len() ==> text[n] == '\n',
    ensures
        line_end(text) == n,
    decreases text.len(),
{
    if text.len() == 0 || text.first() == '\n' {
    } else {
        let tail = text.drop_first();
        assert forall|i: int| 0 <= i < n - 1 implies tail[i] != '\n' by {
            assert(tail[i] == text[i + 1]);
        }
        lemma_line_end_is(tail, n - 1);
    }
}

/// Whether `v[from..to]` begins with `event:`.
fn has_event_tag(v: &Vec<char>, from: usize, to: usize) -> (b: bool)
    requires
        from <= to <= v.len(),
    ensures
        b == event_tag().is_prefix_of(v@.subrange(from as int, to as int)),
{
    let ghost line = v@.subrange(from as int, to as int);
    if to - from < 6 {
        return false;
    }
    let b = v[from] == 'e' && v[from + 1] == 'v' && v[from + 2] == 'e' && v[from + 3] == 'n' && v[from
        + 4] == 't' && v[from + 5] == ':';
    proof {
        let head = line.subrange(0, 6);
        if b {
            assert(event_tag() =~= head);
        } else {
            assert(head[0] == v[from as int] && head[1] == v[from + 1] && head[2] == v[from + 2]
                && head[3] == v[from + 3] && head[4] == v[from + 4] && head[5] == v[from + 5]);
        }
    }
    b
}

/// Whether `v[from..to]` begins with `data:`.
fn has_data_tag(v: &Vec<char>, from: usize, to: usize) -> (b: bool)
    requires
        from <= to <= v.len(),
    ensures
        b == data_tag().is_prefix_of(v@.subrange(from as int, to as int)),
{
    let ghost line = v@.subrange(from as int, to as int);
    if to - from < 5 {
        return false;
    }
    let b = v[from] == 'd' && v[from + 1] == 'a' && v[from + 2] == 't' && v[from + 3] == 'a' && v[from
        + 4] == ':';
    proof {
        let head = line.subrange(0, 5);
        if b {
            assert(data_tag() =~= head);
        } else {
            assert(head[0] == v[from as int] && head[1] == v[from + 1] && head[2] == v[from + 2]
                && head[3] == v[from + 3] && head[4] == v[from + 4]);
        }
    }
    b
}

/// State of one stream: the unterminated text and the pending label.
pub struct SseParser {
    framing: Framing,
    buffer: Vec<char>,
    label: String,
}

impl SseParser {
    /// The framing that the parser was made for.
    pub closed spec fn framing(&self) -> Framing {
        self.framing
    }

    /// The text received after the last newline.
    pub closed spec fn buffered(&self) -> Seq<char> {
        self.buffer@
    }

    /// The label waiting for its payload; empty if none does.
    pub closed spec fn pending(&self) -> Seq<char> {
        self.label@
    }

    /// Whether the parser is in the state in which it was made for this
    /// framing: nothing buffered, no label pending.
    pub open spec fn is_new(&self, framing: Framing) -> bool {
        &&& self.framing() == framing
        &&& self.buffered() == Seq::<char>::empty()
        &&& self.pending() == Seq::<char>::empty()
    }

    /// What scanning yields once `text` has arrived after what is buffered.
    pub open spec fn after(&self, text: Seq<char>) -> Scan {
        scan(self.framing(), self.pending(), self.buffered() + text)
    }

    /// A parser that has received nothing.
    pub fn new(framing: Framing) -> (parser: SseParser)
        ensures
            parser.is_new(framing),
    {
        SseParser { framing, buffer: Vec::new(), label: String::new() }
    }

    /// Applies the line `buffer[start..end]`.
    fn apply_line(&mut self, start: usize, end: usize) -> (frame: Option<Frame>)
        requires
            start <= end <= old(self).buffer.len(),
        ensures
            final(self).buffer == old(self).buffer,
            final(self).framing == old(self).framing,
            ({
                let effect = line_effect(
                    old(self).framing,
                    old(self).label@,
                    old(self).buffer@.subrange(start as int, end as int),
                );
                &&& final(self).label@ == effect.label
                &&& match frame {
                    Some(f) => effect.frame == Some(f@),
                    None => effect.frame is None,
                }
            }),
    {
        let ghost line = self.buffer@.subrange(start as int, end as int);
        if self.framing == Framing::Labelled && has_event_tag(&self.buffer, start, end) {
            assert(line.skip(6) =~= self.buffer@.subrange(start + 6, end as int));
            let (lo, hi) = trim_range(&self.buffer, start + 6, end);
            self.label = string_of(&self.buffer, lo, hi);
            None
        } else if has_data_tag(&self.buffer, start, end) {
            assert(line.skip(5) =~= self.buffer@.subrange(start + 5, end as int));
            let (lo, hi) = trim_range(&self.buffer, start + 5, end);
            if lo == hi {
                None
            } else if self.framing == Framing::DataOnly {
                Some(Frame { event: String::new(), data: string_of(&self.buffer, lo, hi) })
            } else if self.label.as_str().is_empty() {
                None
            } else {
                let mut event = String::new();
                std::mem::swap(&mut self.label, &mut event);
                Some(Frame { event, data: string_of(&self.buffer, lo, hi) })
            }
        } else {
            None
        }
    }

    /// Takes in text that arrived after what is buffered, and returns the
    /// frames that its complete lines emit, in the order of their lines.
    /// The unterminated remainder stays buffered for the next call.
    pub fn feed_text(&mut self, text: &str) -> (frames: Vec<Frame>)
        ensures
            final(self).framing() == old(self).framing(),
            frame_texts(frames@) == old(self).after(text@).frames,
            final(self).buffered() == old(self).after(text@).rest,
            final(self).pending() == old(self).after(text@).label,
    {
        let ghost framing = self.framing;
        let ghost label0 = self.label@;
        let ghost before = self.buffer@;
        for c in it: text.chars()
            invariant
                self.framing == framing,
                self.label@ == label0,
                it.seq() == text@,
                self.buffer@ == before + text@.take(it.index()),
        {
            assert(c == text@[it.index()]);
            assert(text@.take(it.index() + 1) =~= text@.take(it.index()).push(c));
            self.buffer.push(c);
        }
        assert(text@.take(text@.len() as int) =~= text@);
        let ghost full = before + text@;
        assert(self.buffer@ == full);
        let len = self.buffer.len();
        let mut frames: Vec<Frame> = Vec::new();
        let mut start: usize = 0;
        assert(full.skip(0) =~= full);
        assert(frame_texts(frames@) + scan(framing, label0, full).frames =~= scan(
            framing,
            label0,
            full,
        ).frames);
        loop
            invariant
                self.framing == framing,
                self.buffer@ == full,
                start <= len == full.len(),
                scan(framing, label0, full).frames == frame_texts(frames@) + scan(
                    framing,
                    self.label@,
                    full.skip(start as int),
                ).frames,
                scan(framing, label0, full).rest == scan(
                    framing,
                    self.label@,
                    full.skip(start as int),
                ).rest,
                scan(framing, label0, full).label == scan(
                    framing,
                    self.label@,
                    full.skip(start as int),
                ).label,
            ensures
                line_end(full.skip(start as int)) == len - start,
            decreases len - start,
        {
            let mut end: usize = start;
            while end < len && self.buffer[end] != '\n'
                invariant
                    self.buffer@ == full,
                    start <= end <= len == full.len(),
                    forall|i: int| start <= i < end ==> full[i] != '\n',
                decreases len - end,
            {
                end += 1;
            }
            let ghost remaining = full.skip(start as int);
            proof {
                lemma_line_end_is(remaining, end - start);
            }
            if end == len {
                break ;
            }
            let ghost label1 = self.label@;
            let ghost emitted = frame_texts(frames@);
            assert(remaining.take(end - start) =~= full.subrange(start as int, end as int));
            assert(remaining.skip(end - start + 1) =~= full.skip(end + 1));
            match self.apply_line(start, end) {
                Some(frame) => {
                    frames.push(frame);
                    assert(frame_texts(frames@) =~= emitted + seq![frame@]);
                    assert(emitted + seq![frame@] + scan(
                        framing,
                        self.label@,
                        full.skip(end + 1),
                    ).frames =~= emitted + (seq![frame@] + scan(
                        framing,
                        self.label@,
                        full.skip(end + 1),
                    ).frames));
                },
                None => {},
            }
            start = end + 1;
        }
        let rest = self.buffer.split_off(start);
        self.buffer = rest;
        assert(self.buffer@ =~= full.skip(start as int));
        assert(frame_texts(frames@) + Seq::<FrameText>::empty() =~= frame_texts(frames@));
        frames
    }

    /// Takes in a chunk of the response body. Malformed UTF-8 is replaced,
    /// chunk by chunk, never refused; the text is then handled as
    /// [`SseParser::feed_text`] does. For a chunk of well-formed UTF-8 the
    /// text is the one that the bytes encode.
    pub fn feed(&mut self, chunk: &[u8]) -> (frames: Vec<Frame>)
        ensures
            final(self).framing() == old(self).framing(),
            frame_texts(frames@) == old(self).after(utf8_lossy(chunk@)).frames,
            final(self).buffered() == old(self).after(utf8_lossy(chunk@)).rest,
            final(self).pending() == old(self).after(utf8_lossy(chunk@)).label,
            valid_utf8(chunk@) ==> utf8_lossy(chunk@) == decode_utf8(chunk@),
    {
        let text = decode_lossy(chunk);
        self.feed_text(text.as_str())
    }
}

/// The pieces of a stream put end to end.
pub open spec fn joined<A>(pieces: Seq<Seq<A>>) -> Seq<A>
    decreases pieces.len(),
{
    if pieces.len() == 0 {
        Seq::empty()
    } else {
        joined(pieces.drop_last()) + pieces.last()
    }
}

/// The outcome of feeding a new parser the given pieces of text in order:
/// all frames emitted, and the state that is left.
pub open spec fn fed(framing: Framing, pieces: Seq<Seq<char>>) -> Scan
    decreases pieces.len(),
{
    if pieces.len() == 0 {
        Scan { frames: Seq::empty(), rest: Seq::empty(), label: Seq::empty() }
    } else {
        let before = fed(framing, pieces.drop_last());
        let step = scan(framing, before.label, before.rest + pieces.last());
        Scan { frames: before.frames + step.frames, rest: step.rest, label: step.label }
    }
}

/// Each chunk of bytes decoded on its own, as the parser does.
pub open spec fn decoded(chunks: Seq<Seq<u8>>) -> Seq<Seq<char>> {
    chunks.map_values(|chunk: Seq<u8>| utf8_lossy(chunk))
}

/// Where a text's first line ends within its first part, appending more
/// text moves neither the line's end nor its content.
proof fn lemma_line_end_append(a: Seq<char>, b: Seq<char>)
    requires
        line_end(a) < a.len(),
    ensures
        line_end(a + b) == line_end(a),
        (a + b).take(line_end(a)) == a.take(line_end(a)),
        (a + b).skip(line_end(a) + 1) == a.skip(line_end(a) + 1) + b,
{
    lemma_line_end_bounds(a);
    let n = line_end(a);
    assert forall|i: int| 0 <= i < n implies (a + b)[i] != '\n' by {
        assert((a + b)[i] == a[i]);
    }
    assert((a + b)[n] == a[n]);
    lemma_line_end_is(a + b, n);
    assert((a + b).take(n) =~= a.take(n));
    assert((a + b).skip(n + 1) =~= a.skip(n + 1) + b);
}

/// What is left after a scan holds no complete line.
pub proof fn lemma_scan_rest_is_partial(framing: Framing, label: Seq<char>, text: Seq<char>)
    ensures
        line_end(scan(framing, label, text).rest) == scan(framing, label, text).rest.len(),
    decreases text.len(),
{
    lemma_line_end_bounds(text);
    let n = line_end(text);
    if n < text.len() {
        lemma_scan_rest_is_partial(
            framing,
            line_effect(framing, label, text.take(n)).label,
            text.skip(n + 1),
        );
    }
}

/// Scanning text in two parts, the second joined to what the first left
/// over, emits the same frames in the same order and ends in the same state
/// as scanning it whole.
pub proof fn lemma_scan_split(framing: Framing, label: Seq<char>, a: Seq<char>, b: Seq<char>)
    ensures
        ({
            let first = scan(framing, label, a);
            let second = scan(framing, first.label, first.rest + b);
            let whole = scan(framing, label, a + b);
            &&& whole.frames == first.frames + second.frames
            &&& whole.rest == second.rest
            &&& whole.label == second.label
        }),
    decreases a.len(),
{
    lemma_line_end_bounds(a);
    let n = line_end(a);
    let first = scan(framing, label, a);
    let second = scan(framing, first.label, first.rest + b);
    if n < a.len() {
        lemma_line_end_append(a, b);
        let effect = line_effect(framing, label, a.take(n));
        lemma_scan_split(framing, effect.label, a.skip(n + 1), b);
        let later = scan(framing, effect.label, a.skip(n + 1));
        match effect.frame {
            Some(f) => {
                assert(seq![f] + (later.frames + second.frames) =~= (seq![f] + later.frames)
                    + second.frames);
            },
            None => {},
        }
    } else {
        assert(first.frames + second.frames =~= second.frames);
    }
}

/// However a text is cut into pieces, feeding the pieces in order emits the
/// frames, and leaves the state, that feeding the whole text at once does.
pub proof fn lemma_chunking_is_invisible(framing: Framing, pieces: Seq<Seq<char>>)
    ensures
        fed(framing, pieces) == scan(framing, Seq::empty(), joined(pieces)),
    decreases pieces.len(),
{
    let none = Seq::<char>::empty();
    if pieces.len() == 0 {
        assert(line_end(none) == 0);
    } else {
        let head = pieces.drop_last();
        lemma_chunking_is_invisible(framing, head);
        lemma_scan_split(framing, none, joined(head), pieces.last());
    }
}

/// Two ways of cutting the same text into pieces give the same frames and
/// the same final state.
pub proof fn lemma_rechunking(framing: Framing, one: Seq<Seq<char>>, other: Seq<Seq<char>>)
    requires
        joined(one) == joined(other),
    ensures
        fed(framing, one) == fed(framing, other),
{
    lemma_chunking_is_invisible(framing, one);
    lemma_chunking_is_invisible(framing, other);
}

/// A stream of bytes that arrives in chunks gives the frames of the same
/// bytes arriving as one chunk, provided that no cut changes how the bytes
/// decode: the chunks' texts, put end to end, are the text of the whole.
pub proof fn lemma_byte_chunking_is_invisible(framing: Framing, chunks: Seq<Seq<u8>>)
    requires
        joined(decoded(chunks)) == utf8_lossy(joined(chunks)),
    ensures
        fed(framing, decoded(chunks)) == fed(framing, decoded(seq![joined(chunks)])),
{
    let whole = decoded(seq![joined(chunks)]);
    assert(whole.drop_last() =~= Seq::<Seq<char>>::empty());
    assert(joined(whole.drop_last()) =~= Seq::<char>::empty());
    assert(joined(whole) =~= utf8_lossy(joined(chunks)));
    lemma_rechunking(framing, decoded(chunks), whole);
}

/// A stream that delivers nothing emits nothing.
pub proof fn lemma_blank_stream(framing: Framing)
    ensures
        fed(framing, Seq::empty()).frames == Seq::<FrameText>::empty(),
        fed(framing, seq![Seq::empty()]).frames == Seq::<FrameText>::empty(),
        scan(framing, Seq::empty(), Seq::empty()).frames == Seq::<FrameText>::empty(),
{
    let none = Seq::<char>::empty();
    assert(line_end(none) == 0);
    let one = seq![none];
    assert(one.drop_last() =~= Seq::<Seq<char>>::empty());
    assert(joined(one.drop_last()) =~= none);
    assert(joined(one) =~= none);
    lemma_chunking_is_invisible(framing, one);
}

/// Only a line that begins with `data:` can emit a frame. A comment (a
/// line that begins with a colon) and an `event:` line never do.
pub proof fn lemma_only_data_lines_emit(framing: Framing, label: Seq<char>, line: Seq<char>)
    ensures
        !data_tag().is_prefix_of(line) ==> line_effect(framing, label, line).frame is None,
        line.len() > 0 && line[0] == ':' ==> line_effect(framing, label, line).frame is None,
        event_tag().is_prefix_of(line) ==> line_effect(framing, label, line).frame is None,
{
    if line.len() > 0 && line[0] == ':' {
        assert(data_tag()[0] != line.subrange(0, 5)[0] || line.len() < 5);
    }
    if event_tag().is_prefix_of(line) {
        assert(line.subrange(0, 6)[0] == 'e');
        assert(data_tag()[0] != line.subrange(0, 5)[0]);
    }
}

/// Whether some complete line of the text begins with `data:`.
pub open spec fn has_data_line(text: Seq<char>) -> bool
    decreases text.len(),
{
    let n = line_end(text);
    if 0 <= n < text.len() {
        data_tag().is_prefix_of(text.take(n)) || has_data_line(text.skip(n + 1))
    } else {
        false
    }
}

/// Text without a `data:` line emits no frame, whatever else it holds:
/// comments, `event:` lines, blank lines, or an unterminated tail.
pub proof fn lemma_no_data_no_frames(framing: Framing, label: Seq<char>, text: Seq<char>)
    requires
        !has_data_line(text),
    ensures
        scan(framing, label, text).frames == Seq::<FrameText>::empty(),
    decreases text.len(),
{
    lemma_line_end_bounds(text);
    let n = line_end(text);
    if n < text.len() {
        let effect = line_effect(framing, label, text.take(n));
        lemma_only_data_lines_emit(framing, label, text.take(n));
        lemma_no_data_no_frames(framing, effect.label, text.skip(n + 1));
    }
}

/// A line, its newline and what follows: the scan meets the line first.
proof fn lemma_first_line(line: Seq<char>, tail: Seq<char>)
    requires
        line_end(line) == line.len(),
    ensures
        line_end(line + seq!['\n'] + tail) == line.len(),
        (line + seq!['\n'] + tail).take(line.len() as int) == line,
        (line + seq!['\n'] + tail).skip(line.len() as int + 1) == tail,
{
    let text = line + seq!['\n'] + tail;
    lemma_line_end_bounds(line);
    assert forall|i: int| 0 <= i < line.len() implies text[i] != '\n' by {
        assert(text[i] == line[i]);
    }
    assert(text[line.len() as int] == '\n');
    lemma_line_end_is(text, line.len() as int);
    assert(text.take(line.len() as int) =~= line);
    assert(text.skip(line.len() as int + 1) =~= tail);
}

/// A tag and a value without newlines make a text without newlines.
proof fn lemma_tagged_line(tag: Seq<char>, value: Seq<char>)
    requires
        forall|i: int| 0 <= i < tag.len() ==> tag[i] != '\n',
        line_end(value) == value.len(),
    ensures
        line_end(tag + value) == tag.len() + value.len(),
        tag.is_prefix_of(tag + value),
        (tag + value).skip(tag.len() as int) == value,
{
    let line = tag + value;
    lemma_line_end_bounds(value);
    assert forall|i: int| 0 <= i < line.len() implies line[i] != '\n' by {
        if i >= tag.len() {
            assert(line[i] == value[i - tag.len()]);
        } else {
            assert(line[i] == tag[i]);
        }
    }
    lemma_line_end_is(line, line.len() as int);
    assert(line.subrange(0, tag.len() as int) =~= tag);
    assert(line.skip(tag.len() as int) =~= value);
}

/// On a labelled stream, an `event:` line, a `data:` line and a blank line
/// make exactly one frame: the trimmed label with the trimmed payload.
/// Nothing stays buffered or pending.
pub proof fn lemma_labelled_frame(label: Seq<char>, payload: Seq<char>)
    requires
        line_end(label) == label.len(),
        line_end(payload) == payload.len(),
        trimmed(label).len() > 0,
        trimmed(payload).len() > 0,
    ensures
        scan(
            Framing::Labelled,
            Seq::empty(),
            event_tag() + label + seq!['\n'] + (data_tag() + payload + seq!['\n'] + seq!['\n']),
        ) == (Scan {
            frames: seq![FrameText { event: trimmed(label), data: trimmed(payload) }],
            rest: Seq::empty(),
            label: Seq::empty(),
        }),
{
    let none = Seq::<char>::empty();
    let blank = seq!['\n'];
    let first = event_tag() + label;
    let second = data_tag() + payload;
    let after_first = second + blank + blank;
    let text = first + blank + after_first;
    lemma_tagged_line(event_tag(), label);
    lemma_tagged_line(data_tag(), payload);
    lemma_first_line(first, after_first);
    lemma_first_line(second, blank);
    assert(blank =~= none + seq!['\n'] + none);
    assert(line_end(none) == 0);
    lemma_first_line(none, none);
    assert(second.len() >= 6 ==> second.subrange(0, 6)[0] == 'd');
    let pending = trimmed(label);
    let frame = FrameText { event: pending, data: trimmed(payload) };
    let e1 = line_effect(Framing::Labelled, none, first);
    assert(e1 == LineEffect { frame: None, label: pending });
    let e2 = line_effect(Framing::Labelled, pending, second);
    assert(e2 == LineEffect { frame: Some(frame), label: none });
    let e3 = line_effect(Framing::Labelled, none, none);
    assert(e3 == LineEffect { frame: None, label: none });
    let s4 = scan(Framing::Labelled, none, none);
    assert(s4 == Scan { frames: Seq::empty(), rest: none, label: none });
    let s3 = scan(Framing::Labelled, none, blank);
    assert(s3 == s4);
    let s2 = scan(Framing::Labelled, pending, after_first);
    assert(s2.frames =~= seq![frame]);
    assert(s2 == Scan { frames: seq![frame], rest: none, label: none });
}

} // verus!
