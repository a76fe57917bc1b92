//! The stream pump: it cuts the bytes of one output stream of the archiver
//! into lines and turns each line into a log event.
//!
//! A line ends at a line feed; a carriage return directly before the line
//! feed belongs to the line ending.  What follows the last line feed is a
//! fragment: it becomes a line of its own when the stream ends, unless it is
//! empty.

use crate::event::{CommandUpdate, StreamOrigin, UpdateView, update_views};
use vstd::prelude::*;
use vstd::utf8::{
    decode_utf8, encode_utf8, encode_utf8_decode_utf8, encode_utf8_valid_utf8, is_ascii_chars,
    is_ascii_chars_encode_utf8, valid_utf8,
};

verus! {

/// The byte that ends a line.
pub const LINE_FEED: u8 = 10;

/// The byte that may stand before a line feed.
pub const CARRIAGE_RETURN: u8 = 13;

/// The text that `String::from_utf8_lossy` makes of bytes that are not valid
/// UTF-8.
pub uninterp spec fn lossy_text(bytes: Seq<u8>) -> Seq<char>;

/// The text of a line: its characters where the bytes are valid UTF-8, and
/// the lossy reading otherwise.
pub open spec fn line_text(bytes: Seq<u8>) -> Seq<char> {
    if valid_utf8(bytes) {
        decode_utf8(bytes)
    } else {
        lossy_text(bytes)
    }
}

/// The index of the first line feed, or the length where there is none.
pub open spec fn first_line_feed(bytes: Seq<u8>) -> int
    decreases bytes.len(),
{
    if bytes.len() == 0 || bytes[0] == LINE_FEED {
        0
    } else {
        1 + first_line_feed(bytes.skip(1))
    }
}

/// A line without the carriage return at its end, if it has one.
pub open spec fn without_carriage_return(line: Seq<u8>) -> Seq<u8> {
    if line.len() > 0 && line.last() == CARRIAGE_RETURN {
        line.drop_last()
    } else {
        line
    }
}

/// The lines that are complete: each is ended by a line feed.
pub open spec fn complete_lines(bytes: Seq<u8>) -> Seq<Seq<u8>>
    decreases bytes.len(),
{
    let n = first_line_feed(bytes);
    if 0 <= n < bytes.len() {
        seq![without_carriage_return(bytes.take(n))] + complete_lines(bytes.skip(n + 1))
    } else {
        Seq::empty()
    }
}

/// What follows the last line feed.
pub open spec fn fragment(bytes: Seq<u8>) -> Seq<u8>
    decreases bytes.len(),
{
    let n = first_line_feed(bytes);
    if 0 <= n < bytes.len() {
        fragment(bytes.skip(n + 1))
    } else {
        bytes
    }
}

/// The lines of a stream that has ended: the complete lines, and the
/// fragment if it is not empty.
pub open spec fn lines_of(bytes: Seq<u8>) -> Seq<Seq<u8>> {
    if fragment(bytes).len() > 0 {
        complete_lines(bytes).push(fragment(bytes))
    } else {
        complete_lines(bytes)
    }
}

/// The log events of lines read from one stream.
pub open spec fn line_events(origin: StreamOrigin, lines: Seq<Seq<u8>>) -> Seq<UpdateView> {
    Seq::new(
        lines.len(),
        |i: int| UpdateView::LogLine { text: line_text(lines[i]), origin },
    )
}

/// Where the first line feed stands: within the bytes or at their end, with
/// no line feed before it.
pub proof fn lemma_first_line_feed(bytes: Seq<u8>)
    ensures
        0 <= first_line_feed(bytes) <= bytes.len(),
        first_line_feed(bytes) < bytes.len() ==> bytes[first_line_feed(bytes)] == LINE_FEED,
        forall|i: int| 0 <= i < first_line_feed(bytes) ==> bytes[i] != LINE_FEED,
    decreases bytes.len(),
{
    if bytes.len() != 0 && bytes[0] != LINE_FEED {
        let rest = bytes.skip(1);
        lemma_first_line_feed(rest);
        assert forall|i: int| 0 <= i < first_line_feed(bytes) implies bytes[i] != LINE_FEED by {
            if i > 0 {
                assert(rest[i - 1] == bytes[i]);
            }
        }
    }
}

/// The first line feed of bytes that are followed by one more byte.
proof fn lemma_first_line_feed_push(bytes: Seq<u8>, byte: u8)
    ensures
        first_line_feed(bytes.push(byte)) == if first_line_feed(bytes) < bytes.len() {
            first_line_feed(bytes)
        } else if byte == LINE_FEED {
            bytes.len() as int
        } else {
            bytes.len() as int + 1
        },
    decreases bytes.len(),
{
    lemma_first_line_feed(bytes);
    let longer = bytes.push(byte);
    if bytes.len() == 0 {
        assert(first_line_feed(longer.skip(1)) == 0);
    } else if bytes[0] != LINE_FEED {
        assert(longer.skip(1) =~= bytes.skip(1).push(byte));
        lemma_first_line_feed_push(bytes.skip(1), byte);
    }
}

/// One more byte: a line feed completes the fragment as a line, any other
/// byte lengthens the fragment.
pub proof fn lemma_one_more_byte(bytes: Seq<u8>, byte: u8)
    ensures
        byte == LINE_FEED ==> complete_lines(bytes.push(byte)) == complete_lines(bytes).push(
            without_carriage_return(fragment(bytes)),
        ) && fragment(bytes.push(byte)) == Seq::<u8>::empty(),
        byte != LINE_FEED ==> complete_lines(bytes.push(byte)) == complete_lines(bytes)
            && fragment(bytes.push(byte)) == fragment(bytes).push(byte),
    decreases bytes.len(),
{
    let n = first_line_feed(bytes);
    let longer = bytes.push(byte);
    lemma_first_line_feed(bytes);
    lemma_first_line_feed_push(bytes, byte);
    if n < bytes.len() {
        let rest = bytes.skip(n + 1);
        assert(longer.take(n) =~= bytes.take(n));
        assert(longer.skip(n + 1) =~= rest.push(byte));
        lemma_one_more_byte(rest, byte);
    } else if byte == LINE_FEED {
        let nothing = Seq::<u8>::empty();
        assert(longer.take(n) =~= bytes);
        assert(longer.skip(n + 1) =~= nothing);
        assert(complete_lines(nothing) =~= Seq::<Seq<u8>>::empty());
        assert(fragment(longer) == fragment(longer.skip(n + 1)));
    }
}

/// Cutting a stream into two chunks changes nothing: the complete lines of
/// the whole are those of the first chunk, followed by those of the first
/// chunk's fragment with the second chunk behind it, and the fragment of
/// the whole is the fragment of that.
pub proof fn lemma_chunks(first: Seq<u8>, second: Seq<u8>)
    ensures
        complete_lines(first + second) == complete_lines(first) + complete_lines(
            fragment(first) + second,
        ),
        fragment(first + second) == fragment(fragment(first) + second),
    decreases second.len(),
{
    if second.len() == 0 {
        lemma_fragment_has_no_line_feed(first);
        lemma_no_line_feed(fragment(first));
    } else {
        let head = second.drop_last();
        let byte = second.last();
        lemma_chunks(first, head);
        assert(first + second =~= (first + head).push(byte));
        assert(fragment(first) + second =~= (fragment(first) + head).push(byte));
        lemma_one_more_byte(first + head, byte);
        lemma_one_more_byte(fragment(first) + head, byte);
    }
}

/// A fragment holds no line feed.
pub proof fn lemma_fragment_has_no_line_feed(bytes: Seq<u8>)
    ensures
        forall|i: int| 0 <= i < fragment(bytes).len() ==> fragment(bytes)[i] != LINE_FEED,
    decreases bytes.len(),
{
    let n = first_line_feed(bytes);
    lemma_first_line_feed(bytes);
    if n < bytes.len() {
        lemma_fragment_has_no_line_feed(bytes.skip(n + 1));
        assert(fragment(bytes) == fragment(bytes.skip(n + 1)));
    }
}

/// Bytes without a line feed hold no complete line and are their own
/// fragment.
pub proof fn lemma_no_line_feed(bytes: Seq<u8>)
    requires
        forall|i: int| 0 <= i < bytes.len() ==> bytes[i] != LINE_FEED,
    ensures
        complete_lines(bytes) == Seq::<Seq<u8>>::empty(),
        fragment(bytes) == bytes,
{
    lemma_first_line_feed(bytes);
}

/// The characters that stand for bytes one by one.
pub open spec fn byte_chars(bytes: Seq<u8>) -> Seq<char> {
    Seq::new(bytes.len(), |i: int| bytes[i] as char)
}

/// A line of ASCII bytes is read byte by byte: its text holds one
/// character for each byte, with the byte's value.
pub proof fn lemma_ascii_line_text(bytes: Seq<u8>)
    requires
        forall|i: int| 0 <= i < bytes.len() ==> bytes[i] < 128,
    ensures
        valid_utf8(bytes),
        line_text(bytes) == byte_chars(bytes),
{
    let chars = byte_chars(bytes);
    assert(is_ascii_chars(chars));
    is_ascii_chars_encode_utf8(chars);
    assert(encode_utf8(chars) =~= bytes);
    encode_utf8_valid_utf8(chars);
    encode_utf8_decode_utf8(chars);
}

/// Calls `String::from_utf8_lossy` and owns the result.  The contract
/// claims that valid UTF-8 is read as the characters that it encodes, and
/// that the text made of any other bytes is settled by the bytes.
#[verifier::external_body]
pub(crate) fn decode_lossy(bytes: &[u8]) -> (text: String)
    ensures
        text@ == if valid_utf8(bytes@) {
            decode_utf8(bytes@)
        } else {
            lossy_text(bytes@)
        },
{
    String::from_utf8_lossy(bytes).into_owned()
}

/// The log event of one line.
pub fn line_event(origin: StreamOrigin, line: &[u8]) -> (update: CommandUpdate)
    ensures
        update@ == (UpdateView::LogLine { text: line_text(line@), origin }),
{
    CommandUpdate::LogLine { text: decode_lossy(line), origin }
}

/// The reader of one output stream.  It keeps the fragment between chunks.
pub struct LinePump {
    origin: StreamOrigin,
    pending: Vec<u8>,
}

impl LinePump {
    /// The stream that the pump reads.
    pub closed spec fn origin(&self) -> StreamOrigin {
        self.origin
    }

    /// The bytes read since the last line feed.
    pub closed spec fn pending(&self) -> Seq<u8> {
        self.pending@
    }

    /// The pump keeps no line feed.
    pub closed spec fn wf(&self) -> bool {
        forall|i: int| 0 <= i < self.pending@.len() ==> self.pending@[i] != LINE_FEED
    }

    /// A pump at the start of a stream.
    pub fn new(origin: StreamOrigin) -> (pump: LinePump)
        ensures
            pump.wf(),
            pump.origin() == origin,
            pump.pending() == Seq::<u8>::empty(),
    {
        LinePump { origin, pending: Vec::new() }
    }

    /// The stream that the pump reads.
    pub fn stream(&self) -> (origin: StreamOrigin)
        ensures
            origin == self.origin(),
    {
        self.origin
    }

    /// Takes the next chunk of the stream and returns the events of the
    /// lines that it completes, in order.
    pub fn feed(&mut self, chunk: &[u8]) -> (updates: Vec<CommandUpdate>)
        requires
            old(self).wf(),
        ensures
            final(self).wf(),
            final(self).origin() == old(self).origin(),
            final(self).pending() == fragment(old(self).pending() + chunk@),
            update_views(updates@) == line_events(
                old(self).origin(),
                complete_lines(old(self).pending() + chunk@),
            ),
    {
        let mut updates: Vec<CommandUpdate> = Vec::new();
        let ghost start = self.pending@;
        let origin = self.origin;
        proof {
            lemma_no_line_feed(start);
        }
        let mut i: usize = 0;
        while i < chunk.len()
            invariant
                i <= chunk.len(),
                self.origin == origin,
                self.wf(),
                self.pending@ == fragment(start + chunk@.take(i as int)),
                update_views(updates@) == line_events(
                    origin,
                    complete_lines(start + chunk@.take(i as int)),
                ),
            decreases chunk.len() - i,
        {
            let byte = chunk[i];
            let ghost seen = start + chunk@.take(i as int);
            let ghost before = update_views(updates@);
            proof {
                lemma_one_more_byte(seen, byte);
                assert(start + chunk@.take(i + 1) =~= seen.push(byte));
            }
            if byte == LINE_FEED {
                let n = self.pending.len();
                if n > 0 && self.pending[n - 1] == CARRIAGE_RETURN {
                    self.pending.pop();
                }
                updates.push(line_event(origin, self.pending.as_slice()));
                self.pending.clear();
                assert(update_views(updates@) =~= before.push(
                    UpdateView::LogLine {
                        text: line_text(without_carriage_return(fragment(seen))),
                        origin,
                    },
                ));
            } else {
                self.pending.push(byte);
            }
            i += 1;
        }
        assert(chunk@.take(chunk.len() as int) =~= chunk@);
        updates
    }

    /// Ends the stream: returns the event of the fragment, unless it is
    /// empty, and leaves the pump as new.
    pub fn finish(&mut self) -> (update: Option<CommandUpdate>)
        requires
            old(self).wf(),
        ensures
            final(self).wf(),
            final(self).origin() == old(self).origin(),
            final(self).pending() == Seq::<u8>::empty(),
            old(self).pending().len() == 0 ==> update is None,
            old(self).pending().len() > 0 ==> update is Some && update->0@ == (
            UpdateView::LogLine {
                text: line_text(old(self).pending()),
                origin: old(self).origin(),
            }),
    {
        if self.pending.len() == 0 {
            None
        } else {
            let update = line_event(self.origin, self.pending.as_slice());
            self.pending.clear();
            Some(update)
        }
    }
}

/// The log events of a whole stream that has ended.
pub fn pump_all(origin: StreamOrigin, bytes: &[u8]) -> (updates: Vec<CommandUpdate>)
    ensures
        update_views(updates@) == line_events(origin, lines_of(bytes@)),
{
    let mut pump = LinePump::new(origin);
    let mut updates = pump.feed(bytes);
    let ghost before = update_views(updates@);
    match pump.finish() {
        Some(last) => {
            updates.push(last);
            assert(update_views(updates@) =~= before.push(last@));
        },
        None => {},
    }
    updates
}

/// A stream read in two chunks gives the lines of the whole stream: the
/// events of the first chunk, then those of the second, then that of the
/// last fragment.
pub proof fn lemma_two_chunks_give_all_lines(first: Seq<u8>, second: Seq<u8>)
    ensures
        lines_of(first + second) == complete_lines(first) + lines_of(fragment(first) + second),
{
    lemma_chunks(first, second);
}

} // verus!
