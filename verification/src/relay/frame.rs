//! The lines of the provider's event stream.
//!
//! The provider answers a streaming call with lines. A line that begins with
//! `data: ` carries a payload, and the payload `[DONE]` is the end marker.
//! Every other line (a blank line, a comment, another field) carries nothing.
//! A payload is a JSON document that may hold a piece of text.

use vstd::prelude::*;
use vstd::string::{StrSliceExecFns, StringExecFns};
use crate::model::text::same_text;
use crate::relay::upstream::{ProviderSignal, ProviderSignalView};

verus! {

/// What one line of the stream is.
#[derive(Debug, Clone, PartialEq, Eq)]
pub enum Frame {
    /// A payload, still to be decoded.
    Data(String),
    /// The end marker.
    Done,
    /// A line that carries nothing.
    Other,
}

/// A [`Frame`] over sequences of characters.
pub enum FrameView {
    Data(Seq<char>),
    Done,
    Other,
}

impl View for Frame {
    type V = FrameView;

    open spec fn view(&self) -> FrameView {
        match self {
            Frame::Data(payload) => FrameView::Data(payload@),
            Frame::Done => FrameView::Done,
            Frame::Other => FrameView::Other,
        }
    }
}

/// What begins a line that carries a payload.
pub open spec fn data_prefix() -> Seq<char> {
    seq!['d', 'a', 't', 'a', ':', ' ']
}

/// The payload that marks the end of the stream.
pub open spec fn done_marker() -> Seq<char> {
    "[DONE]"@
}

/// What a line is: the payload after the prefix, the end marker, or nothing.
pub open spec fn frame_of(line: Seq<char>) -> FrameView {
    if data_prefix().is_prefix_of(line) {
        let payload = line.skip(6);
        if payload == done_marker() {
            FrameView::Done
        } else {
            FrameView::Data(payload)
        }
    } else {
        FrameView::Other
    }
}

/// Whether a text begins with another.
pub fn starts_with(text: &str, prefix: &str) -> (begins: bool)
    ensures
        begins == prefix@.is_prefix_of(text@),
{
    let n = prefix.unicode_len();
    if text.unicode_len() < n {
        return false;
    }
    let mut i: usize = 0;
    while i < n
        invariant
            n == prefix@.len(),
            n <= text@.len(),
            i <= n,
            forall|j: int| 0 <= j < i ==> text@[j] == prefix@[j],
        decreases n - i,
    {
        if text.get_char(i) != prefix.get_char(i) {
            assert(text@.subrange(0, n as int)[i as int] != prefix@[i as int]);
            return false;
        }
        i += 1;
    }
    assert(text@.subrange(0, n as int) =~= prefix@);
    true
}

/// Reads one line of the provider's stream.
pub fn read_frame(line: &str) -> (frame: Frame)
    ensures
        frame@ == frame_of(line@),
{
    proof {
        reveal_strlit("data: ");
        assert("data: "@ =~= data_prefix());
    }
    if starts_with(line, "data: ") {
        let payload = line.substring_char(6, line.unicode_len());
        assert(payload@ =~= line@.skip(6));
        if same_text(payload, "[DONE]") {
            Frame::Done
        } else {
            Frame::Data(String::from_str(payload))
        }
    } else {
        Frame::Other
    }
}

/// The byte that ends a line.
pub const LINE_FEED: u8 = 10;

/// The byte that may stand before the line feed and is no part of the line.
pub const CARRIAGE_RETURN: u8 = 13;

/// Whether the first line feed among the bytes is at `at`.
pub open spec fn is_first_line_feed(bytes: Seq<u8>, at: int) -> bool {
    &&& 0 <= at < bytes.len()
    &&& bytes[at] == LINE_FEED
    &&& forall|j: int| 0 <= j < at ==> bytes[j] != LINE_FEED
}

/// A line without the carriage return at its end, if it has one.
pub open spec fn without_carriage_return(line: Seq<u8>) -> Seq<u8> {
    if line.len() > 0 && line.last() == CARRIAGE_RETURN {
        line.drop_last()
    } else {
        line
    }
}

/// Takes the first whole line off the bytes received so far.
///
/// Where the bytes hold a line feed, the line is what stands before the
/// first one, less a carriage return at its end, and the bytes after that
/// line feed stay behind. Where they hold none, nothing is taken.
pub fn take_line(pending: &mut Vec<u8>) -> (line: Option<Vec<u8>>)
    ensures
        match line {
            Some(taken) => exists|at: int|
                is_first_line_feed(old(pending)@, at) && taken@ == without_carriage_return(
                    old(pending)@.take(at),
                ) && final(pending)@ == old(pending)@.skip(at + 1),
            None => final(pending)@ == old(pending)@ && forall|j: int|
                0 <= j < old(pending)@.len() ==> old(pending)@[j] != LINE_FEED,
        },
{
    let n = pending.len();
    let mut at: usize = 0;
    while at < n && pending[at] != LINE_FEED
        invariant
            n == pending@.len(),
            pending@ == old(pending)@,
            at <= n,
            forall|j: int| 0 <= j < at ==> pending@[j] != LINE_FEED,
        decreases n - at,
    {
        at += 1;
    }
    if at == n {
        return None;
    }
    assert(is_first_line_feed(old(pending)@, at as int));
    let end = if at > 0 && pending[at - 1] == CARRIAGE_RETURN {
        at - 1
    } else {
        at
    };
    let mut taken: Vec<u8> = Vec::new();
    let mut i: usize = 0;
    while i < end
        invariant
            end <= at < n,
            n == pending@.len(),
            pending@ == old(pending)@,
            i <= end,
            taken@ == pending@.take(i as int),
        decreases end - i,
    {
        taken.push(pending[i]);
        assert(taken@ =~= pending@.take(i as int + 1));
        i += 1;
    }
    assert(taken@ =~= without_carriage_return(old(pending)@.take(at as int)));
    let mut rest: Vec<u8> = Vec::new();
    let mut k: usize = at + 1;
    while k < n
        invariant
            at < n,
            n == pending@.len(),
            pending@ == old(pending)@,
            at + 1 <= k <= n,
            rest@ == pending@.subrange(at as int + 1, k as int),
        decreases n - k,
    {
        rest.push(pending[k]);
        assert(rest@ =~= pending@.subrange(at as int + 1, k as int + 1));
        k += 1;
    }
    assert(rest@ =~= old(pending)@.skip(at as int + 1));
    *pending = rest;
    Some(taken)
}

/// What serde_json finds in a document at a JSON pointer: `None` where the
/// document is no JSON, `Some(None)` where it is JSON and the pointer leads
/// to no string, and the string where it leads to one.
pub uninterp spec fn json_string_at(document: Seq<char>, pointer: Seq<char>) -> Option<
    Option<Seq<char>>,
>;

/// What was found in a document, over sequences of characters.
pub open spec fn found_view(found: Option<Option<String>>) -> Option<Option<Seq<char>>> {
    match found {
        None => None,
        Some(None) => Some(None),
        Some(Some(text)) => Some(Some(text@)),
    }
}

/// Parses a document with `serde_json::from_str` into a `serde_json::Value`
/// and looks up a pointer in it with `Value::pointer`.
///
/// Trusted: both read their arguments alone, so the contract gives the
/// outcome its name. A parse error becomes `None`; a value that is missing
/// or is no string becomes `Some(None)`.
#[verifier::external_body]
fn find_json_string(document: &str, pointer: &str) -> (found: Option<Option<String>>)
    ensures
        found_view(found) == json_string_at(document@, pointer@),
{
    match serde_json::from_str::<serde_json::Value>(document) {
        Ok(value) => match value.pointer(pointer) {
            Some(serde_json::Value::String(text)) => Some(Some(text.clone())),
            _ => Some(None),
        },
        Err(_) => None,
    }
}

/// Where a payload holds its piece of text.
pub open spec fn content_pointer() -> Seq<char> {
    "/choices/0/delta/content"@
}

/// The cause reported for a payload that is no JSON.
pub open spec fn malformed_cause() -> Seq<char> {
    "malformed payload"@
}

/// The signal that a payload stands for, given what was found in it: an
/// error where it is no JSON, nothing where it holds no text, else its text.
pub open spec fn signal_of_content(found: Option<Option<Seq<char>>>) -> Option<
    ProviderSignalView,
> {
    match found {
        None => Some(ProviderSignalView::Error(malformed_cause())),
        Some(None) => None,
        Some(Some(text)) => Some(ProviderSignalView::Text(text)),
    }
}

/// The signal that a line stands for, if any.
pub open spec fn signal_of_line(line: Seq<char>) -> Option<ProviderSignalView> {
    match frame_of(line) {
        FrameView::Done => Some(ProviderSignalView::End),
        FrameView::Other => None,
        FrameView::Data(payload) => signal_of_content(json_string_at(payload, content_pointer())),
    }
}

/// A signal that may be missing, as a mathematical value.
pub open spec fn signal_view(signal: Option<ProviderSignal>) -> Option<ProviderSignalView> {
    match signal {
        Some(signal) => Some(signal@),
        None => None,
    }
}

/// Says which signal a payload stands for, from what was found in it.
pub fn content_signal(found: Option<Option<String>>) -> (signal: Option<ProviderSignal>)
    ensures
        signal_view(signal) == signal_of_content(found_view(found)),
{
    match found {
        None => Some(ProviderSignal::Error(String::from_str("malformed payload"))),
        Some(None) => None,
        Some(Some(text)) => Some(ProviderSignal::Text(text)),
    }
}

/// Reads one line of the provider's stream as a signal: the end marker ends
/// the stream, a payload gives its text, and every other line gives nothing.
pub fn read_signal(line: &str) -> (signal: Option<ProviderSignal>)
    ensures
        signal_view(signal) == signal_of_line(line@),
{
    match read_frame(line) {
        Frame::Done => Some(ProviderSignal::End),
        Frame::Other => None,
        Frame::Data(payload) => content_signal(
            find_json_string(payload.as_str(), "/choices/0/delta/content"),
        ),
    }
}

} // verus!
