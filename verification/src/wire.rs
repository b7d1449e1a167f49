//! What the three kinds of record share: the capability to be put on the
//! wire, and the shape of an optional segment.

use crate::decimal::decimal_text;
use crate::decimal::push_decimal;
use crate::tags::format_tags;
use crate::tags::optional_tag_entries;
use crate::tags::tags_text;
use crate::time::Timestamp;
use indexmap::IndexMap;
use vstd::prelude::*;
use vstd::string::StringExecFns;

verus! {

/// A record that has a wire form.
pub trait IntoStatsd {
    /// Whether the record can be written at all.
    spec fn encodable(&self) -> bool;

    /// The line that stands for the record, without a line end.
    spec fn wire(&self) -> Seq<char>;

    /// Writes the record as its line.
    fn serialize(&self) -> (line: String)
        requires
            self.encodable(),
        ensures
            line@ == self.wire(),
    ;
}

/// Writing is repeatable: whatever two calls of `serialize` on one record
/// return, they return the same line.
pub proof fn lemma_serialize_repeatable<T: IntoStatsd>(record: &T, first: String, second: String)
    requires
        call_ensures(T::serialize, (record,), first),
        call_ensures(T::serialize, (record,), second),
    ensures
        first@ == second@,
{
}

/// An optional segment of a line: the marker and the body when there is a
/// body, nothing at all when there is none.
pub open spec fn segment(marker: Seq<char>, body: Option<Seq<char>>) -> Seq<char> {
    match body {
        Some(b) => marker + b,
        None => Seq::empty(),
    }
}

/// The segment `|d:<ms>`: the milliseconds from the epoch to the timestamp,
/// in decimal notation.
pub open spec fn timestamp_segment(timestamp: Option<Timestamp>) -> Seq<char> {
    segment(
        "|d:"@,
        match timestamp {
            Some(t) => Some(decimal_text(t.epoch_millis())),
            None => None,
        },
    )
}

/// The segment `|#<tags>`: the tags in their order. Tags without entries
/// still make a segment, one with an empty body.
pub open spec fn tags_segment(tags: Option<Seq<(Seq<char>, Option<Seq<char>>)>>) -> Seq<char> {
    segment(
        "|#"@,
        match tags {
            Some(entries) => Some(tags_text(entries)),
            None => None,
        },
    )
}

/// Appends a segment that has a body.
pub(crate) fn push_segment(line: &mut String, marker: &str, body: &str)
    ensures
        final(line)@ == old(line)@ + segment(marker@, Some(body@)),
{
    line.append(marker);
    line.append(body);
}

/// Appends the timestamp segment, if there is a timestamp.
pub(crate) fn push_timestamp(line: &mut String, timestamp: &Option<Timestamp>)
    requires
        timestamp matches Some(t) ==> !t.precedes_epoch(),
    ensures
        final(line)@ == old(line)@ + timestamp_segment(*timestamp),
{
    match timestamp {
        Some(t) => {
            match t.millis() {
                Ok(ms) => {
                    line.append("|d:");
                    push_decimal(line, ms);
                },
                Err(_) => {},
            }
        },
        None => {},
    }
}

/// Appends a segment that carries a text as it is, if there is a text.
pub(crate) fn push_text(line: &mut String, marker: &str, text: &Option<String>)
    ensures
        final(line)@ == old(line)@ + segment(marker@, text.deep_view()),
{
    match text {
        Some(t) => {
            push_segment(line, marker, t.as_str());
        },
        None => {},
    }
}

/// Appends the tag segment, if there is a tag map.
pub(crate) fn push_tags(line: &mut String, tags: &Option<IndexMap<String, Option<String>>>)
    ensures
        final(line)@ == old(line)@ + tags_segment(optional_tag_entries(*tags)),
{
    match tags {
        Some(t) => {
            let text = format_tags(t);
            push_segment(line, "|#", text.as_str());
        },
        None => {},
    }
}

} // verus!
