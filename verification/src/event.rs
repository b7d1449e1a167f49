//! Events.

use crate::codes::AlertType;
use crate::codes::Priority;
use crate::decimal::decimal_text;
use crate::decimal::push_decimal;
use crate::tags::optional_tag_entries;
use crate::time::Timestamp;
use crate::wire::push_segment;
use crate::wire::push_tags;
use crate::wire::push_text;
use crate::wire::push_timestamp;
use crate::wire::segment;
use crate::wire::tags_segment;
use crate::wire::timestamp_segment;
use crate::wire::IntoStatsd;
use indexmap::IndexMap;
use vstd::prelude::*;
use vstd::string::StringExecFns;
use vstd::utf8::encode_utf8;

verus! {

/// Something that happened.
#[derive(Debug)]
pub struct Event {
    pub title: String,
    pub text: String,
    pub timestamp: Option<Timestamp>,
    pub hostname: Option<String>,
    /// Kept with the event; no segment of the line carries it.
    pub aggregation_key: Option<String>,
    pub priority: Option<Priority>,
    /// Kept with the event; no segment of the line carries it.
    pub source_type: Option<String>,
    pub alert_type: Option<AlertType>,
    pub tags: Option<IndexMap<String, Option<String>>>,
}

/// What an event holds.
pub ghost struct EventView {
    pub title: Seq<char>,
    pub text: Seq<char>,
    pub timestamp: Option<Timestamp>,
    pub hostname: Option<Seq<char>>,
    pub aggregation_key: Option<Seq<char>>,
    pub priority: Option<Priority>,
    pub source_type: Option<Seq<char>>,
    pub alert_type: Option<AlertType>,
    pub tags: Option<Seq<(Seq<char>, Option<Seq<char>>)>>,
}

impl View for Event {
    type V = EventView;

    open spec fn view(&self) -> EventView {
        EventView {
            title: self.title@,
            text: self.text@,
            timestamp: self.timestamp,
            hostname: self.hostname.deep_view(),
            aggregation_key: self.aggregation_key.deep_view(),
            priority: self.priority,
            source_type: self.source_type.deep_view(),
            alert_type: self.alert_type,
            tags: optional_tag_entries(self.tags),
        }
    }
}

/// What every event line begins with: `_e{<n>,<m>}:<title>|<text>`, where `n`
/// and `m` count the bytes of title and text in UTF-8.
pub open spec fn event_head(e: EventView) -> Seq<char> {
    "_e{"@ + decimal_text(encode_utf8(e.title).len()) + ","@ + decimal_text(
        encode_utf8(e.text).len(),
    ) + "}:"@ + e.title + "|"@ + e.text
}

/// The segment `|p:<priority>`.
pub open spec fn priority_segment(priority: Option<Priority>) -> Seq<char> {
    segment(
        "|p:"@,
        match priority {
            Some(p) => Some(p.token()),
            None => None,
        },
    )
}

/// The segment `|t:<alert type>`.
pub open spec fn alert_segment(alert_type: Option<AlertType>) -> Seq<char> {
    segment(
        "|t:"@,
        match alert_type {
            Some(a) => Some(a.token()),
            None => None,
        },
    )
}

/// The line of an event:
/// `_e{<n>,<m>}:<title>|<text>[|d:<ms>][|h:<hostname>][|p:<priority>][|t:<alert type>][|#<tags>]`.
/// Neither the aggregation key nor the source type has a segment.
pub open spec fn event_line(e: EventView) -> Seq<char> {
    event_head(e) + timestamp_segment(e.timestamp) + segment("|h:"@, e.hostname) + priority_segment(
        e.priority,
    ) + alert_segment(e.alert_type) + tags_segment(e.tags)
}

/// The number of bytes that a text takes in UTF-8.
fn byte_len(text: &String) -> (count: usize)
    ensures
        count == encode_utf8(text@).len(),
{
    text.as_str().as_bytes().len()
}

impl IntoStatsd for Event {
    /// An event can be written unless its timestamp lies before the epoch.
    open spec fn encodable(&self) -> bool {
        self.timestamp matches Some(t) ==> !t.precedes_epoch()
    }

    open spec fn wire(&self) -> Seq<char> {
        event_line(self@)
    }

    fn serialize(&self) -> (line: String) {
        let mut line = String::from_str("_e{");
        push_decimal(&mut line, byte_len(&self.title) as u128);
        line.append(",");
        push_decimal(&mut line, byte_len(&self.text) as u128);
        line.append("}:");
        line.append(self.title.as_str());
        line.append("|");
        line.append(self.text.as_str());
        push_timestamp(&mut line, &self.timestamp);
        push_text(&mut line, "|h:", &self.hostname);
        match &self.priority {
            Some(p) => {
                let token = p.to_string();
                push_segment(&mut line, "|p:", token.as_str());
            },
            None => {},
        }
        match &self.alert_type {
            Some(a) => {
                let token = a.to_string();
                push_segment(&mut line, "|t:", token.as_str());
            },
            None => {},
        }
        push_tags(&mut line, &self.tags);
        line
    }
}

/// The order in which the optional fields of an event are set does not show:
/// the hostname set before the priority, or after it, gives one and the same
/// event, and its line carries the segments in their fixed order, timestamp,
/// hostname, priority, alert type, tags.
pub proof fn lemma_setting_order_is_immaterial(
    event: EventView,
    hostname: Seq<char>,
    priority: Priority,
)
    ensures
        ({
            let hostname_first = EventView {
                priority: Some(priority),
                ..EventView { hostname: Some(hostname), ..event }
            };
            let priority_first = EventView {
                hostname: Some(hostname),
                ..EventView { priority: Some(priority), ..event }
            };
            &&& hostname_first == priority_first
            &&& event_line(hostname_first) == event_line(priority_first)
            &&& event_line(hostname_first) == event_head(event) + timestamp_segment(event.timestamp)
                + "|h:"@ + hostname + "|p:"@ + priority.token() + alert_segment(event.alert_type)
                + tags_segment(event.tags)
        }),
{
}

/// Every event line begins with `_e{<n>,<m>}:<title>|<text>`, whatever
/// follows.
pub proof fn lemma_event_begins_with_head(event: EventView)
    ensures
        event_head(event).is_prefix_of(event_line(event)),
{
}

/// Neither the aggregation key nor the source type of an event shows in its
/// line.
pub proof fn lemma_unwritten_fields(
    event: EventView,
    aggregation_key: Option<Seq<char>>,
    source_type: Option<Seq<char>>,
)
    ensures
        event_line(EventView { aggregation_key, source_type, ..event }) == event_line(event),
{
}

} // verus!
