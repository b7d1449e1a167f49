//! Service checks.

use crate::codes::Status;
use crate::tags::optional_tag_entries;
use crate::time::Timestamp;
use crate::wire::push_tags;
use crate::wire::push_text;
use crate::wire::push_timestamp;
use crate::wire::segment;
use crate::wire::tags_segment;
use crate::wire::timestamp_segment;
use crate::wire::IntoStatsd;
use indexmap::IndexMap;
use vstd::prelude::*;
use vstd::string::StringExecFns;

verus! {

/// A report on the health of a service.
#[derive(Debug)]
pub struct ServiceCheck {
    pub name: String,
    pub status: Status,
    pub timestamp: Option<Timestamp>,
    pub hostname: Option<String>,
    pub tags: Option<IndexMap<String, Option<String>>>,
    pub service_message: Option<String>,
}

/// What a service check holds.
pub ghost struct ServiceCheckView {
    pub name: Seq<char>,
    pub status: Status,
    pub timestamp: Option<Timestamp>,
    pub hostname: Option<Seq<char>>,
    pub tags: Option<Seq<(Seq<char>, Option<Seq<char>>)>>,
    pub service_message: Option<Seq<char>>,
}

impl View for ServiceCheck {
    type V = ServiceCheckView;

    open spec fn view(&self) -> ServiceCheckView {
        ServiceCheckView {
            name: self.name@,
            status: self.status,
            timestamp: self.timestamp,
            hostname: self.hostname.deep_view(),
            tags: optional_tag_entries(self.tags),
            service_message: self.service_message.deep_view(),
        }
    }
}

/// What every service check line begins with: `_sc|<name>|<status>`.
pub open spec fn service_check_head(s: ServiceCheckView) -> Seq<char> {
    "_sc|"@ + s.name + "|"@ + s.status.token()
}

/// The line of a service check:
/// `_sc|<name>|<status>[|d:<ms>][|h:<hostname>][|#<tags>][|m:<message>]`.
pub open spec fn service_check_line(s: ServiceCheckView) -> Seq<char> {
    service_check_head(s) + timestamp_segment(s.timestamp) + segment("|h:"@, s.hostname)
        + tags_segment(s.tags) + segment("|m:"@, s.service_message)
}

impl IntoStatsd for ServiceCheck {
    /// A service check can be written unless its timestamp lies before the
    /// epoch.
    open spec fn encodable(&self) -> bool {
        self.timestamp matches Some(t) ==> !t.precedes_epoch()
    }

    open spec fn wire(&self) -> Seq<char> {
        service_check_line(self@)
    }

    fn serialize(&self) -> (line: String) {
        let mut line = String::from_str("_sc|");
        line.append(self.name.as_str());
        line.append("|");
        let token = self.status.to_string();
        line.append(token.as_str());
        push_timestamp(&mut line, &self.timestamp);
        push_text(&mut line, "|h:", &self.hostname);
        push_tags(&mut line, &self.tags);
        push_text(&mut line, "|m:", &self.service_message);
        line
    }
}

} // verus!
