//! Metrics.

use crate::codes::MetricType;
use crate::sample::Sample;
use crate::sample::SampleView;
use crate::tags::optional_tag_entries;
use crate::wire::push_segment;
use crate::wire::push_tags;
use crate::wire::segment;
use crate::wire::tags_segment;
use crate::wire::IntoStatsd;
use indexmap::IndexMap;
use vstd::prelude::*;
use vstd::string::StringExecFns;

verus! {

/// One measurement.
#[derive(Debug)]
pub struct Metric {
    /// The namespace of the metric: a text without colons, bars or `@`.
    pub metric: String,
    pub name: String,
    /// The measured number in decimal notation, as it is to appear on the
    /// wire.
    pub value: String,
    pub m_type: MetricType,
    /// How large a share of the measurements is sent. An agent heeds it for
    /// counters, histograms and timers only.
    pub sample_rate: Option<Sample>,
    pub tags: Option<IndexMap<String, Option<String>>>,
}

/// What a metric holds.
pub ghost struct MetricView {
    pub metric: Seq<char>,
    pub name: Seq<char>,
    pub value: Seq<char>,
    pub m_type: MetricType,
    pub sample_rate: Option<SampleView>,
    pub tags: Option<Seq<(Seq<char>, Option<Seq<char>>)>>,
}

impl View for Metric {
    type V = MetricView;

    open spec fn view(&self) -> MetricView {
        MetricView {
            metric: self.metric@,
            name: self.name@,
            value: self.value@,
            m_type: self.m_type,
            sample_rate: match self.sample_rate {
                Some(rate) => Some(rate@),
                None => None,
            },
            tags: optional_tag_entries(self.tags),
        }
    }
}

/// What every metric line begins with: `<metric>.<name>:<value>|<type>`.
pub open spec fn metric_head(m: MetricView) -> Seq<char> {
    m.metric + "."@ + m.name + ":"@ + m.value + "|"@ + m.m_type.token()
}

/// The segment `|@<rate>`.
pub open spec fn rate_segment(rate: Option<SampleView>) -> Seq<char> {
    segment(
        "|@"@,
        match rate {
            Some(r) => Some(r.text),
            None => None,
        },
    )
}

/// The line of a metric:
/// `<metric>.<name>:<value>|<type>[|@<rate>][|#<tags>]`.
pub open spec fn metric_line(m: MetricView) -> Seq<char> {
    metric_head(m) + rate_segment(m.sample_rate) + tags_segment(m.tags)
}

impl IntoStatsd for Metric {
    /// Every metric can be written.
    open spec fn encodable(&self) -> bool {
        true
    }

    open spec fn wire(&self) -> Seq<char> {
        metric_line(self@)
    }

    fn serialize(&self) -> (line: String) {
        let mut line = self.metric.clone();
        line.append(".");
        line.append(self.name.as_str());
        line.append(":");
        line.append(self.value.as_str());
        line.append("|");
        let token = self.m_type.to_string();
        line.append(token.as_str());
        match &self.sample_rate {
            Some(rate) => {
                push_segment(&mut line, "|@", rate.text().as_str());
            },
            None => {},
        }
        push_tags(&mut line, &self.tags);
        line
    }
}

/// A metric without sample rate and without tags is written as
/// `<metric>.<name>:<value>|<type>`: the line ends with the type token, and so
/// with no bar.
pub proof fn lemma_bare_metric(m: MetricView)
    requires
        m.sample_rate is None,
        m.tags is None,
    ensures
        metric_line(m) == m.metric + "."@ + m.name + ":"@ + m.value + "|"@ + m.m_type.token(),
        metric_line(m).len() > 0,
        metric_line(m).last() != '|',
{
    reveal_strlit("c");
    reveal_strlit("g");
    reveal_strlit("ms");
    reveal_strlit("h");
    reveal_strlit("s");
}

} // verus!
