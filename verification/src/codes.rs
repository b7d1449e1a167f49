//! The enumerated codes and their wire tokens.

use vstd::prelude::*;
use vstd::string::StringExecFns;

verus! {

/// How urgent an event is.
#[derive(Debug, Clone, Copy, PartialEq, Eq, Structural)]
pub enum Priority {
    Normal,
    Low,
}

impl Priority {
    /// The wire token of this priority.
    pub open spec fn token(&self) -> Seq<char> {
        match self {
            Priority::Normal => "normal"@,
            Priority::Low => "low"@,
        }
    }

    /// The wire token of this value, as an owned text.
    pub fn to_string(&self) -> (text: String)
        ensures
            text@ == self.token(),
    {
        match self {
            Priority::Normal => String::from_str("normal"),
            Priority::Low => String::from_str("low"),
        }
    }
}

/// What kind of news an event carries.
#[derive(Debug, Clone, Copy, PartialEq, Eq, Structural)]
pub enum AlertType {
    Error,
    Info,
    Warning,
    Success,
}

impl AlertType {
    /// The wire token of this alert type.
    pub open spec fn token(&self) -> Seq<char> {
        match self {
            AlertType::Error => "error"@,
            AlertType::Info => "info"@,
            AlertType::Warning => "warning"@,
            AlertType::Success => "success"@,
        }
    }

    /// The wire token of this value, as an owned text.
    pub fn to_string(&self) -> (text: String)
        ensures
            text@ == self.token(),
    {
        match self {
            AlertType::Error => String::from_str("error"),
            AlertType::Info => String::from_str("info"),
            AlertType::Warning => String::from_str("warning"),
            AlertType::Success => String::from_str("success"),
        }
    }
}

/// How an agent is to aggregate a metric.
#[derive(Debug, Clone, Copy, PartialEq, Eq, Structural)]
pub enum MetricType {
    Counter,
    Gauge,
    Timer,
    Histogram,
    UniqueSet,
}

impl MetricType {
    /// The wire token of this metric type.
    pub open spec fn token(&self) -> Seq<char> {
        match self {
            MetricType::Counter => "c"@,
            MetricType::Gauge => "g"@,
            MetricType::Timer => "ms"@,
            MetricType::Histogram => "h"@,
            MetricType::UniqueSet => "s"@,
        }
    }

    /// The wire token of this value, as an owned text.
    pub fn to_string(&self) -> (text: String)
        ensures
            text@ == self.token(),
    {
        match self {
            MetricType::Counter => String::from_str("c"),
            MetricType::Gauge => String::from_str("g"),
            MetricType::Timer => String::from_str("ms"),
            MetricType::Histogram => String::from_str("h"),
            MetricType::UniqueSet => String::from_str("s"),
        }
    }
}

/// The health a service check reports.
#[derive(Debug, Clone, Copy, PartialEq, Eq, Structural)]
pub enum Status {
    Okay,
    Warning,
    Critical,
    Unknown,
}

impl Status {
    /// The wire token of this status: its number.
    pub open spec fn token(&self) -> Seq<char> {
        match self {
            Status::Okay => "0"@,
            Status::Warning => "1"@,
            Status::Critical => "2"@,
            Status::Unknown => "3"@,
        }
    }

    /// The wire token of this value, as an owned text.
    pub fn to_string(&self) -> (text: String)
        ensures
            text@ == self.token(),
    {
        match self {
            Status::Okay => String::from_str("0"),
            Status::Warning => String::from_str("1"),
            Status::Critical => String::from_str("2"),
            Status::Unknown => String::from_str("3"),
        }
    }
}

} // verus!
