//! Status messages: the timestamped, severity-tagged records that a probe
//! run publishes and that subscribers observe.

use vstd::prelude::*;

verus! {

/// The broad class of a status record; every record the service emits is a
/// log entry.
#[derive(Clone, Copy, PartialEq, Eq, Structural, Debug)]
pub enum Category {
    Log,
}

/// How a status record is to be read: routine progress, a success, or a
/// failure.
#[derive(Clone, Copy, PartialEq, Eq, Structural, Debug)]
pub enum Severity {
    Info,
    Success,
    Error,
}

/// One timestamped progress record. Immutable once constructed; ordering of
/// records is the order in which they were published.
pub struct StatusMessage {
    pub category: Category,
    pub timestamp: String,
    pub severity: Option<Severity>,
    pub text: String,
}

/// The determined content of a status message: everything except the
/// wall-clock timestamp, which depends on the instant of emission rather
/// than on the inputs of a run.
pub struct MessageSpec {
    pub severity: Option<Severity>,
    pub text: Seq<char>,
}

/// The shape of every timestamp the engine stamps: `HH:MM:SS.mmm` — two
/// digits each for hour, minute and second, separated by colons, then a dot
/// and a fixed three-digit millisecond fraction.
pub open spec fn timestamp_shaped(s: Seq<char>) -> bool {
    &&& s.len() == 12
    &&& s[2] == ':'
    &&& s[5] == ':'
    &&& s[8] == '.'
    &&& forall|i: int|
        0 <= i < 12 && i != 2 && i != 5 && i != 8 ==> '0' <= #[trigger] s[i] <= '9'
}

/// A concrete record realises a message description when they agree on
/// severity and text and the record is stamped with a wall-clock time in
/// the engine's `HH:MM:SS.mmm` form; the timestamp's value is left open,
/// since it depends on the instant of emission.
pub open spec fn msg_matches(m: StatusMessage, s: MessageSpec) -> bool {
    &&& m.category == Category::Log
    &&& timestamp_shaped(m.timestamp@)
    &&& m.severity == s.severity
    &&& m.text@ == s.text
}

/// A published sequence realises a script when the records agree pointwise
/// with the descriptions.
pub open spec fn msgs_match(log: Seq<StatusMessage>, script: Seq<MessageSpec>) -> bool {
    &&& log.len() == script.len()
    &&& forall|i: int| 0 <= i < log.len() ==> msg_matches(#[trigger] log[i], script[i])
}

impl StatusMessage {
    pub fn new(timestamp: String, severity: Option<Severity>, text: String) -> (r: StatusMessage)
        ensures
            r.category == Category::Log,
            r.timestamp == timestamp,
            r.severity == severity,
            r.text == text,
    {
        StatusMessage { category: Category::Log, timestamp, severity, text }
    }

    /// An explicit deep copy that provably preserves every field.
    pub fn duplicate(&self) -> (r: StatusMessage)
        ensures
            r == *self,
    {
        StatusMessage {
            category: self.category,
            timestamp: self.timestamp.clone(),
            severity: self.severity,
            text: self.text.clone(),
        }
    }
}

/// Relies on `chrono::Local::now` and `chrono::DateTime::format` with the
/// pattern `%H:%M:%S%.3f`: the current wall-clock time of day, rendered
/// with two zero-padded digits each for hour, minute and second and a dot
/// followed by a fixed three-digit millisecond fraction — twelve characters
/// in all, digits everywhere but the two colons and the dot. The value
/// depends on the instant of the call, so nothing beyond its shape is
/// promised.
#[verifier::external_body]
pub(crate) fn now_timestamp() -> (r: String)
    ensures
        timestamp_shaped(r@),
{
    chrono::Local::now().format("%H:%M:%S%.3f").to_string()
}

} // verus!
