//! The JSON objects that the ingest procedure hands to the store and to the
//! message bus, as ordered lists of members. Whoever sends them writes each
//! member out as it stands.

use vstd::prelude::*;
use crate::assess::{severities_view, MetricSeverity, MetricSeverityView};
use crate::envelope::{StatusChange, StatusChangeView};

verus! {

/// The value of a member of an object.
#[derive(Debug)]
pub enum PayloadValue {
    Text(String),
    Integer(i64),
}

/// A member of an object.
#[derive(Debug)]
pub struct PayloadEntry {
    pub key: String,
    pub value: PayloadValue,
}

/// What a member's value holds, as plain values.
pub enum ValueView {
    Text(Seq<char>),
    Integer(i64),
}

/// What a member holds, as plain values.
pub struct EntryView {
    pub key: Seq<char>,
    pub value: ValueView,
}

impl View for PayloadValue {
    type V = ValueView;

    open spec fn view(&self) -> ValueView {
        match self {
            PayloadValue::Text(t) => ValueView::Text(t@),
            PayloadValue::Integer(n) => ValueView::Integer(*n),
        }
    }
}

impl View for PayloadEntry {
    type V = EntryView;

    open spec fn view(&self) -> EntryView {
        EntryView { key: self.key@, value: self.value@ }
    }
}

/// The views of a list of members.
pub open spec fn entries_view(entries: Seq<PayloadEntry>) -> Seq<EntryView> {
    entries.map_values(|e: PayloadEntry| e@)
}

/// A member with a text value.
pub open spec fn text_entry(key: Seq<char>, value: Seq<char>) -> EntryView {
    EntryView { key, value: ValueView::Text(value) }
}

/// The message that announces a status change.
pub open spec fn status_change_entries(change: StatusChangeView) -> Seq<EntryView> {
    seq![
        text_entry("type"@, "PlantStatusChanged.v1"@),
        text_entry("plant_id"@, change.plant_id),
        text_entry("prev_severity"@, change.prev_severity.name()),
        text_entry("new_severity"@, change.new_severity.name()),
        EntryView { key: "occurred_at_ns"@, value: ValueView::Integer(change.occurred_at_ns) },
    ]
}

/// The payload of a ticker event.
pub open spec fn ticker_entries(ingest_id: Seq<char>) -> Seq<EntryView> {
    seq![text_entry("ingest_id"@, ingest_id)]
}

/// The object of metric severities: one member per metric, named after it,
/// with the name of its severity.
pub open spec fn severity_entries_of(list: Seq<MetricSeverityView>) -> Seq<EntryView> {
    list.map_values(|e: MetricSeverityView| text_entry(e.metric, e.severity.name()))
}

/// The queue on which status changes are published. It is durable.
pub fn status_change_queue() -> (name: &'static str)
    ensures
        name@ == "plant.status_change"@,
{
    "plant.status_change"
}

/// The queue for ticker updates, which is declared beside the first. It is
/// durable.
pub fn ticker_update_queue() -> (name: &'static str)
    ensures
        name@ == "plant.ticker_update"@,
{
    "plant.ticker_update"
}

/// The content type of what is published.
pub fn message_content_type() -> (name: &'static str)
    ensures
        name@ == "application/json"@,
{
    "application/json"
}

/// A member with a text value.
fn text_member(key: &str, value: &str) -> (entry: PayloadEntry)
    ensures
        entry@ == text_entry(key@, value@),
{
    PayloadEntry { key: key.to_owned(), value: PayloadValue::Text(value.to_owned()) }
}

/// Builds the message that announces a status change.
pub fn status_change_message(change: &StatusChange) -> (entries: Vec<PayloadEntry>)
    ensures
        entries_view(entries@) == status_change_entries(change@),
{
    let mut entries: Vec<PayloadEntry> = Vec::new();
    entries.push(text_member("type", "PlantStatusChanged.v1"));
    entries.push(text_member("plant_id", change.plant_id.as_str()));
    entries.push(text_member("prev_severity", change.prev_severity.as_str()));
    entries.push(text_member("new_severity", change.new_severity.as_str()));
    entries.push(
        PayloadEntry {
            key: "occurred_at_ns".to_owned(),
            value: PayloadValue::Integer(change.occurred_at_ns),
        },
    );
    assert(entries_view(entries@) =~= status_change_entries(change@));
    entries
}

/// Builds the payload of a ticker event.
pub fn ticker_payload(ingest_id: &str) -> (entries: Vec<PayloadEntry>)
    ensures
        entries_view(entries@) == ticker_entries(ingest_id@),
{
    let mut entries: Vec<PayloadEntry> = Vec::new();
    entries.push(text_member("ingest_id", ingest_id));
    assert(entries_view(entries@) =~= ticker_entries(ingest_id@));
    entries
}

/// Builds the object of metric severities.
pub fn metric_severity_payload(list: &Vec<MetricSeverity>) -> (entries: Vec<PayloadEntry>)
    ensures
        entries_view(entries@) == severity_entries_of(severities_view(list@)),
{
    let ghost target = severity_entries_of(severities_view(list@));
    let mut entries: Vec<PayloadEntry> = Vec::new();
    let n = list.len();
    let mut i: usize = 0;
    while i < n
        invariant
            i <= n,
            n == list@.len(),
            target == severity_entries_of(severities_view(list@)),
            entries_view(entries@) == target.take(i as int),
        decreases n - i,
    {
        let ghost before = entries_view(entries@);
        let entry = text_member(list[i].metric.as_str(), list[i].severity.as_str());
        entries.push(entry);
        i += 1;
        assert(entries_view(entries@) =~= before.push(entry@));
        assert(entries_view(entries@) =~= target.take(i as int));
    }
    assert(target.take(n as int) =~= target);
    entries
}

} // verus!
