//! The rules of the data gateway and of the two storage services behind it:
//! how a backend's reply becomes an answer, which defaults apply, and the
//! query and predicate texts that are sent to the time-series store.

use vstd::prelude::*;
use vstd::string::StringExecFns;
use crate::models::{StructuredWriteResult, TimeSeriesQueryRequest, TimeSeriesWriteResult};
use crate::store::text_view;
use crate::telemetry_sink::Tag;
use crate::text::{decimal_digits, decimal_u64};

verus! {

/// Rows that a listing returns when the request names no limit.
pub const DEFAULT_LIST_LIMIT: u32 = 100;

/// Ticker events that the dashboard returns when the request names no limit.
pub const DEFAULT_TICKER_LIMIT: i64 = 50;

/// Most ticker events that the dashboard returns.
pub const MAX_TICKER_LIMIT: i64 = 200;

/// Seconds after which a silent device counts as offline, unless the request
/// says otherwise.
pub const DEFAULT_EDGE_TTL_SECONDS: i64 = 300;

/// What the gateway was asked to do with a backend.
#[derive(Debug, Clone, Copy, PartialEq, Eq, Structural)]
pub enum Operation {
    /// Read one structured record.
    Read,
    /// List the structured records of a table.
    List,
    /// Update one structured record.
    Update,
    /// Delete one structured record.
    DeleteRecord,
    /// Query time-series points.
    Query,
    /// Delete time-series points.
    DeleteSeries,
}

/// How a backend answered.
#[derive(Debug, Clone, Copy, PartialEq, Eq, Structural)]
pub enum ReplyKind {
    /// The backend did what was asked.
    Success,
    /// The backend answered that it did not.
    Refused,
    /// The backend could not be reached.
    Unreachable,
}

/// The HTTP status of an answer.
///
/// An unreachable backend is an internal error. A listing and a query are
/// answered with what the backend replied. A record that is not there is not
/// found; a deletion that went through has no content; a deletion of points
/// that the store refused cannot be processed.
pub open spec fn status_code(operation: Operation, reply: ReplyKind) -> u16 {
    match reply {
        ReplyKind::Unreachable => 500,
        ReplyKind::Success => match operation {
            Operation::DeleteRecord | Operation::DeleteSeries => 204,
            _ => 200,
        },
        ReplyKind::Refused => match operation {
            Operation::List | Operation::Query => 200,
            Operation::DeleteSeries => 422,
            _ => 404,
        },
    }
}

/// Picks the HTTP status of an answer.
pub fn reply_status(operation: Operation, reply: ReplyKind) -> (code: u16)
    ensures
        code == status_code(operation, reply),
{
    match reply {
        ReplyKind::Unreachable => 500,
        ReplyKind::Success => match operation {
            Operation::DeleteRecord => 204,
            Operation::DeleteSeries => 204,
            _ => 200,
        },
        ReplyKind::Refused => match operation {
            Operation::List => 200,
            Operation::Query => 200,
            Operation::DeleteSeries => 422,
            _ => 404,
        },
    }
}

/// The kind of a reply that says whether it succeeded.
pub fn reply_kind(success: bool) -> (kind: ReplyKind)
    ensures
        kind == if success {
            ReplyKind::Success
        } else {
            ReplyKind::Refused
        },
{
    if success {
        ReplyKind::Success
    } else {
        ReplyKind::Refused
    }
}

/// The status of a combined write that asks for nothing.
pub const STATUS_BAD_REQUEST: u16 = 400;

/// The status of a dashboard without a database.
pub const STATUS_UNAVAILABLE: u16 = 503;

/// The answer of a dashboard without a database.
pub fn dashboard_unavailable_error() -> (text: &'static str)
    ensures
        text@ == "dashboard database not configured"@,
{
    "dashboard database not configured"
}

/// What the relational service replied to a creation.
#[derive(Debug)]
pub struct CreateReply {
    pub id: String,
    pub success: bool,
    pub error: String,
}

/// What the time-series service replied to a write.
#[derive(Debug)]
pub struct WriteReply {
    pub success: bool,
    pub error: String,
}

/// The answer to a combined write that asks for nothing.
pub fn empty_request_error() -> (text: &'static str)
    ensures
        text@ == "at least one of 'structured' or 'timeseries' must be present"@,
{
    "at least one of 'structured' or 'timeseries' must be present"
}

/// The text, unless it is empty.
pub open spec fn unless_empty(text: Seq<char>) -> Option<Seq<char>> {
    if text.len() == 0 {
        None
    } else {
        Some(text)
    }
}

/// Gives the text, unless it is empty.
pub fn non_empty(text: String) -> (r: Option<String>)
    ensures
        text_view(r) == unless_empty(text@),
{
    if text.as_str().is_empty() {
        None
    } else {
        Some(text)
    }
}

/// The outcome of writing one structured record, from the service's reply
/// or, where the call itself failed, from the failure's message. The
/// identifier is passed on only for a success, the error only where it is
/// not empty.
pub fn structured_result(table: String, reply: Result<CreateReply, String>) -> (r:
    StructuredWriteResult)
    ensures
        r.table == table,
        match reply {
            Ok(inner) => {
                &&& r.success == inner.success
                &&& text_view(r.id) == if inner.success {
                    Some(inner.id@)
                } else {
                    None
                }
                &&& text_view(r.error) == unless_empty(inner.error@)
            },
            Err(message) => {
                &&& !r.success
                &&& r.id is None
                &&& text_view(r.error) == Some(message@)
            },
        },
{
    match reply {
        Ok(inner) => {
            let id = if inner.success {
                Some(inner.id)
            } else {
                None
            };
            StructuredWriteResult {
                table,
                id,
                success: inner.success,
                error: non_empty(inner.error),
            }
        },
        Err(message) => StructuredWriteResult {
            table,
            id: None,
            success: false,
            error: Some(message),
        },
    }
}

/// The outcome of writing time-series points, from the service's reply or
/// from the message of a failed call.
pub fn timeseries_result(reply: Result<WriteReply, String>) -> (r: TimeSeriesWriteResult)
    ensures
        match reply {
            Ok(inner) => r.success == inner.success && text_view(r.error) == unless_empty(
                inner.error@,
            ),
            Err(message) => !r.success && text_view(r.error) == Some(message@),
        },
{
    match reply {
        Ok(inner) => TimeSeriesWriteResult {
            success: inner.success,
            error: non_empty(inner.error),
        },
        Err(message) => TimeSeriesWriteResult { success: false, error: Some(message) },
    }
}

/// The limit of a listing: the requested one, or the default for 0.
pub fn effective_limit(requested: u32) -> (limit: u32)
    ensures
        limit == if requested == 0 {
            DEFAULT_LIST_LIMIT
        } else {
            requested
        },
{
    if requested == 0 {
        DEFAULT_LIST_LIMIT
    } else {
        requested
    }
}

/// The error of an update or a deletion that may have found no record.
pub open spec fn missing_text(found: bool) -> Seq<char> {
    if found {
        Seq::empty()
    } else {
        "record not found"@
    }
}

/// The error text of an update or a deletion: empty where the record was
/// found.
pub fn missing_error(found: bool) -> (error: String)
    ensures
        error@ == missing_text(found),
{
    if found {
        String::new()
    } else {
        "record not found".to_owned()
    }
}

/// The number of ticker events to return: the requested number, or the
/// default, and never more than the maximum.
pub fn ticker_limit(requested: Option<i64>) -> (limit: i64)
    ensures
        limit == if requested.unwrap_or(DEFAULT_TICKER_LIMIT) < MAX_TICKER_LIMIT {
            requested.unwrap_or(DEFAULT_TICKER_LIMIT)
        } else {
            MAX_TICKER_LIMIT
        },
{
    let wanted = match requested {
        Some(n) => n,
        None => DEFAULT_TICKER_LIMIT,
    };
    if wanted < MAX_TICKER_LIMIT {
        wanted
    } else {
        MAX_TICKER_LIMIT
    }
}

/// The time after which a silent device counts as offline, in seconds.
pub fn edge_ttl(requested: Option<i64>) -> (ttl: i64)
    ensures
        ttl == requested.unwrap_or(DEFAULT_EDGE_TTL_SECONDS),
{
    match requested {
        Some(n) => n,
        None => DEFAULT_EDGE_TTL_SECONDS,
    }
}

/// One tag condition of a deletion: `key="value"`.
pub open spec fn tag_condition(tag: Tag) -> Seq<char> {
    tag.key@ + "=\""@ + tag.value@ + "\""@
}

/// The tag conditions of a deletion, joined by ` AND `.
pub open spec fn tag_predicate(tags: Seq<Tag>) -> Seq<char>
    decreases tags.len(),
{
    if tags.len() == 0 {
        Seq::empty()
    } else if tags.len() == 1 {
        tag_condition(tags.last())
    } else {
        tag_predicate(tags.drop_last()) + " AND "@ + tag_condition(tags.last())
    }
}

/// Builds the tag conditions of a deletion.
pub fn delete_tag_predicate(tags: &Vec<Tag>) -> (text: String)
    ensures
        text@ == tag_predicate(tags@),
{
    let mut text = String::new();
    let n = tags.len();
    let mut i: usize = 0;
    while i < n
        invariant
            i <= n,
            n == tags@.len(),
            text@ == tag_predicate(tags@.take(i as int)),
        decreases n - i,
    {
        proof {
            assert(tags@.take(i + 1).drop_last() =~= tags@.take(i as int));
        }
        if i > 0 {
            text.append(" AND ");
        }
        text.append(tags[i].key.as_str());
        text.append("=\"");
        text.append(tags[i].value.as_str());
        text.append("\"");
        i += 1;
        assert(text@ =~= tag_predicate(tags@.take(i as int)));
    }
    assert(tags@.take(n as int) =~= tags@);
    text
}

/// The predicate of a deletion: the measurement, and the further conditions
/// where there are any.
pub open spec fn measurement_predicate(measurement: Seq<char>, extra: Seq<char>) -> Seq<char> {
    if extra.len() == 0 {
        "_measurement=\""@ + measurement + "\""@
    } else {
        "_measurement=\""@ + measurement + "\" AND "@ + extra
    }
}

/// Builds the predicate of a deletion.
pub fn delete_predicate(measurement: &str, extra: &str) -> (text: String)
    ensures
        text@ == measurement_predicate(measurement@, extra@),
{
    let mut text = "_measurement=\"".to_owned();
    text.append(measurement);
    if extra.is_empty() {
        text.append("\"");
    } else {
        text.append("\" AND ");
        text.append(extra);
    }
    text
}

/// The tag filters of a query, one pipeline stage each.
pub open spec fn filter_stages(tags: Seq<Tag>) -> Seq<char>
    decreases tags.len(),
{
    if tags.len() == 0 {
        Seq::empty()
    } else {
        filter_stages(tags.drop_last()) + "\n  |> filter(fn: (r) => r[\""@ + tags.last().key@
            + "\"] == \""@ + tags.last().value@ + "\")"@
    }
}

/// The limit stage of a query; nothing for limit 0.
pub open spec fn limit_stage(limit: u32) -> Seq<char> {
    if limit > 0 {
        "\n  |> limit(n: "@ + decimal_digits(limit as nat) + ")"@
    } else {
        Seq::empty()
    }
}

/// The query for the points of a measurement in a time range, with tag
/// filters and a limit.
pub open spec fn flux_text(bucket: Seq<char>, request: TimeSeriesQueryRequest) -> Seq<char> {
    "from(bucket: \""@ + bucket + "\")\n  |> range(start: "@ + request.start@ + ", stop: "@
        + request.stop@ + ")\n  |> filter(fn: (r) => r._measurement == \""@ + request.measurement@
        + "\")"@ + filter_stages(request.tag_filters@) + limit_stage(request.limit)
}

/// Builds the query that is sent to the time-series store.
pub fn flux_query(bucket: &str, request: &TimeSeriesQueryRequest) -> (text: String)
    ensures
        text@ == flux_text(bucket@, *request),
{
    let mut text = "from(bucket: \"".to_owned();
    text.append(bucket);
    text.append("\")\n  |> range(start: ");
    text.append(request.start.as_str());
    text.append(", stop: ");
    text.append(request.stop.as_str());
    text.append(")\n  |> filter(fn: (r) => r._measurement == \"");
    text.append(request.measurement.as_str());
    text.append("\")");
    let ghost head = text@;
    let n = request.tag_filters.len();
    let mut i: usize = 0;
    assert(text@ =~= head + filter_stages(request.tag_filters@.take(0)));
    while i < n
        invariant
            i <= n,
            n == request.tag_filters@.len(),
            text@ == head + filter_stages(request.tag_filters@.take(i as int)),
        decreases n - i,
    {
        proof {
            assert(request.tag_filters@.take(i + 1).drop_last() =~= request.tag_filters@.take(
                i as int,
            ));
        }
        text.append("\n  |> filter(fn: (r) => r[\"");
        text.append(request.tag_filters[i].key.as_str());
        text.append("\"] == \"");
        text.append(request.tag_filters[i].value.as_str());
        text.append("\")");
        i += 1;
        assert(text@ =~= head + filter_stages(request.tag_filters@.take(i as int)));
    }
    assert(request.tag_filters@.take(n as int) =~= request.tag_filters@);
    if request.limit > 0 {
        text.append("\n  |> limit(n: ");
        let digits = decimal_u64(request.limit as u64);
        text.append(digits.as_str());
        text.append(")");
    }
    assert(text@ =~= flux_text(bucket@, *request));
    text
}

} // verus!
