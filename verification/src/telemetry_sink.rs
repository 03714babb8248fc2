//! Points for the time-series store, the sinks that take them, and the line
//! protocol in which they are sent.

use vstd::prelude::*;
use vstd::string::StringExecFns;
use crate::scalar::Scalar;
use crate::text::{decimal, decimal_i64, push_char};

verus! {

/// One tag of a point.
#[derive(Debug, Clone)]
pub struct Tag {
    pub key: String,
    pub value: String,
}

/// One numeric field of a point.
#[derive(Debug, Clone)]
pub struct Field {
    pub key: String,
    pub value: Scalar,
}

/// A normalised reading, ready for the time-series store.
///
/// Tags and fields are lists in the order in which they are written out; a
/// key is meant to occur once in each.
#[derive(Debug, Clone)]
pub struct TelemetryPoint {
    pub measurement: String,
    pub tags: Vec<Tag>,
    pub fields: Vec<Field>,
    /// Nanoseconds since the Unix epoch; 0 lets the store assign the time.
    pub timestamp_ns: i64,
}

/// What a tag holds, as plain values.
pub struct TagView {
    pub key: Seq<char>,
    pub value: Seq<char>,
}

/// What a field holds, as plain values.
pub struct FieldView {
    pub key: Seq<char>,
    pub value: Scalar,
}

/// What a point holds, as plain values.
pub struct PointView {
    pub measurement: Seq<char>,
    pub tags: Seq<TagView>,
    pub fields: Seq<FieldView>,
    pub timestamp_ns: i64,
}

impl View for Tag {
    type V = TagView;

    open spec fn view(&self) -> TagView {
        TagView { key: self.key@, value: self.value@ }
    }
}

impl View for Field {
    type V = FieldView;

    open spec fn view(&self) -> FieldView {
        FieldView { key: self.key@, value: self.value }
    }
}

impl View for TelemetryPoint {
    type V = PointView;

    open spec fn view(&self) -> PointView {
        PointView {
            measurement: self.measurement@,
            tags: self.tags@.map_values(|t: Tag| t@),
            fields: self.fields@.map_values(|f: Field| f@),
            timestamp_ns: self.timestamp_ns,
        }
    }
}

/// The views of a list of points.
pub open spec fn points_view(points: Seq<TelemetryPoint>) -> Seq<PointView> {
    points.map_values(|p: TelemetryPoint| p@)
}

/// One field of a point with its value written as decimal text.
#[derive(Debug, Clone)]
pub struct TextField {
    pub key: String,
    pub value: String,
}

/// A point as it goes over the wire: as a [`TelemetryPoint`], with each field
/// value written as the text that the line protocol carries.
#[derive(Debug, Clone)]
pub struct DataPoint {
    pub measurement: String,
    pub tags: Vec<Tag>,
    pub fields: Vec<TextField>,
    pub timestamp_ns: i64,
}

/// Why a sink did not take a batch of points.
#[derive(Debug)]
pub struct SinkError {
    pub message: String,
}

impl PointView {
    /// The keys of the tags, in order.
    pub open spec fn tag_keys(self) -> Seq<Seq<char>> {
        self.tags.map_values(|t: TagView| t.key)
    }

    /// The keys of the fields, in order.
    pub open spec fn field_keys(self) -> Seq<Seq<char>> {
        self.fields.map_values(|f: FieldView| f.key)
    }

    /// No tag key and no field key occurs twice.
    pub open spec fn keys_distinct(self) -> bool {
        self.tag_keys().no_duplicates() && self.field_keys().no_duplicates()
    }
}

/// The escaped form of one character: space, comma and equals sign get a
/// backslash in front.
pub open spec fn escape_char(c: char) -> Seq<char> {
    if c == ' ' || c == ',' || c == '=' {
        seq!['\\', c]
    } else {
        seq![c]
    }
}

/// The escaped form of a measurement name, a key or a tag value.
pub open spec fn escape(s: Seq<char>) -> Seq<char>
    decreases s.len(),
{
    if s.len() == 0 {
        Seq::empty()
    } else {
        escape(s.drop_last()) + escape_char(s.last())
    }
}

/// The tag section of a line: `,key=value` for each tag in order.
pub open spec fn tags_text(tags: Seq<Tag>) -> Seq<char>
    decreases tags.len(),
{
    if tags.len() == 0 {
        Seq::empty()
    } else {
        tags_text(tags.drop_last()) + seq![','] + escape(tags.last().key@) + seq!['='] + escape(
            tags.last().value@,
        )
    }
}

/// The field section of a line: `key=value` for each field in order, joined
/// by commas.
pub open spec fn fields_text(fields: Seq<TextField>) -> Seq<char>
    decreases fields.len(),
{
    if fields.len() == 0 {
        Seq::empty()
    } else {
        let last = escape(fields.last().key@) + seq!['='] + fields.last().value@;
        if fields.len() == 1 {
            last
        } else {
            fields_text(fields.drop_last()) + seq![','] + last
        }
    }
}

/// The end of a line: a space and the timestamp, or nothing for timestamp 0.
pub open spec fn timestamp_text(timestamp_ns: i64) -> Seq<char> {
    if timestamp_ns == 0 {
        Seq::empty()
    } else {
        seq![' '] + decimal(timestamp_ns as int)
    }
}

impl DataPoint {
    /// The line of the point: measurement and tags, a space, the fields, and
    /// the timestamp unless it is 0.
    pub open spec fn line(self) -> Seq<char> {
        escape(self.measurement@) + tags_text(self.tags@) + seq![' '] + fields_text(self.fields@)
            + timestamp_text(self.timestamp_ns)
    }
}

/// The lines of the points in order, joined by line feeds.
pub open spec fn lines_text(points: Seq<DataPoint>) -> Seq<char>
    decreases points.len(),
{
    if points.len() == 0 {
        Seq::empty()
    } else if points.len() == 1 {
        points.last().line()
    } else {
        lines_text(points.drop_last()) + seq!['\n'] + points.last().line()
    }
}

/// A point with timestamp 0 is written without a timestamp: its line ends
/// with the fields.
pub proof fn lemma_zero_timestamp_omitted(pt: DataPoint)
    requires
        pt.timestamp_ns == 0,
    ensures
        pt.line() == escape(pt.measurement@) + tags_text(pt.tags@) + seq![' '] + fields_text(
            pt.fields@,
        ),
{
    assert(pt.line() =~= escape(pt.measurement@) + tags_text(pt.tags@) + seq![' '] + fields_text(
        pt.fields@,
    ));
}

/// A point without tags and with a single field has a line: the measurement,
/// a space, the field, and the timestamp unless it is 0.
pub proof fn lemma_single_field_line(pt: DataPoint)
    requires
        pt.tags@.len() == 0,
        pt.fields@.len() == 1,
    ensures
        pt.line() == escape(pt.measurement@) + seq![' '] + escape(pt.fields@[0].key@) + seq!['=']
            + pt.fields@[0].value@ + timestamp_text(pt.timestamp_ns),
{
    assert(pt.line() =~= escape(pt.measurement@) + seq![' '] + escape(pt.fields@[0].key@)
        + seq!['='] + pt.fields@[0].value@ + timestamp_text(pt.timestamp_ns));
}

/// Appends the escaped form of `s` to `out`.
fn push_escaped(out: &mut String, s: &str)
    ensures
        final(out)@ == old(out)@ + escape(s@),
{
    let ghost before = out@;
    for c in it: s.chars()
        invariant
            it.seq() == s@,
            out@ == before + escape(s@.take(it.index())),
    {
        proof {
            let i = it.index();
            assert(s@.take(i + 1).drop_last() =~= s@.take(i));
            assert(s@.take(i + 1).last() == c);
        }
        if c == ' ' || c == ',' || c == '=' {
            push_char(out, '\\');
        }
        push_char(out, c);
        assert(out@ =~= before + escape(s@.take(it.index() + 1)));
    }
    assert(s@.take(s@.len() as int) =~= s@);
}

/// Escapes a measurement name, a key or a tag value for the line protocol.
pub fn escape_lp(s: &str) -> (out: String)
    ensures
        out@ == escape(s@),
{
    let mut out = String::new();
    push_escaped(&mut out, s);
    assert(out@ =~= escape(s@));
    out
}

/// Serialises one point to a line.
pub fn to_line_protocol(pt: &DataPoint) -> (line: String)
    ensures
        line@ == pt.line(),
{
    let mut line = String::new();
    push_escaped(&mut line, pt.measurement.as_str());
    let ghost head = line@;
    assert(head =~= escape(pt.measurement@));
    let n = pt.tags.len();
    let mut i: usize = 0;
    while i < n
        invariant
            i <= n,
            n == pt.tags@.len(),
            line@ == head + tags_text(pt.tags@.take(i as int)),
        decreases n - i,
    {
        proof {
            assert(pt.tags@.take(i + 1).drop_last() =~= pt.tags@.take(i as int));
        }
        push_char(&mut line, ',');
        push_escaped(&mut line, pt.tags[i].key.as_str());
        push_char(&mut line, '=');
        push_escaped(&mut line, pt.tags[i].value.as_str());
        i += 1;
        assert(line@ =~= head + tags_text(pt.tags@.take(i as int)));
    }
    assert(pt.tags@.take(n as int) =~= pt.tags@);
    push_char(&mut line, ' ');
    let ghost head = line@;
    let m = pt.fields.len();
    let mut j: usize = 0;
    while j < m
        invariant
            j <= m,
            m == pt.fields@.len(),
            line@ == head + fields_text(pt.fields@.take(j as int)),
        decreases m - j,
    {
        proof {
            assert(pt.fields@.take(j + 1).drop_last() =~= pt.fields@.take(j as int));
        }
        if j > 0 {
            push_char(&mut line, ',');
        }
        push_escaped(&mut line, pt.fields[j].key.as_str());
        push_char(&mut line, '=');
        line.append(pt.fields[j].value.as_str());
        j += 1;
        assert(line@ =~= head + fields_text(pt.fields@.take(j as int)));
    }
    assert(pt.fields@.take(m as int) =~= pt.fields@);
    if pt.timestamp_ns != 0 {
        push_char(&mut line, ' ');
        let digits = decimal_i64(pt.timestamp_ns);
        line.append(digits.as_str());
    }
    assert(line@ =~= pt.line());
    line
}

/// Serialises a batch of points: one line each, joined by line feeds.
pub fn to_lines(points: &Vec<DataPoint>) -> (body: String)
    ensures
        body@ == lines_text(points@),
{
    let mut body = String::new();
    let n = points.len();
    let mut i: usize = 0;
    while i < n
        invariant
            i <= n,
            n == points@.len(),
            body@ == lines_text(points@.take(i as int)),
        decreases n - i,
    {
        proof {
            assert(points@.take(i + 1).drop_last() =~= points@.take(i as int));
        }
        if i > 0 {
            push_char(&mut body, '\n');
        }
        let line = to_line_protocol(&points[i]);
        body.append(line.as_str());
        i += 1;
        assert(body@ =~= lines_text(points@.take(i as int)));
    }
    assert(points@.take(n as int) =~= points@);
    body
}

impl TelemetryPoint {
    /// A copy of the point.
    pub fn duplicate(&self) -> (copy: TelemetryPoint)
        ensures
            copy@ == self@,
    {
        let mut tags: Vec<Tag> = Vec::new();
        let n = self.tags.len();
        let mut i: usize = 0;
        while i < n
            invariant
                i <= n,
                n == self.tags@.len(),
                tags@.map_values(|t: Tag| t@) == self@.tags.take(i as int),
            decreases n - i,
        {
            let ghost before = tags@.map_values(|t: Tag| t@);
            let tag = Tag { key: self.tags[i].key.clone(), value: self.tags[i].value.clone() };
            tags.push(tag);
            i += 1;
            assert(tags@.map_values(|t: Tag| t@) =~= before.push(tag@));
            assert(tags@.map_values(|t: Tag| t@) =~= self@.tags.take(i as int));
        }
        assert(self@.tags.take(n as int) =~= self@.tags);
        let mut fields: Vec<Field> = Vec::new();
        let m = self.fields.len();
        let mut j: usize = 0;
        while j < m
            invariant
                j <= m,
                m == self.fields@.len(),
                fields@.map_values(|f: Field| f@) == self@.fields.take(j as int),
            decreases m - j,
        {
            let ghost before = fields@.map_values(|f: Field| f@);
            let field = Field { key: self.fields[j].key.clone(), value: self.fields[j].value };
            fields.push(field);
            j += 1;
            assert(fields@.map_values(|f: Field| f@) =~= before.push(field@));
            assert(fields@.map_values(|f: Field| f@) =~= self@.fields.take(j as int));
        }
        assert(self@.fields.take(m as int) =~= self@.fields);
        TelemetryPoint {
            measurement: self.measurement.clone(),
            tags,
            fields,
            timestamp_ns: self.timestamp_ns,
        }
    }
}

/// Makes the wire form of a point from the texts of its field values, which
/// are given in the order of the fields. `None` where their number is not the
/// number of fields.
pub fn render(point: TelemetryPoint, values: Vec<String>) -> (data: Option<DataPoint>)
    ensures
        data is Some <==> values@.len() == point.fields@.len(),
        data is Some ==> {
            &&& data->0.measurement == point.measurement
            &&& data->0.tags == point.tags
            &&& data->0.timestamp_ns == point.timestamp_ns
            &&& data->0.fields@.len() == point.fields@.len()
            &&& forall|i: int|
                0 <= i < point.fields@.len() ==> (#[trigger] data->0.fields@[i]).key@
                    == point.fields@[i].key@ && data->0.fields@[i].value@ == values@[i]@
        },
{
    if values.len() != point.fields.len() {
        return None;
    }
    let n = values.len();
    let mut fields: Vec<TextField> = Vec::new();
    let mut i: usize = 0;
    while i < n
        invariant
            i <= n,
            n == values@.len(),
            n == point.fields@.len(),
            fields@.len() == i,
            forall|k: int|
                0 <= k < i ==> (#[trigger] fields@[k]).key@ == point.fields@[k].key@
                    && fields@[k].value@ == values@[k]@,
        decreases n - i,
    {
        fields.push(TextField { key: point.fields[i].key.clone(), value: values[i].clone() });
        i += 1;
    }
    Some(
        DataPoint {
            measurement: point.measurement,
            tags: point.tags,
            fields,
            timestamp_ns: point.timestamp_ns,
        },
    )
}

/// A destination for points. Writing is best effort: a caller in the ingest
/// path goes on when it fails.
pub trait TelemetrySink {
    /// Hands a batch of points to the sink.
    fn write_points(&mut self, points: Vec<TelemetryPoint>) -> Result<(), SinkError>;
}

/// A sink that keeps what it is given in memory, in the order of writing.
#[derive(Debug)]
pub struct FakeTelemetrySink {
    pub points: Vec<TelemetryPoint>,
}

impl FakeTelemetrySink {
    /// An empty sink.
    pub fn new() -> (sink: FakeTelemetrySink)
        ensures
            sink.points@.len() == 0,
    {
        FakeTelemetrySink { points: Vec::new() }
    }

    /// Takes out all points written so far, leaving the sink empty.
    pub fn drain(&mut self) -> (taken: Vec<TelemetryPoint>)
        ensures
            taken@ == old(self).points@,
            final(self).points@.len() == 0,
    {
        let mut taken: Vec<TelemetryPoint> = Vec::new();
        taken.append(&mut self.points);
        assert(taken@ =~= old(self).points@);
        taken
    }

    /// A copy of the points written so far; the sink keeps them.
    pub fn snapshot(&self) -> (copy: Vec<TelemetryPoint>)
        ensures
            points_view(copy@) == points_view(self.points@),
    {
        let mut copy: Vec<TelemetryPoint> = Vec::new();
        let n = self.points.len();
        let mut i: usize = 0;
        while i < n
            invariant
                i <= n,
                n == self.points@.len(),
                points_view(copy@) == points_view(self.points@).take(i as int),
            decreases n - i,
        {
            let ghost before = points_view(copy@);
            let point = self.points[i].duplicate();
            copy.push(point);
            i += 1;
            assert(points_view(copy@) =~= before.push(point@));
            assert(points_view(copy@) =~= points_view(self.points@).take(i as int));
        }
        assert(points_view(self.points@).take(n as int) =~= points_view(self.points@));
        copy
    }
}

impl TelemetrySink for FakeTelemetrySink {
    /// Appends the points to those already held; never fails.
    fn write_points(&mut self, points: Vec<TelemetryPoint>) -> (r: Result<(), SinkError>)
        ensures
            r is Ok,
            final(self).points@ == old(self).points@ + points@,
    {
        let mut points = points;
        self.points.append(&mut points);
        Ok(())
    }
}

} // verus!
