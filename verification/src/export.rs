//! Lap logs as CSV text.

use crate::format::decimal;
use crate::format::decimal_string;
use crate::model::LapView;
use crate::report::label_string;
use crate::report::label_text;
use crate::text::string_views;
use crate::timer::lap_views;
use crate::timer::Lap;
use vstd::prelude::*;
use vstd::string::StringExecFns;

verus! {

/// A `csv::Writer` with the default settings, writing into memory.
#[verifier::external_body]
pub struct CsvBuffer {
    writer: csv::Writer<Vec<u8>>,
}

/// The text that a writer has produced so far.
pub uninterp spec fn csv_written(buffer: CsvBuffer) -> Seq<char>;

/// The number of fields that the records of a writer must have: that of
/// its first record, once there is one.
pub uninterp spec fn csv_width(buffer: CsvBuffer) -> Option<nat>;

/// Whether a character forces its field into quotes: the comma, the quote
/// and the two line-ending characters.
pub open spec fn csv_special(c: char) -> bool {
    c == ',' || c == '"' || c == '\r' || c == '\n'
}

/// Whether a field is written in quotes: where it holds a special
/// character.
pub open spec fn csv_needs_quotes(field: Seq<char>) -> bool {
    exists|i: int| 0 <= i < field.len() && csv_special(#[trigger] field[i])
}

/// A field with each quote in it written twice.
pub open spec fn csv_doubled(field: Seq<char>) -> Seq<char>
    decreases field.len(),
{
    if field.len() == 0 {
        Seq::empty()
    } else if field.last() == '"' {
        csv_doubled(field.drop_last()) + seq!['"', '"']
    } else {
        csv_doubled(field.drop_last()).push(field.last())
    }
}

/// A field as it stands in a line: as it is, or in quotes with its own
/// quotes doubled.
pub open spec fn csv_field(field: Seq<char>) -> Seq<char> {
    if csv_needs_quotes(field) {
        seq!['"'] + csv_doubled(field) + seq!['"']
    } else {
        field
    }
}

/// The fields of a record as they stand in a line, with commas between
/// them.
pub open spec fn csv_fields(fields: Seq<Seq<char>>) -> Seq<char>
    decreases fields.len(),
{
    if fields.len() == 0 {
        Seq::empty()
    } else if fields.len() == 1 {
        csv_field(fields[0])
    } else {
        csv_fields(fields.drop_last()) + seq![','] + csv_field(fields.last())
    }
}

/// A record of two fields or more as a line of CSV: the fields with commas
/// between them, and a line feed.
pub open spec fn csv_line(fields: Seq<Seq<char>>) -> Seq<char> {
    csv_fields(fields) + seq!['\n']
}

/// `csv::Writer::from_writer` over an empty byte buffer: a writer that has
/// written nothing.
#[verifier::external_body]
pub(crate) fn csv_buffer() -> (buffer: CsvBuffer)
    ensures
        csv_written(buffer) == Seq::<char>::empty(),
        csv_width(buffer) is None,
{
    CsvBuffer { writer: csv::Writer::from_writer(Vec::new()) }
}

/// `csv::Writer::write_record`: appends one record as one line. With the
/// default settings the delimiter is the comma, the line ends in a line
/// feed, and a field is quoted only where it must be, its quotes doubled.
/// Writing into memory cannot fail, and the writer refuses a record only
/// where it has another number of fields than the first one written, which
/// `requires` leaves out, as it does the record of one empty field, which
/// is written as a pair of quotes.
#[verifier::external_body]
pub(crate) fn csv_write_record(buffer: &mut CsvBuffer, fields: &Vec<String>)
    requires
        fields@.len() >= 2,
        csv_width(*old(buffer)) matches Some(width) ==> width == fields@.len(),
    ensures
        csv_written(*final(buffer)) == csv_written(*old(buffer)) + csv_line(string_views(fields@)),
        csv_width(*final(buffer)) == Some(fields@.len()),
{
    buffer.writer.write_record(fields).unwrap();
}

/// `csv::Writer::into_inner`: flushes the writer and hands out the bytes
/// it wrote. The fields were strings and the rest is ASCII, so the bytes
/// are text.
#[verifier::external_body]
pub(crate) fn csv_into_text(buffer: CsvBuffer) -> (text: String)
    ensures
        text@ == csv_written(buffer),
{
    String::from_utf8(buffer.writer.into_inner().unwrap()).unwrap()
}

/// The column names of the export.
pub open spec fn header_record() -> Seq<Seq<char>> {
    seq!["index"@, "time_ms"@, "label"@]
}

/// A lap as a record: its index and its offset in milliseconds, both in
/// decimal, and its label, empty where it has none.
pub open spec fn lap_record(lap: LapView) -> Seq<Seq<char>> {
    seq![decimal(lap.index), decimal(lap.at_ms), label_text(lap.label)]
}

/// The lines of the laps, one for each lap, in order.
pub open spec fn csv_rows(laps: Seq<LapView>) -> Seq<char>
    decreases laps.len(),
{
    if laps.len() == 0 {
        Seq::empty()
    } else {
        csv_rows(laps.drop_last()) + csv_line(lap_record(laps.last()))
    }
}

/// A lap log as CSV: the header line, then the lines of the laps.
pub open spec fn csv_text(laps: Seq<LapView>) -> Seq<char> {
    csv_line(header_record()) + csv_rows(laps)
}

/// The header of the export as a record.
pub fn header_fields() -> (fields: Vec<String>)
    ensures
        fields@.len() == 3,
        string_views(fields@) == header_record(),
{
    let mut fields: Vec<String> = Vec::new();
    fields.push(String::from_str("index"));
    fields.push(String::from_str("time_ms"));
    fields.push(String::from_str("label"));
    assert(string_views(fields@) =~= header_record());
    fields
}

/// A lap as a record of the export.
pub fn lap_fields(lap: &Lap) -> (fields: Vec<String>)
    ensures
        fields@.len() == 3,
        string_views(fields@) == lap_record(lap@),
{
    let mut fields: Vec<String> = Vec::new();
    fields.push(decimal_string(lap.index as u128));
    fields.push(decimal_string(lap.at_ms));
    fields.push(label_string(lap));
    assert(string_views(fields@) =~= lap_record(lap@));
    fields
}

/// The lap log as CSV text: a header line, then one line for each lap. An
/// empty log gives the header line alone.
pub fn export_csv(laps: &[Lap]) -> (text: String)
    ensures
        text@ == csv_text(lap_views(laps@)),
{
    let ghost views = lap_views(laps@);
    let mut buffer = csv_buffer();
    let header = header_fields();
    csv_write_record(&mut buffer, &header);
    let mut i: usize = 0;
    assert(views.take(0) =~= Seq::<LapView>::empty());
    while i < laps.len()
        invariant
            views == lap_views(laps@),
            i <= laps.len(),
            csv_width(buffer) == Some(3nat),
            csv_written(buffer) == csv_text(views.take(i as int)),
        decreases laps.len() - i,
    {
        let fields = lap_fields(&laps[i]);
        csv_write_record(&mut buffer, &fields);
        proof {
            let done = views.take(i + 1);
            assert(done.drop_last() =~= views.take(i as int));
            assert(done.last() == laps@[i as int]@);
        }
        i = i + 1;
    }
    assert(views.take(i as int) =~= views);
    csv_into_text(buffer)
}

} // verus!
