//! The CSV form of the durable log: one record of two fields, expression and
//! result, for each calculation. Reading and writing the records is the work
//! of the `csv` crate; what it returns is named here, not derived.

use vstd::prelude::*;

verus! {

/// The error type of the `csv` crate.
#[verifier::external_type_specification]
#[verifier::external_body]
pub struct ExCsvError(csv::Error);

/// The bytes that a `csv::Writer` with default settings writes for one
/// record of the two fields `first` and `second`, as the first record of
/// its output.
pub uninterp spec fn csv_row(first: Seq<char>, second: Seq<char>) -> Seq<u8>;

/// The records that a `csv::Reader` yields for `data`, in order, with
/// default settings but for `has_headers` and `flexible`: the fields of
/// each record it accepts, and `None` for each it reports as an error.
/// With `has_headers` the first record is a header and is not among them.
/// Without `flexible` the first record sets the number of fields, and the
/// reader reports every record of another width as an error; with it, a
/// record of any width is accepted.
pub uninterp spec fn csv_records(data: Seq<u8>, has_headers: bool, flexible: bool) -> Seq<
    Option<Seq<Seq<char>>>,
>;

/// Makes a writer over an empty buffer with `csv::Writer::from_writer`,
/// writes one record of the two fields with `Writer::write_record`, calls
/// `Writer::flush`, and hands out a copy of the buffer that `Writer::get_ref`
/// shows. The contract names the bytes written, and says that writing
/// succeeds: the writer fails only where its output fails or where a
/// record differs in width from the first one, and here the output is a
/// vector in memory and the record is the first.
#[verifier::external_body]
pub(crate) fn write_row(first: &str, second: &str) -> (row: Result<Vec<u8>, csv::Error>)
    ensures
        row is Ok,
        row matches Ok(bytes) ==> bytes@ == csv_row(first@, second@),
{
    let mut writer = csv::Writer::from_writer(Vec::new());
    writer.write_record(&[first, second])?;
    writer.flush()?;
    Ok(writer.get_ref().clone())
}

/// Reads `data` with the reader that `csv::ReaderBuilder::from_reader`
/// builds with the given `has_headers` and `flexible` settings, and
/// collects what `Reader::records` yields: the fields of a record as
/// strings, or `None` for an error. The contract names what is read.
#[verifier::external_body]
pub(crate) fn read_records(data: &[u8], has_headers: bool, flexible: bool) -> (records: Vec<
    Option<Vec<String>>,
>)
    ensures
        records.deep_view() == csv_records(data@, has_headers, flexible),
{
    let mut reader =
        csv::ReaderBuilder::new().has_headers(has_headers).flexible(flexible).from_reader(data);
    reader.records().map(|item| match item {
        Ok(record) => Some(record.iter().map(|field| field.to_string()).collect()),
        Err(_) => None,
    }).collect()
}

/// The text of a `csv::Error`, as its `Display` gives it through
/// `to_string`. Nothing is claimed of the text.
#[verifier::external_body]
pub(crate) fn error_text(error: &csv::Error) -> String {
    error.to_string()
}

} // verus!
