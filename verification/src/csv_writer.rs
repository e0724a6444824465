//! The boundary to `csv`: nothing in this file is proved. The one function
//! hands the fields of a record to the crate and takes the written text back.

use vstd::prelude::*;

verus! {

/// The text that a `csv::Writer` with default settings gives for one record
/// with these fields, line ending included, or `None` where it gives none.
pub uninterp spec fn csv_line(fields: Seq<Seq<char>>) -> Option<Seq<char>>;

/// One record, written by `csv::Writer::write_record` into a writer that
/// `csv::Writer::from_writer` made over an empty buffer. The buffer comes back
/// through `csv::Writer::into_inner` and is read as text by
/// `String::from_utf8`. Claimed: the result depends on the fields alone.
#[verifier::external_body]
pub(crate) fn csv_record(fields: &Vec<String>) -> (r: Option<String>)
    ensures
        match r {
            Some(line) => csv_line(fields.deep_view()) == Some(line@),
            None => csv_line(fields.deep_view()) is None,
        },
{
    let mut writer = csv::Writer::from_writer(Vec::new());
    writer.write_record(fields).ok()?;
    let bytes = writer.into_inner().ok()?;
    String::from_utf8(bytes).ok()
}

} // verus!
