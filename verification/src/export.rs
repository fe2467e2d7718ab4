use vstd::prelude::*;
use vstd::utf8::encode_utf8;
use crate::history::Entry;

verus! {

/// The file that the history is exported to.
pub const EXPORT_PATH: &'static str = "clipboard_export.csv";

/// What is printed once the export file is written.
pub const EXPORT_DONE_MESSAGE: &'static str = "Clipboard history exported to clipboard_export.csv";

/// A CSV writer (`csv::Writer`) over a growing byte vector. Verus cannot
/// take the writer's type, which is bounded by `std::io::Write`, so it is
/// held here out of Verus's sight; `csv_written` names its contents.
#[verifier::external_body]
pub struct CsvBuffer {
    inner: csv::Writer<Vec<u8>>,
}

#[verifier::external_type_specification]
#[verifier::external_body]
pub struct ExCsvError(csv::Error);


/// The bytes that a CSV writer over a byte vector holds so far: those handed
/// to the vector and those still in its buffer.
pub uninterp spec fn csv_written(w: CsvBuffer) -> Seq<u8>;

/// A byte that forces quotes around a field in the default CSV dialect:
/// the delimiter `,`, the quote `"`, and the line breaks `\n` and `\r`.
pub open spec fn csv_special(b: u8) -> bool {
    b == 44u8 || b == 34u8 || b == 10u8 || b == 13u8
}

pub open spec fn csv_needs_quotes(field: Seq<u8>) -> bool {
    exists|i: int| 0 <= i < field.len() && #[trigger] csv_special(field[i])
}

/// The field with every quote doubled.
pub open spec fn csv_double_quotes(field: Seq<u8>) -> Seq<u8>
    decreases field.len(),
{
    if field.len() == 0 {
        field
    } else {
        csv_double_quotes(field.drop_last()) + if field.last() == 34u8 {
            seq![34u8, 34u8]
        } else {
            seq![field.last()]
        }
    }
}

/// A record of one field in the default CSV dialect: quoted where the
/// field holds a special byte (quotes doubled inside), `""` for an empty
/// field, ended by `\n`.
pub open spec fn csv_record(field: Seq<u8>) -> Seq<u8> {
    if field.len() == 0 {
        seq![34u8, 34u8, 10u8]
    } else if csv_needs_quotes(field) {
        seq![34u8] + csv_double_quotes(field) + seq![34u8, 10u8]
    } else {
        field.push(10u8)
    }
}

/// The export of the given rows: one record per row holding its text as
/// UTF-8, in the order of the rows.
pub open spec fn csv_export(rows: Seq<Entry>) -> Seq<u8>
    decreases rows.len(),
{
    if rows.len() == 0 {
        Seq::empty()
    } else {
        csv_export(rows.drop_last()) + csv_record(encode_utf8(rows.last().1@))
    }
}

/// Calls `csv::Writer::from_writer` on an empty byte vector: the writer holds
/// no bytes yet.
#[verifier::external_body]
fn csv_writer_new() -> (w: CsvBuffer)
    ensures
        csv_written(w) == Seq::<u8>::empty(),
{
    CsvBuffer { inner: csv::Writer::from_writer(Vec::new()) }
}

/// Calls `csv::Writer::write_record` with a record of the one field `field`.
/// The writer then holds one more record, as the documentation of the default
/// writer describes it (`QuoteStyle::Necessary`, quotes doubled, terminator
/// `\n`). It succeeds: the writer fails only where a record's field count
/// differs from the first record's (every record written here has one field)
/// or where writing into its byte vector fails, which `Vec<u8>`'s `io::Write`
/// never does.
#[verifier::external_body]
fn csv_write_record(w: &mut CsvBuffer, field: &str) -> (r: Result<(), csv::Error>)
    ensures
        r is Ok && csv_written(*final(w)) == csv_written(*old(w)) + csv_record(encode_utf8(field@)),
{
    w.inner.write_record([field])
}

/// Calls `csv::Writer::into_inner`, which flushes the writer and hands back
/// the byte vector, holding all that was written. It succeeds: it fails only
/// where flushing into the byte vector fails, which `Vec<u8>`'s `io::Write`
/// never does. Its error type carries an I/O error, handed on as a
/// `csv::Error`.
#[verifier::external_body]
fn csv_into_bytes(w: CsvBuffer) -> (r: Result<Vec<u8>, csv::Error>)
    ensures
        r is Ok,
        r matches Ok(v) ==> v@ == csv_written(w),
{
    match w.inner.into_inner() {
        Ok(v) => Ok(v),
        Err(e) => Err(csv::Error::from(e.into_error())),
    }
}

/// Why an export could not be written.
pub enum ExportError {
    /// The CSV writer refused a record.
    Record,
    /// The CSV writer could not be flushed.
    Flush,
}

/// Writes the text of each row as a one-field CSV record, in the order of the
/// rows (the history is fetched newest first). It always succeeds; the error
/// type names the two writer calls that could fail in general.
pub fn export_csv(rows: &Vec<Entry>) -> (res: Result<Vec<u8>, ExportError>)
    ensures
        res matches Ok(bytes) && bytes@ == csv_export(rows@),
{
    let mut w = csv_writer_new();
    let mut i: usize = 0;
    while i < rows.len()
        invariant
            i <= rows.len(),
            csv_written(w) == csv_export(rows@.take(i as int)),
        decreases rows.len() - i,
    {
        match csv_write_record(&mut w, rows[i].1.as_str()) {
            Ok(()) => {},
            Err(_) => {
                return Err(ExportError::Record);
            },
        }
        assert(rows@.take(i + 1).drop_last() =~= rows@.take(i as int));
        i += 1;
    }
    assert(rows@.take(rows.len() as int) =~= rows@);
    match csv_into_bytes(w) {
        Ok(bytes) => Ok(bytes),
        Err(_) => Err(ExportError::Flush),
    }
}

/// The export is made row by row: exporting two runs of rows one after the
/// other gives the two exports one after the other.
pub proof fn lemma_export_concat(a: Seq<Entry>, b: Seq<Entry>)
    ensures
        csv_export(a + b) == csv_export(a) + csv_export(b),
    decreases b.len(),
{
    if b.len() == 0 {
        assert(a + b =~= a);
        assert(csv_export(b) =~= Seq::<u8>::empty());
        assert(csv_export(a) + csv_export(b) =~= csv_export(a));
    } else {
        lemma_export_concat(a, b.drop_last());
        assert((a + b).drop_last() =~= a + b.drop_last());
        assert((a + b).last() == b.last());
        assert(csv_export(a + b) =~= csv_export(a) + csv_export(b));
    }
}

/// Every record ends with the line break, so an export is empty exactly
/// where there are no rows.
pub proof fn lemma_export_empty_iff_no_rows(rows: Seq<Entry>)
    ensures
        csv_export(rows).len() == 0 <==> rows.len() == 0,
        rows.len() > 0 ==> csv_export(rows).last() == 10u8,
{
    if rows.len() > 0 {
        let r = csv_record(encode_utf8(rows.last().1@));
        assert(r.len() > 0 && r.last() == 10u8);
        assert(csv_export(rows) == csv_export(rows.drop_last()) + r);
    }
}

/// Reading an unquoted field: the bytes up to the next line break, and what
/// follows that line break.
pub open spec fn read_plain(b: Seq<u8>) -> (Seq<u8>, Seq<u8>)
    decreases b.len(),
{
    if b.len() == 0 {
        (Seq::empty(), Seq::empty())
    } else if b[0] == 10u8 {
        (Seq::empty(), b.drop_first())
    } else {
        let r = read_plain(b.drop_first());
        (seq![b[0]] + r.0, r.1)
    }
}

/// Reading the inside of a quoted field, after its opening quote: two quotes
/// stand for one, a lone quote closes the field, and the line break after it
/// ends the record.
pub open spec fn read_quoted(b: Seq<u8>) -> (Seq<u8>, Seq<u8>)
    decreases b.len(),
{
    if b.len() == 0 {
        (Seq::empty(), Seq::empty())
    } else if b[0] == 34u8 {
        if b.len() > 1 && b[1] == 34u8 {
            let r = read_quoted(b.skip(2));
            (seq![34u8] + r.0, r.1)
        } else {
            let after = b.drop_first();
            (Seq::empty(), if after.len() > 0 && after[0] == 10u8 {
                after.drop_first()
            } else {
                after
            })
        }
    } else {
        let r = read_quoted(b.drop_first());
        (seq![b[0]] + r.0, r.1)
    }
}

/// Reading one record of one field: quoted where it starts with a quote,
/// plain otherwise; the field's bytes and what follows the record.
pub open spec fn read_record(b: Seq<u8>) -> (Seq<u8>, Seq<u8>) {
    if b.len() > 0 && b[0] == 34u8 {
        read_quoted(b.drop_first())
    } else {
        read_plain(b)
    }
}

/// Reading CSV of one-field records, as RFC 4180 reads it: the field of
/// each record, in order.
pub open spec fn read_csv(b: Seq<u8>) -> Seq<Seq<u8>>
    decreases b.len(),
{
    if b.len() == 0 {
        Seq::empty()
    } else {
        let r = read_record(b);
        if r.1.len() < b.len() {
            seq![r.0] + read_csv(r.1)
        } else {
            seq![r.0]
        }
    }
}

/// Doubling the quotes of two runs of bytes one after the other doubles those
/// of each.
pub proof fn lemma_double_quotes_concat(a: Seq<u8>, b: Seq<u8>)
    ensures
        csv_double_quotes(a + b) == csv_double_quotes(a) + csv_double_quotes(b),
    decreases b.len(),
{
    if b.len() == 0 {
        assert(a + b =~= a);
        assert(csv_double_quotes(a) + csv_double_quotes(b) =~= csv_double_quotes(a));
    } else {
        lemma_double_quotes_concat(a, b.drop_last());
        assert((a + b).drop_last() =~= a + b.drop_last());
        assert((a + b).last() == b.last());
        assert(csv_double_quotes(a + b) =~= csv_double_quotes(a) + csv_double_quotes(b));
    }
}

proof fn lemma_read_plain(f: Seq<u8>, rest: Seq<u8>)
    requires
        forall|i: int| 0 <= i < f.len() ==> f[i] != 10u8,
    ensures
        read_plain(f.push(10u8) + rest) == (f, rest),
    decreases f.len(),
{
    let b = f.push(10u8) + rest;
    if f.len() == 0 {
        assert(b.drop_first() =~= rest);
    } else {
        let t = f.drop_first();
        assert(b.drop_first() =~= t.push(10u8) + rest);
        lemma_read_plain(t, rest);
        assert(seq![f[0]] + t =~= f);
    }
}

proof fn lemma_read_quoted(f: Seq<u8>, rest: Seq<u8>)
    ensures
        read_quoted(csv_double_quotes(f) + seq![34u8, 10u8] + rest) == (f, rest),
    decreases f.len(),
{
    let b = csv_double_quotes(f) + seq![34u8, 10u8] + rest;
    if f.len() == 0 {
        assert(csv_double_quotes(f) =~= Seq::<u8>::empty());
        assert(b =~= seq![34u8, 10u8] + rest);
        assert(b.drop_first().drop_first() =~= rest);
    } else {
        let c = f[0];
        let t = f.drop_first();
        assert(seq![c] + t =~= f);
        lemma_double_quotes_concat(seq![c], t);
        assert(seq![c].drop_last() =~= Seq::<u8>::empty());
        assert(csv_double_quotes(Seq::<u8>::empty()) =~= Seq::<u8>::empty());
        lemma_read_quoted(t, rest);
        if c == 34u8 {
            assert(csv_double_quotes(seq![c]) =~= seq![34u8, 34u8]);
            assert(b =~= seq![34u8, 34u8] + (csv_double_quotes(t) + seq![34u8, 10u8] + rest));
            assert(b.skip(2) =~= csv_double_quotes(t) + seq![34u8, 10u8] + rest);
        } else {
            assert(csv_double_quotes(seq![c]) =~= seq![c]);
            assert(b =~= seq![c] + (csv_double_quotes(t) + seq![34u8, 10u8] + rest));
            assert(b.drop_first() =~= csv_double_quotes(t) + seq![34u8, 10u8] + rest);
        }
    }
}

/// A record reads back as its field, and what follows it is left as it was.
pub proof fn lemma_read_record(f: Seq<u8>, rest: Seq<u8>)
    ensures
        read_record(csv_record(f) + rest) == (f, rest),
        csv_record(f).len() > 0,
{
    let b = csv_record(f) + rest;
    if f.len() == 0 {
        assert(b =~= seq![34u8, 34u8, 10u8] + rest);
        assert(b.drop_first() =~= seq![34u8, 10u8] + rest);
        assert(b.drop_first().drop_first().drop_first() =~= rest);
    } else if csv_needs_quotes(f) {
        assert(b.drop_first() =~= csv_double_quotes(f) + seq![34u8, 10u8] + rest);
        lemma_read_quoted(f, rest);
    } else {
        assert(!csv_special(f[0]));
        assert forall|i: int| 0 <= i < f.len() implies f[i] != 10u8 by {
            assert(!csv_special(f[i]));
        }
        lemma_read_plain(f, rest);
    }
}

/// The export reads back, as CSV, as the text of each row in order: no
/// text is lost or changed, whatever commas, quotes or line breaks it holds.
pub proof fn lemma_export_reads_back(rows: Seq<Entry>)
    ensures
        read_csv(csv_export(rows)) == rows.map_values(|e: Entry| encode_utf8(e.1@)),
    decreases rows.len(),
{
    if rows.len() == 0 {
        assert(read_csv(csv_export(rows)) =~= rows.map_values(|e: Entry| encode_utf8(e.1@)));
    } else {
        let first = seq![rows[0]];
        let tail = rows.drop_first();
        assert(first + tail =~= rows);
        lemma_export_concat(first, tail);
        assert(first.drop_last() =~= Seq::<Entry>::empty());
        let f = encode_utf8(rows[0].1@);
        assert(first.last() == rows[0]);
        assert(csv_export(first.drop_last()) =~= Seq::<u8>::empty());
        assert(csv_export(first) =~= csv_record(f));
        lemma_read_record(f, csv_export(tail));
        lemma_export_reads_back(tail);
        assert(read_csv(csv_export(rows)) == seq![f] + read_csv(csv_export(tail)));
        assert(read_csv(csv_export(rows)) =~= rows.map_values(|e: Entry| encode_utf8(e.1@)));
    }
}

} // verus!
