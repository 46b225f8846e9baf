//! Export of the signal log as JSON lines or CSV.
use vstd::prelude::*;
use vstd::string::*;
use crate::cli::limits::{LimitError, MemoryLimit};
use crate::text::{byte_len, decimal, owned, push_decimal, push_signed_decimal, signed_decimal, str_eq};

verus! {

/// One row of the signal log.
#[derive(Debug, Clone)]
pub struct SignalRow {
    pub ts: String,
    pub scanner: String,
    pub id_type: String,
    pub id_value: String,
    pub rssi: Option<i32>,
    pub party_name: Option<String>,
    pub device_name: Option<String>,
    pub location_building: Option<String>,
    pub location_floor: Option<u32>,
    pub location_room: Option<String>,
    pub location_zone: Option<String>,
}

/// The formats of an export.
#[derive(Debug, Clone, Copy, PartialEq, Eq, Structural)]
pub enum ExportFormat {
    Jsonl,
    Csv,
}

/// The format named by `--format` (exactly `jsonl` or `csv`), or the error
/// message for any other name.
pub fn export_format(format: &str) -> (r: Result<ExportFormat, String>)
    ensures
        format@ == "jsonl"@ ==> r == Ok::<ExportFormat, String>(ExportFormat::Jsonl),
        format@ == "csv"@ ==> r == Ok::<ExportFormat, String>(ExportFormat::Csv),
        format@ != "jsonl"@ && format@ != "csv"@ ==> (r matches Err(m) && m@ == "Unsupported format: "@ + format@
            + ". Supported formats: jsonl, csv"@),
{
    proof {
        reveal_strlit("jsonl");
        reveal_strlit("csv");
        assert("jsonl"@.len() != "csv"@.len());
    }
    if str_eq(format, "jsonl") {
        Ok(ExportFormat::Jsonl)
    } else if str_eq(format, "csv") {
        Ok(ExportFormat::Csv)
    } else {
        let mut m = owned("Unsupported format: ");
        m.append(format);
        m.append(". Supported formats: jsonl, csv");
        Err(m)
    }
}

/// The CSV header line.
pub const CSV_HEADER: &'static str = "ts,scanner,id_type,id_value,rssi,party_name,device_name,location_building,location_floor,location_room,location_zone\n";

/// An optional text in a CSV field: empty when absent.
pub open spec fn csv_text(o: Option<String>) -> Seq<char> {
    match o {
        Some(s) => s@,
        None => Seq::empty(),
    }
}

/// An optional signed number in a CSV field: empty when absent.
pub open spec fn csv_int(o: Option<i32>) -> Seq<char> {
    match o {
        Some(v) => signed_decimal(v as int),
        None => Seq::empty(),
    }
}

/// An optional number in a CSV field: empty when absent.
pub open spec fn csv_nat(o: Option<u32>) -> Seq<char> {
    match o {
        Some(f) => decimal(f as nat),
        None => Seq::empty(),
    }
}

/// The identifying fields of a CSV line, each followed by a comma.
pub open spec fn csv_head(r: SignalRow) -> Seq<char> {
    r.ts@ + ","@ + r.scanner@ + ","@ + r.id_type@ + ","@ + r.id_value@ + ","@
}

/// The signal and owner fields of a CSV line, each followed by a comma.
pub open spec fn csv_middle(r: SignalRow) -> Seq<char> {
    csv_int(r.rssi) + ","@ + csv_text(r.party_name) + ","@ + csv_text(r.device_name) + ","@
}

/// The location fields of a CSV line, and its end.
pub open spec fn csv_location(r: SignalRow) -> Seq<char> {
    csv_text(r.location_building) + ","@ + csv_nat(r.location_floor) + ","@ + csv_text(r.location_room) + ","@
        + csv_text(r.location_zone) + "\n"@
}

/// One row as a CSV line: its fields in header order, separated by commas,
/// absent values empty, numbers in decimal.
pub open spec fn csv_line_spec(r: SignalRow) -> Seq<char> {
    csv_head(r) + csv_middle(r) + csv_location(r)
}

fn push_opt(out: &mut String, o: &Option<String>)
    ensures
        final(out)@ == old(out)@ + csv_text(*o),
{
    match o {
        Some(s) => out.append(s.as_str()),
        None => {},
    }
    assert(out@ =~= old(out)@ + csv_text(*o));
}

fn push_csv_head(out: &mut String, r: &SignalRow)
    ensures
        final(out)@ == old(out)@ + csv_head(*r),
{
    let ghost s0 = out@;
    out.append(r.ts.as_str());
    out.append(",");
    out.append(r.scanner.as_str());
    out.append(",");
    out.append(r.id_type.as_str());
    out.append(",");
    out.append(r.id_value.as_str());
    out.append(",");
    assert(out@ =~= s0 + csv_head(*r));
}

fn push_csv_middle(out: &mut String, r: &SignalRow)
    ensures
        final(out)@ == old(out)@ + csv_middle(*r),
{
    let ghost s0 = out@;
    match r.rssi {
        Some(v) => push_signed_decimal(out, v as i64),
        None => {},
    }
    assert(out@ =~= s0 + csv_int(r.rssi));
    out.append(",");
    push_opt(out, &r.party_name);
    out.append(",");
    push_opt(out, &r.device_name);
    out.append(",");
    assert(out@ =~= s0 + csv_middle(*r));
}

fn push_csv_location(out: &mut String, r: &SignalRow)
    ensures
        final(out)@ == old(out)@ + csv_location(*r),
{
    let ghost s0 = out@;
    push_opt(out, &r.location_building);
    out.append(",");
    let ghost s1 = out@;
    match r.location_floor {
        Some(f) => push_decimal(out, f as u64),
        None => {},
    }
    assert(out@ =~= s1 + csv_nat(r.location_floor));
    out.append(",");
    push_opt(out, &r.location_room);
    out.append(",");
    push_opt(out, &r.location_zone);
    out.append("\n");
    assert(out@ =~= s0 + csv_location(*r));
}

/// Append one row as a CSV line.
pub fn push_csv_line(out: &mut String, r: &SignalRow)
    ensures
        final(out)@ == old(out)@ + csv_line_spec(*r),
{
    let ghost s0 = out@;
    push_csv_head(out, r);
    push_csv_middle(out, r);
    push_csv_location(out, r);
    assert(out@ =~= s0 + csv_line_spec(*r));
}

/// A lowercase hexadecimal digit.
pub open spec fn hex_digit(n: nat) -> char {
    if n < 10 {
        (48 + n) as char
    } else {
        (87 + n) as char
    }
}

/// How `serde_json` writes one character inside a string: `"` and `\`
/// escaped by a backslash; backspace, tab, line feed, form feed and carriage
/// return as `\b \t \n \f \r`; the other control characters below U+0020
/// as `\u00` and two lowercase hex digits; every other character as itself.
pub open spec fn json_char_escape(c: char) -> Seq<char> {
    if c == '"' {
        seq!['\\', '"']
    } else if c == '\\' {
        seq!['\\', '\\']
    } else if c == '\u{8}' {
        seq!['\\', 'b']
    } else if c == '\t' {
        seq!['\\', 't']
    } else if c == '\n' {
        seq!['\\', 'n']
    } else if c == '\u{c}' {
        seq!['\\', 'f']
    } else if c == '\r' {
        seq!['\\', 'r']
    } else if (c as u32) < 0x20 {
        seq!['\\', 'u', '0', '0', hex_digit((c as u32 / 16) as nat), hex_digit((c as u32 % 16) as nat)]
    } else {
        seq![c]
    }
}

/// The characters of a text as `serde_json` writes them inside a string.
pub open spec fn json_escaped(s: Seq<char>) -> Seq<char>
    decreases s.len(),
{
    if s.len() == 0 {
        Seq::empty()
    } else {
        json_escaped(s.drop_last()) + json_char_escape(s.last())
    }
}

/// What `serde_json` writes for a string: the escaped text in double quotes.
pub open spec fn json_quoted(s: Seq<char>) -> Seq<char> {
    seq!['"'] + json_escaped(s) + seq!['"']
}

/// A string as a JSON string literal (`serde_json::to_string` of a `&str`).
/// Trusted: the result is stated as `json_quoted` of the text, serde_json's
/// escaping (`format_escaped_str` and its `ESCAPE` table). Serializing a
/// `str` cannot fail.
#[verifier::external_body]
pub(crate) fn json_quote(s: &str) -> (r: String)
    ensures
        r@ == json_quoted(s@),
{
    serde_json::to_string(s).unwrap_or_default()
}

/// An optional text as a JSON value: quoted, or `null`.
pub open spec fn json_opt(o: Option<String>) -> Seq<char> {
    match o {
        Some(s) => json_quoted(s@),
        None => "null"@,
    }
}

/// A JSON number for an optional value, or `null`.
pub open spec fn json_opt_nat(o: Option<u32>) -> Seq<char> {
    match o {
        Some(f) => decimal(f as nat),
        None => "null"@,
    }
}

/// A JSON number for an optional signed value, or `null`.
pub open spec fn json_opt_int(o: Option<i32>) -> Seq<char> {
    match o {
        Some(v) => signed_decimal(v as int),
        None => "null"@,
    }
}

/// The start of a row's JSON object: device name and identifier.
pub open spec fn json_head(r: SignalRow) -> Seq<char> {
    "{\"device_name\":"@ + json_opt(r.device_name) + ",\"id_type\":"@ + json_quoted(r.id_type@) + ",\"id_value\":"@
        + json_quoted(r.id_value@)
}

/// The nested location object of a row.
pub open spec fn json_location(r: SignalRow) -> Seq<char> {
    ",\"location\":{\"building\":"@ + json_opt(r.location_building) + ",\"floor\":"@ + json_opt_nat(r.location_floor)
        + ",\"room\":"@ + json_opt(r.location_room) + ",\"zone\":"@ + json_opt(r.location_zone) + "}"@
}

/// The end of a row's JSON object: party, signal, scanner and time.
pub open spec fn json_tail(r: SignalRow) -> Seq<char> {
    ",\"party_name\":"@ + json_opt(r.party_name) + ",\"rssi\":"@ + json_opt_int(r.rssi) + ",\"scanner\":"@
        + json_quoted(r.scanner@) + ",\"ts\":"@ + json_quoted(r.ts@) + "}\n"@
}

/// One row as a JSON object on one line, keys in sorted order (as
/// `serde_json` orders an object's keys), the location fields nested.
pub open spec fn json_line_spec(r: SignalRow) -> Seq<char> {
    json_head(r) + json_location(r) + json_tail(r)
}

fn push_json_opt(out: &mut String, o: &Option<String>)
    ensures
        final(out)@ == old(out)@ + json_opt(*o),
{
    match o {
        Some(s) => {
            let q = json_quote(s.as_str());
            out.append(q.as_str());
        },
        None => out.append("null"),
    }
}

fn push_json_quoted(out: &mut String, s: &String)
    ensures
        final(out)@ == old(out)@ + json_quoted(s@),
{
    let q = json_quote(s.as_str());
    out.append(q.as_str());
}

fn push_json_head(out: &mut String, r: &SignalRow)
    ensures
        final(out)@ == old(out)@ + json_head(*r),
{
    let ghost s0 = out@;
    out.append("{\"device_name\":");
    push_json_opt(out, &r.device_name);
    out.append(",\"id_type\":");
    push_json_quoted(out, &r.id_type);
    out.append(",\"id_value\":");
    push_json_quoted(out, &r.id_value);
    assert(out@ =~= s0 + json_head(*r));
}

fn push_json_location(out: &mut String, r: &SignalRow)
    ensures
        final(out)@ == old(out)@ + json_location(*r),
{
    let ghost s0 = out@;
    out.append(",\"location\":{\"building\":");
    push_json_opt(out, &r.location_building);
    out.append(",\"floor\":");
    match r.location_floor {
        Some(f) => push_decimal(out, f as u64),
        None => out.append("null"),
    }
    out.append(",\"room\":");
    push_json_opt(out, &r.location_room);
    out.append(",\"zone\":");
    push_json_opt(out, &r.location_zone);
    out.append("}");
    assert(out@ =~= s0 + json_location(*r));
}

fn push_json_tail(out: &mut String, r: &SignalRow)
    ensures
        final(out)@ == old(out)@ + json_tail(*r),
{
    let ghost s0 = out@;
    out.append(",\"party_name\":");
    push_json_opt(out, &r.party_name);
    out.append(",\"rssi\":");
    match r.rssi {
        Some(v) => push_signed_decimal(out, v as i64),
        None => out.append("null"),
    }
    out.append(",\"scanner\":");
    push_json_quoted(out, &r.scanner);
    out.append(",\"ts\":");
    push_json_quoted(out, &r.ts);
    out.append("}\n");
    assert(out@ =~= s0 + json_tail(*r));
}

/// Append one row as a JSON line.
pub fn push_json_line(out: &mut String, r: &SignalRow)
    ensures
        final(out)@ == old(out)@ + json_line_spec(*r),
{
    let ghost s0 = out@;
    push_json_head(out, r);
    push_json_location(out, r);
    push_json_tail(out, r);
    assert(out@ =~= s0 + json_line_spec(*r));
}

/// The lines of the rows in a format.
pub open spec fn lines_spec(format: ExportFormat, rows: Seq<SignalRow>) -> Seq<char>
    decreases rows.len(),
{
    if rows.len() == 0 {
        Seq::empty()
    } else {
        lines_spec(format, rows.drop_last()) + match format {
            ExportFormat::Jsonl => json_line_spec(rows.last()),
            ExportFormat::Csv => csv_line_spec(rows.last()),
        }
    }
}

/// The whole export text: for CSV the header, then one line per row.
pub open spec fn export_spec(format: ExportFormat, rows: Seq<SignalRow>) -> Seq<char> {
    match format {
        ExportFormat::Jsonl => lines_spec(format, rows),
        ExportFormat::Csv => CSV_HEADER@ + lines_spec(format, rows),
    }
}

/// The export of the rows in a format, checked against the memory limit:
/// with at least one row, the text must fit in what the limit leaves
/// (`LimitError` otherwise); an empty export is not checked.
pub fn export_rows(format: ExportFormat, rows: &Vec<SignalRow>, limit: &MemoryLimit) -> (r: Result<String, LimitError>)
    ensures
        match r {
            Ok(t) => t@ == export_spec(format, rows@),
            Err(LimitError::MemoryLimitExceeded { max }) => {
                &&& limit.limit() == Some(max)
                &&& rows@.len() > 0
                &&& limit.usage() + byte_len(export_spec(format, rows@)) > max
            },
        },
        (r is Err) <==> (rows@.len() > 0 && limit.limit() is Some && limit.usage() + byte_len(export_spec(format, rows@))
            > limit.limit().unwrap()),
{
    let mut out = String::new();
    match format {
        ExportFormat::Csv => out.append(CSV_HEADER),
        ExportFormat::Jsonl => {},
    }
    let ghost head = out@;
    assert(head == export_spec(format, Seq::<SignalRow>::empty()));
    let mut i: usize = 0;
    while i < rows.len()
        invariant
            i <= rows@.len(),
            head == match format {
                ExportFormat::Jsonl => Seq::<char>::empty(),
                ExportFormat::Csv => CSV_HEADER@,
            },
            out@ == head + lines_spec(format, rows@.take(i as int)),
        decreases rows@.len() - i,
    {
        match format {
            ExportFormat::Jsonl => push_json_line(&mut out, &rows[i]),
            ExportFormat::Csv => push_csv_line(&mut out, &rows[i]),
        }
        proof {
            assert(rows@.take(i + 1).drop_last() =~= rows@.take(i as int));
        }
        i = i + 1;
    }
    proof {
        assert(rows@.take(rows@.len() as int) =~= rows@);
    }
    assert(out@ == export_spec(format, rows@));
    if rows.len() == 0 {
        return Ok(out);
    }
    let len = out.as_str().as_bytes().len() as u64;
    match limit.max_bytes() {
        Some(max) => {
            let used = limit.current();
            if used > u64::MAX - len || used + len > max {
                return Err(LimitError::MemoryLimitExceeded { max });
            }
        },
        None => {},
    }
    Ok(out)
}

} // verus!
