//! The Todoist inbox: reading it from the CSV listing of `todoist-cli`, and writing it
//! as JSON; and the outcome of running a command.
use vstd::prelude::*;
use crate::session::result_view;
use crate::text::{digit_char, join2, str_eq, strings_view};

verus! {

/// A task of the Todoist inbox.
#[derive(Debug, Clone)]
pub struct Record {
    pub id: String,
    pub priority: String,
    pub name: String,
}

/// A task as its three texts: id, priority, name.
pub type RecordView = (Seq<char>, Seq<char>, Seq<char>);

impl View for Record {
    type V = RecordView;

    open spec fn view(&self) -> RecordView {
        (self.id@, self.priority@, self.name@)
    }
}

/// The texts of the tasks in `records`.
pub open spec fn records_view(records: Seq<Record>) -> Seq<RecordView> {
    records.map_values(|r: Record| r@)
}

/// The fields of CSV rows, as text.
pub open spec fn rows_view(rows: Seq<Vec<String>>) -> Seq<Seq<Seq<char>>> {
    rows.map_values(|row: Vec<String>| strings_view(row@))
}

/// What the `csv` crate reads from `text` with a reader that takes no header row
/// (and is otherwise built with its defaults): the fields of each row it reads
/// before its first error, and the message of that error, if there is one.
pub uninterp spec fn csv_rows(text: Seq<char>) -> (Seq<Seq<Seq<char>>>, Option<Seq<char>>);

/// The lower-case hexadecimal digit for `d`, where `0 <= d < 16`.
pub open spec fn hex_digit(d: int) -> char {
    if d < 10 {
        digit_char(d)
    } else if d == 10 {
        'a'
    } else if d == 11 {
        'b'
    } else if d == 12 {
        'c'
    } else if d == 13 {
        'd'
    } else if d == 14 {
        'e'
    } else {
        'f'
    }
}

/// How a character stands inside a JSON string literal as serde_json writes it:
/// `"` and `\` behind a backslash, the controls U+0008, U+0009, U+000A, U+000C and
/// U+000D as `\b`, `\t`, `\n`, `\f` and `\r`, the other controls below U+0020 as
/// `\u00` and two lower-case hex digits, and every other character as it is.
pub open spec fn escaped_char(c: char) -> Seq<char> {
    let u = c as int;
    if c == '"' {
        seq!['\\', '"']
    } else if c == '\\' {
        seq!['\\', '\\']
    } else if u == 0x08 {
        seq!['\\', 'b']
    } else if u == 0x09 {
        seq!['\\', 't']
    } else if u == 0x0a {
        seq!['\\', 'n']
    } else if u == 0x0c {
        seq!['\\', 'f']
    } else if u == 0x0d {
        seq!['\\', 'r']
    } else if u < 0x20 {
        seq!['\\', 'u', '0', '0', hex_digit(u / 16), hex_digit(u % 16)]
    } else {
        seq![c]
    }
}

/// The characters of `s`, each as it stands inside a JSON string literal.
pub open spec fn escaped(s: Seq<char>) -> Seq<char>
    decreases s.len(),
{
    if s.len() == 0 {
        seq![]
    } else {
        escaped(s.drop_last()) + escaped_char(s.last())
    }
}

/// The JSON string literal for `s`, as `serde_json::to_string` writes it.
pub open spec fn json_quoted(s: Seq<char>) -> Seq<char> {
    seq!['"'] + escaped(s) + seq!['"']
}

/// Reads the rows of the CSV text `text` one record at a time, as the `records`
/// of `csv::ReaderBuilder::new().has_headers(false)` yield them from its bytes, up to
/// the first error. The claim is that the result is `csv_rows(text)`: the rows read,
/// their fields as strings, and the error's message.
#[verifier::external_body]
fn read_csv_rows(text: &str) -> (res: (Vec<Vec<String>>, Option<String>))
    ensures
        csv_rows(text@) == (rows_view(res.0@), match res.1 {
            Some(e) => Some(e@),
            None => None::<Seq<char>>,
        }),
{
    let mut rows: Vec<Vec<String>> = Vec::new();
    let mut reader = csv::ReaderBuilder::new().has_headers(false).from_reader(text.as_bytes());
    for record in reader.records() {
        match record {
            Ok(fields) => rows.push(fields.iter().map(|field| field.to_string()).collect()),
            Err(e) => return (rows, Some(e.to_string())),
        }
    }
    (rows, None)
}

/// Encodes `s` as a JSON string literal with `serde_json::to_string`. The claim is
/// that the result is `json_quoted(s)`: serde_json writes the opening quote, each
/// character escaped by its table (bytes of multi-byte characters are all at least
/// 0x80 and pass unchanged), and the closing quote; for a `str` it writes into a
/// `Vec<u8>`, which cannot fail, so the fallback to an empty string is never taken.
#[verifier::external_body]
fn quote_json(s: &str) -> (res: String)
    ensures
        res@ == json_quoted(s@),
{
    serde_json::to_string(s).unwrap_or_default()
}

/// Whether a CSV row is a task of the inbox: its fourth field is `#Inbox`.
pub open spec fn in_inbox(row: Seq<Seq<char>>) -> bool {
    row.len() > 3 && row[3] == "#Inbox"@
}

/// Whether every inbox row has the sixth field that a task's name is read from.
pub open spec fn rows_complete(rows: Seq<Seq<Seq<char>>>) -> bool {
    forall|i: int| 0 <= i < rows.len() && #[trigger] in_inbox(rows[i]) ==> rows[i].len() > 5
}

/// The tasks of the inbox rows, in order: the id from the first field, the priority
/// from the second, the name from the sixth.
pub open spec fn inbox_records(rows: Seq<Seq<Seq<char>>>) -> Seq<RecordView>
    decreases rows.len(),
{
    if rows.len() == 0 {
        seq![]
    } else {
        let before = inbox_records(rows.drop_last());
        let row = rows.last();
        if in_inbox(row) {
            before.push((row[0], row[1], row[5]))
        } else {
            before
        }
    }
}

/// A task as a JSON object, its members in the order id, priority, name.
pub open spec fn record_json(r: RecordView) -> Seq<char> {
    "{\"id\":"@ + json_quoted(r.0) + ",\"priority\":"@ + json_quoted(r.1) + ",\"name\":"@
        + json_quoted(r.2) + "}"@
}

/// The objects of `records`, separated by commas.
pub open spec fn records_json_items(records: Seq<RecordView>) -> Seq<char>
    decreases records.len(),
{
    if records.len() == 0 {
        seq![]
    } else if records.len() == 1 {
        record_json(records[0])
    } else {
        records_json_items(records.drop_last()) + ","@ + record_json(records.last())
    }
}

/// The tasks as a compact JSON array of objects.
pub open spec fn records_json(records: Seq<RecordView>) -> Seq<char> {
    "["@ + records_json_items(records) + "]"@
}

fn record_json_exec(r: &Record) -> (res: String)
    ensures
        res@ == record_json(r@),
{
    let mut s = String::from_str("{\"id\":");
    s.append(quote_json(r.id.as_str()).as_str());
    s.append(",\"priority\":");
    s.append(quote_json(r.priority.as_str()).as_str());
    s.append(",\"name\":");
    s.append(quote_json(r.name.as_str()).as_str());
    s.append("}");
    s
}

/// Writes the tasks as JSON, as serializing the list with `serde_json` does.
pub fn to_json(records: &[Record]) -> (res: String)
    ensures
        res@ == records_json(records_view(records@)),
{
    let ghost rs = records_view(records@);
    let mut items = String::new();
    let mut i: usize = 0;
    while i < records.len()
        invariant
            i <= records.len(),
            rs == records_view(records@),
            items@ == records_json_items(rs.take(i as int)),
        decreases records.len() - i,
    {
        assert(rs.take(i + 1).drop_last() =~= rs.take(i as int));
        assert(rs.take(i + 1).last() == records@[i as int]@);
        if i > 0 {
            items.append(",");
        } else {
            assert(rs.take(1) =~= seq![records@[0]@]);
        }
        items.append(record_json_exec(&records[i]).as_str());
        i = i + 1;
    }
    assert(rs.take(records.len() as int) =~= rs);
    let mut res = String::from_str("[");
    res.append(items.as_str());
    res.append("]");
    res
}

fn is_inbox_row(row: &Vec<String>) -> (res: bool)
    ensures
        res == in_inbox(strings_view(row@)),
{
    row.len() > 3 && str_eq(row[3].as_str(), "#Inbox")
}

fn inbox_from_rows(rows: &Vec<Vec<String>>) -> (res: Vec<Record>)
    requires
        rows_complete(rows_view(rows@)),
    ensures
        records_view(res@) == inbox_records(rows_view(rows@)),
{
    let ghost rv = rows_view(rows@);
    let mut out: Vec<Record> = Vec::new();
    let mut i: usize = 0;
    while i < rows.len()
        invariant
            i <= rows.len(),
            rv == rows_view(rows@),
            rows_complete(rv),
            records_view(out@) == inbox_records(rv.take(i as int)),
        decreases rows.len() - i,
    {
        assert(rv.take(i + 1).drop_last() =~= rv.take(i as int));
        assert(rv.take(i + 1).last() == rv[i as int]);
        let row = &rows[i];
        if is_inbox_row(row) {
            assert(in_inbox(rv[i as int]));
            let ghost before = out@;
            out.push(
                Record { id: row[0].clone(), priority: row[1].clone(), name: row[5].clone() },
            );
            assert(records_view(out@) =~= records_view(before).push(
                (rv[i as int][0], rv[i as int][1], rv[i as int][5]),
            ));
        }
        i = i + 1;
    }
    assert(rv.take(rows.len() as int) =~= rv);
    out
}

/// Whether every inbox row of `rows` has a sixth field.
fn rows_complete_exec(rows: &Vec<Vec<String>>) -> (res: bool)
    ensures
        res == rows_complete(rows_view(rows@)),
{
    let ghost rv = rows_view(rows@);
    let mut i: usize = 0;
    while i < rows.len()
        invariant
            i <= rows.len(),
            rv == rows_view(rows@),
            forall|j: int| 0 <= j < i && #[trigger] in_inbox(rv[j]) ==> rv[j].len() > 5,
        decreases rows.len() - i,
    {
        if is_inbox_row(&rows[i]) && rows[i].len() <= 5 {
            assert(in_inbox(rv[i as int]) && rv[i as int].len() <= 5);
            return false;
        }
        i = i + 1;
    }
    true
}

/// What reading the listing `text` answers: its first CSV error, or else the tasks
/// of its inbox rows as JSON.
pub open spec fn listing_answer(text: Seq<char>) -> Result<Seq<char>, Seq<char>> {
    match csv_rows(text).1 {
        Some(e) => Err(e),
        None => Ok(records_json(inbox_records(csv_rows(text).0))),
    }
}

/// What reading the listing `text` leaves in an inbox that held `before`.
pub open spec fn listing_effect(text: Seq<char>, before: Seq<RecordView>, update_state: bool) -> Seq<
    RecordView,
> {
    if update_state && csv_rows(text).1 is None {
        inbox_records(csv_rows(text).0)
    } else {
        before
    }
}

/// Reads the tasks of the inbox from the CSV listing `csv_data`, replaces `inbox`
/// with them when `update_state` is set, and answers them as JSON; a CSV error is
/// the answer where the listing cannot be read. The answer is then what the inbox
/// itself reads as.
pub fn parse_inbox(csv_data: &str, inbox: &mut Vec<Record>, update_state: bool) -> (res: Result<
    String,
    String,
>)
    requires
        rows_complete(csv_rows(csv_data@).0),
    ensures
        result_view(res) == listing_answer(csv_data@),
        records_view(final(inbox)@) == listing_effect(
            csv_data@,
            records_view(old(inbox)@),
            update_state,
        ),
        !update_state || csv_rows(csv_data@).1 is Some ==> final(inbox)@ == old(inbox)@,
        update_state && res is Ok ==> result_view(res) == Ok::<Seq<char>, Seq<char>>(
            records_json(records_view(final(inbox)@)),
        ),
{
    let (rows, error) = read_csv_rows(csv_data);
    match error {
        Some(e) => Err(e),
        None => {
            let records = inbox_from_rows(&rows);
            let json = to_json(records.as_slice());
            if update_state {
                *inbox = records;
            }
            Ok(json)
        },
    }
}

/// As [`parse_inbox`], where the rows read before any CSV error include an inbox
/// row without a sixth field (on which the task's name is missing) it answers
/// `None` and leaves `inbox` as it was.
pub fn parse_inbox_checked(csv_data: &str, inbox: &mut Vec<Record>, update_state: bool) -> (res:
    Option<Result<String, String>>)
    ensures
        res is None <==> !rows_complete(csv_rows(csv_data@).0),
        res is None ==> final(inbox)@ == old(inbox)@,
        res matches Some(r) ==> {
            &&& result_view(r) == listing_answer(csv_data@)
            &&& records_view(final(inbox)@) == listing_effect(
                csv_data@,
                records_view(old(inbox)@),
                update_state,
            )
            &&& !update_state || csv_rows(csv_data@).1 is Some ==> final(inbox)@ == old(inbox)@
            &&& update_state && r is Ok ==> result_view(r) == Ok::<Seq<char>, Seq<char>>(
                records_json(records_view(final(inbox)@)),
            )
        },
{
    let (rows, _) = read_csv_rows(csv_data);
    if !rows_complete_exec(&rows) {
        return None;
    }
    Some(parse_inbox(csv_data, inbox, update_state))
}

/// The outcome of a command that ran to its end: its standard output where it
/// succeeded, and otherwise an error that quotes its standard error.
pub fn command_outcome(success: bool, stdout: String, stderr: String) -> (res: Result<
    String,
    String,
>)
    ensures
        success ==> (res matches Ok(out) && out@ == stdout@),
        !success ==> (res matches Err(e) && e@ == "Command failed with error: "@ + stderr@),
{
    if success {
        Ok(stdout)
    } else {
        Err(join2("Command failed with error: ", stderr.as_str()))
    }
}

} // verus!
