//! Row records: the display fields of one table row, and the rows that
//! stand in for data until a backing source supplies it.

use vstd::prelude::*;
use vstd::string::StringExecFns;

verus! {

/// The display fields of one row, in column order: a name, then its
/// summaries.
#[derive(Clone, Debug, PartialEq, Eq)]
pub struct RowRecord {
    fields: Vec<String>,
}

/// The texts of a list of strings.
pub open spec fn texts(fields: Seq<String>) -> Seq<Seq<char>> {
    Seq::new(fields.len(), |i: int| fields[i]@)
}

impl View for RowRecord {
    type V = Seq<Seq<char>>;

    /// A record is the sequence of its fields' texts.
    closed spec fn view(&self) -> Seq<Seq<char>> {
        texts(self.fields@)
    }
}

impl RowRecord {
    /// A record of the given fields.
    pub fn new(fields: Vec<String>) -> (record: RowRecord)
        ensures
            record@ == texts(fields@),
    {
        RowRecord { fields }
    }

    /// The fields, in column order.
    pub fn fields(&self) -> (fields: &Vec<String>)
        ensures
            texts(fields@) == self@,
    {
        &self.fields
    }
}

/// The views of a list of records.
pub open spec fn record_views(rows: Seq<RowRecord>) -> Seq<Seq<Seq<char>>> {
    Seq::new(rows.len(), |i: int| rows[i]@)
}

/// The character of a decimal digit.
pub open spec fn digit_char(d: nat) -> char
    recommends
        d < 10,
{
    if d == 0 {
        '0'
    } else if d == 1 {
        '1'
    } else if d == 2 {
        '2'
    } else if d == 3 {
        '3'
    } else if d == 4 {
        '4'
    } else if d == 5 {
        '5'
    } else if d == 6 {
        '6'
    } else if d == 7 {
        '7'
    } else if d == 8 {
        '8'
    } else {
        '9'
    }
}

/// The decimal numeral of `n`, most significant digit first, without
/// leading zeros.
pub open spec fn decimal(n: nat) -> Seq<char>
    decreases n,
{
    if n < 10 {
        seq![digit_char(n)]
    } else {
        decimal(n / 10).push(digit_char(n % 10))
    }
}

/// The one-character text of a decimal digit.
fn digit_text(d: usize) -> (text: &'static str)
    requires
        d < 10,
    ensures
        text@ == seq![digit_char(d as nat)],
{
    proof {
        reveal_strlit("0");
        reveal_strlit("1");
        reveal_strlit("2");
        reveal_strlit("3");
        reveal_strlit("4");
        reveal_strlit("5");
        reveal_strlit("6");
        reveal_strlit("7");
        reveal_strlit("8");
        reveal_strlit("9");
    }
    let text: &'static str = if d == 0 {
        "0"
    } else if d == 1 {
        "1"
    } else if d == 2 {
        "2"
    } else if d == 3 {
        "3"
    } else if d == 4 {
        "4"
    } else if d == 5 {
        "5"
    } else if d == 6 {
        "6"
    } else if d == 7 {
        "7"
    } else if d == 8 {
        "8"
    } else {
        "9"
    };
    text
}

/// Appends the decimal numeral of `n` to `text`.
pub fn push_decimal(text: &mut String, n: usize)
    ensures
        final(text)@ == old(text)@ + decimal(n as nat),
    decreases n,
{
    if n >= 10 {
        push_decimal(text, n / 10);
    }
    text.append(digit_text(n % 10));
}

/// The name of the placeholder row at 0-based position `i`: rows are
/// numbered from 1.
pub open spec fn placeholder_name(i: nat) -> Seq<char> {
    "replicaname-"@ + decimal(i + 1)
}

/// The fields of the placeholder row at 0-based position `i`.
pub open spec fn placeholder_fields(i: nat) -> Seq<Seq<char>> {
    seq![placeholder_name(i), "10/10"@, "20/20"@]
}

/// The first `num_rows` placeholder rows.
pub open spec fn placeholder_rows(num_rows: nat) -> Seq<Seq<Seq<char>>> {
    Seq::new(num_rows, |i: int| placeholder_fields(i as nat))
}

/// The placeholder row at 0-based position `i`.
fn placeholder_row(i: usize) -> (record: RowRecord)
    requires
        i < usize::MAX,
    ensures
        record@ == placeholder_fields(i as nat),
{
    let mut name: String = String::from_str("replicaname-");
    push_decimal(&mut name, i + 1);
    let mut fields: Vec<String> = Vec::new();
    fields.push(name);
    fields.push(String::from_str("10/10"));
    fields.push(String::from_str("20/20"));
    let record = RowRecord::new(fields);
    record
}

/// Creates the rows of a placeholder table: `num_rows` rows, each with a
/// numbered name and two fixed summaries.
pub fn create_table(num_rows: usize) -> (rows: Vec<RowRecord>)
    ensures
        record_views(rows@) == placeholder_rows(num_rows as nat),
{
    let mut rows: Vec<RowRecord> = Vec::new();
    let mut i: usize = 0;
    while i < num_rows
        invariant
            i <= num_rows,
            rows@.len() == i,
            forall|k: int| 0 <= k < i ==> (#[trigger] rows@[k])@ == placeholder_fields(k as nat),
        decreases num_rows - i,
    {
        rows.push(placeholder_row(i));
        i = i + 1;
    }
    rows
}

} // verus!
