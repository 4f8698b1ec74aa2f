//! Rows as the database engine hands them over, their mathematical views,
//! and the estimate of how many bytes a value, a row or a result occupies.

use vstd::prelude::*;
use vstd::utf8::encode_utf8;

verus! {

/// The payload of a column that is not null.
pub enum Data {
    StringValue(String),
    LongValue(i64),
    /// A double, held as its IEEE 754 bit pattern.
    DoubleValue(u64),
    BlobValue(Vec<u8>),
}

/// One column of a row; `data` is `None` for SQL null.
pub struct SqlValue {
    pub data: Option<Data>,
}

/// One row of a result: its columns in order.
pub struct Row {
    pub fields: Vec<SqlValue>,
}

/// The rows that a query produced, in order.
pub struct DbResult {
    pub rows: Vec<Row>,
}

/// What a `Data` holds, as mathematical values.
pub enum DataView {
    StringValue(Seq<char>),
    LongValue(i64),
    DoubleValue(u64),
    BlobValue(Seq<u8>),
}

/// A column as a mathematical value: `None` is SQL null.
pub type SqlValueView = Option<DataView>;

/// A row as the sequence of its columns.
pub type RowView = Seq<SqlValueView>;

impl View for Data {
    type V = DataView;

    open spec fn view(&self) -> DataView {
        match self {
            Data::StringValue(s) => DataView::StringValue(s@),
            Data::LongValue(v) => DataView::LongValue(*v),
            Data::DoubleValue(bits) => DataView::DoubleValue(*bits),
            Data::BlobValue(b) => DataView::BlobValue(b@),
        }
    }
}

impl View for SqlValue {
    type V = SqlValueView;

    open spec fn view(&self) -> SqlValueView {
        match self.data {
            Some(d) => Some(d@),
            None => None,
        }
    }
}

impl View for Row {
    type V = RowView;

    open spec fn view(&self) -> RowView {
        self.fields@.map_values(|v: SqlValue| v@)
    }
}

impl View for DbResult {
    type V = Seq<RowView>;

    open spec fn view(&self) -> Seq<RowView> {
        rows_view(self.rows@)
    }
}

/// The views of a sequence of rows, in the same order.
pub open spec fn rows_view(rows: Seq<Row>) -> Seq<RowView> {
    rows.map_values(|r: Row| r@)
}

/// Bytes that a payload occupies: the UTF-8 length of a string, the length
/// of a blob, eight bytes for a long or a double.
pub open spec fn data_size(d: DataView) -> nat {
    match d {
        DataView::StringValue(s) => encode_utf8(s).len(),
        DataView::LongValue(_) => 8,
        DataView::DoubleValue(_) => 8,
        DataView::BlobValue(b) => b.len(),
    }
}

/// Bytes of the payload of a column; a null has none.
pub open spec fn payload_size(v: SqlValueView) -> nat {
    match v {
        Some(d) => data_size(d),
        None => 0,
    }
}

/// Estimate of a column: its payload and one byte that tells whether the
/// column is null.
pub open spec fn value_size(v: SqlValueView) -> nat {
    payload_size(v) + 1
}

/// Estimate of a row: the sum of the estimates of its columns.
pub open spec fn row_size(r: RowView) -> nat
    decreases r.len(),
{
    if r.len() == 0 {
        0
    } else {
        row_size(r.drop_last()) + value_size(r.last())
    }
}

/// Sum of the payloads of the columns of a row.
pub open spec fn row_payload_size(r: RowView) -> nat
    decreases r.len(),
{
    if r.len() == 0 {
        0
    } else {
        row_payload_size(r.drop_last()) + payload_size(r.last())
    }
}

/// Estimate of a sequence of rows: the sum of the estimates of the rows.
pub open spec fn rows_size(rows: Seq<RowView>) -> nat
    decreases rows.len(),
{
    if rows.len() == 0 {
        0
    } else {
        rows_size(rows.drop_last()) + row_size(rows.last())
    }
}

/// The estimate of a row is the payload of its columns plus one byte for
/// each column.
pub proof fn lemma_row_size_is_payload_plus_columns(r: RowView)
    ensures
        row_size(r) == row_payload_size(r) + r.len(),
    decreases r.len(),
{
    if r.len() > 0 {
        lemma_row_size_is_payload_plus_columns(r.drop_last());
    }
}

/// The estimate of a row is additive over concatenation.
pub proof fn lemma_row_size_concat(a: RowView, b: RowView)
    ensures
        row_size(a + b) == row_size(a) + row_size(b),
    decreases b.len(),
{
    if b.len() == 0 {
        assert(a + b =~= a);
    } else {
        assert((a + b).drop_last() =~= a + b.drop_last());
        assert((a + b).last() == b.last());
        lemma_row_size_concat(a, b.drop_last());
    }
}

/// The estimate of a sequence of rows is additive over concatenation.
pub proof fn lemma_rows_size_concat(a: Seq<RowView>, b: Seq<RowView>)
    ensures
        rows_size(a + b) == rows_size(a) + rows_size(b),
    decreases b.len(),
{
    if b.len() == 0 {
        assert(a + b =~= a);
    } else {
        assert((a + b).drop_last() =~= a + b.drop_last());
        assert((a + b).last() == b.last());
        lemma_rows_size_concat(a, b.drop_last());
    }
}

/// A prefix of a row is estimated no larger than the row.
pub proof fn lemma_row_size_prefix(r: RowView, n: int)
    requires
        0 <= n <= r.len(),
    ensures
        row_size(r.take(n)) <= row_size(r),
        n < r.len() ==> row_size(r.take(n + 1)) == row_size(r.take(n)) + value_size(r[n]),
{
    assert(r =~= r.take(n) + r.skip(n));
    lemma_row_size_concat(r.take(n), r.skip(n));
    if n < r.len() {
        assert(r.take(n + 1).drop_last() =~= r.take(n));
    }
}

/// A prefix of a sequence of rows is estimated no larger than the whole.
pub proof fn lemma_rows_size_prefix(rows: Seq<RowView>, n: int)
    requires
        0 <= n <= rows.len(),
    ensures
        rows_size(rows.take(n)) <= rows_size(rows),
        n < rows.len() ==> rows_size(rows.take(n + 1)) == rows_size(rows.take(n)) + row_size(
            rows[n],
        ),
{
    assert(rows =~= rows.take(n) + rows.skip(n));
    lemma_rows_size_concat(rows.take(n), rows.skip(n));
    if n < rows.len() {
        assert(rows.take(n + 1).drop_last() =~= rows.take(n));
    }
}

impl Clone for Data {
    fn clone(&self) -> (res: Self)
        ensures
            res@ == self@,
    {
        match self {
            Data::StringValue(s) => Data::StringValue(s.clone()),
            Data::LongValue(v) => Data::LongValue(*v),
            Data::DoubleValue(bits) => Data::DoubleValue(*bits),
            Data::BlobValue(b) => {
                let copy = b.clone();
                assert(copy@ =~= b@);
                Data::BlobValue(copy)
            },
        }
    }
}

impl Clone for SqlValue {
    fn clone(&self) -> (res: Self)
        ensures
            res@ == self@,
    {
        match &self.data {
            Some(d) => SqlValue { data: Some(d.clone()) },
            None => SqlValue { data: None },
        }
    }
}

impl Clone for Row {
    fn clone(&self) -> (res: Self)
        ensures
            res@ == self@,
    {
        let mut fields: Vec<SqlValue> = Vec::new();
        let mut i: usize = 0;
        while i < self.fields.len()
            invariant
                i <= self.fields.len(),
                fields@.map_values(|v: SqlValue| v@) == self@.take(i as int),
            decreases self.fields.len() - i,
        {
            let ghost before = fields@.map_values(|v: SqlValue| v@);
            fields.push(self.fields[i].clone());
            i = i + 1;
            assert(fields@.map_values(|v: SqlValue| v@) =~= before.push(self@[i - 1]));
            assert(before.push(self@[i - 1]) =~= self@.take(i as int));
        }
        assert(self@.take(i as int) =~= self@);
        Row { fields }
    }
}

impl Clone for DbResult {
    fn clone(&self) -> (res: Self)
        ensures
            res@ == self@,
    {
        let mut rows: Vec<Row> = Vec::new();
        let mut i: usize = 0;
        while i < self.rows.len()
            invariant
                i <= self.rows.len(),
                rows_view(rows@) == self@.take(i as int),
            decreases self.rows.len() - i,
        {
            let ghost before = rows_view(rows@);
            rows.push(self.rows[i].clone());
            i = i + 1;
            assert(rows_view(rows@) =~= before.push(self@[i - 1]));
            assert(before.push(self@[i - 1]) =~= self@.take(i as int));
        }
        assert(self@.take(i as int) =~= self@);
        DbResult { rows }
    }
}

/// `String::len`: the length of the string in bytes, which is the length of
/// its UTF-8 encoding.
#[verifier::external_body]
fn string_len(s: &String) -> (n: usize)
    ensures
        n == encode_utf8(s@).len(),
{
    s.len()
}

/// A value whose size in bytes can be estimated.
pub trait Sizable {
    /// The estimate, as a mathematical number.
    spec fn size(&self) -> nat;

    /// Estimates the heap size of the value, in bytes.
    fn estimate_size(&self) -> (n: usize)
        requires
            self.size() <= usize::MAX,
        ensures
            n == self.size(),
    ;

    /// The estimate, or `None` where it does not fit a `usize`.
    fn checked_estimate_size(&self) -> (n: Option<usize>)
        ensures
            n is Some <==> self.size() <= usize::MAX,
            n is Some ==> n->0 == self.size(),
    ;
}

impl Sizable for Data {
    open spec fn size(&self) -> nat {
        data_size(self@)
    }

    fn estimate_size(&self) -> (n: usize) {
        match self {
            Data::StringValue(s) => string_len(s),
            Data::LongValue(_) => 8,
            Data::DoubleValue(_) => 8,
            Data::BlobValue(b) => b.len(),
        }
    }

    fn checked_estimate_size(&self) -> (n: Option<usize>) {
        match self {
            Data::StringValue(s) => Some(string_len(s)),
            Data::LongValue(_) => Some(8),
            Data::DoubleValue(_) => Some(8),
            Data::BlobValue(b) => Some(b.len()),
        }
    }
}

impl Sizable for SqlValue {
    open spec fn size(&self) -> nat {
        value_size(self@)
    }

    fn estimate_size(&self) -> (n: usize) {
        match &self.data {
            Some(d) => d.estimate_size() + 1,
            None => 1,
        }
    }

    fn checked_estimate_size(&self) -> (n: Option<usize>) {
        match &self.data {
            Some(d) => match d.checked_estimate_size() {
                Some(size) => size.checked_add(1),
                None => None,
            },
            None => Some(1),
        }
    }
}

impl Sizable for Row {
    open spec fn size(&self) -> nat {
        row_size(self@)
    }

    fn estimate_size(&self) -> (n: usize) {
        let mut total: usize = 0;
        let mut i: usize = 0;
        while i < self.fields.len()
            invariant
                i <= self.fields.len(),
                total == row_size(self@.take(i as int)),
                row_size(self@) <= usize::MAX,
            decreases self.fields.len() - i,
        {
            proof {
                lemma_row_size_prefix(self@, i as int);
                lemma_row_size_prefix(self@, i as int + 1);
            }
            total = total + self.fields[i].estimate_size();
            i = i + 1;
        }
        assert(self@.take(i as int) =~= self@);
        total
    }

    fn checked_estimate_size(&self) -> (n: Option<usize>) {
        let mut total: usize = 0;
        let mut i: usize = 0;
        while i < self.fields.len()
            invariant
                i <= self.fields.len(),
                total == row_size(self@.take(i as int)),
            decreases self.fields.len() - i,
        {
            proof {
                lemma_row_size_prefix(self@, i as int);
                lemma_row_size_prefix(self@, i as int + 1);
            }
            let next = match self.fields[i].checked_estimate_size() {
                Some(size) => total.checked_add(size),
                None => None,
            };
            match next {
                Some(sum) => {
                    total = sum;
                },
                None => {
                    return None;
                },
            }
            i = i + 1;
        }
        assert(self@.take(i as int) =~= self@);
        Some(total)
    }
}

impl Sizable for DbResult {
    open spec fn size(&self) -> nat {
        rows_size(self@)
    }

    fn estimate_size(&self) -> (n: usize) {
        let mut total: usize = 0;
        let mut i: usize = 0;
        while i < self.rows.len()
            invariant
                i <= self.rows.len(),
                total == rows_size(self@.take(i as int)),
                rows_size(self@) <= usize::MAX,
            decreases self.rows.len() - i,
        {
            proof {
                lemma_rows_size_prefix(self@, i as int);
                lemma_rows_size_prefix(self@, i as int + 1);
            }
            total = total + self.rows[i].estimate_size();
            i = i + 1;
        }
        assert(self@.take(i as int) =~= self@);
        total
    }

    fn checked_estimate_size(&self) -> (n: Option<usize>) {
        let mut total: usize = 0;
        let mut i: usize = 0;
        while i < self.rows.len()
            invariant
                i <= self.rows.len(),
                total == rows_size(self@.take(i as int)),
            decreases self.rows.len() - i,
        {
            proof {
                lemma_rows_size_prefix(self@, i as int);
                lemma_rows_size_prefix(self@, i as int + 1);
            }
            let next = match self.rows[i].checked_estimate_size() {
                Some(size) => total.checked_add(size),
                None => None,
            };
            match next {
                Some(sum) => {
                    total = sum;
                },
                None => {
                    return None;
                },
            }
            i = i + 1;
        }
        assert(self@.take(i as int) =~= self@);
        Some(total)
    }
}

} // verus!
