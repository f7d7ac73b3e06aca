//! Flat relational rows as the extractor sees them: an ordered list of
//! named column values, plus the typed accessors that turn a column into a
//! plain value or a fatal extraction error.

use vstd::prelude::*;

verus! {

/// One relational column value. Numeric columns arrive as unsigned 64-bit
/// values; narrower record fields re-check the range on extraction.
pub enum SqlValue {
    Text(String),
    UInt(u64),
    Null,
}

/// One relational row: column name / value pairs in select order.
pub struct Row {
    pub cols: Vec<(String, SqlValue)>,
}

/// Why an extraction aborted: the named column was absent from the row, or
/// present with a value of the wrong type (or out of range).
#[derive(Debug)]
pub enum ExtractError {
    MissingColumn(String),
    WrongType(String),
}

/// Mathematical image of an `ExtractError`: the column name as a sequence.
pub ghost enum ExtractErrorView {
    MissingColumn(Seq<char>),
    WrongType(Seq<char>),
}

impl View for ExtractError {
    type V = ExtractErrorView;

    open spec fn view(&self) -> ExtractErrorView {
        match self {
            ExtractError::MissingColumn(c) => ExtractErrorView::MissingColumn(c@),
            ExtractError::WrongType(c) => ExtractErrorView::WrongType(c@),
        }
    }
}

/// First value bound to `key` in `cols`, if any.
pub open spec fn col(cols: Seq<(String, SqlValue)>, key: Seq<char>) -> Option<SqlValue>
    decreases cols.len(),
{
    if cols.len() == 0 {
        None
    } else if cols[0].0@ == key {
        Some(cols[0].1)
    } else {
        col(cols.drop_first(), key)
    }
}

/// The text content of column `key`, if it is present and textual.
pub open spec fn text_col(cols: Seq<(String, SqlValue)>, key: Seq<char>) -> Option<Seq<char>> {
    match col(cols, key) {
        Some(SqlValue::Text(s)) => Some(s@),
        _ => None,
    }
}

/// The value of column `key` as a `u32`, if it is present, numeric, and in
/// range.
pub open spec fn u32_col(cols: Seq<(String, SqlValue)>, key: Seq<char>) -> Option<u32> {
    match col(cols, key) {
        Some(SqlValue::UInt(n)) => if n <= u32::MAX { Some(n as u32) } else { None },
        _ => None,
    }
}

/// The error an accessor reports for column `key`: absent columns are
/// missing, anything else that an accessor rejects is a type mismatch.
pub open spec fn col_err(cols: Seq<(String, SqlValue)>, key: Seq<char>) -> ExtractErrorView {
    if col(cols, key) is None {
        ExtractErrorView::MissingColumn(key)
    } else {
        ExtractErrorView::WrongType(key)
    }
}

proof fn lemma_col_skip(cols: Seq<(String, SqlValue)>, key: Seq<char>, i: int)
    requires
        0 <= i <= cols.len(),
        forall|j: int| 0 <= j < i ==> cols[j].0@ != key,
    ensures
        col(cols, key) == col(cols.skip(i), key),
    decreases i,
{
    if i > 0 {
        assert(cols[0].0@ != key);
        lemma_col_skip(cols.drop_first(), key, i - 1);
        assert(cols.drop_first().skip(i - 1) =~= cols.skip(i));
    } else {
        assert(cols.skip(0) =~= cols);
    }
}

impl Row {
    /// Index of the first column named `key`, scanning in select order.
    fn find_col(&self, key: &str) -> (r: Option<usize>)
        ensures
            match r {
                Some(i) => {
                    &&& i < self.cols@.len()
                    &&& self.cols@[i as int].0@ == key@
                    &&& col(self.cols@, key@) == Some(self.cols@[i as int].1)
                },
                None => col(self.cols@, key@) is None,
            },
    {
        let owned: String = key.to_owned();
        let n = self.cols.len();
        for i in 0..n
            invariant
                n == self.cols@.len(),
                owned@ == key@,
                forall|j: int| 0 <= j < i ==> self.cols@[j].0@ != key@,
        {
            if self.cols[i].0 == owned {
                proof {
                    lemma_col_skip(self.cols@, key@, i as int);
                    assert(self.cols@.skip(i as int)[0] == self.cols@[i as int]);
                }
                return Some(i);
            }
        }
        proof {
            lemma_col_skip(self.cols@, key@, n as int);
        }
        None
    }

    /// The text of column `key`, or the error that aborts the run: missing
    /// column, or a non-text value under that name.
    pub fn get_text(&self, key: &str) -> (r: Result<String, ExtractError>)
        ensures
            match text_col(self.cols@, key@) {
                Some(s) => r matches Ok(v) && v@ == s,
                None => r matches Err(e) && e@ == col_err(self.cols@, key@),
            },
    {
        match self.find_col(key) {
            Some(i) => match &self.cols[i].1 {
                SqlValue::Text(s) => Ok(s.clone()),
                _ => Err(ExtractError::WrongType(key.to_owned())),
            },
            None => Err(ExtractError::MissingColumn(key.to_owned())),
        }
    }

    /// The value of column `key` as a `u32`, or the error that aborts the
    /// run: missing column, non-numeric value, or a value past `u32::MAX`.
    pub fn get_u32(&self, key: &str) -> (r: Result<u32, ExtractError>)
        ensures
            match u32_col(self.cols@, key@) {
                Some(n) => r matches Ok(v) && v == n,
                None => r matches Err(e) && e@ == col_err(self.cols@, key@),
            },
    {
        match self.find_col(key) {
            Some(i) => match &self.cols[i].1 {
                SqlValue::UInt(n) => {
                    if *n <= u32::MAX as u64 {
                        Ok(*n as u32)
                    } else {
                        Err(ExtractError::WrongType(key.to_owned()))
                    }
                },
                _ => Err(ExtractError::WrongType(key.to_owned())),
            },
            None => Err(ExtractError::MissingColumn(key.to_owned())),
        }
    }
}

} // verus!
