//! The extractor: the fixed, exact column-to-field mapping from relational
//! rows to records, and paginated extraction over a table of rows. A
//! column that is absent or of an unexpected type aborts the run with an
//! error naming the column; there is no per-row skipping.

use vstd::prelude::*;
use vstd::math::min;

use crate::records::{Comment, CommentView, Goods, GoodsView, ProductView, UserView};
use crate::row::{col_err, text_col, u32_col, ExtractError, ExtractErrorView, Row, SqlValue};

verus! {

/// Whether a comment row carries every required column with the right
/// type, in which case extraction succeeds.
pub open spec fn comment_cols_ok(cols: Seq<(String, SqlValue)>) -> bool {
    &&& text_col(cols, "user_ID"@) is Some
    &&& text_col(cols, "user_name"@) is Some
    &&& text_col(cols, "userProvince"@) is Some
    &&& text_col(cols, "userRegisterTime"@) is Some
    &&& text_col(cols, "userLevelName"@) is Some
    &&& text_col(cols, "isMobile"@) is Some
    &&& text_col(cols, "good_ID"@) is Some
    &&& text_col(cols, "good_name"@) is Some
    &&& text_col(cols, "productColor"@) is Some
    &&& text_col(cols, "productSize"@) is Some
    &&& text_col(cols, "content"@) is Some
    &&& text_col(cols, "date"@) is Some
    &&& u32_col(cols, "replyCount"@) is Some
    &&& u32_col(cols, "score"@) is Some
    &&& text_col(cols, "status"@) is Some
    &&& text_col(cols, "title"@) is Some
    &&& u32_col(cols, "days"@) is Some
    &&& text_col(cols, "tags"@) is Some
}

/// The comment record a well-formed comment row maps to.
pub open spec fn spec_comment(cols: Seq<(String, SqlValue)>) -> CommentView {
    CommentView {
        user: UserView {
            id: text_col(cols, "user_ID"@)->0,
            name: text_col(cols, "user_name"@)->0,
            province: text_col(cols, "userProvince"@)->0,
            register_time: text_col(cols, "userRegisterTime"@)->0,
            level_name: text_col(cols, "userLevelName"@)->0,
            is_mobile: text_col(cols, "isMobile"@)->0,
        },
        product: ProductView {
            id: text_col(cols, "good_ID"@)->0,
            name: text_col(cols, "good_name"@)->0,
            color: text_col(cols, "productColor"@)->0,
            size: text_col(cols, "productSize"@)->0,
        },
        content: text_col(cols, "content"@)->0,
        date: text_col(cols, "date"@)->0,
        reply_count: u32_col(cols, "replyCount"@)->0,
        score: u32_col(cols, "score"@)->0,
        status: text_col(cols, "status"@)->0,
        title: text_col(cols, "title"@)->0,
        days: u32_col(cols, "days"@)->0,
        tags: text_col(cols, "tags"@)->0,
    }
}

/// The error a malformed comment row aborts with: the first failing
/// column, in the fixed extraction order.
pub open spec fn comment_err(cols: Seq<(String, SqlValue)>) -> ExtractErrorView {
    if text_col(cols, "user_ID"@) is None {
        col_err(cols, "user_ID"@)
    } else if text_col(cols, "user_name"@) is None {
        col_err(cols, "user_name"@)
    } else if text_col(cols, "userProvince"@) is None {
        col_err(cols, "userProvince"@)
    } else if text_col(cols, "userRegisterTime"@) is None {
        col_err(cols, "userRegisterTime"@)
    } else if text_col(cols, "userLevelName"@) is None {
        col_err(cols, "userLevelName"@)
    } else if text_col(cols, "isMobile"@) is None {
        col_err(cols, "isMobile"@)
    } else if text_col(cols, "good_ID"@) is None {
        col_err(cols, "good_ID"@)
    } else if text_col(cols, "good_name"@) is None {
        col_err(cols, "good_name"@)
    } else if text_col(cols, "productColor"@) is None {
        col_err(cols, "productColor"@)
    } else if text_col(cols, "productSize"@) is None {
        col_err(cols, "productSize"@)
    } else if text_col(cols, "content"@) is None {
        col_err(cols, "content"@)
    } else if text_col(cols, "date"@) is None {
        col_err(cols, "date"@)
    } else if u32_col(cols, "replyCount"@) is None {
        col_err(cols, "replyCount"@)
    } else if u32_col(cols, "score"@) is None {
        col_err(cols, "score"@)
    } else if text_col(cols, "status"@) is None {
        col_err(cols, "status"@)
    } else if text_col(cols, "title"@) is None {
        col_err(cols, "title"@)
    } else if u32_col(cols, "days"@) is None {
        col_err(cols, "days"@)
    } else {
        col_err(cols, "tags"@)
    }
}

/// Maps one comment row to a `Comment` record, by the fixed column names.
/// Succeeds exactly on well-formed rows; a malformed row reports its first
/// failing column.
pub fn comment_from_row(row: &Row) -> (r: Result<Comment, ExtractError>)
    ensures
        comment_cols_ok(row.cols@) ==> (r matches Ok(c) && c@ == spec_comment(row.cols@)),
        !comment_cols_ok(row.cols@) ==> (r matches Err(e) && e@ == comment_err(row.cols@)),
{
    let user = crate::records::User {
        id: row.get_text("user_ID")?,
        name: row.get_text("user_name")?,
        province: row.get_text("userProvince")?,
        register_time: row.get_text("userRegisterTime")?,
        level_name: row.get_text("userLevelName")?,
        is_mobile: row.get_text("isMobile")?,
    };
    let product = crate::records::Product {
        id: row.get_text("good_ID")?,
        name: row.get_text("good_name")?,
        color: row.get_text("productColor")?,
        size: row.get_text("productSize")?,
    };
    Ok(Comment {
        user,
        product,
        content: row.get_text("content")?,
        date: row.get_text("date")?,
        reply_count: row.get_u32("replyCount")?,
        score: row.get_u32("score")?,
        status: row.get_text("status")?,
        title: row.get_text("title")?,
        days: row.get_u32("days")?,
        tags: row.get_text("tags")?,
    })
}

/// Whether a goods row carries every required column with the right type.
pub open spec fn goods_cols_ok(cols: Seq<(String, SqlValue)>) -> bool {
    &&& text_col(cols, "ID"@) is Some
    &&& text_col(cols, "name"@) is Some
    &&& u32_col(cols, "comment_num"@) is Some
    &&& text_col(cols, "shop_name"@) is Some
    &&& text_col(cols, "link"@) is Some
    &&& text_col(cols, "commentVersion"@) is Some
    &&& u32_col(cols, "score1count"@) is Some
    &&& u32_col(cols, "score2count"@) is Some
    &&& u32_col(cols, "score3count"@) is Some
    &&& u32_col(cols, "score4count"@) is Some
    &&& u32_col(cols, "score5count"@) is Some
    &&& u32_col(cols, "price"@) is Some
}

/// The goods record a well-formed goods row maps to, carrying `comments`
/// as its nested records.
pub open spec fn spec_goods(cols: Seq<(String, SqlValue)>, comments: Seq<CommentView>) -> GoodsView {
    GoodsView {
        id: text_col(cols, "ID"@)->0,
        name: text_col(cols, "name"@)->0,
        comment_num: u32_col(cols, "comment_num"@)->0,
        shop_name: text_col(cols, "shop_name"@)->0,
        link: text_col(cols, "link"@)->0,
        comment_version: text_col(cols, "commentVersion"@)->0,
        score_1_count: u32_col(cols, "score1count"@)->0,
        score_2_count: u32_col(cols, "score2count"@)->0,
        score_3_count: u32_col(cols, "score3count"@)->0,
        score_4_count: u32_col(cols, "score4count"@)->0,
        score_5_count: u32_col(cols, "score5count"@)->0,
        price: u32_col(cols, "price"@)->0,
        comments,
    }
}

/// The error a malformed goods row aborts with: the first failing column,
/// in the fixed extraction order.
pub open spec fn goods_err(cols: Seq<(String, SqlValue)>) -> ExtractErrorView {
    if text_col(cols, "ID"@) is None {
        col_err(cols, "ID"@)
    } else if text_col(cols, "name"@) is None {
        col_err(cols, "name"@)
    } else if u32_col(cols, "comment_num"@) is None {
        col_err(cols, "comment_num"@)
    } else if text_col(cols, "shop_name"@) is None {
        col_err(cols, "shop_name"@)
    } else if text_col(cols, "link"@) is None {
        col_err(cols, "link"@)
    } else if text_col(cols, "commentVersion"@) is None {
        col_err(cols, "commentVersion"@)
    } else if u32_col(cols, "score1count"@) is None {
        col_err(cols, "score1count"@)
    } else if u32_col(cols, "score2count"@) is None {
        col_err(cols, "score2count"@)
    } else if u32_col(cols, "score3count"@) is None {
        col_err(cols, "score3count"@)
    } else if u32_col(cols, "score4count"@) is None {
        col_err(cols, "score4count"@)
    } else if u32_col(cols, "score5count"@) is None {
        col_err(cols, "score5count"@)
    } else {
        col_err(cols, "price"@)
    }
}

/// The goods id of a goods row, read from its `ID` column; the caller uses
/// it to look the goods' comments up before assembling the record.
pub fn goods_id_of_row(row: &Row) -> (r: Result<String, ExtractError>)
    ensures
        match text_col(row.cols@, "ID"@) {
            Some(s) => r matches Ok(v) && v@ == s,
            None => r matches Err(e) && e@ == col_err(row.cols@, "ID"@),
        },
{
    row.get_text("ID")
}

/// Maps one goods row to a `Goods` record, by the fixed column names,
/// nesting the already-extracted `comments` in their given order. The
/// source stores the price in a floating-point column; here it arrives as
/// an integer count of minor currency units.
pub fn goods_from_row(row: &Row, comments: Vec<Comment>) -> (r: Result<Goods, ExtractError>)
    ensures
        goods_cols_ok(row.cols@) ==> (r matches Ok(g) && g@ == spec_goods(
            row.cols@,
            comments@.map_values(|c: Comment| c@),
        )),
        !goods_cols_ok(row.cols@) ==> (r matches Err(e) && e@ == goods_err(row.cols@)),
{
    let g = Goods {
        id: row.get_text("ID")?,
        name: row.get_text("name")?,
        comment_num: row.get_u32("comment_num")?,
        shop_name: row.get_text("shop_name")?,
        link: row.get_text("link")?,
        comment_version: row.get_text("commentVersion")?,
        score_1_count: row.get_u32("score1count")?,
        score_2_count: row.get_u32("score2count")?,
        score_3_count: row.get_u32("score3count")?,
        score_4_count: row.get_u32("score4count")?,
        score_5_count: row.get_u32("score5count")?,
        price: row.get_u32("price")?,
        comments,
    };
    Ok(g)
}

/// The half-open index range `[lo, hi)` of table rows a page window
/// `[offset, offset + size)` covers, clipped to the table.
pub open spec fn page_lo(len: int, offset: int) -> int {
    min(offset, len)
}

pub open spec fn page_hi(len: int, offset: int, size: int) -> int {
    min(offset + size, len)
}

/// Index of the first malformed comment row in `[lo, hi)`, or `hi` when
/// every row in the range is well-formed.
pub open spec fn first_bad(rows: Seq<Row>, lo: int, hi: int) -> int
    decreases hi - lo,
{
    if lo >= hi {
        hi
    } else if !comment_cols_ok(rows[lo].cols@) {
        lo
    } else {
        first_bad(rows, lo + 1, hi)
    }
}

/// What the first-bad index means: every row before it is well-formed,
/// and, when it lies inside the range, the row at it is not.
pub proof fn lemma_first_bad_props(rows: Seq<Row>, lo: int, hi: int)
    requires
        lo <= hi,
    ensures
        lo <= first_bad(rows, lo, hi) <= hi,
        forall|j: int| lo <= j < first_bad(rows, lo, hi) ==> comment_cols_ok(#[trigger] rows[j].cols@),
        first_bad(rows, lo, hi) < hi ==> !comment_cols_ok(rows[first_bad(rows, lo, hi)].cols@),
    decreases hi - lo,
{
    if lo < hi && comment_cols_ok(rows[lo].cols@) {
        lemma_first_bad_props(rows, lo + 1, hi);
    }
}

/// A range whose rows up to `i` are well-formed, with `i` itself bad or
/// the range's end, has `i` as its first-bad index.
pub proof fn lemma_first_bad_at(rows: Seq<Row>, lo: int, hi: int, i: int)
    requires
        lo <= i <= hi,
        forall|j: int| lo <= j < i ==> comment_cols_ok(#[trigger] rows[j].cols@),
        i < hi ==> !comment_cols_ok(rows[i].cols@),
    ensures
        first_bad(rows, lo, hi) == i,
    decreases i - lo,
{
    if lo < i {
        lemma_first_bad_at(rows, lo + 1, hi, i);
    }
}

/// Extracts the page of comments at window `[offset, offset + size)` of
/// `rows`, clipped to the table: exactly `min(size, len - offset)` records
/// for a window starting inside the table, in table order. Fails on the
/// first malformed row of the window, with that row's error.
pub fn fetch_comment_page(rows: &Vec<Row>, offset: u32, size: u32) -> (r: Result<
    Vec<Comment>,
    ExtractError,
>)
    requires
        offset as int + size as int <= u32::MAX,
    ensures
        r is Ok <==> first_bad(
            rows@,
            page_lo(rows@.len() as int, offset as int),
            page_hi(rows@.len() as int, offset as int, size as int),
        ) == page_hi(rows@.len() as int, offset as int, size as int),
        r matches Ok(cs) ==> {
            let lo = page_lo(rows@.len() as int, offset as int);
            let hi = page_hi(rows@.len() as int, offset as int, size as int);
            &&& cs@.len() == hi - lo
            &&& forall|k: int|
                0 <= k < hi - lo ==> (#[trigger] cs@[k])@ == spec_comment(rows@[lo + k].cols@)
            &&& offset as int <= rows@.len() ==> cs@.len() == min(
                size as int,
                rows@.len() - offset,
            )
        },
        r matches Err(e) ==> {
            let lo = page_lo(rows@.len() as int, offset as int);
            let hi = page_hi(rows@.len() as int, offset as int, size as int);
            let b = first_bad(rows@, lo, hi);
            &&& lo <= b < hi
            &&& e@ == comment_err(rows@[b].cols@)
        },
{
    let len = rows.len();
    let lo: usize = if (offset as usize) < len {
        offset as usize
    } else {
        len
    };
    let hi: usize = if (offset as usize) < len && size as usize <= len - offset as usize {
        offset as usize + size as usize
    } else {
        len
    };
    let mut page: Vec<Comment> = Vec::new();
    let mut i: usize = lo;
    while i < hi
        invariant
            page_lo(rows@.len() as int, offset as int) == lo,
            page_hi(rows@.len() as int, offset as int, size as int) == hi,
            lo <= i <= hi <= rows@.len(),
            page@.len() == i - lo,
            forall|j: int| lo <= j < i ==> comment_cols_ok(#[trigger] rows@[j].cols@),
            forall|k: int|
                0 <= k < i - lo ==> (#[trigger] page@[k])@ == spec_comment(rows@[lo + k].cols@),
        decreases hi - i,
    {
        match comment_from_row(&rows[i]) {
            Ok(c) => {
                page.push(c);
            },
            Err(e) => {
                proof {
                    lemma_first_bad_at(rows@, lo as int, hi as int, i as int);
                }
                return Err(e);
            },
        }
        i += 1;
    }
    proof {
        lemma_first_bad_at(rows@, lo as int, hi as int, hi as int);
    }
    Ok(page)
}

} // verus!
