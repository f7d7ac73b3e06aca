//! The migration loop: a page cursor that advances by the page size until
//! it passes the total row count, page assembly for the loader, and a pure
//! end-to-end run over an in-memory table. The loop body always runs at
//! least once, and the terminal test is strict (`cursor > total`), so a
//! final partial page still runs when the cursor lands exactly on the
//! total.

use vstd::prelude::*;
use vstd::math::max;
use vstd::math::min;

use crate::assemble::spec_comment_doc;
use crate::bson_sink::doc_model;
use crate::doc_model::DocValue;
use crate::extract::{
    comment_cols_ok, comment_err, fetch_comment_page, first_bad, lemma_first_bad_at,
    lemma_first_bad_props, page_hi, page_lo, spec_comment,
};
use crate::row::{ExtractError, Row};

verus! {

/// The driver's loop state: the current page offset, the fixed page size,
/// and the row count fetched once at startup. The starting offset is an
/// externally supplied parameter, not always zero.
pub struct PageCursor {
    pub cursor: u32,
    pub page_size: u32,
    pub total: u32,
}

impl PageCursor {
    /// A cursor at `start`, pages of `page_size` rows, `total` rows known.
    pub fn new(start: u32, page_size: u32, total: u32) -> (r: PageCursor)
        ensures
            r.cursor == start,
            r.page_size == page_size,
            r.total == total,
    {
        PageCursor { cursor: start, page_size, total }
    }

    /// Advances past the page just processed and reports whether the run
    /// is over: it is exactly when the new offset passes `total` strictly,
    /// so a final page whose offset equals `total` still runs.
    pub fn advance(&mut self) -> (done: bool)
        requires
            old(self).cursor as int + old(self).page_size as int <= u32::MAX,
        ensures
            final (self).cursor == old(self).cursor + old(self).page_size,
            final (self).page_size == old(self).page_size,
            final (self).total == old(self).total,
            done == (final (self).cursor > final (self).total),
    {
        self.cursor = self.cursor + self.page_size;
        self.cursor > self.total
    }
}

/// The documents the assembler produces for the comment rows `[lo, hi)`:
/// one per row, in table order.
pub open spec fn migrated_docs(rows: Seq<Row>, lo: int, hi: int) -> Seq<
    Seq<(Seq<char>, DocValue)>,
> {
    Seq::new((hi - lo) as nat, |k: int| spec_comment_doc(spec_comment(rows[lo + k].cols@)))
}

/// Assembles one fetched page of comment rows into the documents the
/// loader inserts, in page order; aborts on the page's first malformed
/// row with that row's error.
pub fn assemble_comment_page(rows: &Vec<Row>) -> (r: Result<Vec<bson::Document>, ExtractError>)
    requires
        rows@.len() <= u32::MAX,
    ensures
        r is Ok <==> first_bad(rows@, 0, rows@.len() as int) == rows@.len(),
        r matches Ok(ds) ==> {
            &&& ds@.len() == rows@.len()
            &&& ds@.map_values(|d: bson::Document| doc_model(d)) == migrated_docs(
                rows@,
                0,
                rows@.len() as int,
            )
        },
        r matches Err(e) ==> {
            let b = first_bad(rows@, 0, rows@.len() as int);
            &&& 0 <= b < rows@.len()
            &&& e@ == comment_err(rows@[b].cols@)
        },
{
    let n = rows.len();
    let comments = fetch_comment_page(rows, 0, n as u32)?;
    let mut docs: Vec<bson::Document> = Vec::new();
    let m = comments.len();
    for j in 0..m
        invariant
            m == comments@.len(),
            m == rows@.len(),
            docs@.len() == j,
            forall|k: int|
                0 <= k < m ==> (#[trigger] comments@[k])@ == spec_comment(rows@[k].cols@),
            forall|k: int|
                0 <= k < j ==> doc_model(#[trigger] docs@[k]) == spec_comment_doc(comments@[k]@),
    {
        docs.push(comments[j].to_bson());
    }
    proof {
        assert(docs@.map_values(|d: bson::Document| doc_model(d)) =~= migrated_docs(
            rows@,
            0,
            rows@.len() as int,
        ));
    }
    Ok(docs)
}

/// The rows-per-page progress counts of a run whose cursor stands at `c`:
/// the current page's (clipped) length, then the counts of the following
/// pages, until the advanced cursor passes `total`.
pub open spec fn spec_page_counts(len: int, c: int, ps: int, total: int) -> Seq<int>
    decreases max(total - c, 0),
        when ps >= 1
{
    let cnt = page_hi(len, c, ps) - page_lo(len, c);
    if c + ps > total {
        seq![cnt]
    } else {
        seq![cnt] + spec_page_counts(len, c + ps, ps, total)
    }
}

/// The offset at which a run whose cursor stands at `c` terminates: the
/// first cursor value past `total`, advancing by `ps` at least once.
pub open spec fn spec_final_cursor(c: int, ps: int, total: int) -> int
    decreases max(total - c, 0),
        when ps >= 1
{
    if c + ps > total {
        c + ps
    } else {
        spec_final_cursor(c + ps, ps, total)
    }
}

/// What a completed run reports: every document inserted, in insertion
/// order, the rows processed per page, and the terminal cursor value.
pub struct MigrationReport {
    pub docs: Vec<bson::Document>,
    pub page_counts: Vec<u32>,
    pub final_cursor: u32,
}

/// One whole migration pass over an in-memory comment table: pages are
/// fetched at `start`, `start + page_size`, ... strictly in order, each
/// page's rows are assembled into documents, and the run ends once the
/// advanced cursor strictly passes the table's row count. Fails on the
/// first malformed row reached, with that row's error; rows before a
/// starting cursor that lies inside the table are never touched.
pub fn run_comment_migration(table: &Vec<Row>, start: u32, page_size: u32) -> (r: Result<
    MigrationReport,
    ExtractError,
>)
    requires
        page_size >= 1,
        table@.len() <= u32::MAX,
        start as int + page_size as int <= u32::MAX,
        table@.len() + page_size as int <= u32::MAX,
    ensures
        ({
            let len = table@.len() as int;
            let lo0 = page_lo(len, start as int);
            &&& (r is Ok <==> first_bad(table@, lo0, len) == len)
            &&& (r matches Ok(rep) ==> {
                &&& rep.docs@.map_values(|d: bson::Document| doc_model(d)) == migrated_docs(
                    table@,
                    lo0,
                    len,
                )
                &&& rep.page_counts@.map_values(|x: u32| x as int) == spec_page_counts(
                    len,
                    start as int,
                    page_size as int,
                    len,
                )
                &&& rep.final_cursor as int == spec_final_cursor(
                    start as int,
                    page_size as int,
                    len,
                )
                &&& rep.final_cursor as int > len
            })
            &&& (r matches Err(e) ==> {
                let b = first_bad(table@, lo0, len);
                &&& lo0 <= b < len
                &&& e@ == comment_err(table@[b].cols@)
            })
        }),
{
    let ghost len = table@.len() as int;
    let ghost ps = page_size as int;
    let ghost lo0 = page_lo(len, start as int);
    let total: u32 = table.len() as u32;
    let mut docs: Vec<bson::Document> = Vec::new();
    let mut page_counts: Vec<u32> = Vec::new();
    let mut c: u32 = start;
    let mut in_first = true;

    while in_first || c <= total
        invariant
            total as int == len,
            len == table@.len(),
            page_size >= 1,
            ps == page_size as int,
            lo0 == page_lo(len, start as int),
            start as int + ps <= u32::MAX,
            len + ps <= u32::MAX,
            in_first ==> c == start && docs@.len() == 0 && page_counts@.len() == 0,
            min(c as int, len) >= lo0,
            forall|j: int|
                lo0 <= j < min(c as int, len) ==> comment_cols_ok(#[trigger] table@[j].cols@),
            docs@.map_values(|d: bson::Document| doc_model(d)) == migrated_docs(
                table@,
                lo0,
                min(c as int, len),
            ),
            (in_first || c as int <= len) ==> spec_page_counts(len, start as int, ps, len)
                == page_counts@.map_values(|x: u32| x as int) + spec_page_counts(
                len,
                c as int,
                ps,
                len,
            ),
            (!in_first && c as int > len) ==> spec_page_counts(len, start as int, ps, len)
                == page_counts@.map_values(|x: u32| x as int),
            (in_first || c as int <= len) ==> spec_final_cursor(start as int, ps, len)
                == spec_final_cursor(c as int, ps, len),
            (!in_first && c as int > len) ==> spec_final_cursor(start as int, ps, len)
                == c as int,
        decreases max(len + ps - c as int, 0) + (if in_first { 1int } else { 0int }),
    {
        let ghost lo = page_lo(len, c as int);
        let ghost hi = page_hi(len, c as int, ps);
        let page = match fetch_comment_page(table, c, page_size) {
            Ok(p) => p,
            Err(e) => {
                proof {
                    let b = first_bad(table@, lo, hi);
                    lemma_first_bad_props(table@, lo, hi);
                    lemma_first_bad_at(table@, lo0, len, b);
                }
                return Err(e);
            },
        };
        proof {
            lemma_first_bad_props(table@, lo, hi);
        }
        let ghost counts_pre = page_counts@;
        page_counts.push(page.len() as u32);
        let m = page.len();
        let ghost docs_pre = docs@;
        for j in 0..m
            invariant
                m == page@.len(),
                m == hi - lo,
                docs@.len() == docs_pre.len() + j,
                forall|k: int| 0 <= k < docs_pre.len() ==> docs@[k] == docs_pre[k],
                forall|k: int|
                    0 <= k < m ==> (#[trigger] page@[k])@ == spec_comment(table@[lo + k].cols@),
                forall|k: int|
                    0 <= k < j ==> doc_model(#[trigger] docs@[docs_pre.len() + k])
                        == spec_comment_doc(page@[k]@),
        {
            docs.push(page[j].to_bson());
        }
        proof {
            let lhs = docs@.map_values(|d: bson::Document| doc_model(d));
            let rhs = migrated_docs(table@, lo0, hi);
            let pre = docs_pre.len() as int;
            assert(docs_pre.map_values(|d: bson::Document| doc_model(d)).len() == pre);
            assert forall|k: int| 0 <= k < lhs.len() implies lhs[k] == rhs[k] by {
                if k < pre {
                    assert(docs_pre.map_values(|d: bson::Document| doc_model(d))[k]
                        == migrated_docs(table@, lo0, min(c as int, len))[k]);
                } else {
                    assert(doc_model(docs@[pre + (k - pre)]) == spec_comment_doc(
                        page@[k - pre]@,
                    ));
                }
            }
            assert(lhs =~= rhs);
            let pco = counts_pre.map_values(|x: u32| x as int);
            let pcn = page_counts@.map_values(|x: u32| x as int);
            assert(pcn =~= pco.push(m as int));
            if c as int + ps > len {
                assert(pcn =~= pco + seq![m as int]);
            } else {
                let rest = spec_page_counts(len, c as int + ps, ps, len);
                assert(spec_page_counts(len, c as int, ps, len) == seq![m as int] + rest);
                assert(pco + (seq![m as int] + rest) =~= pcn + rest);
            }
        }
        c = c + page_size;
        in_first = false;
    }
    proof {
        assert(min(c as int, len) == len);
        lemma_first_bad_at(table@, lo0, len, len);
    }
    Ok(MigrationReport { docs, page_counts, final_cursor: c })
}

/// Law: a run's output is a function of the table, the starting cursor and
/// the page size alone, and every produced document carries the identity
/// of its source row's embedded user. Re-running with the same starting
/// cursor over an unchanged table therefore re-attempts every identity the
/// first run already inserted; whether that collides is the target store's
/// decision, not this library's.
pub proof fn lemma_rerun_repeats_identities(rows: Seq<Row>, lo: int, hi: int, k: int)
    requires
        0 <= lo <= hi <= rows.len(),
        0 <= k < hi - lo,
    ensures
        crate::doc_model::doc_field(migrated_docs(rows, lo, hi)[k], "_id"@) == Some(
            DocValue::Text(spec_comment(rows[lo + k].cols@).user.id),
        ),
{
    crate::assemble::lemma_comment_identity_is_user_id(spec_comment(rows[lo + k].cols@));
}

/// Assembles one goods row and the fetched rows of its comments into the
/// goods document the loader inserts: the comments are extracted first, in
/// their fetched order, then the goods columns are mapped and the nested
/// document is built. Aborts on the first malformed comment row, then on
/// a malformed goods row, with the failing column's error.
pub fn assemble_goods(goods_row: &Row, comment_rows: &Vec<Row>) -> (r: Result<
    bson::Document,
    ExtractError,
>)
    requires
        comment_rows@.len() <= u32::MAX,
    ensures
        ({
            let m = comment_rows@.len() as int;
            let cs = Seq::new(m as nat, |k: int| spec_comment(comment_rows@[k].cols@));
            &&& (r is Ok <==> first_bad(comment_rows@, 0, m) == m && crate::extract::goods_cols_ok(
                goods_row.cols@,
            ))
            &&& (r matches Ok(d) ==> doc_model(d) == crate::assemble::spec_goods_doc(
                crate::extract::spec_goods(goods_row.cols@, cs),
            ))
            &&& (r matches Err(e) ==> {
                let b = first_bad(comment_rows@, 0, m);
                if b < m {
                    e@ == comment_err(comment_rows@[b].cols@)
                } else {
                    e@ == crate::extract::goods_err(goods_row.cols@)
                }
            })
        }),
{
    let comments = fetch_comment_page(comment_rows, 0, comment_rows.len() as u32)?;
    proof {
        assert(comments@.map_values(|c: crate::records::Comment| c@) =~= Seq::new(
            comment_rows@.len() as nat,
            |k: int| spec_comment(comment_rows@[k].cols@),
        ));
    }
    let g = crate::extract::goods_from_row(goods_row, comments)?;
    Ok(g.to_bson())
}

} // verus!
