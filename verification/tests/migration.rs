use jd_migrate::extract::{comment_from_row, fetch_comment_page, goods_from_row, goods_id_of_row};
use jd_migrate::migrate::{assemble_comment_page, run_comment_migration, PageCursor};
use jd_migrate::records::{Comment, Goods, Product, User};
use jd_migrate::row::{ExtractError, Row, SqlValue};

fn text(s: &str) -> SqlValue {
    SqlValue::Text(s.to_owned())
}

fn col(name: &str, v: SqlValue) -> (String, SqlValue) {
    (name.to_owned(), v)
}

/// A fully populated comment row, with the user id and content varying.
fn comment_row(user_id: &str, content: &str) -> Row {
    Row {
        cols: vec![
            col("user_ID", text(user_id)),
            col("user_name", text("ann")),
            col("userProvince", text("Hunan")),
            col("userRegisterTime", text("2015-03-01 10:00:00")),
            col("userLevelName", text("gold")),
            col("isMobile", text("true")),
            col("good_ID", text("g-77")),
            col("good_name", text("kettle")),
            col("productColor", text("red")),
            col("productSize", text("XL")),
            col("content", text(content)),
            col("date", text("2016-05-02")),
            col("replyCount", SqlValue::UInt(3)),
            col("score", SqlValue::UInt(5)),
            col("status", text("shown")),
            col("title", text("fine")),
            col("days", SqlValue::UInt(12)),
            col("tags", text("quality")),
        ],
    }
}

fn goods_row(id: &str) -> Row {
    Row {
        cols: vec![
            col("ID", text(id)),
            col("name", text("kettle")),
            col("comment_num", SqlValue::UInt(2)),
            col("shop_name", text("main store")),
            col("link", text("http://example.invalid/kettle")),
            col("commentVersion", text("v2")),
            col("score1count", SqlValue::UInt(1)),
            col("score2count", SqlValue::UInt(2)),
            col("score3count", SqlValue::UInt(3)),
            col("score4count", SqlValue::UInt(4)),
            col("score5count", SqlValue::UInt(90)),
            col("price", SqlValue::UInt(12999)),
        ],
    }
}

fn sample_user() -> User {
    User {
        id: "u-1".to_owned(),
        name: "ann".to_owned(),
        province: "Hunan".to_owned(),
        register_time: "2015-03-01 10:00:00".to_owned(),
        level_name: "gold".to_owned(),
        is_mobile: "true".to_owned(),
    }
}

fn sample_product() -> Product {
    Product {
        id: "g-77".to_owned(),
        name: "kettle".to_owned(),
        color: "red".to_owned(),
        size: "XL".to_owned(),
    }
}

fn sample_comment(user_id: &str, content: &str) -> Comment {
    let mut u = sample_user();
    u.id = user_id.to_owned();
    Comment {
        user: u,
        product: sample_product(),
        content: content.to_owned(),
        date: "2016-05-02".to_owned(),
        reply_count: 3,
        score: 5,
        status: "shown".to_owned(),
        title: "fine".to_owned(),
        days: 12,
        tags: "quality".to_owned(),
    }
}

#[test]
fn user_document_holds_every_field() {
    let d = sample_user().to_bson();
    assert_eq!(d.len(), 6);
    assert_eq!(d.get_str("id").unwrap(), "u-1");
    assert_eq!(d.get_str("name").unwrap(), "ann");
    assert_eq!(d.get_str("province").unwrap(), "Hunan");
    assert_eq!(d.get_str("register_time").unwrap(), "2015-03-01 10:00:00");
    assert_eq!(d.get_str("level_name").unwrap(), "gold");
    assert_eq!(d.get_str("is_mobile").unwrap(), "true");
}

#[test]
fn product_document_holds_every_field() {
    let d = sample_product().to_bson();
    assert_eq!(d.len(), 4);
    assert_eq!(d.get_str("id").unwrap(), "g-77");
    assert_eq!(d.get_str("name").unwrap(), "kettle");
    assert_eq!(d.get_str("color").unwrap(), "red");
    assert_eq!(d.get_str("size").unwrap(), "XL");
}

#[test]
fn comment_document_identity_is_user_id() {
    let d = sample_comment("u-9", "nice").to_bson();
    assert_eq!(d.get_str("_id").unwrap(), "u-9");
    assert_eq!(d.get_document("user").unwrap().get_str("id").unwrap(), "u-9");
}

#[test]
fn comment_document_holds_every_field() {
    let d = sample_comment("u-1", "works well").to_bson();
    assert_eq!(d.len(), 11);
    assert_eq!(d.get_str("_id").unwrap(), "u-1");
    assert_eq!(d.get_document("user").unwrap().get_str("name").unwrap(), "ann");
    assert_eq!(d.get_document("product").unwrap().get_str("size").unwrap(), "XL");
    assert_eq!(d.get_str("content").unwrap(), "works well");
    assert_eq!(d.get_str("date").unwrap(), "2016-05-02");
    assert_eq!(d.get_i64("reply_count").unwrap(), 3);
    assert_eq!(d.get_i64("score").unwrap(), 5);
    assert_eq!(d.get_str("status").unwrap(), "shown");
    assert_eq!(d.get_str("title").unwrap(), "fine");
    assert_eq!(d.get_i64("days").unwrap(), 12);
    assert_eq!(d.get_str("tags").unwrap(), "quality");
}

#[test]
fn goods_document_preserves_comment_order() {
    let g = Goods {
        id: "g-77".to_owned(),
        name: "kettle".to_owned(),
        comment_num: 2,
        shop_name: "main store".to_owned(),
        link: "http://example.invalid/kettle".to_owned(),
        comment_version: "v2".to_owned(),
        score_1_count: 1,
        score_2_count: 2,
        score_3_count: 3,
        score_4_count: 4,
        score_5_count: 90,
        price: 12999,
        comments: vec![sample_comment("u-b", "second author"), sample_comment("u-a", "first author")],
    };
    let d = g.to_bson();
    assert_eq!(d.len(), 13);
    assert_eq!(d.get_str("_id").unwrap(), "g-77");
    assert_eq!(d.get_i64("comment_num").unwrap(), 2);
    assert_eq!(d.get_i64("score_5_count").unwrap(), 90);
    assert_eq!(d.get_i64("price").unwrap(), 12999);
    let arr = d.get_array("comments").unwrap();
    assert_eq!(arr.len(), 2);
    let first = arr[0].as_document().unwrap();
    let second = arr[1].as_document().unwrap();
    assert_eq!(first.get_str("_id").unwrap(), "u-b");
    assert_eq!(first.get_str("content").unwrap(), "second author");
    assert_eq!(second.get_str("_id").unwrap(), "u-a");
}

#[test]
fn assembly_is_deterministic() {
    let a = sample_comment("u-1", "same").to_bson();
    let b = sample_comment("u-1", "same").to_bson();
    assert_eq!(a, b);
}

#[test]
fn comment_from_row_maps_every_column() {
    let c = comment_from_row(&comment_row("u-5", "ok")).unwrap();
    assert_eq!(c.user.id, "u-5");
    assert_eq!(c.user.name, "ann");
    assert_eq!(c.user.province, "Hunan");
    assert_eq!(c.user.register_time, "2015-03-01 10:00:00");
    assert_eq!(c.user.level_name, "gold");
    assert_eq!(c.user.is_mobile, "true");
    assert_eq!(c.product.id, "g-77");
    assert_eq!(c.product.name, "kettle");
    assert_eq!(c.product.color, "red");
    assert_eq!(c.product.size, "XL");
    assert_eq!(c.content, "ok");
    assert_eq!(c.date, "2016-05-02");
    assert_eq!(c.reply_count, 3);
    assert_eq!(c.score, 5);
    assert_eq!(c.status, "shown");
    assert_eq!(c.title, "fine");
    assert_eq!(c.days, 12);
    assert_eq!(c.tags, "quality");
}

#[test]
fn missing_column_is_fatal_and_named() {
    let mut row = comment_row("u-1", "x");
    row.cols.retain(|(n, _)| n != "userLevelName");
    match comment_from_row(&row) {
        Err(ExtractError::MissingColumn(c)) => assert_eq!(c, "userLevelName"),
        _ => panic!("expected a missing-column error"),
    }
}

#[test]
fn wrong_type_is_fatal_and_named() {
    let mut row = comment_row("u-1", "x");
    for c in row.cols.iter_mut() {
        if c.0 == "score" {
            c.1 = text("five");
        }
    }
    match comment_from_row(&row) {
        Err(ExtractError::WrongType(c)) => assert_eq!(c, "score"),
        _ => panic!("expected a wrong-type error"),
    }
}

#[test]
fn numeric_overflow_is_a_type_error() {
    let mut row = comment_row("u-1", "x");
    for c in row.cols.iter_mut() {
        if c.0 == "days" {
            c.1 = SqlValue::UInt(u64::from(u32::MAX) + 1);
        }
    }
    match comment_from_row(&row) {
        Err(ExtractError::WrongType(c)) => assert_eq!(c, "days"),
        _ => panic!("expected a wrong-type error"),
    }
}

#[test]
fn null_column_is_a_type_error() {
    let mut row = comment_row("u-1", "x");
    for c in row.cols.iter_mut() {
        if c.0 == "tags" {
            c.1 = SqlValue::Null;
        }
    }
    match comment_from_row(&row) {
        Err(ExtractError::WrongType(c)) => assert_eq!(c, "tags"),
        _ => panic!("expected a wrong-type error"),
    }
}

#[test]
fn first_failing_column_wins() {
    let mut row = comment_row("u-1", "x");
    row.cols.retain(|(n, _)| n != "user_name" && n != "date");
    match comment_from_row(&row) {
        Err(ExtractError::MissingColumn(c)) => assert_eq!(c, "user_name"),
        _ => panic!("expected a missing-column error"),
    }
}

#[test]
fn goods_from_row_maps_and_nests() {
    let comments = vec![sample_comment("u-1", "a"), sample_comment("u-2", "b")];
    let g = goods_from_row(&goods_row("g-77"), comments).unwrap();
    assert_eq!(g.id, "g-77");
    assert_eq!(g.name, "kettle");
    assert_eq!(g.comment_num, 2);
    assert_eq!(g.shop_name, "main store");
    assert_eq!(g.comment_version, "v2");
    assert_eq!(g.score_3_count, 3);
    assert_eq!(g.price, 12999);
    assert_eq!(g.comments.len(), 2);
    assert_eq!(g.comments[0].user.id, "u-1");
    assert_eq!(g.comments[1].user.id, "u-2");
}

#[test]
fn goods_id_read_before_comment_lookup() {
    assert_eq!(goods_id_of_row(&goods_row("g-9")).unwrap(), "g-9");
}

fn five_rows() -> Vec<Row> {
    (0..5).map(|i| comment_row(&format!("u-{}", i), "c")).collect()
}

#[test]
fn page_window_returns_exactly_min_size_remaining() {
    let rows = five_rows();
    assert_eq!(fetch_comment_page(&rows, 0, 2).unwrap().len(), 2);
    assert_eq!(fetch_comment_page(&rows, 2, 2).unwrap().len(), 2);
    assert_eq!(fetch_comment_page(&rows, 4, 2).unwrap().len(), 1);
    assert_eq!(fetch_comment_page(&rows, 5, 2).unwrap().len(), 0);
    assert_eq!(fetch_comment_page(&rows, 800000, 3).unwrap().len(), 0);
    let page = fetch_comment_page(&rows, 1, 3).unwrap();
    assert_eq!(page.len(), 3);
    assert_eq!(page[0].user.id, "u-1");
    assert_eq!(page[1].user.id, "u-2");
    assert_eq!(page[2].user.id, "u-3");
}

#[test]
fn page_cursor_terminates_strictly_past_total() {
    let mut c = PageCursor::new(4, 2, 5);
    assert!(c.advance());
    assert_eq!(c.cursor, 6);
    let mut d = PageCursor::new(3, 2, 5);
    assert!(!d.advance());
    assert_eq!(d.cursor, 5);
    assert!(d.advance());
}

#[test]
fn five_rows_page_size_two_runs_three_pages() {
    let rows = five_rows();
    let rep = run_comment_migration(&rows, 0, 2).unwrap();
    assert_eq!(rep.page_counts, vec![2, 2, 1]);
    assert_eq!(rep.docs.len(), 5);
    assert_eq!(rep.final_cursor, 6);
    for (i, d) in rep.docs.iter().enumerate() {
        assert_eq!(d.get_str("_id").unwrap(), format!("u-{}", i));
    }
}

#[test]
fn empty_table_runs_the_body_once() {
    let rows: Vec<Row> = Vec::new();
    let rep = run_comment_migration(&rows, 0, 3).unwrap();
    assert_eq!(rep.page_counts, vec![0]);
    assert_eq!(rep.docs.len(), 0);
    assert_eq!(rep.final_cursor, 3);
}

#[test]
fn cursor_landing_on_total_runs_one_more_empty_page() {
    let rows: Vec<Row> = (0..4).map(|i| comment_row(&format!("u-{}", i), "c")).collect();
    let rep = run_comment_migration(&rows, 0, 2).unwrap();
    assert_eq!(rep.page_counts, vec![2, 2, 0]);
    assert_eq!(rep.docs.len(), 4);
    assert_eq!(rep.final_cursor, 6);
}

#[test]
fn nonzero_starting_cursor_skips_earlier_rows() {
    let rows = five_rows();
    let rep = run_comment_migration(&rows, 3, 2).unwrap();
    assert_eq!(rep.page_counts, vec![2, 0]);
    assert_eq!(rep.docs.len(), 2);
    assert_eq!(rep.docs[0].get_str("_id").unwrap(), "u-3");
    assert_eq!(rep.final_cursor, 7);
}

#[test]
fn starting_cursor_past_total_runs_once_and_stops() {
    let rows = five_rows();
    let rep = run_comment_migration(&rows, 800000, 100).unwrap();
    assert_eq!(rep.page_counts, vec![0]);
    assert_eq!(rep.docs.len(), 0);
    assert_eq!(rep.final_cursor, 800100);
}

#[test]
fn malformed_row_aborts_the_whole_run() {
    let mut rows = five_rows();
    rows[3].cols.retain(|(n, _)| n != "content");
    match run_comment_migration(&rows, 0, 2) {
        Err(ExtractError::MissingColumn(c)) => assert_eq!(c, "content"),
        _ => panic!("expected the run to abort on the malformed row"),
    }
}

#[test]
fn assemble_page_produces_one_document_per_row() {
    let rows = five_rows();
    let docs = assemble_comment_page(&rows).unwrap();
    assert_eq!(docs.len(), 5);
    assert_eq!(docs[2].get_str("_id").unwrap(), "u-2");
}

#[test]
fn rerun_attempts_the_same_identities() {
    let rows = five_rows();
    let first = run_comment_migration(&rows, 0, 2).unwrap();
    let second = run_comment_migration(&rows, 0, 2).unwrap();
    assert_eq!(first.docs, second.docs);
    for (a, b) in first.docs.iter().zip(second.docs.iter()) {
        assert_eq!(a.get_str("_id").unwrap(), b.get_str("_id").unwrap());
    }
}

#[test]
fn goods_assembly_nests_fetched_comment_rows_in_order() {
    let comment_rows = vec![comment_row("u-1", "first"), comment_row("u-2", "second")];
    let d = jd_migrate::migrate::assemble_goods(&goods_row("g-77"), &comment_rows).unwrap();
    assert_eq!(d.get_str("_id").unwrap(), "g-77");
    let arr = d.get_array("comments").unwrap();
    assert_eq!(arr.len(), 2);
    assert_eq!(arr[0].as_document().unwrap().get_str("content").unwrap(), "first");
    assert_eq!(arr[1].as_document().unwrap().get_str("content").unwrap(), "second");
}

#[test]
fn goods_assembly_reports_comment_errors_first() {
    let mut comment_rows = vec![comment_row("u-1", "first")];
    comment_rows[0].cols.retain(|(n, _)| n != "title");
    let mut bad_goods = goods_row("g-77");
    bad_goods.cols.retain(|(n, _)| n != "link");
    match jd_migrate::migrate::assemble_goods(&bad_goods, &comment_rows) {
        Err(ExtractError::MissingColumn(c)) => assert_eq!(c, "title"),
        _ => panic!("expected the comment row's error"),
    }
    match jd_migrate::migrate::assemble_goods(&bad_goods, &vec![comment_row("u-1", "x")]) {
        Err(ExtractError::MissingColumn(c)) => assert_eq!(c, "link"),
        _ => panic!("expected the goods row's error"),
    }
}
