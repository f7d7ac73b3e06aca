//! The assembler: pure conversion of a record into the nested document the
//! loader writes. Scalar attributes keep their lowercase snake_case keys,
//! a comment nests its `user` and `product` sub-documents, and a goods
//! document carries its comments as an ordered array. A comment document's
//! identity field is set from the embedded user's id — a known data-model
//! irregularity of the source schema, reproduced here on purpose.

use vstd::prelude::*;

use crate::bson_sink::{doc_model, doc_models, new_doc, put_doc, put_doc_array, put_num, put_text};
use crate::doc_model::{doc_field, DocValue};
use crate::records::{Comment, CommentView, Goods, GoodsView, Product, ProductView, User, UserView};

verus! {

/// Entries of the document produced for a user.
pub open spec fn spec_user_doc(u: UserView) -> Seq<(Seq<char>, DocValue)> {
    seq![
        ("id"@, DocValue::Text(u.id)),
        ("name"@, DocValue::Text(u.name)),
        ("province"@, DocValue::Text(u.province)),
        ("register_time"@, DocValue::Text(u.register_time)),
        ("level_name"@, DocValue::Text(u.level_name)),
        ("is_mobile"@, DocValue::Text(u.is_mobile)),
    ]
}

/// Entries of the document produced for a product.
pub open spec fn spec_product_doc(p: ProductView) -> Seq<(Seq<char>, DocValue)> {
    seq![
        ("id"@, DocValue::Text(p.id)),
        ("name"@, DocValue::Text(p.name)),
        ("color"@, DocValue::Text(p.color)),
        ("size"@, DocValue::Text(p.size)),
    ]
}

/// Entries of the document produced for a comment. The identity field
/// (`_id`) carries the embedded user's id.
pub open spec fn spec_comment_doc(c: CommentView) -> Seq<(Seq<char>, DocValue)> {
    seq![
        ("_id"@, DocValue::Text(c.user.id)),
        ("user"@, DocValue::SubDoc(spec_user_doc(c.user))),
        ("product"@, DocValue::SubDoc(spec_product_doc(c.product))),
        ("content"@, DocValue::Text(c.content)),
        ("date"@, DocValue::Text(c.date)),
        ("reply_count"@, DocValue::Num(c.reply_count as int)),
        ("score"@, DocValue::Num(c.score as int)),
        ("status"@, DocValue::Text(c.status)),
        ("title"@, DocValue::Text(c.title)),
        ("days"@, DocValue::Num(c.days as int)),
        ("tags"@, DocValue::Text(c.tags)),
    ]
}

/// The comment documents nested inside a goods document, in order.
pub open spec fn spec_comment_docs(cs: Seq<CommentView>) -> Seq<DocValue> {
    cs.map_values(|c: CommentView| DocValue::SubDoc(spec_comment_doc(c)))
}

/// Entries of the document produced for a goods row: the scalar
/// attributes, then the ordered array of its comment documents.
pub open spec fn spec_goods_doc(g: GoodsView) -> Seq<(Seq<char>, DocValue)> {
    seq![
        ("_id"@, DocValue::Text(g.id)),
        ("name"@, DocValue::Text(g.name)),
        ("comment_num"@, DocValue::Num(g.comment_num as int)),
        ("shop_name"@, DocValue::Text(g.shop_name)),
        ("link"@, DocValue::Text(g.link)),
        ("comment_version"@, DocValue::Text(g.comment_version)),
        ("score_1_count"@, DocValue::Num(g.score_1_count as int)),
        ("score_2_count"@, DocValue::Num(g.score_2_count as int)),
        ("score_3_count"@, DocValue::Num(g.score_3_count as int)),
        ("score_4_count"@, DocValue::Num(g.score_4_count as int)),
        ("score_5_count"@, DocValue::Num(g.score_5_count as int)),
        ("price"@, DocValue::Num(g.price as int)),
        ("comments"@, DocValue::Arr(spec_comment_docs(g.comments))),
    ]
}

impl User {
    /// Flat document of the user's scalar attributes.
    pub fn to_bson(&self) -> (d: bson::Document)
        ensures
            doc_model(d) == spec_user_doc(self@),
    {
        proof {
            reveal_strlit("id");
            reveal_strlit("name");
            reveal_strlit("province");
            reveal_strlit("register_time");
            reveal_strlit("level_name");
            reveal_strlit("is_mobile");
            assert("id"@.len() == 2);
            assert("name"@.len() == 4);
            assert("province"@.len() == 8);
            assert("register_time"@.len() == 13);
            assert("level_name"@.len() == 10);
            assert("is_mobile"@.len() == 9);
        }
        let mut d = new_doc();
        put_text(&mut d, "id", self.id.as_str());
        put_text(&mut d, "name", self.name.as_str());
        put_text(&mut d, "province", self.province.as_str());
        put_text(&mut d, "register_time", self.register_time.as_str());
        put_text(&mut d, "level_name", self.level_name.as_str());
        put_text(&mut d, "is_mobile", self.is_mobile.as_str());
        proof {
            assert(doc_model(d) =~= spec_user_doc(self@));
        }
        d
    }
}

impl Product {
    /// Flat document of the product's scalar attributes.
    pub fn to_bson(&self) -> (d: bson::Document)
        ensures
            doc_model(d) == spec_product_doc(self@),
    {
        proof {
            reveal_strlit("id");
            reveal_strlit("name");
            reveal_strlit("color");
            reveal_strlit("size");
            assert("id"@.len() == 2);
            assert("name"@.len() == 4);
            assert("color"@.len() == 5);
            assert("size"@.len() == 4);
            assert("name"@[0] == 'n');
            assert("size"@[0] == 's');
        }
        let mut d = new_doc();
        put_text(&mut d, "id", self.id.as_str());
        put_text(&mut d, "name", self.name.as_str());
        put_text(&mut d, "color", self.color.as_str());
        put_text(&mut d, "size", self.size.as_str());
        proof {
            assert(doc_model(d) =~= spec_product_doc(self@));
        }
        d
    }
}

impl Comment {
    /// Nested document of the comment: identity from the embedded user's
    /// id, `user` and `product` sub-documents, then the scalar fields.
    pub fn to_bson(&self) -> (d: bson::Document)
        ensures
            doc_model(d) == spec_comment_doc(self@),
    {
        proof {
            reveal_strlit("_id");
            reveal_strlit("user");
            reveal_strlit("product");
            reveal_strlit("content");
            reveal_strlit("date");
            reveal_strlit("reply_count");
            reveal_strlit("score");
            reveal_strlit("status");
            reveal_strlit("title");
            reveal_strlit("days");
            reveal_strlit("tags");
            assert("_id"@.len() == 3);
            assert("user"@.len() == 4);
            assert("product"@.len() == 7);
            assert("content"@.len() == 7);
            assert("date"@.len() == 4);
            assert("reply_count"@.len() == 11);
            assert("score"@.len() == 5);
            assert("status"@.len() == 6);
            assert("title"@.len() == 5);
            assert("days"@.len() == 4);
            assert("tags"@.len() == 4);
            assert("user"@[0] == 'u');
            assert("date"@[0] == 'd');
            assert("days"@[0] == 'd');
            assert("tags"@[0] == 't');
            assert("date"@[2] == 't');
            assert("days"@[2] == 'y');
            assert("product"@[0] == 'p');
            assert("content"@[0] == 'c');
            assert("score"@[0] == 's');
            assert("title"@[0] == 't');
        }
        let mut d = new_doc();
        put_text(&mut d, "_id", self.user.id.as_str());
        put_doc(&mut d, "user", self.user.to_bson());
        put_doc(&mut d, "product", self.product.to_bson());
        put_text(&mut d, "content", self.content.as_str());
        put_text(&mut d, "date", self.date.as_str());
        put_num(&mut d, "reply_count", self.reply_count as i64);
        put_num(&mut d, "score", self.score as i64);
        put_text(&mut d, "status", self.status.as_str());
        put_text(&mut d, "title", self.title.as_str());
        put_num(&mut d, "days", self.days as i64);
        put_text(&mut d, "tags", self.tags.as_str());
        proof {
            assert(doc_model(d) =~= spec_comment_doc(self@));
        }
        d
    }
}

impl Goods {
    /// Nested document of the goods row: scalar attributes, then the
    /// `comments` array holding one document per comment, in the order the
    /// comments stand in the record.
    pub fn to_bson(&self) -> (d: bson::Document)
        ensures
            doc_model(d) == spec_goods_doc(self@),
    {
        proof {
            reveal_strlit("_id");
            reveal_strlit("name");
            reveal_strlit("comment_num");
            reveal_strlit("shop_name");
            reveal_strlit("link");
            reveal_strlit("comment_version");
            reveal_strlit("score_1_count");
            reveal_strlit("score_2_count");
            reveal_strlit("score_3_count");
            reveal_strlit("score_4_count");
            reveal_strlit("score_5_count");
            reveal_strlit("price");
            reveal_strlit("comments");
            assert("_id"@.len() == 3);
            assert("name"@.len() == 4);
            assert("comment_num"@.len() == 11);
            assert("shop_name"@.len() == 9);
            assert("link"@.len() == 4);
            assert("comment_version"@.len() == 15);
            assert("score_1_count"@.len() == 13);
            assert("score_2_count"@.len() == 13);
            assert("score_3_count"@.len() == 13);
            assert("score_4_count"@.len() == 13);
            assert("score_5_count"@.len() == 13);
            assert("price"@.len() == 5);
            assert("comments"@.len() == 8);
            assert("name"@[0] == 'n');
            assert("link"@[0] == 'l');
            assert("score_1_count"@[6] == '1');
            assert("score_2_count"@[6] == '2');
            assert("score_3_count"@[6] == '3');
            assert("score_4_count"@[6] == '4');
            assert("score_5_count"@[6] == '5');
        }
        let n = self.comments.len();
        let mut subs: Vec<bson::Document> = Vec::new();
        for i in 0..n
            invariant
                n == self.comments@.len(),
                subs@.len() == i,
                forall|j: int|
                    0 <= j < i ==> doc_model(#[trigger] subs@[j]) == spec_comment_doc(
                        self.comments@[j]@,
                    ),
        {
            subs.push(self.comments[i].to_bson());
        }
        proof {
            assert(doc_models(subs@) =~= spec_comment_docs(self@.comments));
        }
        let mut d = new_doc();
        put_text(&mut d, "_id", self.id.as_str());
        put_text(&mut d, "name", self.name.as_str());
        put_num(&mut d, "comment_num", self.comment_num as i64);
        put_text(&mut d, "shop_name", self.shop_name.as_str());
        put_text(&mut d, "link", self.link.as_str());
        put_text(&mut d, "comment_version", self.comment_version.as_str());
        put_num(&mut d, "score_1_count", self.score_1_count as i64);
        put_num(&mut d, "score_2_count", self.score_2_count as i64);
        put_num(&mut d, "score_3_count", self.score_3_count as i64);
        put_num(&mut d, "score_4_count", self.score_4_count as i64);
        put_num(&mut d, "score_5_count", self.score_5_count as i64);
        put_num(&mut d, "price", self.price as i64);
        put_doc_array(&mut d, "comments", subs);
        proof {
            assert(doc_model(d) =~= spec_goods_doc(self@));
        }
        d
    }
}

/// Law: assembly is pure and deterministic. Records with the same view
/// produce documents with the same entries, for every record kind.
pub proof fn lemma_assembly_deterministic(a: Comment, b: Comment, g: Goods, h: Goods)
    requires
        a@ == b@,
        g@ == h@,
    ensures
        spec_comment_doc(a@) == spec_comment_doc(b@),
        spec_goods_doc(g@) == spec_goods_doc(h@),
{
}

/// Law: the identity field of a comment document equals the embedded
/// user's id field, reproducing the source's identity choice.
pub proof fn lemma_comment_identity_is_user_id(c: CommentView)
    ensures
        doc_field(spec_comment_doc(c), "_id"@) == Some(DocValue::Text(c.user.id)),
{
}

/// Law: a goods document nests exactly its record's comment documents,
/// under the `comments` key, preserving their order.
pub proof fn lemma_goods_doc_preserves_comment_order(g: GoodsView)
    ensures
        doc_field(spec_goods_doc(g), "comments"@) == Some(
            DocValue::Arr(spec_comment_docs(g.comments)),
        ),
        forall|i: int|
            0 <= i < g.comments.len() ==> spec_comment_docs(g.comments)[i] == DocValue::SubDoc(
                spec_comment_doc(g.comments[i]),
            ),
{
    reveal_with_fuel(doc_field, 14);
    reveal_strlit("_id");
    reveal_strlit("name");
    reveal_strlit("comment_num");
    reveal_strlit("shop_name");
    reveal_strlit("link");
    reveal_strlit("comment_version");
    reveal_strlit("score_1_count");
    reveal_strlit("score_2_count");
    reveal_strlit("score_3_count");
    reveal_strlit("score_4_count");
    reveal_strlit("score_5_count");
    reveal_strlit("price");
    reveal_strlit("comments");
    assert("_id"@.len() == 3);
    assert("name"@.len() == 4);
    assert("comment_num"@.len() == 11);
    assert("shop_name"@.len() == 9);
    assert("link"@.len() == 4);
    assert("comment_version"@.len() == 15);
    assert("score_1_count"@.len() == 13);
    assert("score_2_count"@.len() == 13);
    assert("score_3_count"@.len() == 13);
    assert("score_4_count"@.len() == 13);
    assert("score_5_count"@.len() == 13);
    assert("price"@.len() == 5);
    assert("comments"@.len() == 8);
}

} // verus!
