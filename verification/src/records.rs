//! The in-memory records a migration run assembles: immutable values built
//! once per extracted row and discarded after insertion. Each record has a
//! ghost view over character sequences, which the contracts speak of.

use vstd::prelude::*;

verus! {

/// Profile of the author of a comment; always embedded in a `Comment`.
pub struct User {
    pub id: String,
    pub name: String,
    pub province: String,
    pub register_time: String,
    pub level_name: String,
    pub is_mobile: String,
}

pub ghost struct UserView {
    pub id: Seq<char>,
    pub name: Seq<char>,
    pub province: Seq<char>,
    pub register_time: Seq<char>,
    pub level_name: Seq<char>,
    pub is_mobile: Seq<char>,
}

impl View for User {
    type V = UserView;

    open spec fn view(&self) -> UserView {
        UserView {
            id: self.id@,
            name: self.name@,
            province: self.province@,
            register_time: self.register_time@,
            level_name: self.level_name@,
            is_mobile: self.is_mobile@,
        }
    }
}

/// The product a comment is about; always embedded in a `Comment`.
pub struct Product {
    pub id: String,
    pub name: String,
    pub color: String,
    pub size: String,
}

pub ghost struct ProductView {
    pub id: Seq<char>,
    pub name: Seq<char>,
    pub color: Seq<char>,
    pub size: Seq<char>,
}

impl View for Product {
    type V = ProductView;

    open spec fn view(&self) -> ProductView {
        ProductView { id: self.id@, name: self.name@, color: self.color@, size: self.size@ }
    }
}

/// One customer comment, with its author and product nested inside.
pub struct Comment {
    pub user: User,
    pub product: Product,
    pub content: String,
    pub date: String,
    pub reply_count: u32,
    pub score: u32,
    pub status: String,
    pub title: String,
    pub days: u32,
    pub tags: String,
}

pub ghost struct CommentView {
    pub user: UserView,
    pub product: ProductView,
    pub content: Seq<char>,
    pub date: Seq<char>,
    pub reply_count: u32,
    pub score: u32,
    pub status: Seq<char>,
    pub title: Seq<char>,
    pub days: u32,
    pub tags: Seq<char>,
}

impl View for Comment {
    type V = CommentView;

    open spec fn view(&self) -> CommentView {
        CommentView {
            user: self.user@,
            product: self.product@,
            content: self.content@,
            date: self.date@,
            reply_count: self.reply_count,
            score: self.score,
            status: self.status@,
            title: self.title@,
            days: self.days,
            tags: self.tags@,
        }
    }
}

/// One goods row together with all of its comments, in extraction order.
/// The source stores the price in a floating-point column; this library
/// carries it as an integer count of minor currency units.
pub struct Goods {
    pub id: String,
    pub name: String,
    pub comment_num: u32,
    pub shop_name: String,
    pub link: String,
    pub comment_version: String,
    pub score_1_count: u32,
    pub score_2_count: u32,
    pub score_3_count: u32,
    pub score_4_count: u32,
    pub score_5_count: u32,
    pub price: u32,
    pub comments: Vec<Comment>,
}

pub ghost struct GoodsView {
    pub id: Seq<char>,
    pub name: Seq<char>,
    pub comment_num: u32,
    pub shop_name: Seq<char>,
    pub link: Seq<char>,
    pub comment_version: Seq<char>,
    pub score_1_count: u32,
    pub score_2_count: u32,
    pub score_3_count: u32,
    pub score_4_count: u32,
    pub score_5_count: u32,
    pub price: u32,
    pub comments: Seq<CommentView>,
}

impl View for Goods {
    type V = GoodsView;

    open spec fn view(&self) -> GoodsView {
        GoodsView {
            id: self.id@,
            name: self.name@,
            comment_num: self.comment_num,
            shop_name: self.shop_name@,
            link: self.link@,
            comment_version: self.comment_version@,
            score_1_count: self.score_1_count,
            score_2_count: self.score_2_count,
            score_3_count: self.score_3_count,
            score_4_count: self.score_4_count,
            score_5_count: self.score_5_count,
            price: self.price,
            comments: self.comments@.map_values(|c: Comment| c@),
        }
    }
}

} // verus!
