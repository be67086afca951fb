//! The records the service reads from the database and the records it answers with.

use vstd::prelude::*;

verus! {

/// The avatar shown for users who have not uploaded one.
pub const AVATAR_URL: &'static str = "https://127.0.0.1:8082/api/avatar/0";

/// The name shown for a user who cannot be found.
pub const ANONYMOUS_NAME: &'static str = "编程驿站一份子";

/// The title shown for a post that cannot be found.
pub const UNKNOWN_TITLE: &'static str = "编程驿站的小文章";

/// What a login or a token refresh returns about the user.
#[derive(Debug)]
pub struct UserInfomation {
    pub id: u32,
    pub name: String,
    pub avatar_url: String,
    pub follower_count: u32,
    pub fans: u32,
    pub token: String,
}

/// A post as the lists and the post page return it.
#[derive(Debug)]
pub struct Post {
    pub id: u32,
    pub title: String,
    pub release_time: String,
    pub cover_url: String,
    pub content: String,
    pub user_id: u32,
    pub user_name: String,
}

/// A post as read from the `post` table, its content already read from its file.
#[derive(Debug)]
pub struct PostRow {
    pub id: u32,
    pub title: String,
    pub release_time: String,
    pub cover_url: String,
    pub content: String,
    pub user_id: u32,
}

/// A post row together with its label.
#[derive(Debug)]
pub struct LabeledPostRow {
    pub id: u32,
    pub title: String,
    pub release_time: String,
    pub cover_url: String,
    pub content: String,
    pub user_id: u32,
    pub label_id: u32,
}

/// A post as the management pages return it, with author and label names.
#[derive(Debug)]
pub struct ReturnPost {
    pub id: u32,
    pub title: String,
    pub release_time: String,
    pub cover_url: String,
    pub content: String,
    pub user_id: u32,
    pub user_name: String,
    pub label_id: u32,
    pub label_name: String,
}

/// A row of the `message` table.
#[derive(Debug)]
pub struct MessageRow {
    pub id: u32,
    pub sender_id: u32,
    pub recver_id: u32,
    pub post_id: u32,
    pub status: u32,
}

/// A notification as the profile page returns it.
#[derive(Debug)]
pub struct Message {
    pub id: u32,
    pub sender_id: u32,
    pub recver_id: u32,
    pub sender_name: String,
    pub sender_avatar_url: String,
    pub post_id: u32,
    pub title: String,
    pub status: u32,
}

/// A row of the `report_info` table.
#[derive(Debug)]
pub struct ReportRow {
    pub id: u32,
    pub user_id: u32,
    pub post_id: u32,
    pub release_time: String,
    pub report_reason: String,
}

/// A report as the management page returns it.
#[derive(Debug)]
pub struct ReportInfo {
    pub id: u32,
    pub user_id: u32,
    pub username: String,
    pub avatar_url: String,
    pub post_id: u32,
    pub title: String,
    pub release_time: String,
    pub report_reason: String,
}

/// A row of the `user_comment` table.
#[derive(Debug)]
pub struct CommentRow {
    pub id: u32,
    pub post_id: u32,
    pub user_id: u32,
    pub release_time: String,
    pub comment: String,
}

/// A comment as the post page returns it.
#[derive(Debug)]
pub struct UserComment {
    pub id: u32,
    pub post_id: u32,
    pub user_id: u32,
    pub username: String,
    pub avatar_url: String,
    pub release_time: String,
    pub comment: String,
}

/// A row of the `user` table as the management page reads it.
#[derive(Debug)]
pub struct ManagedUserRow {
    pub user_id: u32,
    pub email: String,
    pub username: String,
    pub avatar_url: String,
    pub register_time: String,
}

/// A user as the management page returns it.
#[derive(Debug)]
pub struct ManagedUser {
    pub user_id: u32,
    pub email: String,
    pub username: String,
    pub avatar_url: String,
    pub register_time: String,
    pub is_ban: bool,
    pub is_admin: bool,
}

/// A user's public profile.
#[derive(Debug)]
pub struct User {
    pub id: u32,
    pub name: String,
    pub avatar_url: String,
    pub follower_count: u64,
    pub fans: u64,
}

/// A user's name and avatar, as the user page returns them.
#[derive(Debug)]
pub struct UserCard {
    pub id: u32,
    pub name: String,
    pub avatar_url: String,
}

/// A label.
#[derive(Debug)]
pub struct Label {
    pub id: u32,
    pub label_name: String,
}

/// Whether a user liked and collected a post.
#[derive(Debug, Clone, Copy, PartialEq, Eq, Structural)]
pub struct ResLikeCollect {
    pub like: bool,
    pub collect: bool,
}

/// A hit of the full-text search: the document id as stored, and its title and content.
#[derive(Debug)]
pub struct SearchHit {
    pub id_text: String,
    pub title: String,
    pub content: String,
}

/// The columns of a post that the search reads from the database.
#[derive(Debug)]
pub struct SearchPostRow {
    pub release_time: String,
    pub cover_url: String,
    pub user_id: u32,
}

} // verus!
