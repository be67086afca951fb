//! The user endpoints: user pages and profiles, notifications, profile edits, following,
//! comments, reports, labels, likes and collections, and user management.

use vstd::prelude::*;
use crate::model::{
    AVATAR_URL, CommentRow, Label, ManagedUserRow, MessageRow, ReportRow, ResLikeCollect, User, UserCard,
};
use crate::plan::{WritePlan, single, statements_of};
use crate::queries::{
    add_collect_query, add_like_query, delete_comment_query, delete_label_ignore_query, delete_label_query,
    delete_message_query, delete_report_query, fans_update_query, follow_delete_query, follow_insert_query,
    follower_count_update_query, grant_admin_query, insert_comment_query, insert_message_query,
    insert_report_query, login_bans_query, post_titles_query, revoke_admin_query, sub_collect_query,
    sub_like_query, toggle_ban_query, update_avatar_url_query, update_login_email_query, update_user_query,
    update_username_query, user_profiles_query,
};
use crate::reply::{Reply, Status, is_reply, plain, quoted};
use crate::text::{decimal, joined, signed_decimal};

verus! {

/// Whether `user_id` is an administrator, given the rows `admin_query(user_id)` read:
/// it is when the `admin` table lists it.
pub fn is_admin(admin_rows: &Vec<u32>) -> (r: Result<bool, ()>)
    ensures
        r == Ok::<bool, ()>(admin_rows.len() != 0),
{
    Ok(admin_rows.len() != 0)
}

/// The avatar a user page shows: the stored one, or the default avatar when the stored
/// one is at most one byte long.
pub open spec fn avatar_unless_short(stored: Seq<char>) -> Seq<char> {
    if vstd::utf8::encode_utf8(stored).len() <= 1 { AVATAR_URL@ } else { stored }
}

proof fn lemma_utf8_len_at_least_chars(s: Seq<char>)
    ensures
        vstd::utf8::encode_utf8(s).len() >= s.len(),
    decreases s.len(),
{
    if s.len() > 0 {
        lemma_utf8_len_at_least_chars(s.drop_first());
    }
}

/// At most one byte in UTF-8: no character, or one ASCII character.
proof fn lemma_short_utf8(s: Seq<char>)
    ensures
        vstd::utf8::encode_utf8(s).len() <= 1 <==> (s.len() == 0 || (s.len() == 1 && (s[0] as u32) <= 0x7F)),
{
    if s.len() > 0 {
        lemma_utf8_len_at_least_chars(s.drop_first());
        if s.len() == 1 {
            assert(s.drop_first() =~= Seq::<char>::empty());
        }
    }
}

fn shown_avatar(stored: &String) -> (a: String)
    ensures
        a@ == avatar_unless_short(stored@),
{
    proof { lemma_short_utf8(stored@); }
    let n = stored.as_str().unicode_len();
    if n == 0 || (n == 1 && (stored.as_str().get_char(0) as u32) <= 0x7F) {
        String::from_str(AVATAR_URL)
    } else {
        stored.clone()
    }
}

/// The user page: the first user row `(id, name, avatar)`.
pub fn user_card(users: &Vec<(u32, String, String)>) -> (c: UserCard)
    requires
        users.len() > 0,
    ensures
        c.id == users@[0].0,
        c.name@ == users@[0].1@,
        c.avatar_url@ == avatar_unless_short(users@[0].2@),
{
    UserCard { id: users[0].0, name: users[0].1.clone(), avatar_url: shown_avatar(&users[0].2) }
}

/// The profile of `user_id`: the name of the first user row, its avatar, and the first
/// stats row `(follower_count, fans)`.
pub fn profile_user(user_id: u32, users: &Vec<(u32, String, String)>, stats: &Vec<(u64, u64)>) -> (u: User)
    requires
        users.len() > 0,
        stats.len() > 0,
    ensures
        u.id == user_id,
        u.name@ == users@[0].1@,
        u.avatar_url@ == avatar_unless_short(users@[0].2@),
        u.follower_count == stats@[0].0,
        u.fans == stats@[0].1,
{
    User {
        id: user_id,
        name: users[0].1.clone(),
        avatar_url: shown_avatar(&users[0].2),
        follower_count: stats[0].0,
        fans: stats[0].1,
    }
}

pub open spec fn profiles_spec(ids: Seq<u32>) -> Seq<char> {
    "\n        select id, name, avatar_url\n        from user\n        where id in ("@ + joined(ids, ","@) + ");\n    "@
}

pub open spec fn titles_spec(ids: Seq<u32>) -> Seq<char> {
    "\n        select id, title\n        from post\n        where id in ("@ + joined(ids, ","@) + ");\n    "@
}

pub open spec fn message_senders(m: Seq<MessageRow>) -> Seq<u32> {
    m.map_values(|r: MessageRow| r.sender_id)
}

pub open spec fn message_posts(m: Seq<MessageRow>) -> Seq<u32> {
    m.map_values(|r: MessageRow| r.post_id)
}

/// Notifications stop with an empty list when there are none; otherwise the names and
/// avatars of their senders and the titles of their posts are read.
pub fn message_lookups(messages: &Vec<MessageRow>) -> (r: Option<(String, String)>)
    ensures
        messages.len() == 0 <==> r is None,
        r matches Some(q) ==> q.0@ == profiles_spec(message_senders(messages@)) && q.1@ == titles_spec(message_posts(messages@)),
{
    if messages.len() == 0 {
        return None;
    }
    let mut senders: Vec<u32> = Vec::new();
    let mut posts: Vec<u32> = Vec::new();
    let mut i: usize = 0;
    while i < messages.len()
        invariant
            i <= messages.len(),
            senders@ == message_senders(messages@.take(i as int)),
            posts@ == message_posts(messages@.take(i as int)),
        decreases messages.len() - i,
    {
        senders.push(messages[i].sender_id);
        posts.push(messages[i].post_id);
        assert(message_senders(messages@.take(i + 1)) =~= message_senders(messages@.take(i as int)).push(messages@[i as int].sender_id));
        assert(message_posts(messages@.take(i + 1)) =~= message_posts(messages@.take(i as int)).push(messages@[i as int].post_id));
        i = i + 1;
    }
    assert(messages@.take(messages.len() as int) =~= messages@);
    Some((user_profiles_query(&senders), post_titles_query(&posts)))
}

/// The recipient of a notification, read before it is deleted, or the reply that it
/// does not exist.
pub fn message_recipient(rows: &Vec<u32>) -> (r: Result<u32, Reply>)
    ensures
        rows.len() == 0 ==> r is Err && is_reply(r->Err_0, Status::BadRequest, "Error request"@, false),
        rows.len() > 0 ==> r == Ok::<u32, Reply>(rows@[0]),
{
    if rows.len() == 0 {
        Err(plain(Status::BadRequest, "Error request"))
    } else {
        Ok(rows[0])
    }
}

/// Deleting a notification once read. Its reply does not depend on the statement.
pub fn update_message_read_plan(message_id: u32) -> (p: WritePlan)
    ensures
        statements_of(p) == seq!["\n        delete from message\n        where id = "@ + decimal(message_id as nat) + ";\n    "@],
        is_reply(p.success, Status::Success, "删除成功"@, true),
{
    single(delete_message_query(message_id), quoted(Status::Success, "删除成功"))
}

/// Renaming a user; the reply is the new name.
pub fn update_username_plan(user_id: u32, username: &str) -> (p: WritePlan)
    ensures
        statements_of(p) == seq!["\n        update user\n        set name = '"@ + username@ + "'\n        where id = "@
            + decimal(user_id as nat) + ";\n    "@],
        is_reply(p.success, Status::Success, username@, true),
{
    single(update_username_query(username, user_id), quoted(Status::Success, username))
}

/// Setting a user's avatar.
pub fn update_avatar_url_plan(user_id: u32, avatar_url: &str) -> (p: WritePlan)
    ensures
        statements_of(p) == seq!["\n        update user\n        set avatar_url = '"@ + avatar_url@ + "'\n        where id = "@
            + decimal(user_id as nat) + ";\n    "@],
        is_reply(p.success, Status::Success, "修改成功"@, true),
{
    single(update_avatar_url_query(avatar_url, user_id), quoted(Status::Success, "修改成功"))
}

/// Following (`count == 1`) or unfollowing (any other count): both users' counts move by
/// `count`, and the follow relation is inserted or deleted.
pub fn add_remove_follow_plan(follower_id: u32, following_id: u32, count: i32) -> (p: WritePlan)
    ensures
        statements_of(p).len() == 3,
        statements_of(p)[0] == "\n        update user_stats\n        set \n            follower_count = follower_count + "@
            + signed_decimal(count as int) + "\n        where user_id = "@ + decimal(follower_id as nat) + ";\n        "@,
        statements_of(p)[1] == "\n        update user_stats\n        set\n            fans = fans + "@ + signed_decimal(count as int)
            + "\n        where user_id = "@ + decimal(following_id as nat) + ";\n        "@,
        count == 1 ==> statements_of(p)[2] == "\n            insert into follow\n            VALUES\n            ("@
            + decimal(follower_id as nat) + ", "@ + decimal(following_id as nat) + ", NOW())\n            "@,
        count != 1 ==> statements_of(p)[2] == "\n            delete from follow\n            where follower_id = "@
            + decimal(follower_id as nat) + "\n                and \n                following_id = "@
            + decimal(following_id as nat) + ";\n            "@,
        is_reply(p.success, Status::Success, "successful"@, true),
{
    let mut statements: Vec<String> = Vec::new();
    statements.push(follower_count_update_query(count, follower_id));
    statements.push(fans_update_query(count, following_id));
    if count == 1 {
        statements.push(follow_insert_query(follower_id, following_id));
    } else {
        statements.push(follow_delete_query(follower_id, following_id));
    }
    WritePlan { statements, success: quoted(Status::Success, "successful") }
}

pub open spec fn managed_ids(users: Seq<ManagedUserRow>) -> Seq<u32> {
    users.map_values(|u: ManagedUserRow| u.user_id)
}

/// The statement that reads the ban flags of the users listed.
pub fn ban_lookup(users: &Vec<ManagedUserRow>) -> (q: String)
    ensures
        q@ == "\n        select user_id, is_ban\n        from login\n        where user_id in ("@ + joined(managed_ids(users@), ","@)
            + ");\n    "@,
{
    let mut ids: Vec<u32> = Vec::new();
    let mut i: usize = 0;
    while i < users.len()
        invariant
            i <= users.len(),
            ids@ == managed_ids(users@.take(i as int)),
        decreases users.len() - i,
    {
        ids.push(users[i].user_id);
        assert(managed_ids(users@.take(i + 1)) =~= managed_ids(users@.take(i as int)).push(users@[i as int].user_id));
        i = i + 1;
    }
    assert(users@.take(users.len() as int) =~= users@);
    login_bans_query(&ids)
}

/// The user search stops with an empty list when no name matched; otherwise it reads
/// the ban flags of the users found.
pub fn search_user_lookup(users: &Vec<ManagedUserRow>) -> (q: Option<String>)
    ensures
        users.len() == 0 <==> q is None,
        q matches Some(q) ==> q@ == "\n        select user_id, is_ban\n        from login\n        where user_id in ("@
            + joined(managed_ids(users@), ","@) + ");\n    "@,
{
    if users.len() == 0 { None } else { Some(ban_lookup(users)) }
}

/// Banning a user, or lifting the ban.
pub fn ban_user_plan(user_id: u32) -> (p: WritePlan)
    ensures
        statements_of(p) == seq!["\n        update login\n        set is_ban = 1 - is_ban\n        where user_id = "@
            + decimal(user_id as nat) + ";\n    "@],
        is_reply(p.success, Status::Success, "修改成功"@, true),
{
    single(toggle_ban_query(user_id), quoted(Status::Success, "修改成功"))
}

/// The reply when banning fails.
pub fn ban_failed_reply() -> (r: Reply)
    ensures
        is_reply(r, Status::InternalServerError, "Error"@, false),
{
    plain(Status::InternalServerError, "Error")
}

/// Editing a user: name and e-mail in `user`, e-mail in `login`, and the administrator
/// role granted or taken.
pub fn update_user_info_plan(user_id: u32, username: &str, email: &str, is_admin: bool) -> (p: WritePlan)
    ensures
        statements_of(p).len() == 3,
        statements_of(p)[0] == "\n        update user\n        set name = '"@ + username@ + "', email = '"@ + email@
            + "'\n        where id = "@ + decimal(user_id as nat) + "; \n    "@,
        statements_of(p)[1] == "\n        update login\n        set email = '"@ + email@ + "'\n        where user_id = "@
            + decimal(user_id as nat) + ";\n    "@,
        is_admin ==> statements_of(p)[2] == "\n            insert IGNORE into admin\n                (user_id)\n            VALUES\n                ("@
            + decimal(user_id as nat) + ")\n        "@,
        !is_admin ==> statements_of(p)[2] == "\n            delete IGNORE from admin\n            where user_id = "@
            + decimal(user_id as nat) + ";\n        "@,
        is_reply(p.success, Status::Success, "成功"@, true),
{
    let mut statements: Vec<String> = Vec::new();
    statements.push(update_user_query(username, email, user_id));
    statements.push(update_login_email_query(email, user_id));
    if is_admin {
        statements.push(grant_admin_query(user_id));
    } else {
        statements.push(revoke_admin_query(user_id));
    }
    WritePlan { statements, success: quoted(Status::Success, "成功") }
}

pub open spec fn comment_authors(c: Seq<CommentRow>) -> Seq<u32> {
    c.map_values(|r: CommentRow| r.user_id)
}

/// The statement that reads the names and avatars of the authors of the comments.
pub fn comment_authors_query(comments: &Vec<CommentRow>) -> (q: String)
    ensures
        q@ == profiles_spec(comment_authors(comments@)),
{
    let mut ids: Vec<u32> = Vec::new();
    let mut i: usize = 0;
    while i < comments.len()
        invariant
            i <= comments.len(),
            ids@ == comment_authors(comments@.take(i as int)),
        decreases comments.len() - i,
    {
        ids.push(comments[i].user_id);
        assert(comment_authors(comments@.take(i + 1)) =~= comment_authors(comments@.take(i as int)).push(comments@[i as int].user_id));
        i = i + 1;
    }
    assert(comments@.take(comments.len() as int) =~= comments@);
    user_profiles_query(&ids)
}

/// The author of the commented post, who is notified, or the reply that the post does
/// not exist.
pub fn comment_recipient(rows: &Vec<u32>) -> (r: Result<u32, Reply>)
    ensures
        rows.len() == 0 ==> r is Err && is_reply(r->Err_0, Status::BadRequest, "Not this post"@, false),
        rows.len() > 0 ==> r == Ok::<u32, Reply>(rows@[0]),
{
    if rows.len() == 0 {
        Err(plain(Status::BadRequest, "Not this post"))
    } else {
        Ok(rows[0])
    }
}

/// The comment being submitted.
pub struct NewComment {
    pub post_id: u32,
    pub user_id: u32,
    pub username: String,
    pub avatar_url: String,
    pub release_time: String,
    pub comment: String,
}

/// Submitting a comment: first the notification of the post's author (its own
/// transaction), then the comment, whose new id is the reply.
pub fn submit_comment_statements(c: &NewComment, recver_id: u32) -> (r: (String, String))
    ensures
        r.0@ == "\n        insert IGNORE into message\n            (sender_id, recver_id, post_id, status)\n        VALUES\n            ("@
            + decimal(c.user_id as nat) + ", "@ + decimal(recver_id as nat) + ", "@ + decimal(c.post_id as nat) + ", 3);\n    "@,
        r.1@ == "\n        INSERT INTO\n            user_comment (\n                post_id, user_id, username, avatar_url, release_time, comment\n            )\n        VALUES (\n            "@
            + decimal(c.post_id as nat) + ", "@ + decimal(c.user_id as nat) + ", '"@ + c.username@ + "', '"@ + c.avatar_url@
            + "', '"@ + c.release_time@ + "', '"@ + c.comment@ + "'\n        );\n    "@,
{
    let message = insert_message_query(c.user_id, recver_id, c.post_id);
    let comment = insert_comment_query(
        c.post_id,
        c.user_id,
        c.username.as_str(),
        c.avatar_url.as_str(),
        c.release_time.as_str(),
        c.comment.as_str(),
    );
    (message, comment)
}

/// Deleting a comment.
pub fn delete_comment_plan(comment_id: u32) -> (p: WritePlan)
    ensures
        statements_of(p) == seq!["\n        delete from user_comment\n        where id = "@ + decimal(comment_id as nat) + ";\n    "@],
        is_reply(p.success, Status::Success, "删除成功"@, true),
{
    single(delete_comment_query(comment_id), quoted(Status::Success, "删除成功"))
}

/// Reporting a post. Its reply does not depend on the statement.
pub fn submit_report_plan(user_id: u32, post_id: u32, report_reason: &str) -> (p: WritePlan)
    ensures
        statements_of(p) == seq!["\n        insert into report_info \n            (user_id, post_id, release_time, report_reason)\n        VALUES\n            ("@
            + decimal(user_id as nat) + ", "@ + decimal(post_id as nat) + ", NOW(), '"@ + report_reason@ + "');\n    "@],
        is_reply(p.success, Status::Success, "插入成功"@, true),
{
    single(insert_report_query(user_id, post_id, report_reason), quoted(Status::Success, "插入成功"))
}

pub open spec fn report_users(r: Seq<ReportRow>) -> Seq<u32> {
    r.map_values(|x: ReportRow| x.user_id)
}

pub open spec fn report_posts(r: Seq<ReportRow>) -> Seq<u32> {
    r.map_values(|x: ReportRow| x.post_id)
}

/// The report list stops with an empty list when there is no report; otherwise the names
/// and avatars of the reporters and the titles of the reported posts are read.
pub fn report_lookups(reports: &Vec<ReportRow>) -> (r: Option<(String, String)>)
    ensures
        reports.len() == 0 <==> r is None,
        r matches Some(q) ==> q.0@ == profiles_spec(report_users(reports@)) && q.1@ == titles_spec(report_posts(reports@)),
{
    if reports.len() == 0 {
        return None;
    }
    let mut users: Vec<u32> = Vec::new();
    let mut posts: Vec<u32> = Vec::new();
    let mut i: usize = 0;
    while i < reports.len()
        invariant
            i <= reports.len(),
            users@ == report_users(reports@.take(i as int)),
            posts@ == report_posts(reports@.take(i as int)),
        decreases reports.len() - i,
    {
        users.push(reports[i].user_id);
        posts.push(reports[i].post_id);
        assert(report_users(reports@.take(i + 1)) =~= report_users(reports@.take(i as int)).push(reports@[i as int].user_id));
        assert(report_posts(reports@.take(i + 1)) =~= report_posts(reports@.take(i as int)).push(reports@[i as int].post_id));
        i = i + 1;
    }
    assert(reports@.take(reports.len() as int) =~= reports@);
    Some((user_profiles_query(&users), post_titles_query(&posts)))
}

/// The reply when someone who is not an administrator deletes a report.
pub fn not_admin_reply() -> (r: Reply)
    ensures
        is_reply(r, Status::BadRequest, "不是管理员"@, false),
{
    plain(Status::BadRequest, "不是管理员")
}

/// Deleting a report.
pub fn delete_report_plan(report_id: u32) -> (p: WritePlan)
    ensures
        statements_of(p) == seq!["\n        delete from report_info\n        where id = "@ + decimal(report_id as nat) + ";\n    "@],
        is_reply(p.success, Status::Success, "删除成功"@, true),
{
    single(delete_report_query(report_id), quoted(Status::Success, "删除成功"))
}

/// The labels read, as the label list returns them.
pub fn labels_from_rows(rows: Vec<(u32, String)>) -> (labels: Vec<Label>)
    ensures
        labels.len() == rows.len(),
        forall|i: int| 0 <= i < rows.len() ==> #[trigger] labels@[i].id == rows@[i].0 && labels@[i].label_name@ == rows@[i].1@,
{
    let mut labels: Vec<Label> = Vec::new();
    let mut i: usize = 0;
    while i < rows.len()
        invariant
            i <= rows.len(),
            labels.len() == i,
            forall|j: int| 0 <= j < i ==> #[trigger] labels@[j].id == rows@[j].0 && labels@[j].label_name@ == rows@[j].1@,
        decreases rows.len() - i,
    {
        labels.push(Label { id: rows[i].0, label_name: rows[i].1.clone() });
        i = i + 1;
    }
    labels
}

/// Deleting a label from the label page.
pub fn delete_label_plan(label_id: u32) -> (p: WritePlan)
    ensures
        statements_of(p) == seq!["\n        delete ignore\n        from label\n        where id = "@ + decimal(label_id as nat) + ";\n    "@],
        is_reply(p.success, Status::Success, "删除成功"@, true),
{
    single(delete_label_ignore_query(label_id), quoted(Status::Success, "删除成功"))
}

/// The label page adds a label only when its count statement returns a non-zero first
/// count; a zero count answers that the label exists.
pub fn add_label_check(counts: &Vec<u32>) -> (r: Result<(), Reply>)
    requires
        counts.len() > 0,
    ensures
        counts@[0] == 0 ==> r is Err && is_reply(r->Err_0, Status::BadRequest, "标签已经存在"@, false),
        counts@[0] != 0 ==> r is Ok,
{
    if counts[0] == 0 {
        Err(plain(Status::BadRequest, "标签已经存在"))
    } else {
        Ok(())
    }
}

/// Management deletes a label only when no post carries it.
pub fn delete_label_check(counts: &Vec<u32>) -> (r: Result<(), Reply>)
    requires
        counts.len() > 0,
    ensures
        counts@[0] > 0 ==> r is Err && is_reply(r->Err_0, Status::Forbidden, "forbid delete"@, false),
        counts@[0] == 0 ==> r is Ok,
{
    if counts[0] > 0 {
        Err(plain(Status::Forbidden, "forbid delete"))
    } else {
        Ok(())
    }
}

/// Deleting a label from the management page.
pub fn managemrnt_delete_label_plan(label_id: u32) -> (p: WritePlan)
    ensures
        statements_of(p) == seq!["\n        delete from label\n        where id = "@ + decimal(label_id as nat) + ";\n    "@],
        is_reply(p.success, Status::Success, "delete success"@, false),
{
    single(delete_label_query(label_id), plain(Status::Success, "delete success"))
}

/// Whether a user liked and collected a post, from the two counts.
pub fn like_collect(likes: &Vec<u32>, collects: &Vec<u32>) -> (r: ResLikeCollect)
    requires
        likes.len() > 0,
        collects.len() > 0,
    ensures
        r.like == (likes@[0] != 0),
        r.collect == (collects@[0] != 0),
{
    ResLikeCollect { like: likes[0] != 0, collect: collects[0] != 0 }
}

/// The four changes to likes and collections.
#[derive(Debug, Clone, Copy, PartialEq, Eq, Structural)]
pub enum LikeChange {
    AddLike,
    SubLike,
    AddCollect,
    SubCollect,
}

/// Liking, unliking, collecting or uncollecting a post.
pub fn like_change_plan(change: LikeChange, user_id: u32, post_id: u32) -> (p: WritePlan)
    ensures
        statements_of(p).len() == 1,
        change == LikeChange::AddLike ==> statements_of(p)[0] == "\n        insert into like_post\n            (user_id, post_id)\n        VALUES\n            ("@
            + decimal(user_id as nat) + ", "@ + decimal(post_id as nat) + ")\n    "@
            && is_reply(p.success, Status::Success, "点赞成功"@, true),
        change == LikeChange::SubLike ==> statements_of(p)[0] == "\n        delete from like_post \n        where user_id = "@
            + decimal(user_id as nat) + " and post_id = "@ + decimal(post_id as nat) + "\n    "@
            && is_reply(p.success, Status::Success, "取消点赞成功"@, true),
        change == LikeChange::AddCollect ==> statements_of(p)[0] == "\n        insert into collect_post\n            (user_id, post_id)\n        VALUES\n            ("@
            + decimal(user_id as nat) + ", "@ + decimal(post_id as nat) + ");\n    "@
            && is_reply(p.success, Status::Success, "收藏成功"@, true),
        change == LikeChange::SubCollect ==> statements_of(p)[0] == "\n        delete from collect_post \n        where user_id = "@
            + decimal(user_id as nat) + " and post_id = "@ + decimal(post_id as nat) + ";\n    "@
            && is_reply(p.success, Status::Success, "取消收藏成功"@, true),
{
    match change {
        LikeChange::AddLike => single(add_like_query(user_id, post_id), quoted(Status::Success, "点赞成功")),
        LikeChange::SubLike => single(sub_like_query(user_id, post_id), quoted(Status::Success, "取消点赞成功")),
        LikeChange::AddCollect => single(add_collect_query(user_id, post_id), quoted(Status::Success, "收藏成功")),
        LikeChange::SubCollect => single(sub_collect_query(user_id, post_id), quoted(Status::Success, "取消收藏成功")),
    }
}

/// The statements that read the people and posts behind notifications, comments,
/// reports and managed users name exactly the row ids of the list, one per row and in
/// the list's order.
pub proof fn lemma_lookup_ids_list_every_row(
    messages: Seq<MessageRow>,
    comments: Seq<CommentRow>,
    reports: Seq<ReportRow>,
    managed: Seq<ManagedUserRow>,
)
    ensures
        message_senders(messages).len() == messages.len(),
        message_posts(messages).len() == messages.len(),
        forall|i: int| 0 <= i < messages.len() ==>
            #[trigger] message_senders(messages)[i] == messages[i].sender_id && message_posts(messages)[i] == messages[i].post_id,
        comment_authors(comments).len() == comments.len(),
        forall|i: int| 0 <= i < comments.len() ==> #[trigger] comment_authors(comments)[i] == comments[i].user_id,
        report_users(reports).len() == reports.len(),
        report_posts(reports).len() == reports.len(),
        forall|i: int| 0 <= i < reports.len() ==>
            #[trigger] report_users(reports)[i] == reports[i].user_id && report_posts(reports)[i] == reports[i].post_id,
        managed_ids(managed).len() == managed.len(),
        forall|i: int| 0 <= i < managed.len() ==> #[trigger] managed_ids(managed)[i] == managed[i].user_id,
{
}

/// The user page shows the stored avatar whenever it is longer than one byte: any two
/// characters, or one character outside ASCII. An empty avatar or a single ASCII
/// character is replaced by the default avatar.
pub proof fn lemma_avatar_unless_short(stored: Seq<char>)
    ensures
        stored.len() >= 2 ==> avatar_unless_short(stored) == stored,
        stored.len() == 1 && (stored[0] as u32) > 0x7F ==> avatar_unless_short(stored) == stored,
        stored.len() == 0 ==> avatar_unless_short(stored) == AVATAR_URL@,
        stored.len() == 1 && (stored[0] as u32) <= 0x7F ==> avatar_unless_short(stored) == AVATAR_URL@,
{
    lemma_short_utf8(stored);
}

} // verus!
