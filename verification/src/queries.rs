//! The SQL statements the endpoints send, each built from its parameters exactly as the
//! endpoint writes it. Text parameters are placed into the statements unescaped.

use vstd::prelude::*;
use crate::text::{decimal, joined, push_decimal, push_joined, push_signed_decimal, signed_decimal};

verus! {

/// Counts the follow relation from `follower_id` to `following_id`.
pub fn follow_relationship_query(follower_id: u32, following_id: u32) -> (q: String)
    ensures
        q@ == "\n        select count(*) \n        from follow\n        where follower_id = "@ + decimal(follower_id as nat) + " and following_id = "@ + decimal(following_id as nat) + ";"@,
{
    let mut q = String::from_str("\n        select count(*) \n        from follow\n        where follower_id = ");
    push_decimal(&mut q, follower_id as u64);
    q.append(" and following_id = ");
    push_decimal(&mut q, following_id as u64);
    q.append(";");
    q
}

/// Counts the users that `user_id` follows.
pub fn follow_count_query(user_id: u32) -> (q: String)
    ensures
        q@ == "SELECT COUNT(*) FROM follow where follower_id = "@ + decimal(user_id as nat) + ";"@,
{
    let mut q = String::from_str("SELECT COUNT(*) FROM follow where follower_id = ");
    push_decimal(&mut q, user_id as u64);
    q.append(";");
    q
}

/// Reads a page of ten posts by the users that `user_id` follows, newest first.
pub fn follow_posts_query(user_id: u32, start: u32) -> (q: String)
    ensures
        q@ == "\n            SELECT post.id, post.title, post.release_time, post.cover_url, \n                post.content_url, post.user_id FROM post\n            JOIN follow ON post.user_id = follow.following_id \n            WHERE follow.follower_id = "@ + decimal(user_id as nat) + "\n            ORDER BY post.release_time DESC\n            LIMIT "@ + decimal(start as nat) + ", 10;\n    "@,
{
    let mut q = String::from_str("\n            SELECT post.id, post.title, post.release_time, post.cover_url, \n                post.content_url, post.user_id FROM post\n            JOIN follow ON post.user_id = follow.following_id \n            WHERE follow.follower_id = ");
    push_decimal(&mut q, user_id as u64);
    q.append("\n            ORDER BY post.release_time DESC\n            LIMIT ");
    push_decimal(&mut q, start as u64);
    q.append(", 10;\n    ");
    q
}

/// Reads the names of the users with the given ids.
pub fn user_names_query(ids: &Vec<u32>) -> (q: String)
    ensures
        q@ == "\n        select id, name\n        from user\n        where id in ("@ + joined(ids@, ","@) + ");\n    "@,
{
    let mut q = String::from_str("\n        select id, name\n        from user\n        where id in (");
    push_joined(&mut q, ids, ",");
    q.append(");\n    ");
    q
}

/// Reads the id of the user registered with `email`.
pub fn user_by_email_query(email: &str) -> (q: String)
    ensures
        q@ == "select id from user where email = '"@ + email@ + "';"@,
{
    let mut q = String::from_str("select id from user where email = '");
    q.append(email);
    q.append("';");
    q
}

/// Sets the password of the login registered with `email`.
pub fn reset_password_query(password: &str, email: &str) -> (q: String)
    ensures
        q@ == "\n            update login\n            set password = '"@ + password@ + "'\n            where email = '"@ + email@ + "';\n        "@,
{
    let mut q = String::from_str("\n            update login\n            set password = '");
    q.append(password);
    q.append("'\n            where email = '");
    q.append(email);
    q.append("';\n        ");
    q
}

/// Reads every label.
pub fn labels_query() -> (q: String)
    ensures
        q@ == "\n        select id, name\n        from label;\n    "@,
{
    let q = String::from_str("\n        select id, name\n        from label;\n    ");
    q
}

/// Deletes label `label_id`, ignoring errors.
pub fn delete_label_ignore_query(label_id: u32) -> (q: String)
    ensures
        q@ == "\n        delete ignore\n        from label\n        where id = "@ + decimal(label_id as nat) + ";\n    "@,
{
    let mut q = String::from_str("\n        delete ignore\n        from label\n        where id = ");
    push_decimal(&mut q, label_id as u64);
    q.append(";\n    ");
    q
}

/// Counts labels named `label` (the statement as the label page writes it).
pub fn label_name_count_query(label: &str) -> (q: String)
    ensures
        q@ == "\n        select count(*)\n        from name = '"@ + label@ + "';\n    "@,
{
    let mut q = String::from_str("\n        select count(*)\n        from name = '");
    q.append(label);
    q.append("';\n    ");
    q
}

/// Inserts a label into the `label` column (the statement as the label page writes it).
pub fn insert_label_column_query(label: &str) -> (q: String)
    ensures
        q@ == "\n        insert into label\n            (label)\n        VALUES\n            ('"@ + label@ + "')\n    "@,
{
    let mut q = String::from_str("\n        insert into label\n            (label)\n        VALUES\n            ('");
    q.append(label);
    q.append("')\n    ");
    q
}

/// Inserts a label named `label_name`.
pub fn insert_label_query(label_name: &str) -> (q: String)
    ensures
        q@ == "\n        insert into label\n            (name)\n        VALUES\n            ('"@ + label_name@ + "')\n    "@,
{
    let mut q = String::from_str("\n        insert into label\n            (name)\n        VALUES\n            ('");
    q.append(label_name);
    q.append("')\n    ");
    q
}

/// Counts the posts carrying label `label_id`.
pub fn label_usage_query(label_id: u32) -> (q: String)
    ensures
        q@ == "\n        select count(*)\n        from post\n        where label_id = "@ + decimal(label_id as nat) + "\n    "@,
{
    let mut q = String::from_str("\n        select count(*)\n        from post\n        where label_id = ");
    push_decimal(&mut q, label_id as u64);
    q.append("\n    ");
    q
}

/// Deletes label `label_id`.
pub fn delete_label_query(label_id: u32) -> (q: String)
    ensures
        q@ == "\n        delete from label\n        where id = "@ + decimal(label_id as nat) + ";\n    "@,
{
    let mut q = String::from_str("\n        delete from label\n        where id = ");
    push_decimal(&mut q, label_id as u64);
    q.append(";\n    ");
    q
}

/// Counts the likes of `user_id` on `post_id`.
pub fn like_count_query(user_id: u32, post_id: u32) -> (q: String)
    ensures
        q@ == "\n        select count(*) from like_post \n        where user_id = "@ + decimal(user_id as nat) + " and post_id = "@ + decimal(post_id as nat) + ";\n    "@,
{
    let mut q = String::from_str("\n        select count(*) from like_post \n        where user_id = ");
    push_decimal(&mut q, user_id as u64);
    q.append(" and post_id = ");
    push_decimal(&mut q, post_id as u64);
    q.append(";\n    ");
    q
}

/// Counts the collections of `post_id` by `user_id`.
pub fn collect_count_query(user_id: u32, post_id: u32) -> (q: String)
    ensures
        q@ == "\n        select count(*) from collect_post \n        where user_id = "@ + decimal(user_id as nat) + " and post_id = "@ + decimal(post_id as nat) + ";\n    "@,
{
    let mut q = String::from_str("\n        select count(*) from collect_post \n        where user_id = ");
    push_decimal(&mut q, user_id as u64);
    q.append(" and post_id = ");
    push_decimal(&mut q, post_id as u64);
    q.append(";\n    ");
    q
}

/// Records that `user_id` likes `post_id`.
pub fn add_like_query(user_id: u32, post_id: u32) -> (q: String)
    ensures
        q@ == "\n        insert into like_post\n            (user_id, post_id)\n        VALUES\n            ("@ + decimal(user_id as nat) + ", "@ + decimal(post_id as nat) + ")\n    "@,
{
    let mut q = String::from_str("\n        insert into like_post\n            (user_id, post_id)\n        VALUES\n            (");
    push_decimal(&mut q, user_id as u64);
    q.append(", ");
    push_decimal(&mut q, post_id as u64);
    q.append(")\n    ");
    q
}

/// Withdraws the like of `user_id` on `post_id`.
pub fn sub_like_query(user_id: u32, post_id: u32) -> (q: String)
    ensures
        q@ == "\n        delete from like_post \n        where user_id = "@ + decimal(user_id as nat) + " and post_id = "@ + decimal(post_id as nat) + "\n    "@,
{
    let mut q = String::from_str("\n        delete from like_post \n        where user_id = ");
    push_decimal(&mut q, user_id as u64);
    q.append(" and post_id = ");
    push_decimal(&mut q, post_id as u64);
    q.append("\n    ");
    q
}

/// Records that `user_id` collects `post_id`.
pub fn add_collect_query(user_id: u32, post_id: u32) -> (q: String)
    ensures
        q@ == "\n        insert into collect_post\n            (user_id, post_id)\n        VALUES\n            ("@ + decimal(user_id as nat) + ", "@ + decimal(post_id as nat) + ");\n    "@,
{
    let mut q = String::from_str("\n        insert into collect_post\n            (user_id, post_id)\n        VALUES\n            (");
    push_decimal(&mut q, user_id as u64);
    q.append(", ");
    push_decimal(&mut q, post_id as u64);
    q.append(");\n    ");
    q
}

/// Withdraws the collection of `post_id` by `user_id`.
pub fn sub_collect_query(user_id: u32, post_id: u32) -> (q: String)
    ensures
        q@ == "\n        delete from collect_post \n        where user_id = "@ + decimal(user_id as nat) + " and post_id = "@ + decimal(post_id as nat) + ";\n    "@,
{
    let mut q = String::from_str("\n        delete from collect_post \n        where user_id = ");
    push_decimal(&mut q, user_id as u64);
    q.append(" and post_id = ");
    push_decimal(&mut q, post_id as u64);
    q.append(";\n    ");
    q
}

/// Reads the id and password of the login registered with `email`.
pub fn login_by_email_query(email: &str) -> (q: String)
    ensures
        q@ == "select user_id, password from login where email = '"@ + email@ + "';"@,
{
    let mut q = String::from_str("select user_id, password from login where email = '");
    q.append(email);
    q.append("';");
    q
}

/// Reads the id, name and avatar of user `id`.
pub fn user_card_query(id: u32) -> (q: String)
    ensures
        q@ == "SELECT id, name, avatar_url FROM user WHERE id = "@ + decimal(id as nat),
{
    let mut q = String::from_str("SELECT id, name, avatar_url FROM user WHERE id = ");
    push_decimal(&mut q, id as u64);
    q
}

/// Reads the follow and fan counts of user `id`.
pub fn user_stats_query(id: u32) -> (q: String)
    ensures
        q@ == "select follower_count, fans from user_stats where user_id = "@ + decimal(id as nat),
{
    let mut q = String::from_str("select follower_count, fans from user_stats where user_id = ");
    push_decimal(&mut q, id as u64);
    q
}

/// Reads post `post_id` with the path of its content.
pub fn post_query(post_id: u32) -> (q: String)
    ensures
        q@ == "SELECT id, title, release_time, \n        cover_url, content_url, user_id, user_name FROM post where id = "@ + decimal(post_id as nat),
{
    let mut q = String::from_str("SELECT id, title, release_time, \n        cover_url, content_url, user_id, user_name FROM post where id = ");
    push_decimal(&mut q, post_id as u64);
    q
}

/// Deletes the collections of post `post_id`.
pub fn delete_post_collects_query(post_id: u32) -> (q: String)
    ensures
        q@ == "\n        delete from collect_post\n        where post_id = "@ + decimal(post_id as nat) + ";\n    "@,
{
    let mut q = String::from_str("\n        delete from collect_post\n        where post_id = ");
    push_decimal(&mut q, post_id as u64);
    q.append(";\n    ");
    q
}

/// Deletes the comments on post `post_id`.
pub fn delete_post_comments_query(post_id: u32) -> (q: String)
    ensures
        q@ == "\n        delete from user_comment\n        where post_id = "@ + decimal(post_id as nat) + ";\n    "@,
{
    let mut q = String::from_str("\n        delete from user_comment\n        where post_id = ");
    push_decimal(&mut q, post_id as u64);
    q.append(";\n    ");
    q
}

/// Deletes post `post_id`.
pub fn delete_post_query(post_id: u32) -> (q: String)
    ensures
        q@ == "\n        delete from post\n        where id = "@ + decimal(post_id as nat) + ";\n    "@,
{
    let mut q = String::from_str("\n        delete from post\n        where id = ");
    push_decimal(&mut q, post_id as u64);
    q.append(";\n    ");
    q
}

/// Inserts a post released now.
pub fn insert_post_query(title: &str, cover_url: &str, content_url: &str, user_id: u32, user_name: &str) -> (q: String)
    ensures
        q@ == "\n        insert into post\n            (title, release_time, cover_url, content_url, user_id, user_name)\n        VALUES\n            ('"@ + title@ + "', NOW(), '"@ + cover_url@ + "', '"@ + content_url@ + "', "@ + decimal(user_id as nat) + ", '"@ + user_name@ + "');\n    "@,
{
    let mut q = String::from_str("\n        insert into post\n            (title, release_time, cover_url, content_url, user_id, user_name)\n        VALUES\n            ('");
    q.append(title);
    q.append("', NOW(), '");
    q.append(cover_url);
    q.append("', '");
    q.append(content_url);
    q.append("', ");
    push_decimal(&mut q, user_id as u64);
    q.append(", '");
    q.append(user_name);
    q.append("');\n    ");
    q
}

/// Counts all posts.
pub fn post_total_query() -> (q: String)
    ensures
        q@ == "select count(*) from post"@,
{
    let q = String::from_str("select count(*) from post");
    q
}

/// Reads twenty posts with their labels from `start` on, newest first.
pub fn management_posts_query(start: u32) -> (q: String)
    ensures
        q@ == "SELECT id, title, release_time, cover_url, content_url, user_id, label_id\n        FROM post\n        order by release_time desc\n        LIMIT "@ + decimal(start as nat) + ", 20"@,
{
    let mut q = String::from_str("SELECT id, title, release_time, cover_url, content_url, user_id, label_id\n        FROM post\n        order by release_time desc\n        LIMIT ");
    push_decimal(&mut q, start as u64);
    q.append(", 20");
    q
}

/// Reads the names of the labels with the given ids.
pub fn label_names_query(ids: &Vec<u32>) -> (q: String)
    ensures
        q@ == "\n        select id, name \n        from label\n        where id in ("@ + joined(ids@, ","@) + ")\n    "@,
{
    let mut q = String::from_str("\n        select id, name \n        from label\n        where id in (");
    push_joined(&mut q, ids, ",");
    q.append(")\n    ");
    q
}

/// Counts the posts whose title contains `search_query`.
pub fn title_count_query(search_query: &str) -> (q: String)
    ensures
        q@ == "\n        select count(*)\n        from post\n        where title like '%"@ + search_query@ + "%';\n    "@,
{
    let mut q = String::from_str("\n        select count(*)\n        from post\n        where title like '%");
    q.append(search_query);
    q.append("%';\n    ");
    q
}

/// Reads twenty posts whose title contains `search_query` from `start` on, latest id first.
pub fn title_posts_query(search_query: &str, start: u32) -> (q: String)
    ensures
        q@ == "SELECT id, title, release_time, cover_url, content_url, user_id, label_id\n        FROM post\n        where title like '%"@ + search_query@ + "%'\n        order by id desc\n        LIMIT "@ + decimal(start as nat) + ", 20;"@,
{
    let mut q = String::from_str("SELECT id, title, release_time, cover_url, content_url, user_id, label_id\n        FROM post\n        where title like '%");
    q.append(search_query);
    q.append("%'\n        order by id desc\n        LIMIT ");
    push_decimal(&mut q, start as u64);
    q.append(", 20;");
    q
}

/// Counts the posts carrying label `label_id`.
pub fn label_count_query(label_id: u32) -> (q: String)
    ensures
        q@ == "\n        select count(*)\n        from post\n        where label_id = "@ + decimal(label_id as nat) + ";\n    "@,
{
    let mut q = String::from_str("\n        select count(*)\n        from post\n        where label_id = ");
    push_decimal(&mut q, label_id as u64);
    q.append(";\n    ");
    q
}

/// Reads twenty posts carrying label `label_id` from `start` on, latest id first.
pub fn label_posts_query(label_id: u32, start: u32) -> (q: String)
    ensures
        q@ == "\n        select id, title, release_time, cover_url, content_url, user_id, label_id\n        from post\n        where label_id = "@ + decimal(label_id as nat) + "\n        order by id desc\n        LIMIT "@ + decimal(start as nat) + ", 20;\n    "@,
{
    let mut q = String::from_str("\n        select id, title, release_time, cover_url, content_url, user_id, label_id\n        from post\n        where label_id = ");
    push_decimal(&mut q, label_id as u64);
    q.append("\n        order by id desc\n        LIMIT ");
    push_decimal(&mut q, start as u64);
    q.append(", 20;\n    ");
    q
}

/// Counts the posts carrying label `label_id` whose title contains `search_query`.
pub fn title_label_count_query(label_id: u32, search_query: &str) -> (q: String)
    ensures
        q@ == "\n        select count(*)\n        from post\n        where label_id = "@ + decimal(label_id as nat) + " and title like '%"@ + search_query@ + "%';\n    "@,
{
    let mut q = String::from_str("\n        select count(*)\n        from post\n        where label_id = ");
    push_decimal(&mut q, label_id as u64);
    q.append(" and title like '%");
    q.append(search_query);
    q.append("%';\n    ");
    q
}

/// Reads the posts carrying label `label_id` whose title contains `search_query` (the statement as the management page writes it).
pub fn title_label_posts_query(label_id: u32, search_query: &str, start: u32) -> (q: String)
    ensures
        q@ == "\n        select id, title, release_time, cover_url, content_url, user_id, label_id\n        from post\n        where label_id = "@ + decimal(label_id as nat) + " and title like '%"@ + search_query@ + "%';\n        LIMIT "@ + decimal(start as nat) + ", 20;\n    "@,
{
    let mut q = String::from_str("\n        select id, title, release_time, cover_url, content_url, user_id, label_id\n        from post\n        where label_id = ");
    push_decimal(&mut q, label_id as u64);
    q.append(" and title like '%");
    q.append(search_query);
    q.append("%';\n        LIMIT ");
    push_decimal(&mut q, start as u64);
    q.append(", 20;\n    ");
    q
}

/// Counts all posts, for the recommendation pages.
pub fn recommend_total_query() -> (q: String)
    ensures
        q@ == "SELECT COUNT(*) FROM post;"@,
{
    let q = String::from_str("SELECT COUNT(*) FROM post;");
    q
}

/// Reads ten posts from `start` on, newest first.
pub fn recommend_posts_query(start: u32) -> (q: String)
    ensures
        q@ == "SELECT id, title, release_time, cover_url, content_url, user_id\n        FROM post\n        order by release_time desc\n        LIMIT "@ + decimal(start as nat) + ", 10"@,
{
    let mut q = String::from_str("SELECT id, title, release_time, cover_url, content_url, user_id\n        FROM post\n        order by release_time desc\n        LIMIT ");
    push_decimal(&mut q, start as u64);
    q.append(", 10");
    q
}

/// Reads the id of the login registered with `email`.
pub fn login_id_by_email_query(email: &str) -> (q: String)
    ensures
        q@ == "select user_id from login where email = '"@ + email@ + "';"@,
{
    let mut q = String::from_str("select user_id from login where email = '");
    q.append(email);
    q.append("';");
    q
}

/// Inserts a user registered now.
pub fn insert_user_query(name: &str, email: &str, avatar_url: &str) -> (q: String)
    ensures
        q@ == "INSERT INTO user \n                (name, email, avatar_url, register_time)\n            VALUES\n                ('"@ + name@ + "', '"@ + email@ + "', '"@ + avatar_url@ + "', NOW());"@,
{
    let mut q = String::from_str("INSERT INTO user \n                (name, email, avatar_url, register_time)\n            VALUES\n                ('");
    q.append(name);
    q.append("', '");
    q.append(email);
    q.append("', '");
    q.append(avatar_url);
    q.append("', NOW());");
    q
}

/// Inserts zero follow and fan counts for user `user_id`.
pub fn insert_user_stats_query(user_id: u32) -> (q: String)
    ensures
        q@ == "insert into user_stats\n                (user_id, follower_count, fans)\n            values\n                ("@ + decimal(user_id as nat) + ", 0, 0);"@,
{
    let mut q = String::from_str("insert into user_stats\n                (user_id, follower_count, fans)\n            values\n                (");
    push_decimal(&mut q, user_id as u64);
    q.append(", 0, 0);");
    q
}

/// Inserts the login of user `user_id`.
pub fn insert_login_query(user_id: u32, email: &str, password: &str) -> (q: String)
    ensures
        q@ == "INSERT INTO login\n                (user_id, email, password)\n            VALUES\n                ("@ + decimal(user_id as nat) + ", '"@ + email@ + "', '"@ + password@ + "');"@,
{
    let mut q = String::from_str("INSERT INTO login\n                (user_id, email, password)\n            VALUES\n                (");
    push_decimal(&mut q, user_id as u64);
    q.append(", '");
    q.append(email);
    q.append("', '");
    q.append(password);
    q.append("');");
    q
}

/// Inserts a report of `post_id` by `user_id`, made now.
pub fn insert_report_query(user_id: u32, post_id: u32, report_reason: &str) -> (q: String)
    ensures
        q@ == "\n        insert into report_info \n            (user_id, post_id, release_time, report_reason)\n        VALUES\n            ("@ + decimal(user_id as nat) + ", "@ + decimal(post_id as nat) + ", NOW(), '"@ + report_reason@ + "');\n    "@,
{
    let mut q = String::from_str("\n        insert into report_info \n            (user_id, post_id, release_time, report_reason)\n        VALUES\n            (");
    push_decimal(&mut q, user_id as u64);
    q.append(", ");
    push_decimal(&mut q, post_id as u64);
    q.append(", NOW(), '");
    q.append(report_reason);
    q.append("');\n    ");
    q
}

/// Counts all reports.
pub fn report_total_query() -> (q: String)
    ensures
        q@ == "\n        select count(*) from report_info;\n    "@,
{
    let q = String::from_str("\n        select count(*) from report_info;\n    ");
    q
}

/// Reads every report.
pub fn reports_query() -> (q: String)
    ensures
        q@ == "\n        select id, user_id, post_id, release_time, report_reason\n        from report_info;\n    "@,
{
    let q = String::from_str("\n        select id, user_id, post_id, release_time, report_reason\n        from report_info;\n    ");
    q
}

/// Reads the names and avatars of the users with the given ids.
pub fn user_profiles_query(ids: &Vec<u32>) -> (q: String)
    ensures
        q@ == "\n        select id, name, avatar_url\n        from user\n        where id in ("@ + joined(ids@, ","@) + ");\n    "@,
{
    let mut q = String::from_str("\n        select id, name, avatar_url\n        from user\n        where id in (");
    push_joined(&mut q, ids, ",");
    q.append(");\n    ");
    q
}

/// Reads the titles of the posts with the given ids.
pub fn post_titles_query(ids: &Vec<u32>) -> (q: String)
    ensures
        q@ == "\n        select id, title\n        from post\n        where id in ("@ + joined(ids@, ","@) + ");\n    "@,
{
    let mut q = String::from_str("\n        select id, title\n        from post\n        where id in (");
    push_joined(&mut q, ids, ",");
    q.append(");\n    ");
    q
}

/// Deletes report `report_id`.
pub fn delete_report_query(report_id: u32) -> (q: String)
    ensures
        q@ == "\n        delete from report_info\n        where id = "@ + decimal(report_id as nat) + ";\n    "@,
{
    let mut q = String::from_str("\n        delete from report_info\n        where id = ");
    push_decimal(&mut q, report_id as u64);
    q.append(";\n    ");
    q
}

/// Reads the release time, cover and author of the posts with the given ids.
pub fn search_posts_query(ids: &Vec<u32>) -> (q: String)
    ensures
        q@ == "\n        SELECT release_time, cover_url, user_id\n        FROM post\n        where id in ("@ + joined(ids@, ","@) + ");\n    "@,
{
    let mut q = String::from_str("\n        SELECT release_time, cover_url, user_id\n        FROM post\n        where id in (");
    push_joined(&mut q, ids, ",");
    q.append(");\n    ");
    q
}

/// Reads the comments on post `post_id`, newest first.
pub fn comments_query(post_id: u32) -> (q: String)
    ensures
        q@ == "\n        select id, post_id, user_id, release_time, comment\n        from user_comment\n        where post_id = "@ + decimal(post_id as nat) + "\n        ORDER BY release_time DESC;\n    "@,
{
    let mut q = String::from_str("\n        select id, post_id, user_id, release_time, comment\n        from user_comment\n        where post_id = ");
    push_decimal(&mut q, post_id as u64);
    q.append("\n        ORDER BY release_time DESC;\n    ");
    q
}

/// Reads the author of post `post_id`.
pub fn post_author_query(post_id: u32) -> (q: String)
    ensures
        q@ == "\n        select user_id\n        from post\n        where id = "@ + decimal(post_id as nat) + ";\n    "@,
{
    let mut q = String::from_str("\n        select user_id\n        from post\n        where id = ");
    push_decimal(&mut q, post_id as u64);
    q.append(";\n    ");
    q
}

/// Inserts a comment on post `post_id`.
pub fn insert_comment_query(post_id: u32, user_id: u32, username: &str, avatar_url: &str, release_time: &str, comment: &str) -> (q: String)
    ensures
        q@ == "\n        INSERT INTO\n            user_comment (\n                post_id, user_id, username, avatar_url, release_time, comment\n            )\n        VALUES (\n            "@ + decimal(post_id as nat) + ", "@ + decimal(user_id as nat) + ", '"@ + username@ + "', '"@ + avatar_url@ + "', '"@ + release_time@ + "', '"@ + comment@ + "'\n        );\n    "@,
{
    let mut q = String::from_str("\n        INSERT INTO\n            user_comment (\n                post_id, user_id, username, avatar_url, release_time, comment\n            )\n        VALUES (\n            ");
    push_decimal(&mut q, post_id as u64);
    q.append(", ");
    push_decimal(&mut q, user_id as u64);
    q.append(", '");
    q.append(username);
    q.append("', '");
    q.append(avatar_url);
    q.append("', '");
    q.append(release_time);
    q.append("', '");
    q.append(comment);
    q.append("'\n        );\n    ");
    q
}

/// Notifies `recver_id` that `sender_id` commented on `post_id`.
pub fn insert_message_query(sender_id: u32, recver_id: u32, post_id: u32) -> (q: String)
    ensures
        q@ == "\n        insert IGNORE into message\n            (sender_id, recver_id, post_id, status)\n        VALUES\n            ("@ + decimal(sender_id as nat) + ", "@ + decimal(recver_id as nat) + ", "@ + decimal(post_id as nat) + ", 3);\n    "@,
{
    let mut q = String::from_str("\n        insert IGNORE into message\n            (sender_id, recver_id, post_id, status)\n        VALUES\n            (");
    push_decimal(&mut q, sender_id as u64);
    q.append(", ");
    push_decimal(&mut q, recver_id as u64);
    q.append(", ");
    push_decimal(&mut q, post_id as u64);
    q.append(", 3);\n    ");
    q
}

/// Deletes comment `comment_id`.
pub fn delete_comment_query(comment_id: u32) -> (q: String)
    ensures
        q@ == "\n        delete from user_comment\n        where id = "@ + decimal(comment_id as nat) + ";\n    "@,
{
    let mut q = String::from_str("\n        delete from user_comment\n        where id = ");
    push_decimal(&mut q, comment_id as u64);
    q.append(";\n    ");
    q
}

/// Counts all users.
pub fn user_total_query() -> (q: String)
    ensures
        q@ == "select count(*) from user"@,
{
    let q = String::from_str("select count(*) from user");
    q
}

/// Reads the administrator entry of `user_id`.
pub fn admin_query(user_id: u32) -> (q: String)
    ensures
        q@ == "\n        select user_id\n        from admin\n        where user_id = "@ + decimal(user_id as nat) + ";\n    "@,
{
    let mut q = String::from_str("\n        select user_id\n        from admin\n        where user_id = ");
    push_decimal(&mut q, user_id as u64);
    q.append(";\n    ");
    q
}

/// Reads twenty users from `start` on.
pub fn managed_users_query(start: u32) -> (q: String)
    ensures
        q@ == "\n        select id, email, name, avatar_url, register_time\n        from user\n        limit "@ + decimal(start as nat) + ", 20;\n    "@,
{
    let mut q = String::from_str("\n        select id, email, name, avatar_url, register_time\n        from user\n        limit ");
    push_decimal(&mut q, start as u64);
    q.append(", 20;\n    ");
    q
}

/// Reads whether the users with the given ids are banned.
pub fn login_bans_query(ids: &Vec<u32>) -> (q: String)
    ensures
        q@ == "\n        select user_id, is_ban\n        from login\n        where user_id in ("@ + joined(ids@, ","@) + ");\n    "@,
{
    let mut q = String::from_str("\n        select user_id, is_ban\n        from login\n        where user_id in (");
    push_joined(&mut q, ids, ",");
    q.append(");\n    ");
    q
}

/// Bans user `user_id`, or lifts the ban.
pub fn toggle_ban_query(user_id: u32) -> (q: String)
    ensures
        q@ == "\n        update login\n        set is_ban = 1 - is_ban\n        where user_id = "@ + decimal(user_id as nat) + ";\n    "@,
{
    let mut q = String::from_str("\n        update login\n        set is_ban = 1 - is_ban\n        where user_id = ");
    push_decimal(&mut q, user_id as u64);
    q.append(";\n    ");
    q
}

/// Sets the name and e-mail of user `user_id`.
pub fn update_user_query(username: &str, email: &str, user_id: u32) -> (q: String)
    ensures
        q@ == "\n        update user\n        set name = '"@ + username@ + "', email = '"@ + email@ + "'\n        where id = "@ + decimal(user_id as nat) + "; \n    "@,
{
    let mut q = String::from_str("\n        update user\n        set name = '");
    q.append(username);
    q.append("', email = '");
    q.append(email);
    q.append("'\n        where id = ");
    push_decimal(&mut q, user_id as u64);
    q.append("; \n    ");
    q
}

/// Sets the e-mail of the login of user `user_id`.
pub fn update_login_email_query(email: &str, user_id: u32) -> (q: String)
    ensures
        q@ == "\n        update login\n        set email = '"@ + email@ + "'\n        where user_id = "@ + decimal(user_id as nat) + ";\n    "@,
{
    let mut q = String::from_str("\n        update login\n        set email = '");
    q.append(email);
    q.append("'\n        where user_id = ");
    push_decimal(&mut q, user_id as u64);
    q.append(";\n    ");
    q
}

/// Makes user `user_id` an administrator.
pub fn grant_admin_query(user_id: u32) -> (q: String)
    ensures
        q@ == "\n            insert IGNORE into admin\n                (user_id)\n            VALUES\n                ("@ + decimal(user_id as nat) + ")\n        "@,
{
    let mut q = String::from_str("\n            insert IGNORE into admin\n                (user_id)\n            VALUES\n                (");
    push_decimal(&mut q, user_id as u64);
    q.append(")\n        ");
    q
}

/// Takes the administrator role from user `user_id`.
pub fn revoke_admin_query(user_id: u32) -> (q: String)
    ensures
        q@ == "\n            delete IGNORE from admin\n            where user_id = "@ + decimal(user_id as nat) + ";\n        "@,
{
    let mut q = String::from_str("\n            delete IGNORE from admin\n            where user_id = ");
    push_decimal(&mut q, user_id as u64);
    q.append(";\n        ");
    q
}

/// Reads the users whose name contains `search_query`.
pub fn search_users_query(search_query: &str) -> (q: String)
    ensures
        q@ == "\n        select id, email, name, avatar_url, register_time\n        from user\n        where name like '%"@ + search_query@ + "%';\n    "@,
{
    let mut q = String::from_str("\n        select id, email, name, avatar_url, register_time\n        from user\n        where name like '%");
    q.append(search_query);
    q.append("%';\n    ");
    q
}

/// Reads the id, name and avatar of user `user_id`, for the profile page.
pub fn profile_user_query(user_id: u32) -> (q: String)
    ensures
        q@ == "SELECT id, name, avatar_url FROM user WHERE id = "@ + decimal(user_id as nat) + ";"@,
{
    let mut q = String::from_str("SELECT id, name, avatar_url FROM user WHERE id = ");
    push_decimal(&mut q, user_id as u64);
    q.append(";");
    q
}

/// Reads the follow and fan counts of user `user_id`, for the profile page.
pub fn profile_stats_query(user_id: u32) -> (q: String)
    ensures
        q@ == "SELECT follower_count, fans FROM user_stats WHERE user_id = "@ + decimal(user_id as nat) + ";"@,
{
    let mut q = String::from_str("SELECT follower_count, fans FROM user_stats WHERE user_id = ");
    push_decimal(&mut q, user_id as u64);
    q.append(";");
    q
}

/// Counts the posts of user `user_id`.
pub fn user_post_count_query(user_id: u32) -> (q: String)
    ensures
        q@ == "SELECT COUNT(*) FROM post where user_id = "@ + decimal(user_id as nat) + ";"@,
{
    let mut q = String::from_str("SELECT COUNT(*) FROM post where user_id = ");
    push_decimal(&mut q, user_id as u64);
    q.append(";");
    q
}

/// Counts the posts that user `user_id` collected.
pub fn user_collect_count_query(user_id: u32) -> (q: String)
    ensures
        q@ == "select count(*) from collect_post where user_id = "@ + decimal(user_id as nat) + ";"@,
{
    let mut q = String::from_str("select count(*) from collect_post where user_id = ");
    push_decimal(&mut q, user_id as u64);
    q.append(";");
    q
}

/// Reads the ids of the posts that user `user_id` collected.
pub fn collected_post_ids_query(user_id: u32) -> (q: String)
    ensures
        q@ == "select post_id from collect_post where user_id = "@ + decimal(user_id as nat) + ";"@,
{
    let mut q = String::from_str("select post_id from collect_post where user_id = ");
    push_decimal(&mut q, user_id as u64);
    q.append(";");
    q
}

/// Reads ten of the posts with the given ids from `start` on.
pub fn collected_posts_query(ids: &Vec<u32>, start: u32) -> (q: String)
    ensures
        q@ == "SELECT id, title, release_time, cover_url, content_url, user_id\n        FROM post \n        WHERE id IN ("@ + joined(ids@, ", "@) + ")\n        LIMIT "@ + decimal(start as nat) + ", 10"@,
{
    let mut q = String::from_str("SELECT id, title, release_time, cover_url, content_url, user_id\n        FROM post \n        WHERE id IN (");
    push_joined(&mut q, ids, ", ");
    q.append(")\n        LIMIT ");
    push_decimal(&mut q, start as u64);
    q.append(", 10");
    q
}

/// Reads the names of the users with the given ids, for the profile page.
pub fn profile_user_names_query(ids: &Vec<u32>) -> (q: String)
    ensures
        q@ == "\n         select id, name\n         from user\n         where id in ("@ + joined(ids@, ","@) + ");\n     "@,
{
    let mut q = String::from_str("\n         select id, name\n         from user\n         where id in (");
    push_joined(&mut q, ids, ",");
    q.append(");\n     ");
    q
}

/// Reads ten posts of user `user_id` from `start` on.
pub fn user_posts_query(user_id: u32, start: u32) -> (q: String)
    ensures
        q@ == "SELECT id, title, release_time, cover_url, content_url, user_id\n        FROM post \n        WHERE user_id = "@ + decimal(user_id as nat) + "\n        LIMIT "@ + decimal(start as nat) + ", 10"@,
{
    let mut q = String::from_str("SELECT id, title, release_time, cover_url, content_url, user_id\n        FROM post \n        WHERE user_id = ");
    push_decimal(&mut q, user_id as u64);
    q.append("\n        LIMIT ");
    push_decimal(&mut q, start as u64);
    q.append(", 10");
    q
}

/// Counts the notifications of user `user_id`.
pub fn message_count_query(user_id: u32) -> (q: String)
    ensures
        q@ == "\n        select count(*)\n        from message \n        where recver_id = "@ + decimal(user_id as nat) + ";\n    "@,
{
    let mut q = String::from_str("\n        select count(*)\n        from message \n        where recver_id = ");
    push_decimal(&mut q, user_id as u64);
    q.append(";\n    ");
    q
}

/// Reads the notifications of user `user_id`, latest first.
pub fn messages_query(user_id: u32) -> (q: String)
    ensures
        q@ == "\n        select id, sender_id, recver_id, post_id, status\n        from message \n        where recver_id = "@ + decimal(user_id as nat) + "\n        order by id desc;\n    "@,
{
    let mut q = String::from_str("\n        select id, sender_id, recver_id, post_id, status\n        from message \n        where recver_id = ");
    push_decimal(&mut q, user_id as u64);
    q.append("\n        order by id desc;\n    ");
    q
}

/// Reads the recipient of notification `message_id`.
pub fn message_recipient_query(message_id: u32) -> (q: String)
    ensures
        q@ == "select recver_id from message where id = "@ + decimal(message_id as nat),
{
    let mut q = String::from_str("select recver_id from message where id = ");
    push_decimal(&mut q, message_id as u64);
    q
}

/// Deletes notification `message_id`.
pub fn delete_message_query(message_id: u32) -> (q: String)
    ensures
        q@ == "\n        delete from message\n        where id = "@ + decimal(message_id as nat) + ";\n    "@,
{
    let mut q = String::from_str("\n        delete from message\n        where id = ");
    push_decimal(&mut q, message_id as u64);
    q.append(";\n    ");
    q
}

/// Sets the name of user `user_id`.
pub fn update_username_query(username: &str, user_id: u32) -> (q: String)
    ensures
        q@ == "\n        update user\n        set name = '"@ + username@ + "'\n        where id = "@ + decimal(user_id as nat) + ";\n    "@,
{
    let mut q = String::from_str("\n        update user\n        set name = '");
    q.append(username);
    q.append("'\n        where id = ");
    push_decimal(&mut q, user_id as u64);
    q.append(";\n    ");
    q
}

/// Sets the avatar of user `user_id`.
pub fn update_avatar_url_query(avatar_url: &str, user_id: u32) -> (q: String)
    ensures
        q@ == "\n        update user\n        set avatar_url = '"@ + avatar_url@ + "'\n        where id = "@ + decimal(user_id as nat) + ";\n    "@,
{
    let mut q = String::from_str("\n        update user\n        set avatar_url = '");
    q.append(avatar_url);
    q.append("'\n        where id = ");
    push_decimal(&mut q, user_id as u64);
    q.append(";\n    ");
    q
}

/// Adds `count` to the follow count of `follower_id`.
pub fn follower_count_update_query(count: i32, follower_id: u32) -> (q: String)
    ensures
        q@ == "\n        update user_stats\n        set \n            follower_count = follower_count + "@ + signed_decimal(count as int) + "\n        where user_id = "@ + decimal(follower_id as nat) + ";\n        "@,
{
    let mut q = String::from_str("\n        update user_stats\n        set \n            follower_count = follower_count + ");
    push_signed_decimal(&mut q, count as i64);
    q.append("\n        where user_id = ");
    push_decimal(&mut q, follower_id as u64);
    q.append(";\n        ");
    q
}

/// Adds `count` to the fan count of `following_id`.
pub fn fans_update_query(count: i32, following_id: u32) -> (q: String)
    ensures
        q@ == "\n        update user_stats\n        set\n            fans = fans + "@ + signed_decimal(count as int) + "\n        where user_id = "@ + decimal(following_id as nat) + ";\n        "@,
{
    let mut q = String::from_str("\n        update user_stats\n        set\n            fans = fans + ");
    push_signed_decimal(&mut q, count as i64);
    q.append("\n        where user_id = ");
    push_decimal(&mut q, following_id as u64);
    q.append(";\n        ");
    q
}

/// Records that `follower_id` follows `following_id`, from now on.
pub fn follow_insert_query(follower_id: u32, following_id: u32) -> (q: String)
    ensures
        q@ == "\n            insert into follow\n            VALUES\n            ("@ + decimal(follower_id as nat) + ", "@ + decimal(following_id as nat) + ", NOW())\n            "@,
{
    let mut q = String::from_str("\n            insert into follow\n            VALUES\n            (");
    push_decimal(&mut q, follower_id as u64);
    q.append(", ");
    push_decimal(&mut q, following_id as u64);
    q.append(", NOW())\n            ");
    q
}

/// Drops the follow relation from `follower_id` to `following_id`.
pub fn follow_delete_query(follower_id: u32, following_id: u32) -> (q: String)
    ensures
        q@ == "\n            delete from follow\n            where follower_id = "@ + decimal(follower_id as nat) + "\n                and \n                following_id = "@ + decimal(following_id as nat) + ";\n            "@,
{
    let mut q = String::from_str("\n            delete from follow\n            where follower_id = ");
    push_decimal(&mut q, follower_id as u64);
    q.append("\n                and \n                following_id = ");
    push_decimal(&mut q, following_id as u64);
    q.append(";\n            ");
    q
}

} // verus!
