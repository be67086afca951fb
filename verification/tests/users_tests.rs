use program_station::model::{CommentRow, ManagedUserRow, MessageRow, ReportRow, AVATAR_URL};
use program_station::reply::Status;
use program_station::users::{
    add_label_check, add_remove_follow_plan, ban_failed_reply, ban_lookup, ban_user_plan, comment_authors_query,
    comment_recipient, delete_comment_plan, delete_label_check, delete_label_plan, delete_report_plan, is_admin,
    labels_from_rows, like_change_plan, like_collect, managemrnt_delete_label_plan, message_lookups,
    message_recipient, not_admin_reply, profile_user, report_lookups, search_user_lookup, submit_comment_statements,
    submit_report_plan, update_avatar_url_plan, update_message_read_plan, update_user_info_plan,
    update_username_plan, user_card, LikeChange, NewComment,
};

#[test]
fn admin_rows_decide() {
    assert_eq!(is_admin(&vec![]), Ok(false));
    assert_eq!(is_admin(&vec![3]), Ok(true));
}

#[test]
fn short_avatars_are_replaced() {
    let card = user_card(&vec![(1, "ann".to_string(), "".to_string())]);
    assert_eq!((card.id, card.name.as_str(), card.avatar_url.as_str()), (1, "ann", AVATAR_URL));
    assert_eq!(user_card(&vec![(1, "a".to_string(), "x".to_string())]).avatar_url, AVATAR_URL);
    assert_eq!(user_card(&vec![(1, "a".to_string(), "é".to_string())]).avatar_url, "é");
    assert_eq!(user_card(&vec![(1, "a".to_string(), "ab".to_string())]).avatar_url, "ab");
    let u = profile_user(9, &vec![(1, "bob".to_string(), "p.png".to_string())], &vec![(3, 4)]);
    assert_eq!((u.id, u.name.as_str(), u.avatar_url.as_str(), u.follower_count, u.fans), (9, "bob", "p.png", 3, 4));
}

#[test]
fn notifications() {
    assert!(message_lookups(&vec![]).is_none());
    let m = vec![
        MessageRow { id: 1, sender_id: 4, recver_id: 2, post_id: 8, status: 3 },
        MessageRow { id: 2, sender_id: 5, recver_id: 2, post_id: 9, status: 3 },
    ];
    let (senders, titles) = message_lookups(&m).unwrap();
    assert_eq!(senders, "\n        select id, name, avatar_url\n        from user\n        where id in (4,5);\n    ");
    assert_eq!(titles, "\n        select id, title\n        from post\n        where id in (8,9);\n    ");
    let r = message_recipient(&vec![]).unwrap_err();
    assert_eq!((r.status, r.text.as_str(), r.quoted), (Status::BadRequest, "Error request", false));
    assert_eq!(message_recipient(&vec![2, 3]).unwrap(), 2);
    let p = update_message_read_plan(6);
    assert_eq!(p.statements, vec!["\n        delete from message\n        where id = 6;\n    ".to_string()]);
    assert_eq!((p.success.text.as_str(), p.success.quoted), ("删除成功", true));
}

#[test]
fn profile_edits() {
    let p = update_username_plan(3, "neo");
    assert_eq!(p.statements, vec!["\n        update user\n        set name = 'neo'\n        where id = 3;\n    ".to_string()]);
    assert_eq!((p.success.status, p.success.text.as_str(), p.success.quoted), (Status::Success, "neo", true));
    let p = update_avatar_url_plan(3, "u.png");
    assert_eq!(p.statements, vec!["\n        update user\n        set avatar_url = 'u.png'\n        where id = 3;\n    ".to_string()]);
    assert_eq!(p.success.text, "修改成功");
}

#[test]
fn follow_and_unfollow() {
    let p = add_remove_follow_plan(1, 2, 1);
    assert_eq!(p.statements[0], "\n        update user_stats\n        set \n            follower_count = follower_count + 1\n        where user_id = 1;\n        ");
    assert_eq!(p.statements[1], "\n        update user_stats\n        set\n            fans = fans + 1\n        where user_id = 2;\n        ");
    assert_eq!(p.statements[2], "\n            insert into follow\n            VALUES\n            (1, 2, NOW())\n            ");
    let p = add_remove_follow_plan(1, 2, -1);
    assert_eq!(p.statements[0], "\n        update user_stats\n        set \n            follower_count = follower_count + -1\n        where user_id = 1;\n        ");
    assert_eq!(
        p.statements[2],
        "\n            delete from follow\n            where follower_id = 1\n                and \n                following_id = 2;\n            "
    );
    assert_eq!(p.success.text, "successful");
}

fn managed(user_id: u32) -> ManagedUserRow {
    ManagedUserRow {
        user_id,
        email: "e".to_string(),
        username: "u".to_string(),
        avatar_url: "a".to_string(),
        register_time: "r".to_string(),
    }
}

#[test]
fn user_management() {
    assert_eq!(
        ban_lookup(&vec![managed(3), managed(1)]),
        "\n        select user_id, is_ban\n        from login\n        where user_id in (3,1);\n    "
    );
    assert_eq!(search_user_lookup(&vec![]), None);
    assert!(search_user_lookup(&vec![managed(2)]).unwrap().contains("in (2)"));
    let p = ban_user_plan(4);
    assert_eq!(p.statements, vec!["\n        update login\n        set is_ban = 1 - is_ban\n        where user_id = 4;\n    ".to_string()]);
    let r = ban_failed_reply();
    assert_eq!((r.status, r.text.as_str(), r.quoted), (Status::InternalServerError, "Error", false));
    let p = update_user_info_plan(4, "n", "e@x", true);
    assert_eq!(p.statements[0], "\n        update user\n        set name = 'n', email = 'e@x'\n        where id = 4; \n    ");
    assert_eq!(p.statements[1], "\n        update login\n        set email = 'e@x'\n        where user_id = 4;\n    ");
    assert_eq!(p.statements[2], "\n            insert IGNORE into admin\n                (user_id)\n            VALUES\n                (4)\n        ");
    let p = update_user_info_plan(4, "n", "e@x", false);
    assert_eq!(p.statements[2], "\n            delete IGNORE from admin\n            where user_id = 4;\n        ");
    assert_eq!(p.success.text, "成功");
}

#[test]
fn comments() {
    let c = vec![CommentRow { id: 1, post_id: 2, user_id: 7, release_time: "r".to_string(), comment: "hi".to_string() }];
    assert_eq!(comment_authors_query(&c), "\n        select id, name, avatar_url\n        from user\n        where id in (7);\n    ");
    let r = comment_recipient(&vec![]).unwrap_err();
    assert_eq!((r.status, r.text.as_str()), (Status::BadRequest, "Not this post"));
    assert_eq!(comment_recipient(&vec![9]).unwrap(), 9);
    let nc = NewComment {
        post_id: 2,
        user_id: 7,
        username: "ann".to_string(),
        avatar_url: "a.png".to_string(),
        release_time: "2024".to_string(),
        comment: "hi".to_string(),
    };
    let (message, comment) = submit_comment_statements(&nc, 9);
    assert_eq!(
        message,
        "\n        insert IGNORE into message\n            (sender_id, recver_id, post_id, status)\n        VALUES\n            (7, 9, 2, 3);\n    "
    );
    assert!(comment.contains("2, 7, 'ann', 'a.png', '2024', 'hi'"));
    let p = delete_comment_plan(5);
    assert_eq!(p.statements, vec!["\n        delete from user_comment\n        where id = 5;\n    ".to_string()]);
}

#[test]
fn reports() {
    let p = submit_report_plan(1, 2, "spam");
    assert_eq!(
        p.statements,
        vec!["\n        insert into report_info \n            (user_id, post_id, release_time, report_reason)\n        VALUES\n            (1, 2, NOW(), 'spam');\n    ".to_string()]
    );
    assert_eq!(p.success.text, "插入成功");
    assert!(report_lookups(&vec![]).is_none());
    let r = vec![ReportRow { id: 1, user_id: 3, post_id: 4, release_time: "r".to_string(), report_reason: "x".to_string() }];
    let (users, posts) = report_lookups(&r).unwrap();
    assert!(users.contains("in (3)"));
    assert!(posts.contains("in (4)"));
    let n = not_admin_reply();
    assert_eq!((n.status, n.text.as_str(), n.quoted), (Status::BadRequest, "不是管理员", false));
    assert_eq!(delete_report_plan(8).statements, vec!["\n        delete from report_info\n        where id = 8;\n    ".to_string()]);
}

#[test]
fn labels() {
    let labels = labels_from_rows(vec![(1, "rust".to_string()), (2, "go".to_string())]);
    assert_eq!((labels[1].id, labels[1].label_name.as_str()), (2, "go"));
    assert_eq!(delete_label_plan(3).statements, vec!["\n        delete ignore\n        from label\n        where id = 3;\n    ".to_string()]);
    let r = add_label_check(&vec![0]).unwrap_err();
    assert_eq!((r.status, r.text.as_str()), (Status::BadRequest, "标签已经存在"));
    assert!(add_label_check(&vec![1]).is_ok());
    let r = delete_label_check(&vec![2]).unwrap_err();
    assert_eq!((r.status, r.text.as_str()), (Status::Forbidden, "forbid delete"));
    assert!(delete_label_check(&vec![0]).is_ok());
    let p = managemrnt_delete_label_plan(3);
    assert_eq!(p.statements, vec!["\n        delete from label\n        where id = 3;\n    ".to_string()]);
    assert_eq!((p.success.text.as_str(), p.success.quoted), ("delete success", false));
}

#[test]
fn likes_and_collections() {
    let r = like_collect(&vec![1], &vec![0]);
    assert!(r.like && !r.collect);
    let p = like_change_plan(LikeChange::AddLike, 1, 2);
    assert_eq!(p.statements[0], "\n        insert into like_post\n            (user_id, post_id)\n        VALUES\n            (1, 2)\n    ");
    assert_eq!(p.success.text, "点赞成功");
    let p = like_change_plan(LikeChange::SubLike, 1, 2);
    assert_eq!(p.statements[0], "\n        delete from like_post \n        where user_id = 1 and post_id = 2\n    ");
    assert_eq!(p.success.text, "取消点赞成功");
    let p = like_change_plan(LikeChange::AddCollect, 1, 2);
    assert_eq!(p.statements[0], "\n        insert into collect_post\n            (user_id, post_id)\n        VALUES\n            (1, 2);\n    ");
    assert_eq!(p.success.text, "收藏成功");
    let p = like_change_plan(LikeChange::SubCollect, 1, 2);
    assert_eq!(p.statements[0], "\n        delete from collect_post \n        where user_id = 1 and post_id = 2;\n    ");
    assert_eq!(p.success.text, "取消收藏成功");
}
