use program_station::merge::{
    attach_comment_authors, attach_message_details, attach_report_details, attach_user_and_label_names,
    attach_user_flags, attach_user_names, distinct_ids, find_last, name_of, title_of,
};
use program_station::model::{
    CommentRow, LabeledPostRow, ManagedUserRow, MessageRow, PostRow, ReportRow, ANONYMOUS_NAME, AVATAR_URL, UNKNOWN_TITLE,
};

fn row(id: u32, user_id: u32) -> PostRow {
    PostRow {
        id,
        title: format!("t{}", id),
        release_time: "2024-01-01 00:00:00".to_string(),
        cover_url: "c".to_string(),
        content: format!("# post {}", id),
        user_id,
    }
}

fn names(pairs: &[(u32, &str)]) -> Vec<(u32, String)> {
    pairs.iter().map(|(i, n)| (*i, n.to_string())).collect()
}

#[test]
fn last_name_wins_like_a_hash_map() {
    let users = names(&[(1, "a"), (2, "b"), (1, "c")]);
    assert_eq!(find_last(&users, 1), Some(2));
    assert_eq!(find_last(&users, 3), None);
    assert_eq!(name_of(&users, 1), "c");
    assert_eq!(name_of(&users, 2), "b");
    assert_eq!(name_of(&users, 9), ANONYMOUS_NAME);
    let map: std::collections::HashMap<u32, String> = users.clone().into_iter().collect();
    assert_eq!(map.get(&1).cloned().unwrap(), name_of(&users, 1));
}

#[test]
fn posts_get_author_names() {
    let posts = vec![row(10, 1), row(11, 2), row(12, 3)];
    let out = attach_user_names(&posts, &names(&[(1, "alice"), (2, "bob")]));
    assert_eq!(out.len(), 3);
    assert_eq!((out[0].id, out[0].user_name.as_str(), out[0].content.as_str()), (10, "alice", "# post 10"));
    assert_eq!(out[1].user_name, "bob");
    assert_eq!(out[2].user_name, "编程驿站一份子");
    assert_eq!(out[2].title, "t12");
    assert!(attach_user_names(&vec![], &names(&[(1, "a")])).is_empty());
}

#[test]
fn management_posts_get_labels() {
    let p = |id: u32, user_id: u32, label_id: u32| LabeledPostRow {
        id, title: "t".into(), release_time: "r".into(), cover_url: "c".into(), content: "x".into(), user_id, label_id,
    };
    let out = attach_user_and_label_names(&vec![p(1, 5, 2), p(2, 6, 3)], &names(&[(5, "e")]), &names(&[(2, "rust"), (3, "go"), (2, "Rust")]));
    assert_eq!(out[0].label_name, "Rust");
    assert_eq!(out[1].label_name, "go");
    assert_eq!(out[0].user_name, "e");
    assert_eq!(out[1].user_name, ANONYMOUS_NAME);
}

fn profiles() -> Vec<(u32, (String, String))> {
    vec![(1, ("ann".to_string(), "https://x/a.jpg".to_string()))]
}

#[test]
fn messages_get_sender_and_title() {
    let msgs = vec![
        MessageRow { id: 9, sender_id: 1, recver_id: 2, post_id: 30, status: 3 },
        MessageRow { id: 8, sender_id: 4, recver_id: 2, post_id: 31, status: 3 },
    ];
    let out = attach_message_details(&msgs, &profiles(), &names(&[(30, "hello")]));
    assert_eq!((out[0].sender_name.as_str(), out[0].sender_avatar_url.as_str(), out[0].title.as_str()), ("ann", "https://x/a.jpg", "hello"));
    assert_eq!((out[1].sender_name.as_str(), out[1].sender_avatar_url.as_str(), out[1].title.as_str()), (ANONYMOUS_NAME, "", UNKNOWN_TITLE));
    assert_eq!((out[1].id, out[1].status, out[1].recver_id), (8, 3, 2));
}

#[test]
fn reports_and_comments_use_default_avatar() {
    let reports = vec![
        ReportRow { id: 1, user_id: 1, post_id: 30, release_time: "r".into(), report_reason: "spam".into() },
        ReportRow { id: 2, user_id: 5, post_id: 40, release_time: "r".into(), report_reason: "x".into() },
    ];
    let out = attach_report_details(&reports, &profiles(), &names(&[(30, "hello")]));
    assert_eq!((out[0].username.as_str(), out[0].avatar_url.as_str(), out[0].title.as_str()), ("ann", "https://x/a.jpg", "hello"));
    assert_eq!((out[1].username.as_str(), out[1].avatar_url.as_str(), out[1].title.as_str()), (ANONYMOUS_NAME, AVATAR_URL, "编程驿站的小文章"));
    assert_eq!(out[0].report_reason, "spam");
    let comments = vec![CommentRow { id: 3, post_id: 30, user_id: 5, release_time: "r".into(), comment: "nice".into() }];
    let out = attach_comment_authors(&comments, &profiles());
    assert_eq!((out[0].username.as_str(), out[0].avatar_url.as_str(), out[0].comment.as_str()), (ANONYMOUS_NAME, "https://127.0.0.1:8082/api/avatar/0", "nice"));
    assert_eq!(title_of(&names(&[]), 1), UNKNOWN_TITLE);
}

#[test]
fn managed_users_get_flags() {
    let u = |user_id: u32| ManagedUserRow {
        user_id, email: "e".into(), username: "n".into(), avatar_url: "a".into(), register_time: "t".into(),
    };
    let out = attach_user_flags(&vec![u(1), u(2), u(3)], &vec![(1, true), (2, false), (1, false)], &vec![true, false, true]);
    assert_eq!(out.iter().map(|x| (x.is_ban, x.is_admin)).collect::<Vec<_>>(), vec![(false, true), (false, false), (false, true)]);
    let out = attach_user_flags(&vec![u(4)], &vec![(4, true)], &vec![false]);
    assert!(out[0].is_ban);
}

#[test]
fn distinct_ids_keep_first_occurrences() {
    assert_eq!(distinct_ids(&vec![3, 1, 3, 2, 1]), vec![3, 1, 2]);
    assert_eq!(distinct_ids(&vec![]), Vec::<u32>::new());
}
