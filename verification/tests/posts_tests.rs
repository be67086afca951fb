use program_station::model::{LabeledPostRow, Post, PostRow, SearchHit, SearchPostRow, ANONYMOUS_NAME};
use program_station::posts::{
    all_labels_known, authors_query, content_path, count_flag, delete_post_plan, first_count, first_post,
    follow_authors_query, hit_ids, management_lookups, merge_search_results, new_post_plan, page_start,
    profile_authors_query, search_authors_query, search_posts_statement, search_total, submit_post_plan, HitIds,
};
use program_station::reply::Status;

fn row(id: u32, user_id: u32) -> PostRow {
    PostRow {
        id,
        title: format!("t{}", id),
        release_time: "2024-01-01".to_string(),
        cover_url: "c".to_string(),
        content: "x".to_string(),
        user_id,
    }
}

fn ids_in(q: &str) -> Vec<u32> {
    let start = q.find("in (").unwrap() + 4;
    let end = q[start..].find(')').unwrap() + start;
    let mut ids: Vec<u32> = q[start..end].split(',').map(|s| s.parse().unwrap()).collect();
    ids.sort();
    ids
}

#[test]
fn pages_and_counts() {
    assert_eq!(page_start(1, 20), 0);
    assert_eq!(page_start(3, 20), 40);
    assert_eq!(first_count(&vec![5, 9]), 5);
    assert!(count_flag(&vec![1]));
    assert!(!count_flag(&vec![0]));
    assert_eq!(search_total(&vec![0]), None);
    assert_eq!(search_total(&vec![12]), Some(12));
}

#[test]
fn authors_are_read_once_each() {
    let posts = vec![row(1, 3), row(2, 1), row(3, 3), row(4, 2)];
    let q = authors_query(&posts);
    assert!(q.starts_with("\n        select id, name\n        from user\n        where id in ("));
    assert!(q.ends_with(");\n    "));
    assert_eq!(ids_in(&q), vec![1, 2, 3]);
    assert_eq!(follow_authors_query(&vec![]), None);
    assert_eq!(ids_in(&follow_authors_query(&posts).unwrap()), vec![1, 2, 3]);
}

#[test]
fn post_page_needs_a_post() {
    let r = first_post(vec![]).unwrap_err();
    assert_eq!((r.status, r.text.as_str(), r.quoted), (Status::BadRequest, "没有此帖子", true));
    let p = Post {
        id: 4,
        title: "t".to_string(),
        release_time: "r".to_string(),
        cover_url: "c".to_string(),
        content: "x".to_string(),
        user_id: 1,
        user_name: "n".to_string(),
    };
    assert_eq!(first_post(vec![p]).unwrap().id, 4);
}

#[test]
fn deleting_a_post_removes_collections_comments_then_post() {
    let p = delete_post_plan(9);
    assert_eq!(
        p.statements,
        vec![
            "\n        delete from collect_post\n        where post_id = 9;\n    ".to_string(),
            "\n        delete from user_comment\n        where post_id = 9;\n    ".to_string(),
            "\n        delete from post\n        where id = 9;\n    ".to_string(),
        ]
    );
    assert_eq!((p.success.status, p.success.text.as_str()), (Status::Success, "删除成功"));
}

#[test]
fn publishing_writes_the_content_path() {
    assert_eq!(content_path("abc"), "./static/content/content-abc.md");
    let (path, q) = submit_post_plan("abc", "Title", "cover.png", 5, "ann");
    assert_eq!(path, "./static/content/content-abc.md");
    assert_eq!(
        q,
        "\n        insert into post\n            (title, release_time, cover_url, content_url, user_id, user_name)\n        VALUES\n            ('Title', NOW(), 'cover.png', './static/content/content-abc.md', 5, 'ann');\n    "
    );
}

fn hit(id: &str, title: &str) -> SearchHit {
    SearchHit { id_text: id.to_string(), title: title.to_string(), content: format!("about {}", title) }
}

#[test]
fn search_hit_ids() {
    match hit_ids(&vec![]) {
        HitIds::NoResult(r) => assert_eq!((r.status, r.text.as_str(), r.quoted), (Status::BadRequest, "无结果", false)),
        _ => panic!("expected no result"),
    }
    match hit_ids(&vec![hit("12", "a"), hit("+7", "b")]) {
        HitIds::Ids(ids) => assert_eq!(ids, vec![12, 7]),
        _ => panic!("expected ids"),
    }
    assert!(matches!(hit_ids(&vec![hit("12", "a"), hit("x1", "b")]), HitIds::BadId));
    assert!(matches!(hit_ids(&vec![hit("4294967296", "a")]), HitIds::BadId));
    assert_eq!(
        search_posts_statement(&vec![12, 7]),
        "\n        SELECT release_time, cover_url, user_id\n        FROM post\n        where id in (12,7);\n    "
    );
}

#[test]
fn search_results_pair_hits_with_rows() {
    let hits = vec![hit("12", "a"), hit("7", "b")];
    let rows = vec![
        SearchPostRow { release_time: "r1".to_string(), cover_url: "c1".to_string(), user_id: 1 },
        SearchPostRow { release_time: "r2".to_string(), cover_url: "c2".to_string(), user_id: 2 },
    ];
    assert_eq!(ids_in(&search_authors_query(&rows)), vec![1, 2]);
    let users = vec![(1, "ann".to_string())];
    let out = merge_search_results(&hits, &vec![12, 7], &rows, &users);
    assert_eq!(out.len(), 2);
    assert_eq!((out[0].id, out[0].title.as_str(), out[0].content.as_str()), (12, "a", "about a"));
    assert_eq!((out[0].release_time.as_str(), out[0].cover_url.as_str(), out[0].user_name.as_str()), ("r1", "c1", "ann"));
    assert_eq!((out[1].id, out[1].user_id, out[1].user_name.as_str()), (7, 2, ANONYMOUS_NAME));
}

fn labeled(id: u32, user_id: u32, label_id: u32) -> LabeledPostRow {
    LabeledPostRow {
        id,
        title: "t".to_string(),
        release_time: "r".to_string(),
        cover_url: "c".to_string(),
        content: "x".to_string(),
        user_id,
        label_id,
    }
}

#[test]
fn management_list_lookups() {
    let posts = vec![labeled(1, 2, 5), labeled(2, 2, 6), labeled(3, 1, 5)];
    let (users_q, labels_q) = management_lookups(&posts);
    assert_eq!(ids_in(&users_q), vec![1, 2]);
    assert_eq!(labels_q, "\n        select id, name \n        from label\n        where id in (5,6,5)\n    ");
    let labels = vec![(5, "rust".to_string()), (6, "go".to_string())];
    assert!(all_labels_known(&posts, &labels));
    assert!(!all_labels_known(&posts, &vec![(5, "rust".to_string())]));
}

#[test]
fn new_posts_get_fresh_content_files() {
    let (path, q) = new_post_plan("T", "c.png", 3, "ann");
    assert!(path.starts_with("./static/content/content-"));
    assert!(path.ends_with(".md"));
    let id = &path["./static/content/content-".len()..path.len() - 3];
    assert_eq!(id.len(), 36);
    assert!(id.chars().enumerate().all(|(i, c)| if [8, 13, 18, 23].contains(&i) { c == '-' } else { c.is_ascii_hexdigit() && !c.is_ascii_uppercase() }));
    assert_eq!(
        q,
        format!(
            "\n        insert into post\n            (title, release_time, cover_url, content_url, user_id, user_name)\n        VALUES\n            ('T', NOW(), 'c.png', '{}', 3, 'ann');\n    ",
            path
        )
    );
    let (other, _) = new_post_plan("T", "c.png", 3, "ann");
    assert_ne!(path, other);
}

#[test]
fn profile_pages_read_author_names_once() {
    let posts = vec![row(1, 4), row(2, 4), row(3, 2)];
    let q = profile_authors_query(&posts);
    assert!(q.starts_with("\n         select id, name\n         from user\n         where id in ("));
    assert!(q.ends_with(");\n     "));
    assert_eq!(ids_in(&q), vec![2, 4]);
}
