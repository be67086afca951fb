use program_station::queries::{
    collected_posts_query, fans_update_query, follow_relationship_query, insert_comment_query, labels_query,
    title_label_posts_query, user_names_query,
};

#[test]
fn statements_as_the_endpoints_write_them() {
    assert_eq!(
        follow_relationship_query(1, 2),
        format!("\n        select count(*) \n        from follow\n        where follower_id = {} and following_id = {};", 1, 2)
    );
    assert_eq!(user_names_query(&vec![4, 5]), "\n        select id, name\n        from user\n        where id in (4,5);\n    ");
    assert_eq!(user_names_query(&vec![]), "\n        select id, name\n        from user\n        where id in ();\n    ");
    assert_eq!(
        collected_posts_query(&vec![1, 2, 3], 10),
        "SELECT id, title, release_time, cover_url, content_url, user_id\n        FROM post \n        WHERE id IN (1, 2, 3)\n        LIMIT 10, 10"
    );
    assert_eq!(fans_update_query(-1, 9), "\n        update user_stats\n        set\n            fans = fans + -1\n        where user_id = 9;\n        ");
    assert_eq!(labels_query(), "\n        select id, name\n        from label;\n    ");
    assert_eq!(
        title_label_posts_query(2, "rust", 20),
        "\n        select id, title, release_time, cover_url, content_url, user_id, label_id\n        from post\n        where label_id = 2 and title like '%rust%';\n        LIMIT 20, 20;\n    "
    );
    assert_eq!(
        insert_comment_query(1, 2, "n", "a", "t", "it's"),
        "\n        INSERT INTO\n            user_comment (\n                post_id, user_id, username, avatar_url, release_time, comment\n            )\n        VALUES (\n            1, 2, 'n', 'a', 't', 'it's'\n        );\n    "
    );
}
