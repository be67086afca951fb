//! The post endpoints: the recommendation, follow and management lists, single posts,
//! publishing and deleting, and full-text search.

use vstd::prelude::*;
use crate::merge::{name_or_anonymous, no_duplicates, distinct_ids, name_of, labels_known, last_match};
use crate::paths::{is_uuid_text, new_uuid_text};
use crate::model::{LabeledPostRow, Post, PostRow, SearchHit, SearchPostRow};
use crate::plan::{WritePlan, statements_of};
use crate::queries::{
    delete_post_collects_query, delete_post_comments_query, delete_post_query, insert_post_query,
    label_names_query, profile_user_names_query, search_posts_query, user_names_query,
};
use crate::reply::{Reply, Status, is_reply, plain, quoted};
use crate::text::{decimal, joined, parse_u32, parse_u32_spec};

verus! {

/// The offset of page `page` (counted from 1) of `per_page` rows.
pub fn page_start(page: u32, per_page: u32) -> (start: u32)
    requires
        1 <= page,
        (page - 1) * per_page <= u32::MAX,
    ensures
        start == (page - 1) * per_page,
{
    (page - 1) * per_page
}

/// The number a `count(*)` statement returned: the first row.
pub fn first_count(counts: &Vec<u32>) -> (n: u32)
    requires
        counts.len() > 0,
    ensures
        n == counts@[0],
{
    counts[0]
}

/// Whether the first count is not zero (a follow, a like or a collection exists).
pub fn count_flag(counts: &Vec<u32>) -> (b: bool)
    requires
        counts.len() > 0,
    ensures
        b == (counts@[0] != 0),
{
    counts[0] != 0
}

/// The statement that reads the names of the users with ids `ids`.
pub open spec fn user_names_spec(ids: Seq<u32>) -> Seq<char> {
    "\n        select id, name\n        from user\n        where id in ("@ + joined(ids, ","@) + ");\n    "@
}

/// The authors of the posts, in order.
pub open spec fn post_authors(posts: Seq<PostRow>) -> Seq<u32> {
    posts.map_values(|p: PostRow| p.user_id)
}

/// `ids` lists each of `authors` once.
pub open spec fn lists_each_once(ids: Seq<u32>, authors: Seq<u32>) -> bool {
    no_duplicates(ids) && forall|x: u32| ids.contains(x) <==> authors.contains(x)
}

fn post_author_ids(posts: &Vec<PostRow>) -> (ids: Vec<u32>)
    ensures
        ids@ == post_authors(posts@),
{
    let mut ids: Vec<u32> = Vec::new();
    let mut i: usize = 0;
    while i < posts.len()
        invariant
            i <= posts.len(),
            ids@ == post_authors(posts@.take(i as int)),
        decreases posts.len() - i,
    {
        ids.push(posts[i].user_id);
        assert(post_authors(posts@.take(i + 1)) =~= post_authors(posts@.take(i as int)).push(posts@[i as int].user_id));
        i = i + 1;
    }
    assert(posts@.take(posts.len() as int) =~= posts@);
    ids
}

/// The statement that reads the names of the authors of `posts`, each author once.
pub fn authors_query(posts: &Vec<PostRow>) -> (q: String)
    ensures
        exists|ids: Seq<u32>| lists_each_once(ids, post_authors(posts@)) && q@ == user_names_spec(ids),
{
    let ids = distinct_ids(&post_author_ids(posts));
    let q = user_names_query(&ids);
    assert(lists_each_once(ids@, post_authors(posts@)) && q@ == user_names_spec(ids@));
    q
}

/// The statement the profile pages use to read the names of the users with ids `ids`.
pub open spec fn profile_user_names_spec(ids: Seq<u32>) -> Seq<char> {
    "\n         select id, name\n         from user\n         where id in ("@ + joined(ids, ","@) + ");\n     "@
}

/// The statement that reads the names of the authors of the posts of a profile page,
/// each author once.
pub fn profile_authors_query(posts: &Vec<PostRow>) -> (q: String)
    ensures
        exists|ids: Seq<u32>| lists_each_once(ids, post_authors(posts@)) && q@ == profile_user_names_spec(ids),
{
    let ids = distinct_ids(&post_author_ids(posts));
    let q = profile_user_names_query(&ids);
    assert(lists_each_once(ids@, post_authors(posts@)) && q@ == profile_user_names_spec(ids@));
    q
}

/// The follow list stops with an empty list when there are no posts; otherwise it reads
/// the names of their authors.
pub fn follow_authors_query(posts: &Vec<PostRow>) -> (q: Option<String>)
    ensures
        posts.len() == 0 <==> q is None,
        q matches Some(q) ==> exists|ids: Seq<u32>| lists_each_once(ids, post_authors(posts@)) && q@ == user_names_spec(ids),
{
    if posts.len() == 0 {
        None
    } else {
        Some(authors_query(posts))
    }
}

/// The single post read for the post page, or the reply that it does not exist.
pub fn first_post(mut posts: Vec<Post>) -> (r: Result<Post, Reply>)
    ensures
        posts.len() == 0 ==> r is Err && is_reply(r->Err_0, Status::BadRequest, "没有此帖子"@, true),
        posts.len() > 0 ==> r == Ok::<Post, Reply>(posts@[0]),
{
    if posts.len() == 0 {
        Err(quoted(Status::BadRequest, "没有此帖子"))
    } else {
        Ok(posts.remove(0))
    }
}

/// Deleting a post: its collections, its comments, then the post, in one transaction.
pub fn delete_post_plan(post_id: u32) -> (p: WritePlan)
    ensures
        statements_of(p) == seq![
            "\n        delete from collect_post\n        where post_id = "@ + decimal(post_id as nat) + ";\n    "@,
            "\n        delete from user_comment\n        where post_id = "@ + decimal(post_id as nat) + ";\n    "@,
            "\n        delete from post\n        where id = "@ + decimal(post_id as nat) + ";\n    "@,
        ],
        is_reply(p.success, Status::Success, "删除成功"@, true),
{
    let mut statements: Vec<String> = Vec::new();
    statements.push(delete_post_collects_query(post_id));
    statements.push(delete_post_comments_query(post_id));
    statements.push(delete_post_query(post_id));
    let p = WritePlan { statements, success: quoted(Status::Success, "删除成功") };
    assert(statements_of(p) =~= seq![
        "\n        delete from collect_post\n        where post_id = "@ + decimal(post_id as nat) + ";\n    "@,
        "\n        delete from user_comment\n        where post_id = "@ + decimal(post_id as nat) + ";\n    "@,
        "\n        delete from post\n        where id = "@ + decimal(post_id as nat) + ";\n    "@,
    ]);
    p
}

pub open spec fn content_path_spec(id: Seq<char>) -> Seq<char> {
    "./static/content/content-"@ + id + ".md"@
}

/// The path of the file that holds the content of a post named by `id`.
pub fn content_path(id: &str) -> (p: String)
    ensures
        p@ == content_path_spec(id@),
{
    let mut p = String::from_str("./static/content/content-");
    p.append(id);
    p.append(".md");
    p
}

/// What publishing a post writes: the path of the file for its content, and the
/// statement that records the post with that path.
pub fn submit_post_plan(content_id: &str, title: &str, cover_url: &str, user_id: u32, user_name: &str) -> (r: (String, String))
    ensures
        r.0@ == content_path_spec(content_id@),
        r.1@ == "\n        insert into post\n            (title, release_time, cover_url, content_url, user_id, user_name)\n        VALUES\n            ('"@
            + title@ + "', NOW(), '"@ + cover_url@ + "', '"@ + r.0@ + "', "@ + decimal(user_id as nat) + ", '"@ + user_name@
            + "');\n    "@,
{
    let path = content_path(content_id);
    let q = insert_post_query(title, cover_url, path.as_str(), user_id, user_name);
    (path, q)
}

/// Publishing a post under a fresh random name: the path of the file for its content,
/// named by a new UUID, and the statement that records the post with that path.
pub fn new_post_plan(title: &str, cover_url: &str, user_id: u32, user_name: &str) -> (r: (String, String))
    ensures
        exists|u: Seq<char>| is_uuid_text(u) && r.0@ == content_path_spec(u),
        r.1@ == "\n        insert into post\n            (title, release_time, cover_url, content_url, user_id, user_name)\n        VALUES\n            ('"@
            + title@ + "', NOW(), '"@ + cover_url@ + "', '"@ + r.0@ + "', "@ + decimal(user_id as nat) + ", '"@ + user_name@
            + "');\n    "@,
{
    let id = new_uuid_text();
    submit_post_plan(id.as_str(), title, cover_url, user_id, user_name)
}

/// What the search takes from its hits: the post ids, or the reason it stops.
pub enum HitIds {
    Ids(Vec<u32>),
    /// No hit: the search answers that there is no result.
    NoResult(Reply),
    /// A hit's id is not a number (the search panics on it).
    BadId,
}

/// Reads the post ids of the hits, as `str::parse::<u32>` reads them.
pub fn hit_ids(hits: &Vec<SearchHit>) -> (r: HitIds)
    ensures
        hits.len() == 0 ==> (r matches HitIds::NoResult(reply) && is_reply(reply, Status::BadRequest, "无结果"@, false)),
        hits.len() > 0 ==> !(r is NoResult),
        r matches HitIds::Ids(ids) ==> hits.len() > 0 && ids.len() == hits.len()
            && forall|i: int| 0 <= i < hits.len() ==> parse_u32_spec(#[trigger] hits@[i].id_text@) == Some(ids@[i]),
        r is BadId ==> exists|i: int| 0 <= i < hits.len() && parse_u32_spec(#[trigger] hits@[i].id_text@) is None,
        hits.len() > 0 && (forall|i: int| 0 <= i < hits.len() ==> parse_u32_spec(#[trigger] hits@[i].id_text@) is Some) ==> r is Ids,
{
    if hits.len() == 0 {
        return HitIds::NoResult(plain(Status::BadRequest, "无结果"));
    }
    let mut ids: Vec<u32> = Vec::new();
    let mut i: usize = 0;
    while i < hits.len()
        invariant
            i <= hits.len(),
            ids.len() == i,
            forall|j: int| 0 <= j < i ==> parse_u32_spec(#[trigger] hits@[j].id_text@) == Some(ids@[j]),
        decreases hits.len() - i,
    {
        match parse_u32(hits[i].id_text.as_str()) {
            Some(id) => ids.push(id),
            None => return HitIds::BadId,
        }
        i = i + 1;
    }
    HitIds::Ids(ids)
}

/// The statement that reads the posts found by the search.
pub fn search_posts_statement(ids: &Vec<u32>) -> (q: String)
    ensures
        q@ == "\n        SELECT release_time, cover_url, user_id\n        FROM post\n        where id in ("@ + joined(ids@, ","@) + ");\n    "@,
{
    search_posts_query(ids)
}

/// The authors of the posts read for the search.
pub open spec fn search_authors(posts: Seq<SearchPostRow>) -> Seq<u32> {
    posts.map_values(|p: SearchPostRow| p.user_id)
}

/// The statement that reads the names of the authors of the posts found, each once.
pub fn search_authors_query(posts: &Vec<SearchPostRow>) -> (q: String)
    ensures
        exists|ids: Seq<u32>| lists_each_once(ids, search_authors(posts@)) && q@ == user_names_spec(ids),
{
    let mut authors: Vec<u32> = Vec::new();
    let mut i: usize = 0;
    while i < posts.len()
        invariant
            i <= posts.len(),
            authors@ == search_authors(posts@.take(i as int)),
        decreases posts.len() - i,
    {
        authors.push(posts[i].user_id);
        assert(search_authors(posts@.take(i + 1)) =~= search_authors(posts@.take(i as int)).push(posts@[i as int].user_id));
        i = i + 1;
    }
    assert(posts@.take(posts.len() as int) =~= posts@);
    let ids = distinct_ids(&authors);
    let q = user_names_query(&ids);
    assert(lists_each_once(ids@, search_authors(posts@)) && q@ == user_names_spec(ids@));
    q
}

/// `out` is the `i`-th search result: the hit's id, title and content with the `i`-th
/// post row read from the database (the rows are taken in the order the database
/// returned them) and its author's name.
pub open spec fn search_result(hit: SearchHit, id: u32, row: SearchPostRow, users: Seq<(u32, String)>, out: Post) -> bool {
    &&& out.id == id
    &&& out.title@ == hit.title@
    &&& out.release_time@ == row.release_time@
    &&& out.cover_url@ == row.cover_url@
    &&& out.content@ == hit.content@
    &&& out.user_id == row.user_id
    &&& out.user_name@ == name_or_anonymous(users, row.user_id)
}

/// The search results, one per hit, pairing hit `i` with post row `i`. Fewer rows than
/// hits make the search panic, so there must be enough.
pub fn merge_search_results(
    hits: &Vec<SearchHit>,
    ids: &Vec<u32>,
    posts: &Vec<SearchPostRow>,
    users: &Vec<(u32, String)>,
) -> (out: Vec<Post>)
    requires
        ids.len() == hits.len(),
        posts.len() >= hits.len(),
    ensures
        out.len() == hits.len(),
        forall|i: int| 0 <= i < hits.len() ==> #[trigger] search_result(hits@[i], ids@[i], posts@[i], users@, out@[i]),
{
    let mut out: Vec<Post> = Vec::new();
    let mut i: usize = 0;
    while i < hits.len()
        invariant
            i <= hits.len(),
            ids.len() == hits.len(),
            posts.len() >= hits.len(),
            out.len() == i,
            forall|j: int| 0 <= j < i ==> #[trigger] search_result(hits@[j], ids@[j], posts@[j], users@, out@[j]),
        decreases hits.len() - i,
    {
        let post = Post {
            id: ids[i],
            title: hits[i].title.clone(),
            release_time: posts[i].release_time.clone(),
            cover_url: posts[i].cover_url.clone(),
            content: hits[i].content.clone(),
            user_id: posts[i].user_id,
            user_name: name_of(users, posts[i].user_id),
        };
        out.push(post);
        i = i + 1;
    }
    out
}

/// The number of posts a management search found, or `None` when it found none (the
/// page then answers with an empty object).
pub fn search_total(counts: &Vec<u32>) -> (r: Option<u32>)
    requires
        counts.len() > 0,
    ensures
        counts@[0] == 0 ==> r is None,
        counts@[0] != 0 ==> r == Some(counts@[0]),
{
    if counts[0] == 0 { None } else { Some(counts[0]) }
}

/// The authors of labelled posts, in order.
pub open spec fn labeled_authors(posts: Seq<LabeledPostRow>) -> Seq<u32> {
    posts.map_values(|p: LabeledPostRow| p.user_id)
}

/// The labels of labelled posts, in order.
pub open spec fn post_labels(posts: Seq<LabeledPostRow>) -> Seq<u32> {
    posts.map_values(|p: LabeledPostRow| p.label_id)
}

/// The statements that read the names of the authors (each once) and of the labels (as
/// many times as posts carry them) of the management list.
pub fn management_lookups(posts: &Vec<LabeledPostRow>) -> (r: (String, String))
    ensures
        exists|ids: Seq<u32>| lists_each_once(ids, labeled_authors(posts@)) && r.0@ == user_names_spec(ids),
        r.1@ == "\n        select id, name \n        from label\n        where id in ("@ + joined(post_labels(posts@), ","@) + ")\n    "@,
{
    let mut authors: Vec<u32> = Vec::new();
    let mut labels: Vec<u32> = Vec::new();
    let mut i: usize = 0;
    while i < posts.len()
        invariant
            i <= posts.len(),
            authors@ == labeled_authors(posts@.take(i as int)),
            labels@ == post_labels(posts@.take(i as int)),
        decreases posts.len() - i,
    {
        authors.push(posts[i].user_id);
        labels.push(posts[i].label_id);
        assert(labeled_authors(posts@.take(i + 1)) =~= labeled_authors(posts@.take(i as int)).push(posts@[i as int].user_id));
        assert(post_labels(posts@.take(i + 1)) =~= post_labels(posts@.take(i as int)).push(posts@[i as int].label_id));
        i = i + 1;
    }
    assert(posts@.take(posts.len() as int) =~= posts@);
    let ids = distinct_ids(&authors);
    let users_q = user_names_query(&ids);
    assert(lists_each_once(ids@, labeled_authors(posts@)) && users_q@ == user_names_spec(ids@));
    (users_q, label_names_query(&labels))
}

/// Whether every post's label was found (a missing one makes the list panic).
pub fn all_labels_known(posts: &Vec<LabeledPostRow>, labels: &Vec<(u32, String)>) -> (b: bool)
    ensures
        b == labels_known(posts@, labels@),
{
    let mut i: usize = 0;
    while i < posts.len()
        invariant
            i <= posts.len(),
            forall|j: int| 0 <= j < i ==> (#[trigger] last_match(labels@, posts@[j].label_id)) is Some,
        decreases posts.len() - i,
    {
        if crate::merge::find_last(labels, posts[i].label_id).is_none() {
            return false;
        }
        i = i + 1;
    }
    true
}

/// The author and label lists of the post pages name exactly the rows' authors and
/// labels, one per row and in the rows' order.
pub proof fn lemma_post_lists_name_every_row(posts: Seq<PostRow>, found: Seq<SearchPostRow>, labeled: Seq<LabeledPostRow>)
    ensures
        post_authors(posts).len() == posts.len(),
        forall|i: int| 0 <= i < posts.len() ==> #[trigger] post_authors(posts)[i] == posts[i].user_id,
        search_authors(found).len() == found.len(),
        forall|i: int| 0 <= i < found.len() ==> #[trigger] search_authors(found)[i] == found[i].user_id,
        labeled_authors(labeled).len() == labeled.len(),
        post_labels(labeled).len() == labeled.len(),
        forall|i: int| 0 <= i < labeled.len() ==>
            #[trigger] labeled_authors(labeled)[i] == labeled[i].user_id && post_labels(labeled)[i] == labeled[i].label_id,
{
}

} // verus!
