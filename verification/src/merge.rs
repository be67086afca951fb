//! Joining the rows of one table with names read from another, as the endpoints do
//! through a `HashMap` built from the second query's rows.

use vstd::prelude::*;
use crate::model::{
    ANONYMOUS_NAME, AVATAR_URL, UNKNOWN_TITLE, CommentRow, LabeledPostRow, ManagedUser, ManagedUserRow,
    Message, MessageRow, Post, PostRow, ReportInfo, ReportRow, ReturnPost, UserComment,
};

verus! {

/// The value of the last pair with key `id`: collecting pairs into a `HashMap` keeps the
/// last value of each key.
pub open spec fn last_match<V>(pairs: Seq<(u32, V)>, id: u32) -> Option<V>
    decreases pairs.len(),
{
    if pairs.len() == 0 {
        None
    } else if pairs.last().0 == id {
        Some(pairs.last().1)
    } else {
        last_match(pairs.drop_last(), id)
    }
}

/// The position of the last pair with key `id`.
pub fn find_last<V>(pairs: &Vec<(u32, V)>, id: u32) -> (r: Option<usize>)
    ensures
        match r {
            Some(i) => i < pairs.len() && pairs@[i as int].0 == id && last_match(pairs@, id) == Some(pairs@[i as int].1),
            None => last_match(pairs@, id) is None,
        },
{
    let mut i = pairs.len();
    assert(pairs@.take(i as int) =~= pairs@);
    while i > 0
        invariant
            i <= pairs.len(),
            last_match(pairs@, id) == last_match(pairs@.take(i as int), id),
        decreases i,
    {
        let ghost t = pairs@.take(i as int);
        assert(t.drop_last() =~= pairs@.take(i - 1));
        if pairs[i - 1].0 == id {
            return Some(i - 1);
        }
        i = i - 1;
    }
    None
}

/// The name a `HashMap` built from `users` gives `id`, or the anonymous name.
pub open spec fn name_or_anonymous(users: Seq<(u32, String)>, id: u32) -> Seq<char> {
    match last_match(users, id) {
        Some(name) => name@,
        None => ANONYMOUS_NAME@,
    }
}

/// `out` is `row` with its author's name attached.
pub open spec fn post_with_name(row: PostRow, users: Seq<(u32, String)>, out: Post) -> bool {
    &&& out.id == row.id
    &&& out.title@ == row.title@
    &&& out.release_time@ == row.release_time@
    &&& out.cover_url@ == row.cover_url@
    &&& out.content@ == row.content@
    &&& out.user_id == row.user_id
    &&& out.user_name@ == name_or_anonymous(users, row.user_id)
}

/// The name `users` gives `id`, or the anonymous name.
pub fn name_of(users: &Vec<(u32, String)>, id: u32) -> (name: String)
    ensures
        name@ == name_or_anonymous(users@, id),
{
    match find_last(users, id) {
        Some(i) => users[i].1.clone(),
        None => String::from_str(ANONYMOUS_NAME),
    }
}

/// Each post with the name of its author: the last name `users` lists for the author's
/// id, or the anonymous name when `users` does not list it.
pub fn attach_user_names(posts: &Vec<PostRow>, users: &Vec<(u32, String)>) -> (out: Vec<Post>)
    ensures
        out.len() == posts.len(),
        forall|i: int| 0 <= i < posts.len() ==> #[trigger] post_with_name(posts@[i], users@, out@[i]),
{
    let mut out: Vec<Post> = Vec::new();
    let mut i: usize = 0;
    while i < posts.len()
        invariant
            i <= posts.len(),
            out.len() == i,
            forall|j: int| 0 <= j < i ==> #[trigger] post_with_name(posts@[j], users@, out@[j]),
        decreases posts.len() - i,
    {
        let row = &posts[i];
        let post = Post {
            id: row.id,
            title: row.title.clone(),
            release_time: row.release_time.clone(),
            cover_url: row.cover_url.clone(),
            content: row.content.clone(),
            user_id: row.user_id,
            user_name: name_of(users, row.user_id),
        };
        out.push(post);
        i = i + 1;
    }
    out
}


/// The title `posts` gives `id`, or the title of an unknown post.
pub open spec fn title_or_unknown(posts: Seq<(u32, String)>, id: u32) -> Seq<char> {
    match last_match(posts, id) {
        Some(title) => title@,
        None => UNKNOWN_TITLE@,
    }
}

pub fn title_of(posts: &Vec<(u32, String)>, id: u32) -> (title: String)
    ensures
        title@ == title_or_unknown(posts@, id),
{
    match find_last(posts, id) {
        Some(i) => posts[i].1.clone(),
        None => String::from_str(UNKNOWN_TITLE),
    }
}

/// The label name `labels` gives `id`; the caller has checked that it gives one.
pub open spec fn label_name(labels: Seq<(u32, String)>, id: u32) -> Seq<char> {
    last_match(labels, id)->Some_0@
}

/// `out` is `row` with its author's and its label's names attached.
pub open spec fn post_with_label(row: LabeledPostRow, users: Seq<(u32, String)>, labels: Seq<(u32, String)>, out: ReturnPost) -> bool {
    &&& out.id == row.id
    &&& out.title@ == row.title@
    &&& out.release_time@ == row.release_time@
    &&& out.cover_url@ == row.cover_url@
    &&& out.content@ == row.content@
    &&& out.user_id == row.user_id
    &&& out.user_name@ == name_or_anonymous(users, row.user_id)
    &&& out.label_id == row.label_id
    &&& out.label_name@ == label_name(labels, row.label_id)
}

/// Every post's label is among `labels`.
pub open spec fn labels_known(posts: Seq<LabeledPostRow>, labels: Seq<(u32, String)>) -> bool {
    forall|i: int| 0 <= i < posts.len() ==> (#[trigger] last_match(labels, posts[i].label_id)) is Some
}

/// Each post with the names of its author and of its label. A label missing from
/// `labels` has no name for it, so every label must be listed (the management list
/// stops with a panic otherwise).
pub fn attach_user_and_label_names(
    posts: &Vec<LabeledPostRow>,
    users: &Vec<(u32, String)>,
    labels: &Vec<(u32, String)>,
) -> (out: Vec<ReturnPost>)
    requires
        labels_known(posts@, labels@),
    ensures
        out.len() == posts.len(),
        forall|i: int| 0 <= i < posts.len() ==> #[trigger] post_with_label(posts@[i], users@, labels@, out@[i]),
{
    let mut out: Vec<ReturnPost> = Vec::new();
    let mut i: usize = 0;
    while i < posts.len()
        invariant
            i <= posts.len(),
            out.len() == i,
            labels_known(posts@, labels@),
            forall|j: int| 0 <= j < i ==> #[trigger] post_with_label(posts@[j], users@, labels@, out@[j]),
        decreases posts.len() - i,
    {
        let row = &posts[i];
        assert(last_match(labels@, posts@[i as int].label_id) is Some);
        let label_index = find_last(labels, row.label_id);
        let label_name = match label_index {
            Some(k) => labels[k].1.clone(),
            None => String::new(),
        };
        let post = ReturnPost {
            id: row.id,
            title: row.title.clone(),
            release_time: row.release_time.clone(),
            cover_url: row.cover_url.clone(),
            content: row.content.clone(),
            user_id: row.user_id,
            user_name: name_of(users, row.user_id),
            label_id: row.label_id,
            label_name,
        };
        out.push(post);
        i = i + 1;
    }
    out
}

/// The name and avatar `users` gives `id`, or the given fallbacks.
pub open spec fn profile_or(users: Seq<(u32, (String, String))>, id: u32, name: Seq<char>, avatar: Seq<char>) -> (Seq<char>, Seq<char>) {
    match last_match(users, id) {
        Some(p) => (p.0@, p.1@),
        None => (name, avatar),
    }
}

fn profile_of(users: &Vec<(u32, (String, String))>, id: u32, name: &str, avatar: &str) -> (r: (String, String))
    ensures
        (r.0@, r.1@) == profile_or(users@, id, name@, avatar@),
{
    match find_last(users, id) {
        Some(i) => (users[i].1.0.clone(), users[i].1.1.clone()),
        None => (String::from_str(name), String::from_str(avatar)),
    }
}

/// `out` is the notification `row` with its sender's name and avatar and its post's title.
pub open spec fn message_joined(row: MessageRow, users: Seq<(u32, (String, String))>, posts: Seq<(u32, String)>, out: Message) -> bool {
    let sender = profile_or(users, row.sender_id, ANONYMOUS_NAME@, ""@);
    &&& out.id == row.id
    &&& out.sender_id == row.sender_id
    &&& out.recver_id == row.recver_id
    &&& out.sender_name@ == sender.0
    &&& out.sender_avatar_url@ == sender.1
    &&& out.post_id == row.post_id
    &&& out.title@ == title_or_unknown(posts, row.post_id)
    &&& out.status == row.status
}

/// Each notification with its sender's name and avatar (the anonymous name and an empty
/// avatar for an unknown sender) and its post's title.
pub fn attach_message_details(
    messages: &Vec<MessageRow>,
    users: &Vec<(u32, (String, String))>,
    posts: &Vec<(u32, String)>,
) -> (out: Vec<Message>)
    ensures
        out.len() == messages.len(),
        forall|i: int| 0 <= i < messages.len() ==> #[trigger] message_joined(messages@[i], users@, posts@, out@[i]),
{
    let mut out: Vec<Message> = Vec::new();
    let mut i: usize = 0;
    while i < messages.len()
        invariant
            i <= messages.len(),
            out.len() == i,
            forall|j: int| 0 <= j < i ==> #[trigger] message_joined(messages@[j], users@, posts@, out@[j]),
        decreases messages.len() - i,
    {
        let row = &messages[i];
        let sender = profile_of(users, row.sender_id, ANONYMOUS_NAME, "");
        let message = Message {
            id: row.id,
            sender_id: row.sender_id,
            recver_id: row.recver_id,
            sender_name: sender.0,
            sender_avatar_url: sender.1,
            post_id: row.post_id,
            title: title_of(posts, row.post_id),
            status: row.status,
        };
        out.push(message);
        i = i + 1;
    }
    out
}

/// `out` is the report `row` with its reporter's name and avatar and the post's title.
pub open spec fn report_joined(row: ReportRow, users: Seq<(u32, (String, String))>, posts: Seq<(u32, String)>, out: ReportInfo) -> bool {
    &&& out.id == row.id
    &&& out.user_id == row.user_id
    &&& out.username@ == profile_or(users, row.user_id, ANONYMOUS_NAME@, ""@).0
    &&& out.avatar_url@ == profile_or(users, row.user_id, ""@, AVATAR_URL@).1
    &&& out.post_id == row.post_id
    &&& out.title@ == title_or_unknown(posts, row.post_id)
    &&& out.release_time@ == row.release_time@
    &&& out.report_reason@ == row.report_reason@
}

/// Each report with its reporter's name (the anonymous name if unknown), avatar (the
/// default avatar if unknown) and the reported post's title.
pub fn attach_report_details(
    reports: &Vec<ReportRow>,
    users: &Vec<(u32, (String, String))>,
    posts: &Vec<(u32, String)>,
) -> (out: Vec<ReportInfo>)
    ensures
        out.len() == reports.len(),
        forall|i: int| 0 <= i < reports.len() ==> #[trigger] report_joined(reports@[i], users@, posts@, out@[i]),
{
    let mut out: Vec<ReportInfo> = Vec::new();
    let mut i: usize = 0;
    while i < reports.len()
        invariant
            i <= reports.len(),
            out.len() == i,
            forall|j: int| 0 <= j < i ==> #[trigger] report_joined(reports@[j], users@, posts@, out@[j]),
        decreases reports.len() - i,
    {
        let row = &reports[i];
        let named = profile_of(users, row.user_id, ANONYMOUS_NAME, "");
        let pictured = profile_of(users, row.user_id, "", AVATAR_URL);
        let report = ReportInfo {
            id: row.id,
            user_id: row.user_id,
            username: named.0,
            avatar_url: pictured.1,
            post_id: row.post_id,
            title: title_of(posts, row.post_id),
            release_time: row.release_time.clone(),
            report_reason: row.report_reason.clone(),
        };
        out.push(report);
        i = i + 1;
    }
    out
}

/// `out` is the comment `row` with its author's name and avatar.
pub open spec fn comment_joined(row: CommentRow, users: Seq<(u32, (String, String))>, out: UserComment) -> bool {
    &&& out.id == row.id
    &&& out.post_id == row.post_id
    &&& out.user_id == row.user_id
    &&& out.username@ == profile_or(users, row.user_id, ANONYMOUS_NAME@, ""@).0
    &&& out.avatar_url@ == profile_or(users, row.user_id, ""@, AVATAR_URL@).1
    &&& out.release_time@ == row.release_time@
    &&& out.comment@ == row.comment@
}

/// Each comment with its author's name (the anonymous name if unknown) and avatar (the
/// default avatar if unknown).
pub fn attach_comment_authors(comments: &Vec<CommentRow>, users: &Vec<(u32, (String, String))>) -> (out: Vec<UserComment>)
    ensures
        out.len() == comments.len(),
        forall|i: int| 0 <= i < comments.len() ==> #[trigger] comment_joined(comments@[i], users@, out@[i]),
{
    let mut out: Vec<UserComment> = Vec::new();
    let mut i: usize = 0;
    while i < comments.len()
        invariant
            i <= comments.len(),
            out.len() == i,
            forall|j: int| 0 <= j < i ==> #[trigger] comment_joined(comments@[j], users@, out@[j]),
        decreases comments.len() - i,
    {
        let row = &comments[i];
        let named = profile_of(users, row.user_id, ANONYMOUS_NAME, "");
        let pictured = profile_of(users, row.user_id, "", AVATAR_URL);
        let comment = UserComment {
            id: row.id,
            post_id: row.post_id,
            user_id: row.user_id,
            username: named.0,
            avatar_url: pictured.1,
            release_time: row.release_time.clone(),
            comment: row.comment.clone(),
        };
        out.push(comment);
        i = i + 1;
    }
    out
}

/// Whether `logins` marks `id` as banned; users without a login row are not banned.
pub open spec fn banned(logins: Seq<(u32, bool)>, id: u32) -> bool {
    match last_match(logins, id) {
        Some(b) => b,
        None => false,
    }
}

/// `out` is the user `row` with its ban and administrator flags.
pub open spec fn managed_user_joined(row: ManagedUserRow, logins: Seq<(u32, bool)>, admin: bool, out: ManagedUser) -> bool {
    &&& out.user_id == row.user_id
    &&& out.email@ == row.email@
    &&& out.username@ == row.username@
    &&& out.avatar_url@ == row.avatar_url@
    &&& out.register_time@ == row.register_time@
    &&& out.is_ban == banned(logins, row.user_id)
    &&& out.is_admin == admin
}

/// Each user with whether `logins` marks them banned and whether they are an
/// administrator (`admins[i]` for `users[i]`).
pub fn attach_user_flags(users: &Vec<ManagedUserRow>, logins: &Vec<(u32, bool)>, admins: &Vec<bool>) -> (out: Vec<ManagedUser>)
    requires
        admins.len() == users.len(),
    ensures
        out.len() == users.len(),
        forall|i: int| 0 <= i < users.len() ==> #[trigger] managed_user_joined(users@[i], logins@, admins@[i], out@[i]),
{
    let mut out: Vec<ManagedUser> = Vec::new();
    let mut i: usize = 0;
    while i < users.len()
        invariant
            i <= users.len(),
            admins.len() == users.len(),
            out.len() == i,
            forall|j: int| 0 <= j < i ==> #[trigger] managed_user_joined(users@[j], logins@, admins@[j], out@[j]),
        decreases users.len() - i,
    {
        let row = &users[i];
        let is_ban = match find_last(logins, row.user_id) {
            Some(k) => logins[k].1,
            None => false,
        };
        let user = ManagedUser {
            user_id: row.user_id,
            email: row.email.clone(),
            username: row.username.clone(),
            avatar_url: row.avatar_url.clone(),
            register_time: row.register_time.clone(),
            is_ban,
            is_admin: admins[i],
        };
        out.push(user);
        i = i + 1;
    }
    out
}

/// Whether `id` occurs in `ids`.
fn contains_id(ids: &Vec<u32>, id: u32) -> (r: bool)
    ensures
        r == ids@.contains(id),
{
    let mut i: usize = 0;
    while i < ids.len()
        invariant
            i <= ids.len(),
            forall|j: int| 0 <= j < i ==> ids@[j] != id,
        decreases ids.len() - i,
    {
        if ids[i] == id {
            assert(ids@[i as int] == id);
            return true;
        }
        i = i + 1;
    }
    false
}

/// `ids` holds each value once.
pub open spec fn no_duplicates(ids: Seq<u32>) -> bool {
    forall|i: int, j: int| 0 <= i < j < ids.len() ==> #[trigger] ids[i] != #[trigger] ids[j]
}

/// The values of `ids`, each once, in order of first occurrence (the endpoints collect
/// them into a `HashSet`, whose order is unspecified).
pub fn distinct_ids(ids: &Vec<u32>) -> (out: Vec<u32>)
    ensures
        no_duplicates(out@),
        forall|x: u32| out@.contains(x) <==> ids@.contains(x),
{
    let mut out: Vec<u32> = Vec::new();
    let mut i: usize = 0;
    while i < ids.len()
        invariant
            i <= ids.len(),
            no_duplicates(out@),
            forall|x: u32| out@.contains(x) <==> ids@.take(i as int).contains(x),
        decreases ids.len() - i,
    {
        let x = ids[i];
        let ghost before = out@;
        if !contains_id(&out, x) {
            out.push(x);
            proof {
                assert forall|a: int, b: int| 0 <= a < b < out@.len() implies #[trigger] out@[a] != #[trigger] out@[b] by {
                    if b == out@.len() - 1 {
                        assert(before.contains(before[a]));
                    }
                }
            }
        }
        proof {
            let t = ids@.take(i as int);
            let t1 = ids@.take(i + 1);
            assert(t1 =~= t.push(x));
            assert(forall|k: int| 0 <= k < before.len() ==> out@[k] == before[k]);
            assert(out@.len() == before.len() || (out@.len() == before.len() + 1 && out@[before.len() as int] == x));
            assert(before.contains(x) ==> out@.contains(x));
            assert forall|y: u32| out@.contains(y) <==> t1.contains(y) by {
                if out@.contains(y) {
                    let k = choose|k: int| 0 <= k < out@.len() && #[trigger] out@[k] == y;
                    if k < before.len() {
                        assert(before[k] == y);
                        assert(before.contains(y));
                        assert(t.contains(y));
                        let m = choose|m: int| 0 <= m < t.len() && #[trigger] t[m] == y;
                        assert(t1[m] == y);
                    } else {
                        assert(t1[i as int] == x);
                    }
                }
                if t1.contains(y) {
                    let m = choose|m: int| 0 <= m < t1.len() && #[trigger] t1[m] == y;
                    if m < i {
                        assert(t[m] == y);
                        assert(t.contains(y));
                        assert(before.contains(y));
                        let k = choose|k: int| 0 <= k < before.len() && #[trigger] before[k] == y;
                        assert(out@[k] == y);
                    } else {
                        assert(y == x);
                        if !before.contains(x) {
                            assert(out@[before.len() as int] == x);
                        }
                    }
                }
            }
        }
        i = i + 1;
    }
    assert(ids@.take(ids.len() as int) =~= ids@);
    out
}

/// A table built from `(id, value)` rows, as a `HashMap` collects them, gives each id
/// the value of its last row: nothing when no row has the id, and a row appended for an
/// id decides that id and leaves every other id as it was.
pub proof fn lemma_last_row_wins<V>(pairs: Seq<(u32, V)>, id: u32, v: V, other: u32)
    ensures
        last_match(Seq::<(u32, V)>::empty(), id) is None,
        last_match(pairs.push((id, v)), id) == Some(v),
        other != id ==> last_match(pairs.push((id, v)), other) == last_match(pairs, other),
        (forall|i: int| 0 <= i < pairs.len() ==> #[trigger] pairs[i].0 != id) ==> last_match(pairs, id) is None,
        last_match(pairs, id) matches Some(found) ==> exists|i: int| 0 <= i < pairs.len() && #[trigger] pairs[i] == (id, found),
    decreases pairs.len(),
{
    assert(pairs.push((id, v)).drop_last() =~= pairs);
    if pairs.len() > 0 {
        let rest = pairs.drop_last();
        lemma_last_row_wins(rest, id, v, other);
        if forall|i: int| 0 <= i < pairs.len() ==> #[trigger] pairs[i].0 != id {
            assert forall|i: int| 0 <= i < rest.len() implies #[trigger] rest[i].0 != id by {
                assert(rest[i] == pairs[i]);
            }
            assert(pairs[pairs.len() - 1].0 != id);
        }
        if let Some(found) = last_match(pairs, id) {
            if pairs.last().0 == id {
                assert(pairs[pairs.len() - 1] == (id, found));
            } else {
                let i = choose|i: int| 0 <= i < rest.len() && #[trigger] rest[i] == (id, found);
                assert(pairs[i] == rest[i]);
            }
        }
    }
}

/// The joins fall back exactly when the table has no row for the id: the anonymous name,
/// the unknown title, the given name and avatar, and "not banned"; otherwise they take
/// the value of the id's last row.
pub proof fn lemma_join_fallbacks(
    users: Seq<(u32, String)>,
    profiles: Seq<(u32, (String, String))>,
    logins: Seq<(u32, bool)>,
    id: u32,
    name: Seq<char>,
    avatar: Seq<char>,
)
    ensures
        last_match(users, id) is None ==> name_or_anonymous(users, id) == ANONYMOUS_NAME@
            && title_or_unknown(users, id) == UNKNOWN_TITLE@,
        last_match(users, id) matches Some(n) ==> name_or_anonymous(users, id) == n@ && title_or_unknown(users, id) == n@,
        last_match(profiles, id) is None ==> profile_or(profiles, id, name, avatar) == (name, avatar),
        last_match(profiles, id) matches Some(p) ==> profile_or(profiles, id, name, avatar) == (p.0@, p.1@),
        last_match(logins, id) is None ==> !banned(logins, id),
        last_match(logins, id) matches Some(b) ==> banned(logins, id) == b,
{
}

/// A list holds each value once exactly when no value repeats: appending a value keeps
/// it so only when the value is new, and no value may appear twice.
pub proof fn lemma_no_duplicates_by_value(ids: Seq<u32>, x: u32)
    ensures
        no_duplicates(Seq::<u32>::empty()),
        !no_duplicates(seq![x, x]),
        no_duplicates(ids.push(x)) <==> no_duplicates(ids) && !ids.contains(x),
{
    assert(seq![x, x][0] == seq![x, x][1]);
    let s = ids.push(x);
    if no_duplicates(s) {
        assert forall|i: int, j: int| 0 <= i < j < ids.len() implies #[trigger] ids[i] != #[trigger] ids[j] by {
            assert(s[i] == ids[i] && s[j] == ids[j]);
        }
        if ids.contains(x) {
            let k = choose|k: int| 0 <= k < ids.len() && ids[k] == x;
            assert(s[k] == x && s[ids.len() as int] == x);
        }
    }
    if no_duplicates(ids) && !ids.contains(x) {
        assert forall|i: int, j: int| 0 <= i < j < s.len() implies #[trigger] s[i] != #[trigger] s[j] by {
            if j == ids.len() {
                assert(s[i] == ids[i]);
                assert(ids.contains(ids[i]));
            } else {
                assert(s[i] == ids[i] && s[j] == ids[j]);
            }
        }
    }
}

} // verus!
