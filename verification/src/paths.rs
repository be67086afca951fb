//! Where uploaded files are stored and the URLs under which they are served again.

use vstd::prelude::*;
use crate::config::ServerConfig;
use crate::text::{decimal, has_prefix, has_suffix, push_decimal, trim_end_matches, trim_end_spec, trim_start_matches, trim_start_spec};

verus! {

/// The three kinds of uploaded pictures.
#[derive(Clone, Copy, Debug, PartialEq, Eq, Structural)]
pub enum UploadKind {
    Avatar,
    Cover,
    Image,
}

/// The directory that holds the files of a kind.
pub open spec fn kind_dir(kind: UploadKind) -> Seq<char> {
    match kind {
        UploadKind::Avatar => "./static/avatar/"@,
        UploadKind::Cover => "./static/cover/"@,
        UploadKind::Image => "./static/image/"@,
    }
}

/// The beginning of the file name of a kind.
pub open spec fn kind_stem(kind: UploadKind) -> Seq<char> {
    match kind {
        UploadKind::Avatar => "avatar-"@,
        UploadKind::Cover => "cover-"@,
        UploadKind::Image => "image-"@,
    }
}

/// The route segment under `/api/` that serves the files of a kind.
pub open spec fn kind_route(kind: UploadKind) -> Seq<char> {
    match kind {
        UploadKind::Avatar => "avatar"@,
        UploadKind::Cover => "cover"@,
        UploadKind::Image => "image"@,
    }
}

pub open spec fn file_path_spec(kind: UploadKind, id: Seq<char>) -> Seq<char> {
    kind_dir(kind) + kind_stem(kind) + id + ".jpg"@
}

/// The path of the stored file of `kind` named by `id`: `./static/{kind}/{kind}-{id}.jpg`.
pub fn file_path(kind: UploadKind, id: &str) -> (p: String)
    ensures
        p@ == file_path_spec(kind, id@),
{
    let (dir, stem) = match kind {
        UploadKind::Avatar => ("./static/avatar/", "avatar-"),
        UploadKind::Cover => ("./static/cover/", "cover-"),
        UploadKind::Image => ("./static/image/", "image-"),
    };
    let mut p = String::from_str(dir);
    p.append(stem);
    p.append(id);
    p.append(".jpg");
    p
}

pub open spec fn url_spec(kind: UploadKind, path: Seq<char>, host: Seq<char>, port: u32) -> Seq<char> {
    let trimmed = trim_start_spec(path, kind_dir(kind));
    let without_extension = trim_end_spec(trimmed, ".jpg"@);
    let id = trim_start_spec(without_extension, kind_stem(kind));
    "https://"@ + host + ":"@ + decimal(port as nat) + "/api/"@ + kind_route(kind) + "/"@ + id
}

/// The URL under which the file at `path` is served: the directory, the `.jpg` extension
/// and the kind's stem are trimmed off the path, and the rest is appended to
/// `https://{host}:{port}/api/{kind}/`.
pub fn convert_path_to_url(kind: UploadKind, path: &str, server: &ServerConfig) -> (url: String)
    ensures
        url@ == url_spec(kind, path@, server.host@, server.port),
{
    let (dir, stem, route) = match kind {
        UploadKind::Avatar => ("./static/avatar/", "avatar-", "avatar"),
        UploadKind::Cover => ("./static/cover/", "cover-", "cover"),
        UploadKind::Image => ("./static/image/", "image-", "image"),
    };
    let trimmed_path = trim_start_matches(path, dir);
    let without_extension = trim_end_matches(trimmed_path, ".jpg");
    let id = trim_start_matches(without_extension, stem);
    let mut url = String::from_str("https://");
    url.append(server.host.as_str());
    url.append(":");
    push_decimal(&mut url, server.port as u64);
    url.append("/api/");
    url.append(route);
    url.append("/");
    url.append(id);
    url
}


pub open spec fn is_lower_hex(c: char) -> bool {
    ('0' <= c && c <= '9') || ('a' <= c && c <= 'f')
}

/// The hyphenated lower-case text of a UUID: 36 characters, `-` at positions 8, 13, 18
/// and 23, lower-case hexadecimal digits everywhere else.
pub open spec fn is_uuid_text(u: Seq<char>) -> bool {
    &&& u.len() == 36
    &&& forall|i: int|
        0 <= i < 36 ==> if i == 8 || i == 13 || i == 18 || i == 23 {
            #[trigger] u[i] == '-'
        } else {
            is_lower_hex(u[i])
        }
}

/// The text of a fresh random UUID (`uuid::Uuid::new_v4`, printed through `Display`).
/// The uuid crate prints a UUID hyphenated and in lower case; that shape is all that is
/// claimed here, the digits themselves are random.
#[verifier::external_body]
pub(crate) fn new_uuid_text() -> (s: String)
    ensures
        is_uuid_text(s@),
{
    uuid::Uuid::new_v4().to_string()
}

/// A fresh path for an uploaded file of `kind`, named by a random UUID.
pub fn new_upload_path(kind: UploadKind) -> (p: String)
    ensures
        exists|u: Seq<char>| is_uuid_text(u) && p@ == file_path_spec(kind, u),
{
    let id = new_uuid_text();
    file_path(kind, id.as_str())
}

proof fn lemma_trim_start_once(s: Seq<char>, p: Seq<char>, rest: Seq<char>)
    requires
        p.len() > 0,
        s == p + rest,
        !has_prefix(rest, p),
    ensures
        trim_start_spec(s, p) == rest,
{
    assert(s.take(p.len() as int) =~= p);
    assert(s.skip(p.len() as int) =~= rest);
    assert(trim_start_spec(rest, p) == rest);
}

proof fn lemma_trim_end_once(s: Seq<char>, p: Seq<char>, rest: Seq<char>)
    requires
        p.len() > 0,
        s == rest + p,
        !has_suffix(rest, p),
    ensures
        trim_end_spec(s, p) == rest,
{
    assert(s.skip(s.len() - p.len()) =~= p);
    assert(s.take(s.len() - p.len()) =~= rest);
    assert(trim_end_spec(rest, p) == rest);
}

proof fn lemma_kind_literals(kind: UploadKind)
    ensures
        kind_dir(kind).len() > 0,
        kind_dir(kind)[0] == '.',
        kind_stem(kind).len() > 1,
        !is_lower_hex(kind_stem(kind)[1]),
        kind_stem(kind)[0] != '.',
        ".jpg"@ =~= seq!['.', 'j', 'p', 'g'],
{
    reveal_strlit("./static/avatar/");
    reveal_strlit("./static/cover/");
    reveal_strlit("./static/image/");
    reveal_strlit("avatar-");
    reveal_strlit("cover-");
    reveal_strlit("image-");
    reveal_strlit(".jpg");
}

/// The URL of a stored file ends in the id that names the file, so `file_path` of the
/// URL's last segment is the path of that same file, for every id that does not itself
/// begin with the kind's stem or (after the stem) end in `.jpg` (those would be trimmed
/// too).
pub proof fn lemma_file_url_roundtrip(kind: UploadKind, u: Seq<char>, host: Seq<char>, port: u32)
    requires
        !has_prefix(u, kind_stem(kind)),
        !has_suffix(kind_stem(kind) + u, ".jpg"@),
    ensures
        url_spec(kind, file_path_spec(kind, u), host, port)
            == "https://"@ + host + ":"@ + decimal(port as nat) + "/api/"@ + kind_route(kind) + "/"@ + u,
{
    lemma_kind_literals(kind);
    let dir = kind_dir(kind);
    let stem = kind_stem(kind);
    let jpg = ".jpg"@;
    let path = file_path_spec(kind, u);
    let after_dir = stem + u + jpg;
    assert(path =~= dir + after_dir);
    assert(!has_prefix(after_dir, dir)) by {
        assert(after_dir[0] == stem[0]);
        if has_prefix(after_dir, dir) {
            assert(after_dir.take(dir.len() as int)[0] == dir[0]);
        }
    }
    lemma_trim_start_once(path, dir, after_dir);
    let before_ext = stem + u;
    assert(after_dir =~= before_ext + jpg);
    lemma_trim_end_once(after_dir, jpg, before_ext);
    lemma_trim_start_once(before_ext, stem, u);
}

/// The URL handed out for an uploaded file, named by a UUID, ends in that UUID.
pub proof fn lemma_upload_url_roundtrip(kind: UploadKind, u: Seq<char>, host: Seq<char>, port: u32)
    requires
        is_uuid_text(u),
    ensures
        url_spec(kind, file_path_spec(kind, u), host, port)
            == "https://"@ + host + ":"@ + decimal(port as nat) + "/api/"@ + kind_route(kind) + "/"@ + u,
{
    lemma_kind_literals(kind);
    let stem = kind_stem(kind);
    let jpg = ".jpg"@;
    let before_ext = stem + u;
    assert(!has_suffix(before_ext, jpg)) by {
        assert(is_lower_hex(u[35]));
        assert(before_ext[before_ext.len() - 1] == u[35]);
        if has_suffix(before_ext, jpg) {
            assert(before_ext.skip(before_ext.len() - 4)[3] == jpg[3]);
        }
    }
    assert(!has_prefix(u, stem)) by {
        assert(is_lower_hex(u[1]));
        if has_prefix(u, stem) {
            assert(u.take(stem.len() as int)[1] == stem[1]);
        }
    }
    lemma_file_url_roundtrip(kind, u, host, port);
}

} // verus!
