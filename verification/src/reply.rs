//! Replies that carry a message instead of data, and the message each endpoint sends
//! when the request's token is not accepted.

use vstd::prelude::*;

verus! {

/// The HTTP statuses the service answers with.
#[derive(Debug, Clone, Copy, PartialEq, Eq, Structural)]
pub enum Status {
    /// 200 OK.
    Success,
    BadRequest,
    Forbidden,
    NotFound,
    InternalServerError,
}

/// A reply made of a status and a text. When `quoted` holds, the body is the text
/// encoded as a JSON string; otherwise it is the text itself.
#[derive(Debug)]
pub struct Reply {
    pub status: Status,
    pub text: String,
    pub quoted: bool,
}

/// `r` is the reply `status` with `text`, quoted or not.
pub open spec fn is_reply(r: Reply, status: Status, text: Seq<char>, quoted: bool) -> bool {
    r.status == status && r.text@ == text && r.quoted == quoted
}

/// A reply whose body is `text` as a JSON string.
pub fn quoted(status: Status, text: &str) -> (r: Reply)
    ensures
        is_reply(r, status, text@, true),
{
    Reply { status, text: String::from_str(text), quoted: true }
}

/// A reply whose body is `text` itself.
pub fn plain(status: Status, text: &str) -> (r: Reply)
    ensures
        is_reply(r, status, text@, false),
{
    Reply { status, text: String::from_str(text), quoted: false }
}

/// The reply of an unexpected failure (a database error, for most endpoints).
pub fn internal_error() -> (r: Reply)
    ensures
        is_reply(r, Status::InternalServerError, "Internal Server Error"@, false),
{
    plain(Status::InternalServerError, "Internal Server Error")
}

/// The endpoints that refuse a request whose token does not verify.
#[derive(Debug, Clone, Copy, PartialEq, Eq, Structural)]
pub enum Endpoint {
    GetFollowRelationships,
    GetFollowPostTotalNumbers,
    GetFollowPostsList,
    GetLabelList,
    DeleteLabel,
    AddLabel,
    ManagemrntAddLabel,
    ManagemrntDeleteLabel,
    GetLikeCollect,
    AddLike,
    SubLike,
    AddCollect,
    SubCollect,
    SubmitImage,
    GetImage,
    SubmitCover,
    DeletePost,
    SubmitPost,
    GetPostManagementTotal,
    GetPostManagementList,
    SearchPost,
    LabelGetPost,
    TitleLabelGetPost,
    SubmitReport,
    GetReportTotal,
    GetReport,
    TokenGetUserinfo,
    SubmitAvatar,
    SubmitComment,
    DeleteComment,
    GetUserManagementTotal,
    GetUserManagementList,
    BanUser,
    UpdateUserInfo,
    SearchUser,
    GetUserprofileTotalnumbersCollect,
    GetUserprofileCollectPosts,
    AddRemoveFollow,
}

/// The status and text an endpoint answers with when the token does not verify.
pub open spec fn rejection_spec(e: Endpoint) -> (Status, Seq<char>) {
    match e {
        Endpoint::GetLabelList => (Status::Success, "toekn verify error"@),
        Endpoint::DeleteLabel | Endpoint::AddLabel | Endpoint::GetPostManagementList => (Status::Success, "token verify error"@),
        Endpoint::ManagemrntAddLabel | Endpoint::ManagemrntDeleteLabel | Endpoint::GetPostManagementTotal
        | Endpoint::SearchPost | Endpoint::LabelGetPost | Endpoint::TitleLabelGetPost | Endpoint::GetReportTotal
        | Endpoint::GetUserManagementTotal | Endpoint::GetUserManagementList | Endpoint::BanUser
        | Endpoint::SearchUser => (Status::BadRequest, "token verify error"@),
        Endpoint::UpdateUserInfo => (Status::BadRequest, "Token verify error"@),
        Endpoint::SubmitReport => (Status::BadRequest, "Failed token verif"@),
        Endpoint::GetReport => (Status::BadRequest, "Failed token verify"@),
        Endpoint::GetUserprofileTotalnumbersCollect => (Status::BadRequest, "Token is failed"@),
        _ => (Status::BadRequest, "Failed is verif token"@),
    }
}

/// The reply of `e` to a request whose token does not verify.
pub fn token_rejection(e: Endpoint) -> (r: Reply)
    ensures
        is_reply(r, rejection_spec(e).0, rejection_spec(e).1, false),
{
    match e {
        Endpoint::GetLabelList => plain(Status::Success, "toekn verify error"),
        Endpoint::DeleteLabel | Endpoint::AddLabel | Endpoint::GetPostManagementList => plain(Status::Success, "token verify error"),
        Endpoint::ManagemrntAddLabel | Endpoint::ManagemrntDeleteLabel | Endpoint::GetPostManagementTotal
        | Endpoint::SearchPost | Endpoint::LabelGetPost | Endpoint::TitleLabelGetPost | Endpoint::GetReportTotal
        | Endpoint::GetUserManagementTotal | Endpoint::GetUserManagementList | Endpoint::BanUser
        | Endpoint::SearchUser => plain(Status::BadRequest, "token verify error"),
        Endpoint::UpdateUserInfo => plain(Status::BadRequest, "Token verify error"),
        Endpoint::SubmitReport => plain(Status::BadRequest, "Failed token verif"),
        Endpoint::GetReport => plain(Status::BadRequest, "Failed token verify"),
        Endpoint::GetUserprofileTotalnumbersCollect => plain(Status::BadRequest, "Token is failed"),
        _ => plain(Status::BadRequest, "Failed is verif token"),
    }
}

/// Whether the token of a request may act for `user_id`: it must name that user and
/// match the stored login.
pub fn owner_verified(token_user_id: u32, user_id: u32, verified: bool) -> (r: bool)
    ensures
        r == (token_user_id == user_id && verified),
{
    token_user_id == user_id && verified
}

/// The reply when a token may not act for the user a request names.
pub fn owner_rejection() -> (r: Reply)
    ensures
        is_reply(r, Status::BadRequest, "Token verif Farild"@, false),
{
    plain(Status::BadRequest, "Token verif Farild")
}

} // verus!
