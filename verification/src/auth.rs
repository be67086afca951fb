//! Logging in, registering with an e-mail verification code, resetting a forgotten
//! password, and refreshing the user information behind a token.

use vstd::prelude::*;
use crate::email::{Email, lookup};
use crate::model::{AVATAR_URL, UserInfomation};
use crate::queries::{insert_login_query, insert_user_query, insert_user_stats_query};
use crate::reply::{Reply, Status, is_reply, quoted, plain};
use crate::text::{decimal, push_decimal, same_text};
use crate::token::{Claims, Token, JWT_SECRET, TOKEN_LIFETIME_SECS, is_clock_reading, jwt_token};

verus! {

/// The reply when the database or the token machinery failed.
pub fn busy() -> (r: Reply)
    ensures
        is_reply(r, Status::InternalServerError, "服务器繁忙"@, true),
{
    quoted(Status::InternalServerError, "服务器繁忙")
}

/// Checks a login attempt against the login rows `(user_id, password)` read for its
/// e-mail: the first row must exist and carry the password given. On success, the id of
/// the account.
pub fn login_check(rows: &Vec<(u32, String)>, password: &str) -> (r: Result<u32, Reply>)
    ensures
        rows.len() == 0 ==> r is Err && is_reply(r->Err_0, Status::BadRequest, "用户不存在"@, true),
        rows.len() > 0 && rows@[0].1@ != password@ ==>
            r is Err && is_reply(r->Err_0, Status::BadRequest, "用户名或密码错误"@, true),
        rows.len() > 0 && rows@[0].1@ == password@ ==> r == Ok::<u32, Reply>(rows@[0].0),
{
    if rows.len() == 0 {
        return Err(quoted(Status::BadRequest, "用户不存在"));
    }
    if !same_text(rows[0].1.as_str(), password) {
        return Err(quoted(Status::BadRequest, "用户名或密码错误"));
    }
    Ok(rows[0].0)
}

/// The reply when a banned account tries to log in.
pub fn banned_reply() -> (r: Reply)
    ensures
        is_reply(r, Status::InternalServerError, "用户已被封禁"@, true),
{
    quoted(Status::InternalServerError, "用户已被封禁")
}

/// The avatar a user shows: the stored one, or the default avatar when none is stored.
pub open spec fn avatar_or_default(stored: Seq<char>) -> Seq<char> {
    if stored.len() != 0 { stored } else { AVATAR_URL@ }
}

/// What a login returns about the user: the first user row `(id, name, avatar)`, the
/// first stats row `(follower_count, fans)` and the token.
pub fn login_info(users: &Vec<(u32, String, String)>, stats: &Vec<(u32, u32)>, token: String) -> (info: UserInfomation)
    requires
        users.len() > 0,
        stats.len() > 0,
    ensures
        info.id == users@[0].0,
        info.name@ == users@[0].1@,
        info.avatar_url@ == avatar_or_default(users@[0].2@),
        info.follower_count == stats@[0].0,
        info.fans == stats@[0].1,
        info.token@ == token@,
{
    let avatar_url = if users[0].2.as_str().unicode_len() != 0 {
        users[0].2.clone()
    } else {
        String::from_str(AVATAR_URL)
    };
    UserInfomation {
        id: users[0].0,
        name: users[0].1.clone(),
        avatar_url,
        follower_count: stats[0].0,
        fans: stats[0].1,
        token,
    }
}

/// Why a verification code is being sent.
#[derive(Debug, Clone, Copy, PartialEq, Eq, Structural)]
pub enum CodePurpose {
    Register,
    ForgotPassword,
}

/// Whether a code may be sent for an address, given the user ids registered with it:
/// registering needs an unused address, resetting a password a used one.
pub fn code_request_check(purpose: CodePurpose, user_ids: &Vec<u32>) -> (r: Result<(), Reply>)
    ensures
        purpose == CodePurpose::Register ==> (r is Ok <==> user_ids.len() == 0),
        purpose == CodePurpose::Register && r is Err ==>
            is_reply(r->Err_0, Status::InternalServerError, "用户已经存在"@, true),
        purpose == CodePurpose::ForgotPassword ==> (r is Ok <==> user_ids.len() != 0),
        purpose == CodePurpose::ForgotPassword && r is Err ==>
            is_reply(r->Err_0, Status::InternalServerError, "用户不存在"@, true),
{
    match purpose {
        CodePurpose::Register => if user_ids.len() > 0 {
            Err(quoted(Status::InternalServerError, "用户已经存在"))
        } else {
            Ok(())
        },
        CodePurpose::ForgotPassword => if user_ids.len() == 0 {
            Err(quoted(Status::InternalServerError, "用户不存在"))
        } else {
            Ok(())
        },
    }
}

/// The subject of the mail that carries a code.
pub fn code_mail_subject(purpose: CodePurpose) -> (s: &'static str)
    ensures
        purpose == CodePurpose::Register ==> s@ == "Program Station 注册验证"@,
        purpose == CodePurpose::ForgotPassword ==> s@ == "Program Station 找回密码验证"@,
{
    match purpose {
        CodePurpose::Register => "Program Station 注册验证",
        CodePurpose::ForgotPassword => "Program Station 找回密码验证",
    }
}

/// The text of the mail that carries `code`.
pub fn code_mail_body(code: u32) -> (b: String)
    ensures
        b@ == "你的验证码是: "@ + decimal(code as nat) + "， 有限期为五分钟。"@,
{
    let mut b = String::from_str("你的验证码是: ");
    push_decimal(&mut b, code as u64);
    b.append("， 有限期为五分钟。");
    b
}

/// What follows the attempt to mail `code` to `receiver`. A mail that could not be sent
/// changes nothing. A sent code is stored as the address's pending code; the reply is an
/// error when no code had been pending for the address before (storing reports it so),
/// and the confirmation otherwise.
pub fn code_sent(email: &mut Email, receiver: &str, code: u32, sent: bool) -> (r: Reply)
    ensures
        !sent ==> final(email).codes() == old(email).codes()
            && is_reply(r, Status::InternalServerError, "Failed to send verification code."@, true),
        sent ==> final(email).codes() == old(email).codes().insert(receiver@, code),
        sent && old(email).codes().contains_key(receiver@) ==>
            is_reply(r, Status::Success, "Verification code sent."@, true),
        sent && !old(email).codes().contains_key(receiver@) ==>
            is_reply(r, Status::InternalServerError, "verification_hash insert error occurred"@, false),
{
    if !sent {
        return quoted(Status::InternalServerError, "Failed to send verification code.");
    }
    match email.insert(receiver, code) {
        Ok(()) => quoted(Status::Success, "Verification code sent."),
        Err(_) => plain(Status::InternalServerError, "verification_hash insert error occurred"),
    }
}

/// The reply to a wrong verification code.
pub fn wrong_code_reply() -> (r: Reply)
    ensures
        is_reply(r, Status::NotFound, "验证码错误"@, true),
{
    quoted(Status::NotFound, "验证码错误")
}

/// Whether a registration may go on: no login may use the address yet, and the code
/// given must be the one pending for it.
pub fn registration_check(login_ids: &Vec<u32>, email: &Email, receiver: &str, code: u32) -> (r: Result<(), Reply>)
    ensures
        login_ids.len() > 0 ==> r is Err && is_reply(r->Err_0, Status::InternalServerError, "用户已经存在"@, true),
        login_ids.len() == 0 && lookup(email.codes(), receiver@) != Some(code) ==>
            r is Err && is_reply(r->Err_0, Status::NotFound, "验证码错误"@, true),
        r is Ok <==> login_ids.len() == 0 && lookup(email.codes(), receiver@) == Some(code),
{
    if login_ids.len() > 0 {
        return Err(quoted(Status::InternalServerError, "用户已经存在"));
    }
    match email.verify_verification_code(receiver, code) {
        Ok(()) => Ok(()),
        Err(_) => Err(wrong_code_reply()),
    }
}

/// The reply once a forgotten password was reset.
pub fn password_reset_reply() -> (r: Reply)
    ensures
        is_reply(r, Status::Success, "重置成功"@, true),
{
    quoted(Status::Success, "重置成功")
}

/// Where a registration transaction stands.
#[derive(Debug, Clone, Copy, PartialEq, Eq, Structural)]
pub enum RegisterPhase {
    /// The transaction is being opened.
    Opening,
    /// The user row is being inserted.
    InsertingUser,
    /// The id of the new user is being read.
    ReadingId,
    /// The stats row of the user with this id is being inserted.
    InsertingStats(u32),
    /// The login row of the user with this id is being inserted.
    InsertingLogin(u32),
    /// The transaction of the user with this id is being committed.
    Committing(u32),
    /// The transaction is being rolled back after the login row failed.
    RollingBack,
}

/// What the caller reports about the action it performed.
pub enum RegisterEvent {
    Succeeded,
    Failed,
    /// The id read back, if the database returned one.
    LastId(Option<u32>),
}

/// What the caller does next.
pub enum RegisterAction {
    /// Open a read-write transaction.
    Open,
    /// Run this statement in the transaction.
    Execute(String),
    /// Read the id of the row just inserted.
    FetchLastInsertId,
    Commit,
    Rollback,
    /// Answer the request.
    Respond(Result<UserInfomation, Reply>),
}

/// The data a registration carries.
pub struct Registration {
    pub name: String,
    pub email_receiver: String,
    pub password: String,
}

/// `info` is what a new account `id` of `reg` is answered with: its name, the default
/// avatar, no followers or fans, and a token signed for the account's e-mail and password
/// that expires sixty minutes after a reading of the clock.
pub open spec fn new_user_info(reg: Registration, id: u32, info: UserInfomation) -> bool {
    &&& info.id == id
    &&& info.name@ == reg.name@
    &&& info.avatar_url@ == AVATAR_URL@
    &&& info.follower_count == 0
    &&& info.fans == 0
    &&& exists|now: i64| #[trigger] is_clock_reading(now)
        && info.token@ == jwt_token(JWT_SECRET@, id, reg.email_receiver@, reg.password@, (now + TOKEN_LIFETIME_SECS) as i64)
}

/// The first step of a registration whose code was verified: open a transaction.
pub fn register_start() -> (r: (RegisterPhase, RegisterAction))
    ensures
        r.0 == RegisterPhase::Opening,
        r.1 is Open,
{
    (RegisterPhase::Opening, RegisterAction::Open)
}

/// The answer a registration gives after it failed.
pub open spec fn is_busy(a: RegisterAction) -> bool {
    a matches RegisterAction::Respond(Err(r)) && is_reply(r, Status::InternalServerError, "服务器繁忙"@, true)
}

/// Advances a registration: the user row, its id, the stats row and the login row are
/// written in one transaction, which is committed; then a token is issued and the new
/// user's information returned. Any failure answers that the server is busy; a failed
/// login row is rolled back first. A failed rollback is not reported here (the caller
/// stops there).
pub fn register_step(reg: &Registration, phase: RegisterPhase, event: RegisterEvent) -> (r: (RegisterPhase, RegisterAction))
    requires
        phase == RegisterPhase::RollingBack ==> event is Succeeded,
    ensures
        match (phase, event) {
            (RegisterPhase::Opening, RegisterEvent::Succeeded) => {
                &&& r.0 == RegisterPhase::InsertingUser
                &&& r.1 matches RegisterAction::Execute(q)
                &&& q@ == "INSERT INTO user \n                (name, email, avatar_url, register_time)\n            VALUES\n                ('"@ + reg.name@ + "', '"@ + reg.email_receiver@ + "', '"@ + AVATAR_URL@ + "', NOW());"@
            },
            (RegisterPhase::InsertingUser, RegisterEvent::Succeeded) =>
                r.0 == RegisterPhase::ReadingId && r.1 is FetchLastInsertId,
            (RegisterPhase::ReadingId, RegisterEvent::LastId(Some(id))) => {
                &&& r.0 == RegisterPhase::InsertingStats(id)
                &&& r.1 matches RegisterAction::Execute(q)
                &&& q@ == "insert into user_stats\n                (user_id, follower_count, fans)\n            values\n                ("@ + decimal(id as nat) + ", 0, 0);"@
            },
            (RegisterPhase::InsertingStats(id), RegisterEvent::Succeeded) => {
                &&& r.0 == RegisterPhase::InsertingLogin(id)
                &&& r.1 matches RegisterAction::Execute(q)
                &&& q@ == "INSERT INTO login\n                (user_id, email, password)\n            VALUES\n                ("@ + decimal(id as nat) + ", '"@ + reg.email_receiver@ + "', '"@ + reg.password@ + "');"@
            },
            (RegisterPhase::InsertingLogin(id), RegisterEvent::Succeeded) =>
                r.0 == RegisterPhase::Committing(id) && r.1 is Commit,
            (RegisterPhase::InsertingLogin(_), _) => r.0 == RegisterPhase::RollingBack && r.1 is Rollback,
            (RegisterPhase::Committing(id), RegisterEvent::Succeeded) => {
                &&& r.0 == phase
                &&& r.1 matches RegisterAction::Respond(Ok(info)) && new_user_info(*reg, id, info)
            },
            _ => r.0 == phase && is_busy(r.1),
        },
        // The user information is answered only once the commit succeeded, which is
        // reached only after the login row, the stats row and the id read back for them,
        // all with the same id (a failed step leaves the phase where it was and answers
        // that the server is busy).
        r.1 matches RegisterAction::Respond(Ok(info)) ==> phase == RegisterPhase::Committing(info.id) && event is Succeeded,
        r.0 matches RegisterPhase::Committing(id) ==>
            phase == r.0 || (phase == RegisterPhase::InsertingLogin(id) && event is Succeeded),
        r.0 matches RegisterPhase::InsertingLogin(id) ==>
            phase == r.0 || (phase == RegisterPhase::InsertingStats(id) && event is Succeeded),
        r.0 matches RegisterPhase::InsertingStats(id) ==>
            phase == r.0 || (phase == RegisterPhase::ReadingId && event == RegisterEvent::LastId(Some(id))),
{
    match (phase, event) {
        (RegisterPhase::Opening, RegisterEvent::Succeeded) => (
            RegisterPhase::InsertingUser,
            RegisterAction::Execute(insert_user_query(reg.name.as_str(), reg.email_receiver.as_str(), AVATAR_URL)),
        ),
        (RegisterPhase::InsertingUser, RegisterEvent::Succeeded) => (RegisterPhase::ReadingId, RegisterAction::FetchLastInsertId),
        (RegisterPhase::ReadingId, RegisterEvent::LastId(Some(id))) => (
            RegisterPhase::InsertingStats(id),
            RegisterAction::Execute(insert_user_stats_query(id)),
        ),
        (RegisterPhase::InsertingStats(id), RegisterEvent::Succeeded) => (
            RegisterPhase::InsertingLogin(id),
            RegisterAction::Execute(insert_login_query(id, reg.email_receiver.as_str(), reg.password.as_str())),
        ),
        (RegisterPhase::InsertingLogin(id), RegisterEvent::Succeeded) => (RegisterPhase::Committing(id), RegisterAction::Commit),
        (RegisterPhase::InsertingLogin(_), _) => (RegisterPhase::RollingBack, RegisterAction::Rollback),
        (RegisterPhase::Committing(id), RegisterEvent::Succeeded) => {
            let claims = Claims::new(id, reg.email_receiver.as_str(), reg.password.as_str());
            match Token::get_jwt(&claims) {
                Ok(token) => {
                    proof {
                        let now = choose|now: i64| #[trigger] is_clock_reading(now) && claims.exp == now + TOKEN_LIFETIME_SECS;
                        assert((now + TOKEN_LIFETIME_SECS) as i64 == claims.exp);
                    }
                    (
                        phase,
                        RegisterAction::Respond(Ok(UserInfomation {
                            id,
                            name: reg.name.clone(),
                            avatar_url: String::from_str(AVATAR_URL),
                            follower_count: 0,
                            fans: 0,
                            token,
                        })),
                    )
                },
                Err(_) => (phase, RegisterAction::Respond(Err(busy()))),
            }
        },
        _ => (phase, RegisterAction::Respond(Err(busy()))),
    }
}

/// Logging in returns the stored avatar whenever one is stored, whatever it is, and the
/// default avatar only when none is.
pub proof fn lemma_login_avatar(stored: Seq<char>)
    ensures
        stored.len() != 0 ==> avatar_or_default(stored) == stored,
        stored.len() == 0 ==> avatar_or_default(stored) == AVATAR_URL@,
{
}

} // verus!
