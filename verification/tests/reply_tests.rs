use program_station::plan::single;
use program_station::reply::{
    internal_error, owner_rejection, owner_verified, plain, quoted, token_rejection, Endpoint, Status,
};

#[test]
fn replies_keep_status_text_and_encoding() {
    let r = quoted(Status::BadRequest, "用户不存在");
    assert_eq!((r.status, r.text.as_str(), r.quoted), (Status::BadRequest, "用户不存在", true));
    let r = plain(Status::Success, "ok");
    assert_eq!((r.status, r.text.as_str(), r.quoted), (Status::Success, "ok", false));
    let r = internal_error();
    assert_eq!((r.status, r.text.as_str(), r.quoted), (Status::InternalServerError, "Internal Server Error", false));
}

#[test]
fn token_rejections_per_endpoint() {
    let cases = [
        (Endpoint::GetLabelList, Status::Success, "toekn verify error"),
        (Endpoint::DeleteLabel, Status::Success, "token verify error"),
        (Endpoint::GetPostManagementList, Status::Success, "token verify error"),
        (Endpoint::ManagemrntAddLabel, Status::BadRequest, "token verify error"),
        (Endpoint::SearchUser, Status::BadRequest, "token verify error"),
        (Endpoint::UpdateUserInfo, Status::BadRequest, "Token verify error"),
        (Endpoint::SubmitReport, Status::BadRequest, "Failed token verif"),
        (Endpoint::GetReport, Status::BadRequest, "Failed token verify"),
        (Endpoint::GetUserprofileTotalnumbersCollect, Status::BadRequest, "Token is failed"),
        (Endpoint::AddLike, Status::BadRequest, "Failed is verif token"),
        (Endpoint::AddRemoveFollow, Status::BadRequest, "Failed is verif token"),
    ];
    for (e, status, text) in cases {
        let r = token_rejection(e);
        assert_eq!(r.status, status);
        assert_eq!(r.text, text);
        assert!(!r.quoted);
    }
}

#[test]
fn owner_check_needs_same_user_and_valid_login() {
    assert!(owner_verified(3, 3, true));
    assert!(!owner_verified(3, 4, true));
    assert!(!owner_verified(3, 3, false));
    let r = owner_rejection();
    assert_eq!((r.status, r.text.as_str(), r.quoted), (Status::BadRequest, "Token verif Farild", false));
}

#[test]
fn single_plan_holds_one_statement() {
    let p = single("delete from x;".to_string(), quoted(Status::Success, "done"));
    assert_eq!(p.statements, vec!["delete from x;".to_string()]);
    assert_eq!(p.success.text, "done");
}
