use simpfun_sdk::api::{
    finish_image_detail, finish_image_feedback, finish_image_list, finish_image_versions, finish_support_list,
    head_request, login_token,
};
use simpfun_sdk::{
    ApiCall, DevImageDetail, DevImageDetailResponse, DevImageFeedbackResponse, DevImageItem, DevImageListResponse,
    DevImageVersionResponse, DevSupport, DevSupportListResponse, LoginResponse, Method, SdkError,
};

const BASE: &str = "https://api.simpfun.cn";

fn s(x: &str) -> String {
    x.to_string()
}

#[test]
fn get_requests_carry_no_body() {
    let r = ApiCall::InsList.request(BASE);
    assert_eq!(r.method, Method::Get);
    assert_eq!(r.url, "https://api.simpfun.cn/api/ins/list");
    assert_eq!(r.body, None);
    assert!(r.authorized);
    assert_eq!(ApiCall::InsDetail { id: 12 }.request(BASE).url, "https://api.simpfun.cn/api/ins/12/detail");
    assert_eq!(ApiCall::InsWsInit { id: 12 }.request(BASE).url, "https://api.simpfun.cn/api/ins/12/ws?");
    assert_eq!(ApiCall::ImageVersions { id: 4 }.request(BASE).url, "https://api.simpfun.cn/api/dev/4/version");
}

#[test]
fn login_is_an_unauthorized_form_post() {
    let r = ApiCall::Login { username: s("u@x"), passwd: s("p&w d") }.request(BASE);
    assert_eq!(r.method, Method::Post);
    assert_eq!(r.url, "https://api.simpfun.cn/api/auth/login");
    assert_eq!(r.body.as_deref(), Some("username=u%40x&passwd=p%26w+d"));
    assert!(!r.authorized);
}

#[test]
fn queries_are_form_encoded() {
    let r = ApiCall::InsFileList { id: 5, path: s("/a b/测试") }.request(BASE);
    assert_eq!(r.url, "https://api.simpfun.cn/api/ins/5/file/list?path=%2Fa+b%2F%E6%B5%8B%E8%AF%95");
    let r = ApiCall::InsBackupDownload { id: 5, backup_id: 77 }.request(BASE);
    assert_eq!(r.url, "https://api.simpfun.cn/api/ins/5/backup?down_id=77");
    let r = ApiCall::ShopList { version_id: -2 }.request(BASE);
    assert_eq!(r.url, "https://api.simpfun.cn/api/shop/list?version_id=-2");
    let r = ApiCall::GamesKindList { game_id: 1, from_version_id: 0 }.request(BASE);
    assert_eq!(r.url, "https://api.simpfun.cn/api/games/kindlist?game_id=1&from_version_id=0");
    assert_eq!(ApiCall::GamesList { custom: true }.request(BASE).url, "https://api.simpfun.cn/api/games/list?custom=true");
    assert_eq!(ApiCall::GamesList { custom: false }.request(BASE).url, "https://api.simpfun.cn/api/games/list?");
    // the power action is put in the query as it is
    let r = ApiCall::InsPower { id: 9, action: s("start") }.request(BASE);
    assert_eq!(r.url, "https://api.simpfun.cn/api/ins/9/power?action=start");
}

#[test]
fn file_lists_are_sent_as_json() {
    let r = ApiCall::InsFileDelete { id: 1, list: vec![s("a\"b"), s("c\n")] }.request(BASE);
    assert_eq!(r.method, Method::Post);
    assert_eq!(r.url, "https://api.simpfun.cn/api/ins/1/file/delete");
    // ["a\"b","c\n"]
    assert_eq!(r.body.as_deref(), Some("list=%5B%22a%5C%22b%22%2C%22c%5Cn%22%5D"));
    let r = ApiCall::InsFileArchive { id: 1, root: s("/"), files: vec![], format: s("zip") }.request(BASE);
    assert_eq!(r.body.as_deref(), Some("root=%2F&files=%5B%5D&format=zip"));
    let r = ApiCall::InsFilePaste { id: 1, list: vec![s("\u{1}")], target: s("t") }.request(BASE);
    // ["\u0001"]
    assert_eq!(r.body.as_deref(), Some("list=%5B%22%5Cu0001%22%5D&target=t"));
}

#[test]
fn methods_of_instance_calls() {
    assert_eq!(ApiCall::InsAllocationDefault { id: 1, port_id: 2 }.method(), Method::Put);
    assert_eq!(ApiCall::InsBackupRename { id: 1, backup_id: 2, new_tag: s("x") }.method(), Method::Put);
    assert_eq!(ApiCall::InsBackupRestore { id: 1, backup_id: 2 }.method(), Method::Patch);
    assert_eq!(ApiCall::InsBackupDelete { id: 1, backup_id: 2 }.method(), Method::Delete);
    assert_eq!(ApiCall::InsSupportEnd { id: 1, feedback: s("ok") }.method(), Method::Delete);
    assert_eq!(ApiCall::InsSupportInfo { id: 1 }.method(), Method::Get);
    let r = ApiCall::InsBackupRename { id: 1, backup_id: 2, new_tag: s("new tag") }.request(BASE);
    assert_eq!(r.body.as_deref(), Some("backup_id=2&new_tag=new+tag"));
    let r = ApiCall::InsChange { id: 1, item_id: 30 }.request(BASE);
    assert_eq!(r.body.as_deref(), Some("item_id=30"));
}

#[test]
fn reinstall_form_lists_custom_only_when_set() {
    let r = ApiCall::InsReinstall { id: 3, version_id: 7, diff: true, save: false, custom: true }.request(BASE);
    assert_eq!(r.url, "https://api.simpfun.cn/api/ins/3/reinstall");
    assert_eq!(r.body.as_deref(), Some("version_id=7&diff=true&save=false&custom=true"));
    let r = ApiCall::InsReinstall { id: 3, version_id: 7, diff: false, save: true, custom: false }.request(BASE);
    assert_eq!(r.body.as_deref(), Some("version_id=7&diff=false&save=true"));
}

#[test]
fn bodiless_posts_send_an_empty_body() {
    assert_eq!(ApiCall::Logout.request(BASE).body.as_deref(), Some(""));
    assert_eq!(ApiCall::AnnouncementRead.request(BASE).body.as_deref(), Some(""));
    assert!(!ApiCall::Logout.checks_reply());
    assert!(ApiCall::AuthInfo.checks_reply());
}

#[test]
fn reply_codes_are_judged() {
    assert_eq!(ApiCall::InsList.check_reply(200, None), Ok(()));
    assert_eq!(
        ApiCall::InsList.check_reply(500, Some("ignored")),
        Err(SdkError::Api { code: 500, msg: s("获取实例列表失败") })
    );
    assert_eq!(
        ApiCall::InsRename { id: 1, name: s("n") }.check_reply(403, Some("名字太长")),
        Err(SdkError::Api { code: 403, msg: s("名字太长") })
    );
    assert_eq!(
        ApiCall::ImageDetail { id: 8 }.check_reply(404, None),
        Err(SdkError::Api { code: 404, msg: s("获取镜像 8 详情失败") })
    );
    assert_eq!(
        ApiCall::ImageDetail { id: 8 }.check_reply(404, Some("gone")),
        Err(SdkError::Api { code: 404, msg: s("gone") })
    );
    assert_eq!(ApiCall::ShopList { version_id: 1 }.failure_message(None), "获取商店套餐失败");
    assert_eq!(ApiCall::ImageCategories { version_id: 1 }.failure_message(None), "获取镜像类别失败");
}

#[test]
fn login_token_requires_a_token() {
    let ok = LoginResponse { code: 200, msg: s("ok"), token: Some(s("tok")) };
    assert_eq!(login_token(ok), Ok(s("tok")));
    let missing = LoginResponse { code: 200, msg: s("ok"), token: None };
    assert_eq!(login_token(missing), Err(SdkError::Api { code: 200, msg: s("登录响应中缺少token") }));
}

#[test]
fn developer_replies() {
    let list = DevImageListResponse { code: 200, msg: None, list: None };
    assert_eq!(finish_image_list(list), Ok(vec![]));
    let item = DevImageItem { id: 1, name: s("img"), state: Some(true) };
    let list = DevImageListResponse { code: 200, msg: None, list: Some(vec![item.clone()]) };
    assert_eq!(finish_image_list(list), Ok(vec![item]));
    let bad = DevImageListResponse { code: 401, msg: None, list: None };
    assert_eq!(finish_image_list(bad), Err(SdkError::Api { code: 401, msg: s("获取开发者镜像列表失败") }));

    let empty = DevImageDetailResponse { code: 200, msg: None, data: None };
    assert_eq!(
        finish_image_detail(7, empty).unwrap_err(),
        SdkError::Api { code: 200, msg: s("镜像 7 详情为空") }
    );
    let detail = DevImageDetail {
        id: Some(7),
        name: None,
        state: Some(false),
        install_count: None,
        restore_times: Some(4),
        like: None,
        dislike: None,
        extra: serde_json::Value::Null,
    };
    let d = finish_image_detail(7, DevImageDetailResponse { code: 200, msg: None, data: Some(detail) }).unwrap();
    assert_eq!(d.installations(), 4);
    assert!(!d.is_public());

    let v = DevImageVersionResponse { code: 500, msg: Some(s("busy")), list: None };
    assert_eq!(finish_image_versions(3, v).unwrap_err(), SdkError::Api { code: 500, msg: s("busy") });
    let f = DevImageFeedbackResponse { code: 500, msg: None, list: None };
    assert_eq!(finish_image_feedback(3, f).unwrap_err(), SdkError::Api { code: 500, msg: s("获取镜像 3 反馈失败") });
    let f = DevImageFeedbackResponse { code: 200, msg: None, list: None };
    assert_eq!(finish_image_feedback(3, f).unwrap().len(), 0);

    let support = DevSupport {
        target_uid: s("1"),
        target_qq: None,
        ins_id: s("2"),
        create_time: s("t"),
        comment: s("c"),
    };
    let l = DevSupportListResponse { code: 200, list: vec![support.clone()] };
    assert_eq!(finish_support_list(l), Ok(vec![support]));
    let l = DevSupportListResponse { code: 1, list: vec![] };
    assert_eq!(finish_support_list(l), Err(SdkError::Api { code: 1, msg: s("获取技术支持列表失败") }));
}

#[test]
fn installation_count_prefers_install_count() {
    let mut d = DevImageDetail {
        id: None,
        name: None,
        state: Some(true),
        install_count: Some(9),
        restore_times: Some(4),
        like: None,
        dislike: None,
        extra: serde_json::Value::Null,
    };
    assert_eq!(d.installations(), 9);
    assert!(d.is_public());
    d.install_count = None;
    d.restore_times = None;
    assert_eq!(d.installations(), 0);
    d.state = None;
    assert!(!d.is_public());
}

#[test]
fn head_probe_request() {
    let r = head_request(BASE, "/api/invite");
    assert_eq!(r.method, Method::Head);
    assert_eq!(r.url, "https://api.simpfun.cn/api/invite");
    assert!(r.authorized && r.body.is_none());
}
