//! The Simpfun HTTP API as a table: for every call, the request it sends
//! and how its reply's business code is judged.

use vstd::prelude::*;
use vstd::string::*;
use crate::codec::{form_encode, form_encoded, json_array_of, json_string_array, pairs_view, strings_view};
use crate::error::SdkError;
use crate::models::{
    DevImageDetail, DevImageDetailResponse, DevImageFeedback, DevImageFeedbackResponse, DevImageItem,
    DevImageListResponse, DevImageVersion, DevImageVersionResponse, DevSupport, DevSupportListResponse,
    LoginResponse,
};
use crate::text::{decimal_i64, spec_decimal};

verus! {

/// HTTP method of a request.
#[derive(Debug, Clone, Copy, PartialEq, Eq, Structural)]
pub enum Method {
    Get,
    Post,
    Put,
    Patch,
    Delete,
    Head,
}

/// A request ready to be sent: method, full URL, form body (if any) and
/// whether it carries the token.
#[derive(Debug, Clone, PartialEq)]
pub struct ApiRequest {
    pub method: Method,
    pub url: String,
    pub body: Option<String>,
    pub authorized: bool,
}

/// Every call the SDK makes, with its arguments.
#[derive(Debug, Clone, PartialEq)]
pub enum ApiCall {
    Login { username: String, passwd: String },
    Logout,
    AuthInfo,
    AnnouncementList,
    AnnouncementRead,
    PointHistory,
    DiamondHistory,
    InviteInfo,
    InsFileList { id: i64, path: String },
    InsFileFetch { id: i64, path: String },
    InsFileSave { id: i64, path: String, content: String },
    InsFileCreate { id: i64, mode: String, root: String, name: String },
    InsFileRename { id: i64, origin: String, target: String },
    InsFileDelete { id: i64, list: Vec<String> },
    InsFileArchive { id: i64, root: String, files: Vec<String>, format: String },
    InsFileUnarchive { id: i64, root: String, file: String },
    InsFilePaste { id: i64, list: Vec<String>, target: String },
    InsFileCopy { id: i64, location: String },
    /// The image categories of a game version (user side of `/api/shop/list`).
    ImageCategories { version_id: i64 },
    ImageList,
    ImageDetail { id: i64 },
    ImageVersions { id: i64 },
    ImageFeedback { id: i64 },
    SupportList,
    InsList,
    InsDetail { id: i64 },
    InsWsInit { id: i64 },
    InsPower { id: i64, action: String },
    InsRename { id: i64, name: String },
    InsChange { id: i64, item_id: i64 },
    InsAllocationDefault { id: i64, port_id: i64 },
    InsSupportInfo { id: i64 },
    InsSupportCreate { id: i64, comment: String },
    InsSupportEnd { id: i64, feedback: String },
    InsDiamondPlan { id: i64 },
    InsSftp { id: i64 },
    InsTasks { id: i64 },
    InsStat { id: i64 },
    InsReinstall { id: i64, version_id: i64, diff: bool, save: bool, custom: bool },
    InsBackupList { id: i64 },
    InsBackupCreate { id: i64, tag: String },
    InsBackupRename { id: i64, backup_id: i64, new_tag: String },
    InsBackupRestore { id: i64, backup_id: i64 },
    InsBackupDelete { id: i64, backup_id: i64 },
    InsBackupDownload { id: i64, backup_id: i64 },
    InsRollbackPoints { id: i64 },
    InsRollbackCreate { id: i64, rollback_time: String },
    GamesList { custom: bool },
    GamesKindList { game_id: i64, from_version_id: i64 },
    GamesVersionList { kind_id: i64 },
    GamesCustomList { game_id: i64, from_version_id: i64 },
    GamesCustomVersionList { kind_id: i64 },
    /// The shop's plans for a game version.
    ShopList { version_id: i64 },
}

// ------------------------------------------------------------ spec table

/// The view of an optional text.
pub open spec fn str_opt_view(o: Option<&str>) -> Option<Seq<char>> {
    match o {
        Some(s) => Some(s@),
        None => None,
    }
}

/// The view of an optional string.
pub open spec fn string_opt_view(o: Option<String>) -> Option<Seq<char>> {
    match o {
        Some(s) => Some(s@),
        None => None,
    }
}

/// `e` is the API error with business code `code` and message `msg`.
pub open spec fn is_api_error(e: SdkError, code: i32, msg: Seq<char>) -> bool {
    e matches SdkError::Api { code: c, msg: m } && c == code && m@ == msg
}

/// The list a reply carried, empty when it carried none.
pub open spec fn list_or_empty<T>(list: Option<Vec<T>>) -> Seq<T> {
    match list {
        Some(v) => v@,
        None => seq![],
    }
}

/// `true` / `false`, as `bool::to_string` writes it.
pub open spec fn bool_text(b: bool) -> Seq<char> {
    if b {
        "true"@
    } else {
        "false"@
    }
}

/// Path of an instance-scoped endpoint.
pub open spec fn ins_path(id: i64, suffix: Seq<char>) -> Seq<char> {
    "/api/ins/"@ + spec_decimal(id as int) + suffix
}

/// Path of a developer-image endpoint.
pub open spec fn dev_path(id: i64, suffix: Seq<char>) -> Seq<char> {
    "/api/dev/"@ + spec_decimal(id as int) + suffix
}

/// A form of one pair.
pub open spec fn form1(k: Seq<char>, v: Seq<char>) -> Seq<char> {
    form_encoded(seq![(k, v)])
}

/// A form of two pairs.
pub open spec fn form2(k1: Seq<char>, v1: Seq<char>, k2: Seq<char>, v2: Seq<char>) -> Seq<char> {
    form_encoded(seq![(k1, v1), (k2, v2)])
}

/// A form of three pairs.
pub open spec fn form3(
    k1: Seq<char>,
    v1: Seq<char>,
    k2: Seq<char>,
    v2: Seq<char>,
    k3: Seq<char>,
    v3: Seq<char>,
) -> Seq<char> {
    form_encoded(seq![(k1, v1), (k2, v2), (k3, v3)])
}

/// The JSON array text of a list of strings.
pub open spec fn json_list(list: Seq<String>) -> Seq<char> {
    json_string_array(strings_view(list))
}

/// The form a reinstall sends.
pub open spec fn reinstall_form(version_id: i64, diff: bool, save: bool, custom: bool) -> Seq<char> {
    let base = seq![
        ("version_id"@, spec_decimal(version_id as int)),
        ("diff"@, bool_text(diff)),
        ("save"@, bool_text(save)),
    ];
    form_encoded(if custom { base.push(("custom"@, "true"@)) } else { base })
}

impl ApiCall {
    /// The HTTP method of the call.
    pub open spec fn spec_method(&self) -> Method {
        match self {
            ApiCall::Login { .. } | ApiCall::Logout | ApiCall::AnnouncementRead | ApiCall::InsFileSave { .. }
            | ApiCall::InsFileCreate { .. } | ApiCall::InsFileRename { .. } | ApiCall::InsFileDelete { .. }
            | ApiCall::InsFileArchive { .. } | ApiCall::InsFileUnarchive { .. } | ApiCall::InsFilePaste { .. }
            | ApiCall::InsFileCopy { .. } | ApiCall::InsRename { .. } | ApiCall::InsChange { .. }
            | ApiCall::InsSupportCreate { .. } | ApiCall::InsReinstall { .. } | ApiCall::InsBackupCreate { .. }
            | ApiCall::InsRollbackCreate { .. } => Method::Post,
            ApiCall::InsAllocationDefault { .. } | ApiCall::InsBackupRename { .. } => Method::Put,
            ApiCall::InsBackupRestore { .. } => Method::Patch,
            ApiCall::InsSupportEnd { .. } | ApiCall::InsBackupDelete { .. } => Method::Delete,
            _ => Method::Get,
        }
    }

    /// The path (and query) of the call, relative to the base URL.
    pub open spec fn spec_path(&self) -> Seq<char> {
        match self {
            ApiCall::Login { .. } => "/api/auth/login"@,
            ApiCall::Logout => "/api/auth/logout"@,
            ApiCall::AuthInfo => "/api/auth/info"@,
            ApiCall::AnnouncementList => "/api/announcement"@,
            ApiCall::AnnouncementRead => "/api/announcement_read"@,
            ApiCall::PointHistory => "/api/pointhistory"@,
            ApiCall::DiamondHistory => "/api/diamondhistory"@,
            ApiCall::InviteInfo => "/api/invite"@,
            ApiCall::InsFileList { id, path } => ins_path(*id, "/file/list?"@ + form1("path"@, path@)),
            ApiCall::InsFileFetch { id, path } => ins_path(*id, "/file/fetch?"@ + form1("path"@, path@)),
            ApiCall::InsFileSave { id, .. } => ins_path(*id, "/file/save"@),
            ApiCall::InsFileCreate { id, .. } => ins_path(*id, "/file/create"@),
            ApiCall::InsFileRename { id, .. } => ins_path(*id, "/file/rename"@),
            ApiCall::InsFileDelete { id, .. } => ins_path(*id, "/file/delete"@),
            ApiCall::InsFileArchive { id, .. } => ins_path(*id, "/file/archive"@),
            ApiCall::InsFileUnarchive { id, .. } => ins_path(*id, "/file/unarchive"@),
            ApiCall::InsFilePaste { id, .. } => ins_path(*id, "/file/paste"@),
            ApiCall::InsFileCopy { id, .. } => ins_path(*id, "/file/copy"@),
            ApiCall::ImageCategories { version_id } | ApiCall::ShopList { version_id } =>
                "/api/shop/list?"@ + form1("version_id"@, spec_decimal(*version_id as int)),
            ApiCall::ImageList => "/api/dev/list"@,
            ApiCall::ImageDetail { id } => dev_path(*id, "/detail"@),
            ApiCall::ImageVersions { id } => dev_path(*id, "/version"@),
            ApiCall::ImageFeedback { id } => dev_path(*id, "/feedback"@),
            ApiCall::SupportList => "/api/dev/support/list"@,
            ApiCall::InsList => "/api/ins/list"@,
            ApiCall::InsDetail { id } => ins_path(*id, "/detail"@),
            ApiCall::InsWsInit { id } => ins_path(*id, "/ws?"@),
            ApiCall::InsPower { id, action } => ins_path(*id, "/power?action="@ + action@),
            ApiCall::InsRename { id, .. } => ins_path(*id, "/rename"@),
            ApiCall::InsChange { id, .. } => ins_path(*id, "/change"@),
            ApiCall::InsAllocationDefault { id, .. } => ins_path(*id, "/allocation"@),
            ApiCall::InsSupportInfo { id } => ins_path(*id, "/support?"@),
            ApiCall::InsSupportCreate { id, .. } => ins_path(*id, "/support"@),
            ApiCall::InsSupportEnd { id, .. } => ins_path(*id, "/support"@),
            ApiCall::InsDiamondPlan { id } => ins_path(*id, "/diamond_plan?"@),
            ApiCall::InsSftp { id } => ins_path(*id, "/sftp?"@),
            ApiCall::InsTasks { id } => ins_path(*id, "/tasks?"@),
            ApiCall::InsStat { id } => ins_path(*id, "/stat?"@),
            ApiCall::InsReinstall { id, .. } => ins_path(*id, "/reinstall"@),
            ApiCall::InsBackupList { id } => ins_path(*id, "/backup?"@),
            ApiCall::InsBackupCreate { id, .. } => ins_path(*id, "/backup"@),
            ApiCall::InsBackupRename { id, .. } => ins_path(*id, "/backup"@),
            ApiCall::InsBackupRestore { id, .. } => ins_path(*id, "/backup"@),
            ApiCall::InsBackupDelete { id, .. } => ins_path(*id, "/backup"@),
            ApiCall::InsBackupDownload { id, backup_id } =>
                ins_path(*id, "/backup?"@ + form1("down_id"@, spec_decimal(*backup_id as int))),
            ApiCall::InsRollbackPoints { id } => ins_path(*id, "/rollback?"@),
            ApiCall::InsRollbackCreate { id, .. } => ins_path(*id, "/rollback"@),
            ApiCall::GamesList { custom } =>
                if *custom {
                    "/api/games/list?"@ + form1("custom"@, "true"@)
                } else {
                    "/api/games/list?"@
                },
            ApiCall::GamesKindList { game_id, from_version_id } => "/api/games/kindlist?"@ + form2(
                "game_id"@,
                spec_decimal(*game_id as int),
                "from_version_id"@,
                spec_decimal(*from_version_id as int),
            ),
            ApiCall::GamesVersionList { kind_id } =>
                "/api/games/versionlist?"@ + form1("kind_id"@, spec_decimal(*kind_id as int)),
            ApiCall::GamesCustomList { game_id, from_version_id } => "/api/games/customlist?"@ + form2(
                "game_id"@,
                spec_decimal(*game_id as int),
                "from_version_id"@,
                spec_decimal(*from_version_id as int),
            ),
            ApiCall::GamesCustomVersionList { kind_id } =>
                "/api/games/custom_versionlist?"@ + form1("kind_id"@, spec_decimal(*kind_id as int)),
        }
    }

    /// The body of the call: a form for most POST/PUT/PATCH/DELETE calls,
    /// an empty body for the two that send none, nothing for the others.
    pub open spec fn spec_body(&self) -> Option<Seq<char>> {
        match self {
            ApiCall::Login { username, passwd } => Some(form2("username"@, username@, "passwd"@, passwd@)),
            ApiCall::Logout | ApiCall::AnnouncementRead => Some(seq![]),
            ApiCall::InsFileSave { path, content, .. } => Some(form2("path"@, path@, "content"@, content@)),
            ApiCall::InsFileCreate { mode, root, name, .. } =>
                Some(form3("mode"@, mode@, "root"@, root@, "name"@, name@)),
            ApiCall::InsFileRename { origin, target, .. } => Some(form2("origin"@, origin@, "target"@, target@)),
            ApiCall::InsFileDelete { list, .. } => Some(form1("list"@, json_list(list@))),
            ApiCall::InsFileArchive { root, files, format, .. } =>
                Some(form3("root"@, root@, "files"@, json_list(files@), "format"@, format@)),
            ApiCall::InsFileUnarchive { root, file, .. } => Some(form2("root"@, root@, "file"@, file@)),
            ApiCall::InsFilePaste { list, target, .. } =>
                Some(form2("list"@, json_list(list@), "target"@, target@)),
            ApiCall::InsFileCopy { location, .. } => Some(form1("location"@, location@)),
            ApiCall::InsRename { name, .. } => Some(form1("name"@, name@)),
            ApiCall::InsChange { item_id, .. } => Some(form1("item_id"@, spec_decimal(*item_id as int))),
            ApiCall::InsAllocationDefault { port_id, .. } => Some(form1("port_id"@, spec_decimal(*port_id as int))),
            ApiCall::InsSupportCreate { comment, .. } => Some(form1("comment"@, comment@)),
            ApiCall::InsSupportEnd { feedback, .. } => Some(form1("feedback"@, feedback@)),
            ApiCall::InsReinstall { version_id, diff, save, custom, .. } =>
                Some(reinstall_form(*version_id, *diff, *save, *custom)),
            ApiCall::InsBackupCreate { tag, .. } => Some(form1("tag"@, tag@)),
            ApiCall::InsBackupRename { backup_id, new_tag, .. } =>
                Some(form2("backup_id"@, spec_decimal(*backup_id as int), "new_tag"@, new_tag@)),
            ApiCall::InsBackupRestore { backup_id, .. } | ApiCall::InsBackupDelete { backup_id, .. } =>
                Some(form1("backup_id"@, spec_decimal(*backup_id as int))),
            ApiCall::InsRollbackCreate { rollback_time, .. } => Some(form1("rollback_time"@, rollback_time@)),
            _ => None,
        }
    }

    /// Every call but the login carries the token.
    pub open spec fn spec_authorized(&self) -> bool {
        !(self is Login)
    }

    /// Logout and marking announcements read accept any reply; every other
    /// call judges the reply's business code.
    pub open spec fn spec_checks_reply(&self) -> bool {
        !(self is Logout || self is AnnouncementRead)
    }

    /// The message an error carries when the reply's code is not 200;
    /// `reply_msg` is the message the reply itself carried, if any.
    pub open spec fn spec_failure(&self, reply_msg: Option<Seq<char>>) -> Seq<char> {
        let from_reply = match reply_msg {
            Some(m) => m,
            None => seq![],
        };
        match self {
            ApiCall::AuthInfo => "获取用户信息失败"@,
            ApiCall::AnnouncementList => "获取公告列表失败"@,
            ApiCall::PointHistory => "获取积分历史失败"@,
            ApiCall::DiamondHistory => "获取钻石历史失败"@,
            ApiCall::InviteInfo => "获取邀请信息失败"@,
            ApiCall::InsFileList { .. } => "获取文件列表失败"@,
            ApiCall::InsFileFetch { .. } => "获取文件内容失败"@,
            ApiCall::ImageCategories { .. } => "获取镜像类别失败"@,
            ApiCall::ImageList => match reply_msg {
                Some(m) => m,
                None => "获取开发者镜像列表失败"@,
            },
            ApiCall::ImageDetail { id } => match reply_msg {
                Some(m) => m,
                None => "获取镜像 "@ + spec_decimal(*id as int) + " 详情失败"@,
            },
            ApiCall::ImageVersions { id } => match reply_msg {
                Some(m) => m,
                None => "获取镜像 "@ + spec_decimal(*id as int) + " 版本失败"@,
            },
            ApiCall::ImageFeedback { id } => match reply_msg {
                Some(m) => m,
                None => "获取镜像 "@ + spec_decimal(*id as int) + " 反馈失败"@,
            },
            ApiCall::SupportList => "获取技术支持列表失败"@,
            ApiCall::InsList => "获取实例列表失败"@,
            ApiCall::InsDetail { .. } => "获取实例详情失败"@,
            ApiCall::InsWsInit { .. } => "获取WS信息失败"@,
            ApiCall::InsSupportInfo { .. } => "获取技术支持信息失败"@,
            ApiCall::InsDiamondPlan { .. } => "获取钻石套餐失败"@,
            ApiCall::InsSftp { .. } => "获取SFTP信息失败"@,
            ApiCall::InsTasks { .. } => "获取任务列表失败"@,
            ApiCall::InsStat { .. } => "获取历史统计失败"@,
            ApiCall::InsBackupList { .. } => "获取备份列表失败"@,
            ApiCall::InsBackupDownload { .. } => "获取备份下载链接失败"@,
            ApiCall::InsRollbackPoints { .. } => "获取回滚时间失败"@,
            ApiCall::GamesList { .. } => "获取游戏列表失败"@,
            ApiCall::GamesKindList { .. } => "获取游戏种类列表失败"@,
            ApiCall::GamesVersionList { .. } => "获取游戏版本列表失败"@,
            ApiCall::GamesCustomList { .. } => "获取第三方镜像列表失败"@,
            ApiCall::GamesCustomVersionList { .. } => "获取第三方版本列表失败"@,
            ApiCall::ShopList { .. } => "获取商店套餐失败"@,
            _ => from_reply,
        }
    }
}


// ------------------------------------------------------------ request laws

/// The account and user calls: each one's method, path and body.
pub proof fn account_requests(username: String, passwd: String)
    ensures
        (ApiCall::Login { username, passwd }).spec_method() == Method::Post,
        (ApiCall::Login { username, passwd }).spec_path() == "/api/auth/login"@,
        (ApiCall::Login { username, passwd }).spec_body() == Some(form_encoded(seq![("username"@, username@), ("passwd"@, passwd@)])),
        (ApiCall::Logout).spec_method() == Method::Post,
        (ApiCall::Logout).spec_path() == "/api/auth/logout"@,
        (ApiCall::Logout).spec_body() == Some(Seq::<char>::empty()),
        (ApiCall::AuthInfo).spec_method() == Method::Get,
        (ApiCall::AuthInfo).spec_path() == "/api/auth/info"@,
        (ApiCall::AuthInfo).spec_body() == None::<Seq<char>>,
        (ApiCall::AnnouncementList).spec_method() == Method::Get,
        (ApiCall::AnnouncementList).spec_path() == "/api/announcement"@,
        (ApiCall::AnnouncementList).spec_body() == None::<Seq<char>>,
        (ApiCall::AnnouncementRead).spec_method() == Method::Post,
        (ApiCall::AnnouncementRead).spec_path() == "/api/announcement_read"@,
        (ApiCall::AnnouncementRead).spec_body() == Some(Seq::<char>::empty()),
        (ApiCall::PointHistory).spec_method() == Method::Get,
        (ApiCall::PointHistory).spec_path() == "/api/pointhistory"@,
        (ApiCall::PointHistory).spec_body() == None::<Seq<char>>,
        (ApiCall::DiamondHistory).spec_method() == Method::Get,
        (ApiCall::DiamondHistory).spec_path() == "/api/diamondhistory"@,
        (ApiCall::DiamondHistory).spec_body() == None::<Seq<char>>,
        (ApiCall::InviteInfo).spec_method() == Method::Get,
        (ApiCall::InviteInfo).spec_path() == "/api/invite"@,
        (ApiCall::InviteInfo).spec_body() == None::<Seq<char>>,
{
}

/// Listing and fetching a file of instance `id` are `GET`s with the path in the
/// query and no body.
pub proof fn file_reads(id: i64, path: String)
    ensures
        (ApiCall::InsFileList { id, path }).spec_method() == Method::Get,
        (ApiCall::InsFileList { id, path }).spec_path() == "/api/ins/"@ + spec_decimal(id as int) + "/file/list?"@ + form_encoded(seq![("path"@, path@)]),
        (ApiCall::InsFileList { id, path }).spec_body() == None::<Seq<char>>,
        (ApiCall::InsFileFetch { id, path }).spec_method() == Method::Get,
        (ApiCall::InsFileFetch { id, path }).spec_path() == "/api/ins/"@ + spec_decimal(id as int) + "/file/fetch?"@ + form_encoded(seq![("path"@, path@)]),
        (ApiCall::InsFileFetch { id, path }).spec_body() == None::<Seq<char>>,
{
}

/// The file edits of instance `id` are `POST`s whose form carries each argument
/// under its own name, in order: a rename sends `origin` then `target`.
pub proof fn file_edits(
    id: i64,
    path: String,
    content: String,
    mode: String,
    root: String,
    name: String,
    origin: String,
    target: String,
    location: String,
)
    ensures
        (ApiCall::InsFileSave { id, path, content }).spec_method() == Method::Post,
        (ApiCall::InsFileSave { id, path, content }).spec_path() == "/api/ins/"@ + spec_decimal(id as int) + "/file/save"@,
        (ApiCall::InsFileSave { id, path, content }).spec_body() == Some(form_encoded(seq![("path"@, path@), ("content"@, content@)])),
        (ApiCall::InsFileCreate { id, mode, root, name }).spec_method() == Method::Post,
        (ApiCall::InsFileCreate { id, mode, root, name }).spec_path() == "/api/ins/"@ + spec_decimal(id as int) + "/file/create"@,
        (ApiCall::InsFileCreate { id, mode, root, name }).spec_body() == Some(form_encoded(seq![("mode"@, mode@), ("root"@, root@), ("name"@, name@)])),
        (ApiCall::InsFileRename { id, origin, target }).spec_method() == Method::Post,
        (ApiCall::InsFileRename { id, origin, target }).spec_path() == "/api/ins/"@ + spec_decimal(id as int) + "/file/rename"@,
        (ApiCall::InsFileRename { id, origin, target }).spec_body() == Some(form_encoded(seq![("origin"@, origin@), ("target"@, target@)])),
        (ApiCall::InsFileCopy { id, location }).spec_method() == Method::Post,
        (ApiCall::InsFileCopy { id, location }).spec_path() == "/api/ins/"@ + spec_decimal(id as int) + "/file/copy"@,
        (ApiCall::InsFileCopy { id, location }).spec_body() == Some(form_encoded(seq![("location"@, location@)])),
{
}

/// The file calls of instance `id` on several files are `POST`s whose form
/// carries each argument under its own name, in order, a list as a JSON array
/// of strings.
pub proof fn file_batch_edits(
    id: i64,
    list: Vec<String>,
    files: Vec<String>,
    root: String,
    format: String,
    file: String,
    target: String,
)
    ensures
        (ApiCall::InsFileDelete { id, list }).spec_method() == Method::Post,
        (ApiCall::InsFileDelete { id, list }).spec_path() == "/api/ins/"@ + spec_decimal(id as int) + "/file/delete"@,
        (ApiCall::InsFileDelete { id, list }).spec_body() == Some(form_encoded(seq![("list"@, json_string_array(strings_view(list@)))])),
        (ApiCall::InsFileArchive { id, root, files, format }).spec_method() == Method::Post,
        (ApiCall::InsFileArchive { id, root, files, format }).spec_path() == "/api/ins/"@ + spec_decimal(id as int) + "/file/archive"@,
        (ApiCall::InsFileArchive { id, root, files, format }).spec_body() == Some(form_encoded(seq![("root"@, root@), ("files"@, json_string_array(strings_view(files@))), ("format"@, format@)])),
        (ApiCall::InsFileUnarchive { id, root, file }).spec_method() == Method::Post,
        (ApiCall::InsFileUnarchive { id, root, file }).spec_path() == "/api/ins/"@ + spec_decimal(id as int) + "/file/unarchive"@,
        (ApiCall::InsFileUnarchive { id, root, file }).spec_body() == Some(form_encoded(seq![("root"@, root@), ("file"@, file@)])),
        (ApiCall::InsFilePaste { id, list, target }).spec_method() == Method::Post,
        (ApiCall::InsFilePaste { id, list, target }).spec_path() == "/api/ins/"@ + spec_decimal(id as int) + "/file/paste"@,
        (ApiCall::InsFilePaste { id, list, target }).spec_body() == Some(form_encoded(seq![("list"@, json_string_array(strings_view(list@))), ("target"@, target@)])),
{
}

/// The image and developer calls: all `GET`s without a body, on these paths.
pub proof fn image_requests(id: i64, version_id: i64)
    ensures
        (ApiCall::ImageCategories { version_id }).spec_method() == Method::Get,
        (ApiCall::ImageCategories { version_id }).spec_path() == "/api/shop/list?"@ + form_encoded(seq![("version_id"@, spec_decimal(version_id as int))]),
        (ApiCall::ImageCategories { version_id }).spec_body() == None::<Seq<char>>,
        (ApiCall::ImageList).spec_method() == Method::Get,
        (ApiCall::ImageList).spec_path() == "/api/dev/list"@,
        (ApiCall::ImageList).spec_body() == None::<Seq<char>>,
        (ApiCall::ImageDetail { id }).spec_method() == Method::Get,
        (ApiCall::ImageDetail { id }).spec_path() == "/api/dev/"@ + spec_decimal(id as int) + "/detail"@,
        (ApiCall::ImageDetail { id }).spec_body() == None::<Seq<char>>,
        (ApiCall::ImageVersions { id }).spec_method() == Method::Get,
        (ApiCall::ImageVersions { id }).spec_path() == "/api/dev/"@ + spec_decimal(id as int) + "/version"@,
        (ApiCall::ImageVersions { id }).spec_body() == None::<Seq<char>>,
        (ApiCall::ImageFeedback { id }).spec_method() == Method::Get,
        (ApiCall::ImageFeedback { id }).spec_path() == "/api/dev/"@ + spec_decimal(id as int) + "/feedback"@,
        (ApiCall::ImageFeedback { id }).spec_body() == None::<Seq<char>>,
        (ApiCall::SupportList).spec_method() == Method::Get,
        (ApiCall::SupportList).spec_path() == "/api/dev/support/list"@,
        (ApiCall::SupportList).spec_body() == None::<Seq<char>>,
{
}

/// The instance queries of instance `id`: `GET`s without a body, on these
/// paths.
pub proof fn instance_queries(id: i64, action: String)
    ensures
        (ApiCall::InsList).spec_method() == Method::Get,
        (ApiCall::InsList).spec_path() == "/api/ins/list"@,
        (ApiCall::InsList).spec_body() == None::<Seq<char>>,
        (ApiCall::InsDetail { id }).spec_method() == Method::Get,
        (ApiCall::InsDetail { id }).spec_path() == "/api/ins/"@ + spec_decimal(id as int) + "/detail"@,
        (ApiCall::InsDetail { id }).spec_body() == None::<Seq<char>>,
        (ApiCall::InsWsInit { id }).spec_method() == Method::Get,
        (ApiCall::InsWsInit { id }).spec_path() == "/api/ins/"@ + spec_decimal(id as int) + "/ws?"@,
        (ApiCall::InsWsInit { id }).spec_body() == None::<Seq<char>>,
        (ApiCall::InsPower { id, action }).spec_method() == Method::Get,
        (ApiCall::InsPower { id, action }).spec_path() == "/api/ins/"@ + spec_decimal(id as int) + "/power?action="@ + action@,
        (ApiCall::InsPower { id, action }).spec_body() == None::<Seq<char>>,
        (ApiCall::InsSupportInfo { id }).spec_method() == Method::Get,
        (ApiCall::InsSupportInfo { id }).spec_path() == "/api/ins/"@ + spec_decimal(id as int) + "/support?"@,
        (ApiCall::InsSupportInfo { id }).spec_body() == None::<Seq<char>>,
        (ApiCall::InsDiamondPlan { id }).spec_method() == Method::Get,
        (ApiCall::InsDiamondPlan { id }).spec_path() == "/api/ins/"@ + spec_decimal(id as int) + "/diamond_plan?"@,
        (ApiCall::InsDiamondPlan { id }).spec_body() == None::<Seq<char>>,
        (ApiCall::InsSftp { id }).spec_method() == Method::Get,
        (ApiCall::InsSftp { id }).spec_path() == "/api/ins/"@ + spec_decimal(id as int) + "/sftp?"@,
        (ApiCall::InsSftp { id }).spec_body() == None::<Seq<char>>,
        (ApiCall::InsTasks { id }).spec_method() == Method::Get,
        (ApiCall::InsTasks { id }).spec_path() == "/api/ins/"@ + spec_decimal(id as int) + "/tasks?"@,
        (ApiCall::InsTasks { id }).spec_body() == None::<Seq<char>>,
        (ApiCall::InsStat { id }).spec_method() == Method::Get,
        (ApiCall::InsStat { id }).spec_path() == "/api/ins/"@ + spec_decimal(id as int) + "/stat?"@,
        (ApiCall::InsStat { id }).spec_body() == None::<Seq<char>>,
{
}

/// The instance changes of instance `id`: each one's method, path and form; the
/// form carries the call's own arguments (the name, the plan, the port, the
/// comment) and never the instance id.
pub proof fn instance_changes(
    id: i64,
    name: String,
    item_id: i64,
    port_id: i64,
    comment: String,
    feedback: String,
)
    ensures
        (ApiCall::InsRename { id, name }).spec_method() == Method::Post,
        (ApiCall::InsRename { id, name }).spec_path() == "/api/ins/"@ + spec_decimal(id as int) + "/rename"@,
        (ApiCall::InsRename { id, name }).spec_body() == Some(form_encoded(seq![("name"@, name@)])),
        (ApiCall::InsChange { id, item_id }).spec_method() == Method::Post,
        (ApiCall::InsChange { id, item_id }).spec_path() == "/api/ins/"@ + spec_decimal(id as int) + "/change"@,
        (ApiCall::InsChange { id, item_id }).spec_body() == Some(form_encoded(seq![("item_id"@, spec_decimal(item_id as int))])),
        (ApiCall::InsAllocationDefault { id, port_id }).spec_method() == Method::Put,
        (ApiCall::InsAllocationDefault { id, port_id }).spec_path() == "/api/ins/"@ + spec_decimal(id as int) + "/allocation"@,
        (ApiCall::InsAllocationDefault { id, port_id }).spec_body() == Some(form_encoded(seq![("port_id"@, spec_decimal(port_id as int))])),
        (ApiCall::InsSupportCreate { id, comment }).spec_method() == Method::Post,
        (ApiCall::InsSupportCreate { id, comment }).spec_path() == "/api/ins/"@ + spec_decimal(id as int) + "/support"@,
        (ApiCall::InsSupportCreate { id, comment }).spec_body() == Some(form_encoded(seq![("comment"@, comment@)])),
        (ApiCall::InsSupportEnd { id, feedback }).spec_method() == Method::Delete,
        (ApiCall::InsSupportEnd { id, feedback }).spec_path() == "/api/ins/"@ + spec_decimal(id as int) + "/support"@,
        (ApiCall::InsSupportEnd { id, feedback }).spec_body() == Some(form_encoded(seq![("feedback"@, feedback@)])),
{
}

/// Reinstalling instance `id` is a `POST` whose form gives the version, then
/// whether to wipe the differences and to keep the saves, and `custom=true`
/// only for a custom image.
pub proof fn reinstall_requests(id: i64, version_id: i64, diff: bool, save: bool)
    ensures
        (ApiCall::InsReinstall { id, version_id, diff, save, custom: false }).spec_method() == Method::Post,
        (ApiCall::InsReinstall { id, version_id, diff, save, custom: false }).spec_path() == "/api/ins/"@ + spec_decimal(id as int) + "/reinstall"@,
        (ApiCall::InsReinstall { id, version_id, diff, save, custom: false }).spec_body() == Some(form_encoded(seq![("version_id"@, spec_decimal(version_id as int)), ("diff"@, (if diff { "true"@ } else { "false"@ })), ("save"@, (if save { "true"@ } else { "false"@ }))])),
        (ApiCall::InsReinstall { id, version_id, diff, save, custom: true }).spec_method() == Method::Post,
        (ApiCall::InsReinstall { id, version_id, diff, save, custom: true }).spec_path() == "/api/ins/"@ + spec_decimal(id as int) + "/reinstall"@,
        (ApiCall::InsReinstall { id, version_id, diff, save, custom: true }).spec_body() == Some(form_encoded(seq![("version_id"@, spec_decimal(version_id as int)), ("diff"@, (if diff { "true"@ } else { "false"@ })), ("save"@, (if save { "true"@ } else { "false"@ })), ("custom"@, "true"@)])),
{
    let base = seq![
        ("version_id"@, spec_decimal(version_id as int)),
        ("diff"@, bool_text(diff)),
        ("save"@, bool_text(save)),
    ];
    assert(base.push(("custom"@, "true"@)) =~= seq![
        ("version_id"@, spec_decimal(version_id as int)),
        ("diff"@, bool_text(diff)),
        ("save"@, bool_text(save)),
        ("custom"@, "true"@),
    ]);
}

/// The backup and rollback calls of instance `id`: on `/backup`, creating is a
/// `POST`, renaming a `PUT`, restoring a `PATCH` and deleting a `DELETE`;
/// listing and downloading are `GET`s.
pub proof fn backup_requests(id: i64, tag: String, backup_id: i64, new_tag: String, rollback_time: String)
    ensures
        (ApiCall::InsBackupList { id }).spec_method() == Method::Get,
        (ApiCall::InsBackupList { id }).spec_path() == "/api/ins/"@ + spec_decimal(id as int) + "/backup?"@,
        (ApiCall::InsBackupList { id }).spec_body() == None::<Seq<char>>,
        (ApiCall::InsBackupCreate { id, tag }).spec_method() == Method::Post,
        (ApiCall::InsBackupCreate { id, tag }).spec_path() == "/api/ins/"@ + spec_decimal(id as int) + "/backup"@,
        (ApiCall::InsBackupCreate { id, tag }).spec_body() == Some(form_encoded(seq![("tag"@, tag@)])),
        (ApiCall::InsBackupRename { id, backup_id, new_tag }).spec_method() == Method::Put,
        (ApiCall::InsBackupRename { id, backup_id, new_tag }).spec_path() == "/api/ins/"@ + spec_decimal(id as int) + "/backup"@,
        (ApiCall::InsBackupRename { id, backup_id, new_tag }).spec_body() == Some(form_encoded(seq![("backup_id"@, spec_decimal(backup_id as int)), ("new_tag"@, new_tag@)])),
        (ApiCall::InsBackupRestore { id, backup_id }).spec_method() == Method::Patch,
        (ApiCall::InsBackupRestore { id, backup_id }).spec_path() == "/api/ins/"@ + spec_decimal(id as int) + "/backup"@,
        (ApiCall::InsBackupRestore { id, backup_id }).spec_body() == Some(form_encoded(seq![("backup_id"@, spec_decimal(backup_id as int))])),
        (ApiCall::InsBackupDelete { id, backup_id }).spec_method() == Method::Delete,
        (ApiCall::InsBackupDelete { id, backup_id }).spec_path() == "/api/ins/"@ + spec_decimal(id as int) + "/backup"@,
        (ApiCall::InsBackupDelete { id, backup_id }).spec_body() == Some(form_encoded(seq![("backup_id"@, spec_decimal(backup_id as int))])),
        (ApiCall::InsBackupDownload { id, backup_id }).spec_method() == Method::Get,
        (ApiCall::InsBackupDownload { id, backup_id }).spec_path() == "/api/ins/"@ + spec_decimal(id as int) + "/backup?"@ + form_encoded(seq![("down_id"@, spec_decimal(backup_id as int))]),
        (ApiCall::InsBackupDownload { id, backup_id }).spec_body() == None::<Seq<char>>,
        (ApiCall::InsRollbackPoints { id }).spec_method() == Method::Get,
        (ApiCall::InsRollbackPoints { id }).spec_path() == "/api/ins/"@ + spec_decimal(id as int) + "/rollback?"@,
        (ApiCall::InsRollbackPoints { id }).spec_body() == None::<Seq<char>>,
        (ApiCall::InsRollbackCreate { id, rollback_time }).spec_method() == Method::Post,
        (ApiCall::InsRollbackCreate { id, rollback_time }).spec_path() == "/api/ins/"@ + spec_decimal(id as int) + "/rollback"@,
        (ApiCall::InsRollbackCreate { id, rollback_time }).spec_body() == Some(form_encoded(seq![("rollback_time"@, rollback_time@)])),
{
}

/// The game and shop catalogue calls: `GET`s without a body, each argument in
/// the query under its own name, in order.
pub proof fn catalogue_requests(game_id: i64, from_version_id: i64, kind_id: i64, version_id: i64)
    ensures
        (ApiCall::GamesList { custom: false }).spec_method() == Method::Get,
        (ApiCall::GamesList { custom: false }).spec_path() == "/api/games/list?"@,
        (ApiCall::GamesList { custom: false }).spec_body() == None::<Seq<char>>,
        (ApiCall::GamesList { custom: true }).spec_method() == Method::Get,
        (ApiCall::GamesList { custom: true }).spec_path() == "/api/games/list?"@ + form_encoded(seq![("custom"@, "true"@)]),
        (ApiCall::GamesList { custom: true }).spec_body() == None::<Seq<char>>,
        (ApiCall::GamesKindList { game_id, from_version_id }).spec_method() == Method::Get,
        (ApiCall::GamesKindList { game_id, from_version_id }).spec_path() == "/api/games/kindlist?"@ + form_encoded(seq![("game_id"@, spec_decimal(game_id as int)), ("from_version_id"@, spec_decimal(from_version_id as int))]),
        (ApiCall::GamesKindList { game_id, from_version_id }).spec_body() == None::<Seq<char>>,
        (ApiCall::GamesVersionList { kind_id }).spec_method() == Method::Get,
        (ApiCall::GamesVersionList { kind_id }).spec_path() == "/api/games/versionlist?"@ + form_encoded(seq![("kind_id"@, spec_decimal(kind_id as int))]),
        (ApiCall::GamesVersionList { kind_id }).spec_body() == None::<Seq<char>>,
        (ApiCall::GamesCustomList { game_id, from_version_id }).spec_method() == Method::Get,
        (ApiCall::GamesCustomList { game_id, from_version_id }).spec_path() == "/api/games/customlist?"@ + form_encoded(seq![("game_id"@, spec_decimal(game_id as int)), ("from_version_id"@, spec_decimal(from_version_id as int))]),
        (ApiCall::GamesCustomList { game_id, from_version_id }).spec_body() == None::<Seq<char>>,
        (ApiCall::GamesCustomVersionList { kind_id }).spec_method() == Method::Get,
        (ApiCall::GamesCustomVersionList { kind_id }).spec_path() == "/api/games/custom_versionlist?"@ + form_encoded(seq![("kind_id"@, spec_decimal(kind_id as int))]),
        (ApiCall::GamesCustomVersionList { kind_id }).spec_body() == None::<Seq<char>>,
        (ApiCall::ShopList { version_id }).spec_method() == Method::Get,
        (ApiCall::ShopList { version_id }).spec_path() == "/api/shop/list?"@ + form_encoded(seq![("version_id"@, spec_decimal(version_id as int))]),
        (ApiCall::ShopList { version_id }).spec_body() == None::<Seq<char>>,
{
}

/// A failed query is reported with the query's own message, whatever the
/// reply said.
pub proof fn query_failure_messages(
    reply_msg: Option<Seq<char>>,
    id: i64,
    path: String,
    version_id: i64,
    backup_id: i64,
    custom: bool,
    game_id: i64,
    from_version_id: i64,
    kind_id: i64,
)
    ensures
        (ApiCall::AuthInfo).spec_failure(reply_msg) == "获取用户信息失败"@,
        (ApiCall::AnnouncementList).spec_failure(reply_msg) == "获取公告列表失败"@,
        (ApiCall::PointHistory).spec_failure(reply_msg) == "获取积分历史失败"@,
        (ApiCall::DiamondHistory).spec_failure(reply_msg) == "获取钻石历史失败"@,
        (ApiCall::InviteInfo).spec_failure(reply_msg) == "获取邀请信息失败"@,
        (ApiCall::InsFileList { id, path }).spec_failure(reply_msg) == "获取文件列表失败"@,
        (ApiCall::InsFileFetch { id, path }).spec_failure(reply_msg) == "获取文件内容失败"@,
        (ApiCall::ImageCategories { version_id }).spec_failure(reply_msg) == "获取镜像类别失败"@,
        (ApiCall::SupportList).spec_failure(reply_msg) == "获取技术支持列表失败"@,
        (ApiCall::InsList).spec_failure(reply_msg) == "获取实例列表失败"@,
        (ApiCall::InsDetail { id }).spec_failure(reply_msg) == "获取实例详情失败"@,
        (ApiCall::InsWsInit { id }).spec_failure(reply_msg) == "获取WS信息失败"@,
        (ApiCall::InsSupportInfo { id }).spec_failure(reply_msg) == "获取技术支持信息失败"@,
        (ApiCall::InsDiamondPlan { id }).spec_failure(reply_msg) == "获取钻石套餐失败"@,
        (ApiCall::InsSftp { id }).spec_failure(reply_msg) == "获取SFTP信息失败"@,
        (ApiCall::InsTasks { id }).spec_failure(reply_msg) == "获取任务列表失败"@,
        (ApiCall::InsStat { id }).spec_failure(reply_msg) == "获取历史统计失败"@,
        (ApiCall::InsBackupList { id }).spec_failure(reply_msg) == "获取备份列表失败"@,
        (ApiCall::InsBackupDownload { id, backup_id }).spec_failure(reply_msg) == "获取备份下载链接失败"@,
        (ApiCall::InsRollbackPoints { id }).spec_failure(reply_msg) == "获取回滚时间失败"@,
        (ApiCall::GamesList { custom }).spec_failure(reply_msg) == "获取游戏列表失败"@,
        (ApiCall::GamesKindList { game_id, from_version_id }).spec_failure(reply_msg) == "获取游戏种类列表失败"@,
        (ApiCall::GamesVersionList { kind_id }).spec_failure(reply_msg) == "获取游戏版本列表失败"@,
        (ApiCall::GamesCustomList { game_id, from_version_id }).spec_failure(reply_msg) == "获取第三方镜像列表失败"@,
        (ApiCall::GamesCustomVersionList { kind_id }).spec_failure(reply_msg) == "获取第三方版本列表失败"@,
        (ApiCall::ShopList { version_id }).spec_failure(reply_msg) == "获取商店套餐失败"@,
{
}

/// A failed developer-image query is reported with the reply's message,
/// or, when the reply carried none, with a message naming the image.
pub proof fn image_failure_messages(id: i64, m: Seq<char>)
    ensures
        (ApiCall::ImageList).spec_failure(Some(m)) == m,
        (ApiCall::ImageList).spec_failure(None) == "获取开发者镜像列表失败"@,
        (ApiCall::ImageDetail { id }).spec_failure(Some(m)) == m,
        (ApiCall::ImageDetail { id }).spec_failure(None) == "获取镜像 "@ + spec_decimal(id as int) + " 详情失败"@,
        (ApiCall::ImageVersions { id }).spec_failure(Some(m)) == m,
        (ApiCall::ImageVersions { id }).spec_failure(None) == "获取镜像 "@ + spec_decimal(id as int) + " 版本失败"@,
        (ApiCall::ImageFeedback { id }).spec_failure(Some(m)) == m,
        (ApiCall::ImageFeedback { id }).spec_failure(None) == "获取镜像 "@ + spec_decimal(id as int) + " 反馈失败"@,
{
}

/// A failed change (any call that is not a `GET`), and a failed power
/// action, are reported with the reply's own message, or an empty one.
pub proof fn change_failure_message(c: ApiCall, reply_msg: Option<Seq<char>>)
    requires
        c.spec_method() != Method::Get || c is InsPower,
    ensures
        c.spec_failure(reply_msg) == (match reply_msg {
            Some(t) => t,
            None => Seq::<char>::empty(),
        }),
{
}

/// Only the login goes without the token, and only logging out and marking
/// announcements read accept a reply whatever its business code.
pub proof fn authorization_and_checking(c: ApiCall)
    ensures
        c.spec_authorized() <==> !(c is Login),
        !c.spec_checks_reply() <==> (c is Logout || c is AnnouncementRead),
{
}


// ------------------------------------------------------------ builders

fn text(s: &str) -> (r: String)
    ensures
        r@ == s@,
{
    String::from_str(s)
}

fn cat(a: String, b: &str) -> (r: String)
    ensures
        r@ == a@ + b@,
{
    let mut a = a;
    a.append(b);
    a
}

fn bool_string(b: bool) -> (r: String)
    ensures
        r@ == bool_text(b),
{
    if b {
        text("true")
    } else {
        text("false")
    }
}

fn make_ins_path(id: i64, suffix: &str) -> (r: String)
    ensures
        r@ == ins_path(id, suffix@),
{
    cat(cat(text("/api/ins/"), decimal_i64(id).as_str()), suffix)
}

fn make_dev_path(id: i64, suffix: &str) -> (r: String)
    ensures
        r@ == dev_path(id, suffix@),
{
    cat(cat(text("/api/dev/"), decimal_i64(id).as_str()), suffix)
}

fn make_form1(k: &str, v: &str) -> (r: String)
    ensures
        r@ == form1(k@, v@),
{
    let mut pairs: Vec<(String, String)> = Vec::new();
    pairs.push((text(k), text(v)));
    assert(pairs_view(pairs@) =~= seq![(k@, v@)]);
    form_encode(&pairs)
}

fn make_form2(k1: &str, v1: &str, k2: &str, v2: &str) -> (r: String)
    ensures
        r@ == form2(k1@, v1@, k2@, v2@),
{
    let mut pairs: Vec<(String, String)> = Vec::new();
    pairs.push((text(k1), text(v1)));
    pairs.push((text(k2), text(v2)));
    assert(pairs_view(pairs@) =~= seq![(k1@, v1@), (k2@, v2@)]);
    form_encode(&pairs)
}

fn make_form3(k1: &str, v1: &str, k2: &str, v2: &str, k3: &str, v3: &str) -> (r: String)
    ensures
        r@ == form3(k1@, v1@, k2@, v2@, k3@, v3@),
{
    let mut pairs: Vec<(String, String)> = Vec::new();
    pairs.push((text(k1), text(v1)));
    pairs.push((text(k2), text(v2)));
    pairs.push((text(k3), text(v3)));
    assert(pairs_view(pairs@) =~= seq![(k1@, v1@), (k2@, v2@), (k3@, v3@)]);
    form_encode(&pairs)
}

fn make_reinstall_form(version_id: i64, diff: bool, save: bool, custom: bool) -> (r: String)
    ensures
        r@ == reinstall_form(version_id, diff, save, custom),
{
    let mut pairs: Vec<(String, String)> = Vec::new();
    pairs.push((text("version_id"), decimal_i64(version_id)));
    pairs.push((text("diff"), bool_string(diff)));
    pairs.push((text("save"), bool_string(save)));
    let ghost base = seq![
        ("version_id"@, spec_decimal(version_id as int)),
        ("diff"@, bool_text(diff)),
        ("save"@, bool_text(save)),
    ];
    assert(pairs_view(pairs@) =~= base);
    if custom {
        pairs.push((text("custom"), text("true")));
        assert(pairs_view(pairs@) =~= base.push(("custom"@, "true"@)));
    }
    form_encode(&pairs)
}

fn query_path(prefix: &str, query: String) -> (r: String)
    ensures
        r@ == prefix@ + query@,
{
    cat(text(prefix), query.as_str())
}

impl ApiCall {
    /// The HTTP method of the call.
    pub fn method(&self) -> (m: Method)
        ensures
            m == self.spec_method(),
    {
        match self {
            ApiCall::Login { .. } | ApiCall::Logout | ApiCall::AnnouncementRead | ApiCall::InsFileSave { .. }
            | ApiCall::InsFileCreate { .. } | ApiCall::InsFileRename { .. } | ApiCall::InsFileDelete { .. }
            | ApiCall::InsFileArchive { .. } | ApiCall::InsFileUnarchive { .. } | ApiCall::InsFilePaste { .. }
            | ApiCall::InsFileCopy { .. } | ApiCall::InsRename { .. } | ApiCall::InsChange { .. }
            | ApiCall::InsSupportCreate { .. } | ApiCall::InsReinstall { .. } | ApiCall::InsBackupCreate { .. }
            | ApiCall::InsRollbackCreate { .. } => Method::Post,
            ApiCall::InsAllocationDefault { .. } | ApiCall::InsBackupRename { .. } => Method::Put,
            ApiCall::InsBackupRestore { .. } => Method::Patch,
            ApiCall::InsSupportEnd { .. } | ApiCall::InsBackupDelete { .. } => Method::Delete,
            _ => Method::Get,
        }
    }

    /// Whether the call carries the token.
    pub fn authorized(&self) -> (b: bool)
        ensures
            b == self.spec_authorized(),
    {
        match self {
            ApiCall::Login { .. } => false,
            _ => true,
        }
    }

    /// Whether the reply's business code is judged.
    pub fn checks_reply(&self) -> (b: bool)
        ensures
            b == self.spec_checks_reply(),
    {
        match self {
            ApiCall::Logout | ApiCall::AnnouncementRead => false,
            _ => true,
        }
    }

    /// The path (and query) of the call, relative to the base URL.
    #[verifier::rlimit(40)]
    pub fn path(&self) -> (p: String)
        ensures
            p@ == self.spec_path(),
    {
        match self {
            ApiCall::Login { .. } => text("/api/auth/login"),
            ApiCall::Logout => text("/api/auth/logout"),
            ApiCall::AuthInfo => text("/api/auth/info"),
            ApiCall::AnnouncementList => text("/api/announcement"),
            ApiCall::AnnouncementRead => text("/api/announcement_read"),
            ApiCall::PointHistory => text("/api/pointhistory"),
            ApiCall::DiamondHistory => text("/api/diamondhistory"),
            ApiCall::InviteInfo => text("/api/invite"),
            ApiCall::InsFileList { id, path } => {
                let q = query_path("/file/list?", make_form1("path", path.as_str()));
                make_ins_path(*id, q.as_str())
            },
            ApiCall::InsFileFetch { id, path } => {
                let q = query_path("/file/fetch?", make_form1("path", path.as_str()));
                make_ins_path(*id, q.as_str())
            },
            ApiCall::InsFileSave { id, .. } => make_ins_path(*id, "/file/save"),
            ApiCall::InsFileCreate { id, .. } => make_ins_path(*id, "/file/create"),
            ApiCall::InsFileRename { id, .. } => make_ins_path(*id, "/file/rename"),
            ApiCall::InsFileDelete { id, .. } => make_ins_path(*id, "/file/delete"),
            ApiCall::InsFileArchive { id, .. } => make_ins_path(*id, "/file/archive"),
            ApiCall::InsFileUnarchive { id, .. } => make_ins_path(*id, "/file/unarchive"),
            ApiCall::InsFilePaste { id, .. } => make_ins_path(*id, "/file/paste"),
            ApiCall::InsFileCopy { id, .. } => make_ins_path(*id, "/file/copy"),
            ApiCall::ImageCategories { version_id } | ApiCall::ShopList { version_id } => {
                query_path("/api/shop/list?", make_form1("version_id", decimal_i64(*version_id).as_str()))
            },
            ApiCall::ImageList => text("/api/dev/list"),
            ApiCall::ImageDetail { id } => make_dev_path(*id, "/detail"),
            ApiCall::ImageVersions { id } => make_dev_path(*id, "/version"),
            ApiCall::ImageFeedback { id } => make_dev_path(*id, "/feedback"),
            ApiCall::SupportList => text("/api/dev/support/list"),
            ApiCall::InsList => text("/api/ins/list"),
            ApiCall::InsDetail { id } => make_ins_path(*id, "/detail"),
            ApiCall::InsWsInit { id } => make_ins_path(*id, "/ws?"),
            ApiCall::InsPower { id, action } => {
                let q = cat(text("/power?action="), action.as_str());
                make_ins_path(*id, q.as_str())
            },
            ApiCall::InsRename { id, .. } => make_ins_path(*id, "/rename"),
            ApiCall::InsChange { id, .. } => make_ins_path(*id, "/change"),
            ApiCall::InsAllocationDefault { id, .. } => make_ins_path(*id, "/allocation"),
            ApiCall::InsSupportInfo { id } => make_ins_path(*id, "/support?"),
            ApiCall::InsSupportCreate { id, .. } => make_ins_path(*id, "/support"),
            ApiCall::InsSupportEnd { id, .. } => make_ins_path(*id, "/support"),
            ApiCall::InsDiamondPlan { id } => make_ins_path(*id, "/diamond_plan?"),
            ApiCall::InsSftp { id } => make_ins_path(*id, "/sftp?"),
            ApiCall::InsTasks { id } => make_ins_path(*id, "/tasks?"),
            ApiCall::InsStat { id } => make_ins_path(*id, "/stat?"),
            ApiCall::InsReinstall { id, .. } => make_ins_path(*id, "/reinstall"),
            ApiCall::InsBackupList { id } => make_ins_path(*id, "/backup?"),
            ApiCall::InsBackupCreate { id, .. } => make_ins_path(*id, "/backup"),
            ApiCall::InsBackupRename { id, .. } => make_ins_path(*id, "/backup"),
            ApiCall::InsBackupRestore { id, .. } => make_ins_path(*id, "/backup"),
            ApiCall::InsBackupDelete { id, .. } => make_ins_path(*id, "/backup"),
            ApiCall::InsBackupDownload { id, backup_id } => {
                let q = query_path("/backup?", make_form1("down_id", decimal_i64(*backup_id).as_str()));
                make_ins_path(*id, q.as_str())
            },
            ApiCall::InsRollbackPoints { id } => make_ins_path(*id, "/rollback?"),
            ApiCall::InsRollbackCreate { id, .. } => make_ins_path(*id, "/rollback"),
            ApiCall::GamesList { custom } => {
                if *custom {
                    query_path("/api/games/list?", make_form1("custom", "true"))
                } else {
                    text("/api/games/list?")
                }
            },
            ApiCall::GamesKindList { game_id, from_version_id } => {
                let g = decimal_i64(*game_id);
                let f = decimal_i64(*from_version_id);
                query_path(
                    "/api/games/kindlist?",
                    make_form2("game_id", g.as_str(), "from_version_id", f.as_str()),
                )
            },
            ApiCall::GamesVersionList { kind_id } => {
                query_path("/api/games/versionlist?", make_form1("kind_id", decimal_i64(*kind_id).as_str()))
            },
            ApiCall::GamesCustomList { game_id, from_version_id } => {
                let g = decimal_i64(*game_id);
                let f = decimal_i64(*from_version_id);
                query_path(
                    "/api/games/customlist?",
                    make_form2("game_id", g.as_str(), "from_version_id", f.as_str()),
                )
            },
            ApiCall::GamesCustomVersionList { kind_id } => {
                query_path(
                    "/api/games/custom_versionlist?",
                    make_form1("kind_id", decimal_i64(*kind_id).as_str()),
                )
            },
        }
    }

    /// The body of the call.
    #[verifier::rlimit(40)]
    pub fn body(&self) -> (b: Option<String>)
        ensures
            match (b, self.spec_body()) {
                (Some(x), Some(y)) => x@ == y,
                (None, None) => true,
                _ => false,
            },
    {
        match self {
            ApiCall::Login { username, passwd } =>
                Some(make_form2("username", username.as_str(), "passwd", passwd.as_str())),
            ApiCall::Logout | ApiCall::AnnouncementRead => Some(String::new()),
            ApiCall::InsFileSave { path, content, .. } =>
                Some(make_form2("path", path.as_str(), "content", content.as_str())),
            ApiCall::InsFileCreate { mode, root, name, .. } =>
                Some(make_form3("mode", mode.as_str(), "root", root.as_str(), "name", name.as_str())),
            ApiCall::InsFileRename { origin, target, .. } =>
                Some(make_form2("origin", origin.as_str(), "target", target.as_str())),
            ApiCall::InsFileDelete { list, .. } => {
                let j = json_array_of(list);
                Some(make_form1("list", j.as_str()))
            },
            ApiCall::InsFileArchive { root, files, format, .. } => {
                let j = json_array_of(files);
                Some(make_form3("root", root.as_str(), "files", j.as_str(), "format", format.as_str()))
            },
            ApiCall::InsFileUnarchive { root, file, .. } =>
                Some(make_form2("root", root.as_str(), "file", file.as_str())),
            ApiCall::InsFilePaste { list, target, .. } => {
                let j = json_array_of(list);
                Some(make_form2("list", j.as_str(), "target", target.as_str()))
            },
            ApiCall::InsFileCopy { location, .. } => Some(make_form1("location", location.as_str())),
            ApiCall::InsRename { name, .. } => Some(make_form1("name", name.as_str())),
            ApiCall::InsChange { item_id, .. } => Some(make_form1("item_id", decimal_i64(*item_id).as_str())),
            ApiCall::InsAllocationDefault { port_id, .. } =>
                Some(make_form1("port_id", decimal_i64(*port_id).as_str())),
            ApiCall::InsSupportCreate { comment, .. } => Some(make_form1("comment", comment.as_str())),
            ApiCall::InsSupportEnd { feedback, .. } => Some(make_form1("feedback", feedback.as_str())),
            ApiCall::InsReinstall { version_id, diff, save, custom, .. } =>
                Some(make_reinstall_form(*version_id, *diff, *save, *custom)),
            ApiCall::InsBackupCreate { tag, .. } => Some(make_form1("tag", tag.as_str())),
            ApiCall::InsBackupRename { backup_id, new_tag, .. } => {
                let b = decimal_i64(*backup_id);
                Some(make_form2("backup_id", b.as_str(), "new_tag", new_tag.as_str()))
            },
            ApiCall::InsBackupRestore { backup_id, .. } | ApiCall::InsBackupDelete { backup_id, .. } =>
                Some(make_form1("backup_id", decimal_i64(*backup_id).as_str())),
            ApiCall::InsRollbackCreate { rollback_time, .. } =>
                Some(make_form1("rollback_time", rollback_time.as_str())),
            _ => None,
        }
    }

    /// The request the call sends against `base_url`.
    pub fn request(&self, base_url: &str) -> (r: ApiRequest)
        ensures
            r.method == self.spec_method(),
            r.url@ == base_url@ + self.spec_path(),
            match (r.body, self.spec_body()) {
                (Some(x), Some(y)) => x@ == y,
                (None, None) => true,
                _ => false,
            },
            r.authorized == self.spec_authorized(),
    {
        let path = self.path();
        ApiRequest {
            method: self.method(),
            url: cat(text(base_url), path.as_str()),
            body: self.body(),
            authorized: self.authorized(),
        }
    }

    /// The message an error carries when the reply's code is not 200.
    pub fn failure_message(&self, reply_msg: Option<&str>) -> (m: String)
        ensures
            m@ == self.spec_failure(str_opt_view(reply_msg)),
    {
        let from_reply = match reply_msg {
            Some(m) => text(m),
            None => String::new(),
        };
        match self {
            ApiCall::AuthInfo => text("获取用户信息失败"),
            ApiCall::AnnouncementList => text("获取公告列表失败"),
            ApiCall::PointHistory => text("获取积分历史失败"),
            ApiCall::DiamondHistory => text("获取钻石历史失败"),
            ApiCall::InviteInfo => text("获取邀请信息失败"),
            ApiCall::InsFileList { .. } => text("获取文件列表失败"),
            ApiCall::InsFileFetch { .. } => text("获取文件内容失败"),
            ApiCall::ImageCategories { .. } => text("获取镜像类别失败"),
            ApiCall::ImageList => match reply_msg {
                Some(m) => text(m),
                None => text("获取开发者镜像列表失败"),
            },
            ApiCall::ImageDetail { id } => match reply_msg {
                Some(m) => text(m),
                None => cat(cat(text("获取镜像 "), decimal_i64(*id).as_str()), " 详情失败"),
            },
            ApiCall::ImageVersions { id } => match reply_msg {
                Some(m) => text(m),
                None => cat(cat(text("获取镜像 "), decimal_i64(*id).as_str()), " 版本失败"),
            },
            ApiCall::ImageFeedback { id } => match reply_msg {
                Some(m) => text(m),
                None => cat(cat(text("获取镜像 "), decimal_i64(*id).as_str()), " 反馈失败"),
            },
            ApiCall::SupportList => text("获取技术支持列表失败"),
            ApiCall::InsList => text("获取实例列表失败"),
            ApiCall::InsDetail { .. } => text("获取实例详情失败"),
            ApiCall::InsWsInit { .. } => text("获取WS信息失败"),
            ApiCall::InsSupportInfo { .. } => text("获取技术支持信息失败"),
            ApiCall::InsDiamondPlan { .. } => text("获取钻石套餐失败"),
            ApiCall::InsSftp { .. } => text("获取SFTP信息失败"),
            ApiCall::InsTasks { .. } => text("获取任务列表失败"),
            ApiCall::InsStat { .. } => text("获取历史统计失败"),
            ApiCall::InsBackupList { .. } => text("获取备份列表失败"),
            ApiCall::InsBackupDownload { .. } => text("获取备份下载链接失败"),
            ApiCall::InsRollbackPoints { .. } => text("获取回滚时间失败"),
            ApiCall::GamesList { .. } => text("获取游戏列表失败"),
            ApiCall::GamesKindList { .. } => text("获取游戏种类列表失败"),
            ApiCall::GamesVersionList { .. } => text("获取游戏版本列表失败"),
            ApiCall::GamesCustomList { .. } => text("获取第三方镜像列表失败"),
            ApiCall::GamesCustomVersionList { .. } => text("获取第三方版本列表失败"),
            ApiCall::ShopList { .. } => text("获取商店套餐失败"),
            _ => from_reply,
        }
    }

    /// Judges a reply's business code: 200 is success, any other code is
    /// an API error carrying the code and the call's failure message.
    pub fn check_reply(&self, code: i32, reply_msg: Option<&str>) -> (r: Result<(), SdkError>)
        ensures
            code == 200 <==> r is Ok,
            r matches Err(e) ==> is_api_error(e, code, self.spec_failure(str_opt_view(reply_msg))),
    {
        if code == 200 {
            Ok(())
        } else {
            Err(SdkError::Api { code, msg: self.failure_message(reply_msg) })
        }
    }
}


fn as_opt_str(o: &Option<String>) -> (r: Option<&str>)
    ensures
        str_opt_view(r) == string_opt_view(*o),
{
    match o {
        Some(m) => Some(m.as_str()),
        None => None,
    }
}

fn unwrap_list<T>(list: Option<Vec<T>>) -> (r: Vec<T>)
    ensures
        r@ == list_or_empty(list),
{
    match list {
        Some(v) => v,
        None => Vec::new(),
    }
}

/// Finishes a login: the reply's token, or an API error when the reply
/// carried none.
pub fn login_token(res: LoginResponse) -> (r: Result<String, SdkError>)
    ensures
        r is Ok <==> res.token is Some,
        r matches Ok(t) ==> res.token == Some(t),
        r matches Err(e) ==> is_api_error(e, res.code, "登录响应中缺少token"@),
{
    match res.token {
        Some(t) => Ok(t),
        None => Err(SdkError::Api { code: res.code, msg: text("登录响应中缺少token") }),
    }
}

/// Finishes the developer image list: the images, none when the reply
/// carried no list.
pub fn finish_image_list(data: DevImageListResponse) -> (r: Result<Vec<DevImageItem>, SdkError>)
    ensures
        data.code == 200 <==> r is Ok,
        r matches Ok(l) ==> l@ == list_or_empty(data.list),
        r matches Err(e) ==> is_api_error(e, data.code, ApiCall::ImageList.spec_failure(string_opt_view(data.msg))),
{
    let checked = ApiCall::ImageList.check_reply(data.code, as_opt_str(&data.msg));
    match checked {
        Ok(()) => Ok(unwrap_list(data.list)),
        Err(e) => Err(e),
    }
}

/// Finishes a developer image's details: an API error when the code is not
/// 200 or the reply carried no details.
pub fn finish_image_detail(id: i64, data: DevImageDetailResponse) -> (r: Result<DevImageDetail, SdkError>)
    ensures
        r is Ok <==> data.code == 200 && data.data is Some,
        r matches Ok(d) ==> data.data == Some(d),
        r matches Err(e) ==> if data.code != 200 {
            is_api_error(e, data.code, (ApiCall::ImageDetail { id }).spec_failure(string_opt_view(data.msg)))
        } else {
            is_api_error(e, data.code, "镜像 "@ + spec_decimal(id as int) + " 详情为空"@)
        },
{
    let call = ApiCall::ImageDetail { id };
    let checked = call.check_reply(data.code, as_opt_str(&data.msg));
    match checked {
        Ok(()) => match data.data {
            Some(d) => Ok(d),
            None => Err(
                SdkError::Api {
                    code: data.code,
                    msg: cat(cat(text("镜像 "), decimal_i64(id).as_str()), " 详情为空"),
                },
            ),
        },
        Err(e) => Err(e),
    }
}

/// Finishes a developer image's versions.
pub fn finish_image_versions(id: i64, data: DevImageVersionResponse) -> (r: Result<Vec<DevImageVersion>, SdkError>)
    ensures
        data.code == 200 <==> r is Ok,
        r matches Ok(l) ==> l@ == list_or_empty(data.list),
        r matches Err(e) ==> is_api_error(
            e,
            data.code,
            (ApiCall::ImageVersions { id }).spec_failure(string_opt_view(data.msg)),
        ),
{
    let call = ApiCall::ImageVersions { id };
    let checked = call.check_reply(data.code, as_opt_str(&data.msg));
    match checked {
        Ok(()) => Ok(unwrap_list(data.list)),
        Err(e) => Err(e),
    }
}

/// Finishes a developer image's feedback.
pub fn finish_image_feedback(id: i64, data: DevImageFeedbackResponse) -> (r: Result<Vec<DevImageFeedback>, SdkError>)
    ensures
        data.code == 200 <==> r is Ok,
        r matches Ok(l) ==> l@ == list_or_empty(data.list),
        r matches Err(e) ==> is_api_error(
            e,
            data.code,
            (ApiCall::ImageFeedback { id }).spec_failure(string_opt_view(data.msg)),
        ),
{
    let call = ApiCall::ImageFeedback { id };
    let checked = call.check_reply(data.code, as_opt_str(&data.msg));
    match checked {
        Ok(()) => Ok(unwrap_list(data.list)),
        Err(e) => Err(e),
    }
}

/// Finishes the developer's support list.
pub fn finish_support_list(data: DevSupportListResponse) -> (r: Result<Vec<DevSupport>, SdkError>)
    ensures
        data.code == 200 <==> r is Ok,
        r matches Ok(l) ==> l == data.list,
        r matches Err(e) ==> is_api_error(e, data.code, "获取技术支持列表失败"@),
{
    let checked = ApiCall::SupportList.check_reply(data.code, None);
    match checked {
        Ok(()) => Ok(data.list),
        Err(e) => Err(e),
    }
}

/// The `HEAD` request that probes the resource at `path`.
pub fn head_request(base_url: &str, path: &str) -> (r: ApiRequest)
    ensures
        r.method == Method::Head,
        r.url@ == base_url@ + path@,
        r.body is None,
        r.authorized,
{
    ApiRequest { method: Method::Head, url: cat(text(base_url), path), body: None, authorized: true }
}

} // verus!
