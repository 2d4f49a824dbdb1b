//! The data the Simpfun API exchanges.

use vstd::prelude::*;

verus! {

/// An arbitrary JSON value, kept as the API sent it.
#[verifier::external_type_specification]
#[verifier::external_body]
pub struct ExJsonValue(serde_json::Value);

/// Reply to a login: the business code, its message and, on success, the token.
#[derive(Debug, Clone, PartialEq)]
pub struct LoginResponse {
    pub code: i32,
    pub msg: String,
    pub token: Option<String>,
}

/// A pop-up announcement attached to the user information.
#[derive(Debug, Clone, Default, PartialEq)]
pub struct Announcement {
    pub show: bool,
    pub title: String,
    pub text: String,
}

/// The signed-in user's account information.
#[derive(Debug, Clone, Default, PartialEq)]
pub struct UserInfo {
    pub id: i64,
    pub username: String,
    pub point: i64,
    pub diamond: i64,
    pub queue_time: i64,
    pub verified: bool,
    pub is_dev: bool,
    pub create_time: i64,
    pub qq: Option<i64>,
    pub pd: Option<String>,
    pub is_pro: bool,
    pub pro_valid: bool,
    pub announcement: Option<Announcement>,
}

/// Reply carrying the user information.
#[derive(Debug, Clone, PartialEq)]
pub struct AuthInfoResponse {
    pub code: i32,
    pub info: UserInfo,
}

/// One server instance as the instance list shows it.
#[derive(Debug, Clone, PartialEq)]
pub struct Instance {
    pub id: i64,
    pub name: Option<String>,
    pub cpu: String,
    pub ram: String,
    pub disk: String,
    pub create_time: String,
    pub last_paid_time: String,
    pub area: i64,
    pub version_id: i64,
    pub state: i32,
    pub ptero_id: i64,
}

/// Reply carrying the user's instances.
#[derive(Debug, Clone, PartialEq)]
pub struct InsListResponse {
    pub code: i32,
    pub list: Vec<Instance>,
}

/// One entry of the announcement list.
#[derive(Debug, Clone, PartialEq)]
pub struct AnnouncementItem {
    pub id: i64,
    pub title: String,
    pub text: String,
    pub create_time: String,
    pub read_times: i64,
}

/// Reply carrying the announcement list.
#[derive(Debug, Clone, PartialEq)]
pub struct AnnouncementListResponse {
    pub code: i32,
    pub list: Vec<AnnouncementItem>,
}

/// One change of the point balance.
#[derive(Debug, Clone, PartialEq)]
pub struct PointHistoryItem {
    pub id: i64,
    pub point: i64,
    pub point_left: i64,
    pub create_time: String,
    pub comment: String,
}

/// Reply carrying the point history.
#[derive(Debug, Clone, PartialEq)]
pub struct PointHistoryResponse {
    pub code: i32,
    pub list: Vec<PointHistoryItem>,
}

/// One change of the diamond balance.
#[derive(Debug, Clone, PartialEq)]
pub struct DiamondHistoryItem {
    pub id: i64,
    pub diamond: i64,
    pub diamond_left: i64,
    pub create_time: String,
    pub comment: String,
}

/// Reply carrying the diamond history.
#[derive(Debug, Clone, PartialEq)]
pub struct DiamondHistoryResponse {
    pub code: i32,
    pub list: Vec<DiamondHistoryItem>,
}

/// Invitation statistics and the user's invite code.
#[derive(Debug, Clone, PartialEq)]
pub struct InviteData {
    pub register_times: i64,
    pub register_verify_times: i64,
    pub register_total_income: i64,
    pub register_total_income_from_pro: i64,
    pub invite_code: i64,
}

/// Reply carrying the invitation statistics.
#[derive(Debug, Clone, PartialEq)]
pub struct InviteResponse {
    pub code: i32,
    pub data: InviteData,
}

/// Token and socket URL for an instance's WebSocket.
#[derive(Debug, Clone, PartialEq)]
pub struct WsInitData {
    pub token: String,
    pub socket: String,
}

/// Reply carrying the WebSocket connection information.
#[derive(Debug, Clone, PartialEq)]
pub struct WsInitResponse {
    pub code: i32,
    pub data: WsInitData,
}

/// Reply to a power action.
#[derive(Debug, Clone, PartialEq)]
pub struct PowerResponse {
    pub code: i32,
    pub status: bool,
    pub msg: String,
}

/// Game, kind and version an instance runs.
#[derive(Debug, Clone, Default, PartialEq)]
pub struct GameInfo {
    pub game_name: String,
    pub kind_name: String,
    pub version_name: String,
    pub game_id: i64,
    pub kind_id: i64,
    pub version_id: i64,
}

/// A port allocation of an instance.
#[derive(Debug, Clone, Default, PartialEq)]
pub struct Allocation {
    pub id: i64,
    pub ip: String,
    pub port: i64,
    pub is_default: bool,
}

/// Diamond plan state of an instance.
#[derive(Debug, Clone, Default, PartialEq)]
pub struct DiamondInfo {
    pub left: i64,
    pub diamond_plan_id: i64,
    pub diamond_plan_discount: i64,
    pub diamond_plan_valid_time: String,
}

/// Traffic plan state of an instance.
#[derive(Debug, Clone, Default, PartialEq)]
pub struct TrafficInfo {
    pub plan: i64,
    pub remain_bytes: i64,
    pub auto_reset: bool,
    pub cd: i64,
}

/// One entry of a directory listing.
#[derive(Debug, Clone, PartialEq)]
pub struct FileEntry {
    pub name: String,
    pub file: bool,
    pub size: Option<i64>,
    pub mime: Option<String>,
    pub modified_at: Option<String>,
}

/// Reply carrying a directory listing.
#[derive(Debug, Clone, PartialEq)]
pub struct InsFileListResponse {
    pub code: i32,
    pub list: Vec<FileEntry>,
}

/// Reply carrying a file's content.
#[derive(Debug, Clone, PartialEq)]
pub struct InsFileContentResponse {
    pub code: i32,
    pub content: String,
}

/// Reply made of a business code and a message.
#[derive(Debug, Clone, PartialEq)]
pub struct SimpleMsgResponse {
    pub code: i32,
    pub msg: String,
}

/// Reply to a plan change, with the new instance id.
#[derive(Debug, Clone, PartialEq)]
pub struct ChangeResponse {
    pub code: i32,
    pub msg: String,
    pub new_id: i64,
}

/// A technical-support session of an instance.
#[derive(Debug, Clone, Default, PartialEq)]
pub struct SupportData {
    pub dev_uid: i64,
    pub dev_qq: i64,
    pub support_group: i64,
    pub create_time: String,
    pub comment: String,
    pub valid: bool,
}

/// Reply carrying a technical-support session.
#[derive(Debug, Clone, PartialEq)]
pub struct SupportResponse {
    pub code: i32,
    pub data: SupportData,
}

/// One game.
#[derive(Debug, Clone, PartialEq)]
pub struct GameListItem {
    pub id: i64,
    pub name: String,
    pub pic_path: String,
    pub priority: i64,
}

/// Reply carrying the game list.
#[derive(Debug, Clone, PartialEq)]
pub struct GameListResponse {
    pub code: i32,
    pub list: Vec<GameListItem>,
}

/// One kind of a game.
#[derive(Debug, Clone, PartialEq)]
pub struct GameKindItem {
    pub id: i64,
    pub name: String,
    pub description: String,
    pub pic_path: String,
    pub priority: i64,
}

/// Reply carrying a game's kinds.
#[derive(Debug, Clone, PartialEq)]
pub struct GameKindListResponse {
    pub code: i32,
    pub list: Vec<GameKindItem>,
}

/// One version of a game kind.
#[derive(Debug, Clone, PartialEq)]
pub struct GameVersionItem {
    pub id: i64,
    pub name: String,
    pub description: String,
    pub priority: i64,
}

/// Reply carrying a kind's versions.
#[derive(Debug, Clone, PartialEq)]
pub struct GameVersionListResponse {
    pub code: i32,
    pub list: Vec<GameVersionItem>,
    pub is_windows: bool,
}

/// One third-party image.
#[derive(Debug, Clone, PartialEq)]
pub struct CustomGameItem {
    pub id: i64,
    pub is_windows: bool,
    pub name: String,
    pub description: String,
    pub link: String,
    pub like: i64,
    pub dislike: i64,
}

/// Reply carrying the third-party images.
#[derive(Debug, Clone, PartialEq)]
pub struct CustomGameListResponse {
    pub code: i32,
    pub list: Vec<CustomGameItem>,
}

/// One version of a third-party image.
#[derive(Debug, Clone, PartialEq)]
pub struct CustomVersionItem {
    pub id: i64,
    pub name: String,
    pub description: String,
    pub recommend_setting: String,
    pub like: i64,
    pub dislike: i64,
    pub size: String,
}

/// Reply carrying a third-party image's versions.
#[derive(Debug, Clone, PartialEq)]
pub struct CustomVersionListResponse {
    pub code: i32,
    pub list: Vec<CustomVersionItem>,
    pub is_windows: bool,
}

/// One backup of an instance.
#[derive(Debug, Clone, PartialEq)]
pub struct BackupItem {
    pub id: i64,
    pub status: i32,
    pub size: i64,
    pub valid_time: String,
    pub tag: String,
    pub is_windows: bool,
}

/// Reply carrying an instance's backups.
#[derive(Debug, Clone, PartialEq)]
pub struct BackupListResponse {
    pub code: i32,
    pub list: Vec<BackupItem>,
}

/// Reply carrying a backup's download id.
#[derive(Debug, Clone, PartialEq)]
pub struct BackupDownloadResponse {
    pub code: i32,
    pub uuid: String,
}

/// Reply carrying the available rollback times.
#[derive(Debug, Clone, PartialEq)]
pub struct RollbackListResponse {
    pub code: i32,
    pub list: Vec<String>,
}

/// One plan of the shop.
#[derive(Debug, Clone, Default, PartialEq)]
pub struct ShopPlan {
    pub area_grade: String,
    pub area_is_windows: bool,
    pub area_vendor: String,
    pub cpu: i64,
    pub disk: i64,
    pub traffic: i64,
    pub id: i64,
    pub point: i64,
    pub ram: i64,
    pub spec: String,
    pub creatable: bool,
}

/// Reply carrying shop plans.
#[derive(Debug, Clone, PartialEq)]
pub struct ShopListResponse {
    pub code: i32,
    pub list: Vec<ShopPlan>,
}

/// One diamond plan.
#[derive(Debug, Clone, Default, PartialEq)]
pub struct DiamondPlanItem {
    pub id: i64,
    pub point_discount: i64,
    pub diamond: i64,
    pub shop_id: i64,
    pub grade: String,
    pub spec: String,
    pub cpu: i64,
    pub ram: i64,
    pub disk: i64,
    pub traffic: i64,
}

/// Reply carrying an instance's diamond plans.
#[derive(Debug, Clone, PartialEq)]
pub struct DiamondPlanResponse {
    pub code: i32,
    pub list: Vec<DiamondPlanItem>,
    pub diamond: i64,
}

/// SFTP access to an instance.
#[derive(Debug, Clone, Default, PartialEq)]
pub struct SftpData {
    pub ip: String,
    pub port: String,
    pub user_name: String,
    pub password: String,
}

/// Reply carrying SFTP access.
#[derive(Debug, Clone, PartialEq)]
pub struct SftpResponse {
    pub code: i32,
    pub data: SftpData,
}

/// One queued or running task of an instance.
#[derive(Debug, Clone, Default, PartialEq)]
pub struct TaskItem {
    pub id: i64,
    pub status: i32,
    pub comment: String,
    pub create_time: String,
}

/// Reply carrying an instance's tasks and queue state.
#[derive(Debug, Clone, PartialEq)]
pub struct TasksResponse {
    pub code: i32,
    pub list: Vec<TaskItem>,
    pub running: i64,
    pub waiting: i64,
    pub num_first_waiting: i64,
    pub running_pro: i64,
    pub waiting_pro: i64,
    pub num_first_waiting_pro: i64,
    pub is_pro: bool,
}

/// One image of the developer.
#[derive(Debug, Clone, PartialEq)]
pub struct DevImageItem {
    pub id: i64,
    pub name: String,
    pub state: Option<bool>,
}

/// Reply carrying the developer's images.
#[derive(Debug, Clone, PartialEq)]
pub struct DevImageListResponse {
    pub code: i32,
    pub msg: Option<String>,
    pub list: Option<Vec<DevImageItem>>,
}

/// Details of a developer image; fields the SDK does not name stay in `extra`.
#[derive(Debug, PartialEq)]
pub struct DevImageDetail {
    pub id: Option<i64>,
    pub name: Option<String>,
    pub state: Option<bool>,
    pub install_count: Option<i64>,
    pub restore_times: Option<i64>,
    pub like: Option<i64>,
    pub dislike: Option<i64>,
    pub extra: serde_json::Value,
}

/// Reply carrying a developer image's details.
#[derive(Debug, PartialEq)]
pub struct DevImageDetailResponse {
    pub code: i32,
    pub msg: Option<String>,
    pub data: Option<DevImageDetail>,
}

/// One version of a developer image.
#[derive(Debug, PartialEq)]
pub struct DevImageVersion {
    pub id: Option<i64>,
    pub state: Option<bool>,
    pub extra: serde_json::Value,
}

/// Reply carrying a developer image's versions.
#[derive(Debug, PartialEq)]
pub struct DevImageVersionResponse {
    pub code: i32,
    pub msg: Option<String>,
    pub list: Option<Vec<DevImageVersion>>,
}

/// One feedback entry of a developer image.
#[derive(Debug, PartialEq)]
pub struct DevImageFeedback {
    pub id: Option<i64>,
    pub extra: serde_json::Value,
}

/// Reply carrying a developer image's feedback.
#[derive(Debug, PartialEq)]
pub struct DevImageFeedbackResponse {
    pub code: i32,
    pub msg: Option<String>,
    pub list: Option<Vec<DevImageFeedback>>,
}

/// One technical-support request addressed to the developer.
#[derive(Debug, Clone, PartialEq)]
pub struct DevSupport {
    pub target_uid: String,
    pub target_qq: Option<String>,
    pub ins_id: String,
    pub create_time: String,
    pub comment: String,
}

/// Reply carrying the developer's support requests.
#[derive(Debug, Clone, PartialEq)]
pub struct DevSupportListResponse {
    pub code: i32,
    pub list: Vec<DevSupport>,
}
impl DevImageDetail {
    /// How often the image was installed: `install_count` when the API sent
    /// it, else `restore_times`, else 0.
    pub fn installations(&self) -> (n: i64)
        ensures
            n == (match self.install_count {
                Some(c) => c,
                None => match self.restore_times {
                    Some(r) => r,
                    None => 0,
                },
            }),
    {
        match self.install_count {
            Some(c) => c,
            None => match self.restore_times {
                Some(r) => r,
                None => 0,
            },
        }
    }

    /// Whether the image is published: its state is `Some(true)`.
    pub fn is_public(&self) -> (b: bool)
        ensures
            b == (self.state == Some(true)),
    {
        match self.state {
            Some(s) => s,
            None => false,
        }
    }
}

} // verus!
