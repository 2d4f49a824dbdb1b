//! Verified core of the Simpfun SDK.
//!
//! The SDK talks to the Simpfun API over HTTP and WebSocket. This crate holds
//! what the SDK decides, each piece with its contract:
//!
//! - [`api`]: for every API call, the request it sends (method, URL, form
//!   body, whether it carries the token) and how its reply's business code
//!   is judged;
//! - [`transport`]: the headers every request carries, how HTTP statuses are
//!   judged, and the retry policy for rate-limited requests;
//! - [`events`]: the polling system's probe and de-duplication state;
//! - [`ws`]: the WebSocket control messages, message handling and the
//!   reconnect backoff;
//! - [`models`]: the data the API exchanges; [`codec`] and [`text`]: the
//!   wire encodings and decimal numbers these rely on.

pub mod api;
pub mod codec;
pub mod error;
pub mod events;
pub mod models;
pub mod text;
pub mod transport;
pub mod ws;

pub use crate::api::{ApiCall, ApiRequest, Method};
pub use crate::error::SdkError;
pub use crate::events::{
    CachedData, DetailStates, ErrorReport, EventCmd, EventCore, EventIntervals, MonitorState, PollingConfig,
    Topic, TopicStates,
};
pub use crate::models::{
    LoginResponse, Announcement, UserInfo, AuthInfoResponse, Instance, InsListResponse,
    AnnouncementItem, AnnouncementListResponse, PointHistoryItem, PointHistoryResponse,
    DiamondHistoryItem, DiamondHistoryResponse, InviteData, InviteResponse, WsInitData,
    WsInitResponse, PowerResponse, GameInfo, Allocation, DiamondInfo, TrafficInfo, FileEntry,
    InsFileListResponse, InsFileContentResponse, SimpleMsgResponse, ChangeResponse, SupportData,
    SupportResponse, GameListItem, GameListResponse, GameKindItem, GameKindListResponse,
    GameVersionItem, GameVersionListResponse, CustomGameItem, CustomGameListResponse,
    CustomVersionItem, CustomVersionListResponse, BackupItem, BackupListResponse,
    BackupDownloadResponse, RollbackListResponse, ShopPlan, ShopListResponse, DiamondPlanItem,
    DiamondPlanResponse, SftpData, SftpResponse, TaskItem, TasksResponse, DevImageItem,
    DevImageListResponse, DevImageDetail, DevImageDetailResponse, DevImageVersion,
    DevImageVersionResponse, DevImageFeedback, DevImageFeedbackResponse, DevSupport,
    DevSupportListResponse,
};
pub use crate::transport::{ResourceMeta, RetryDelay, StatusClass};
pub use crate::ws::{Reconnect, WsCommand, WsEvent, WsPacket, WsReaction};
