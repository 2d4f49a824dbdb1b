use simpfun_sdk::events::{error_report, detail_label, detail_path, is_ins_list_changed};
use simpfun_sdk::{
    ApiCall, AnnouncementItem, AnnouncementListResponse, AuthInfoResponse, CachedData, DetailStates, ErrorReport, EventCmd,
    EventCore, EventIntervals, InsListResponse, Instance, MonitorState, PollingConfig, ResourceMeta, SdkError, Topic,
    TopicStates, UserInfo,
};

#[test]
fn test_event_intervals_default() {
    let intervals = EventIntervals::default();
    assert_eq!(intervals.heartbeat_secs, 30);
    assert_eq!(intervals.announcement_secs, 60);
}

#[test]
fn test_polling_config_default() {
    let config = PollingConfig::default();
    assert_eq!(config.fast_secs, 1);
    assert_eq!(config.safety_secs, 60);
}

#[test]
fn test_topic_all() {
    let all = Topic::all();
    assert_eq!(all.len(), 6);
}

#[test]
fn test_topic_critical() {
    let critical = Topic::critical();
    assert_eq!(critical.len(), 3);
}

#[test]
fn intervals_default_every_field() {
    let i = EventIntervals::default();
    assert_eq!(
        (i.point_secs, i.diamond_secs, i.ins_list_secs, i.auth_info_secs, i.invite_secs),
        (120, 120, 60, 60, 300)
    );
}

#[test]
fn critical_topics_are_among_all() {
    for t in Topic::critical() {
        assert!(Topic::all().contains(t));
    }
    assert_eq!(Topic::critical(), &[Topic::Announcement, Topic::Point, Topic::InsList]);
}

#[test]
fn topic_paths_and_labels() {
    assert_eq!(Topic::Announcement.head_path(), "/api/announcement");
    assert_eq!(Topic::Point.head_path(), "/api/pointhistory");
    assert_eq!(Topic::Diamond.head_path(), "/api/diamondhistory");
    assert_eq!(Topic::InsList.head_path(), "/api/ins/list");
    assert_eq!(Topic::AuthInfo.head_path(), "/api/auth/info");
    assert_eq!(Topic::Invite.head_path(), "/api/invite");
    assert_eq!(Topic::InsList.label(), "InsList");
    assert_eq!(detail_path(42), "/api/ins/42/detail");
    assert_eq!(detail_label(-3), "ins:-3");
}

fn announcements(ids: &[i64]) -> AnnouncementListResponse {
    AnnouncementListResponse {
        code: 200,
        list: ids
            .iter()
            .map(|&id| AnnouncementItem {
                id,
                title: "t".to_string(),
                text: "x".to_string(),
                create_time: "2024".to_string(),
                read_times: 0,
            })
            .collect(),
    }
}

fn meta(len: Option<u64>, etag: Option<&str>) -> ResourceMeta {
    ResourceMeta { len, etag: etag.map(|e| e.to_string()) }
}

#[test]
fn same_announcements_dispatched_once() {
    let mut st = TopicStates::new();
    assert!(st.accept(CachedData::Announcement(announcements(&[3, 2, 1]))));
    assert!(!st.accept(CachedData::Announcement(announcements(&[3, 2, 1]))));
    // same length and end ids: not a change
    assert!(!st.accept(CachedData::Announcement(announcements(&[3, 9, 1]))));
    // a new first id is a change
    assert!(st.accept(CachedData::Announcement(announcements(&[4, 3, 2]))));
    // a different length is a change
    assert!(st.accept(CachedData::Announcement(announcements(&[4, 3]))));
}

fn user(id: i64, point: i64, diamond: i64) -> AuthInfoResponse {
    AuthInfoResponse {
        code: 200,
        info: UserInfo { id, point, diamond, username: "u".to_string(), ..Default::default() },
    }
}

#[test]
fn auth_info_changes_on_balances_only() {
    let mut st = TopicStates::new();
    assert!(st.accept(CachedData::AuthInfo(user(1, 10, 5))));
    let mut renamed = user(1, 10, 5);
    renamed.info.username = "other".to_string();
    assert!(!st.accept(CachedData::AuthInfo(renamed)));
    assert!(st.accept(CachedData::AuthInfo(user(1, 11, 5))));
    // topics are kept apart: the announcement slot is still empty
    assert!(st.accept(CachedData::Announcement(announcements(&[]))));
    assert!(st.announcement.last_data.is_some());
}

fn instance(id: i64, state: i32) -> Instance {
    Instance {
        id,
        name: None,
        cpu: "1".to_string(),
        ram: "1".to_string(),
        disk: "1".to_string(),
        create_time: "t".to_string(),
        last_paid_time: "t".to_string(),
        area: 1,
        version_id: 1,
        state,
        ptero_id: 1,
    }
}

#[test]
fn ins_list_change_on_any_state() {
    let old = InsListResponse { code: 200, list: vec![instance(1, 0), instance(2, 0)] };
    let last = Some(CachedData::InsList(old.clone()));
    assert!(!is_ins_list_changed(&old, &last));
    let moved = InsListResponse { code: 200, list: vec![instance(1, 0), instance(2, 1)] };
    assert!(is_ins_list_changed(&moved, &last));
    assert!(is_ins_list_changed(&old, &None));
    assert!(is_ins_list_changed(&old, &Some(CachedData::AuthInfo(user(1, 1, 1)))));
}

#[test]
fn fast_probe_fetches_once_per_change() {
    let mut st: MonitorState<u8> = MonitorState::new();
    assert!(st.observe_head(meta(Some(10), Some("a"))));
    assert!(!st.observe_head(meta(Some(10), Some("a"))));
    assert!(st.observe_head(meta(Some(10), Some("b"))));
    assert!(st.observe_head(meta(Some(11), None)));
    // a probe that reports nothing announces nothing
    assert!(!st.observe_head(meta(None, None)));
    assert_eq!(st.last_len, Some(11));
    // a change remembers the whole probe result, including its missing tag
    assert_eq!(st.last_etag, None);
}

#[test]
fn safety_probe_then_fast_probe_is_quiet() {
    let mut st: MonitorState<u8> = MonitorState::new();
    st.record_head(meta(Some(5), Some("e")));
    assert!(!st.observe_head(meta(Some(5), Some("e"))));
    st.record_head(meta(None, None));
    assert!(st.observe_head(meta(Some(5), None)));
}

#[test]
fn detail_states_forget_unwatched_instances() {
    let mut d: DetailStates<String> = DetailStates::new();
    assert!(d.observe_head(1, meta(Some(1), None)));
    assert!(d.observe_head(2, meta(Some(1), None)));
    d.store(2, "two".to_string());
    assert!(!d.observe_head(2, meta(Some(1), None)));
    assert_eq!(d.last_data(2), Some(&"two".to_string()));
    assert_eq!(d.last_data(1), None);
    d.retain_watched(&vec![2, 7]);
    // instance 1 was forgotten: its probe is new again
    assert!(d.observe_head(1, meta(Some(1), None)));
    // instance 2 was kept as it was
    assert!(!d.observe_head(2, meta(Some(1), None)));
    assert_eq!(d.last_data(2), Some(&"two".to_string()));
}

#[test]
fn loop_commands() {
    let mut core: EventCore<String> = EventCore::new(vec![1, 2]);
    let all = core.on_command(EventCmd::ForceRefresh { topics: None });
    assert_eq!(all, Topic::all().to_vec());
    let some = core.on_command(EventCmd::ForceRefresh { topics: Some(vec![Topic::Invite]) });
    assert_eq!(some, vec![Topic::Invite]);
    core.details.store(1, "one".to_string());
    core.details.store(2, "two".to_string());
    let none = core.on_command(EventCmd::UpdateWatchList(vec![2]));
    assert!(none.is_empty());
    assert_eq!(core.watch, vec![2]);
    assert_eq!(core.details.last_data(1), None);
    assert_eq!(core.details.last_data(2), Some(&"two".to_string()));
}

#[test]
fn bad_request_reports_offline() {
    let e = SdkError::Status { status: 400, body: "x".to_string() };
    assert_eq!(error_report("Point", "GET", &e, "ignored"), ErrorReport::Offline("Point 400".to_string()));
    let e = SdkError::Status { status: 500, body: "x".to_string() };
    assert_eq!(
        error_report("ins:3", "HEAD", &e, "boom"),
        ErrorReport::Error("HEAD ins:3 boom".to_string())
    );
    assert_eq!(
        error_report("Invite", "GET", &SdkError::AuthFailed, "auth"),
        ErrorReport::Error("GET Invite auth".to_string())
    );
}

#[test]
fn topic_fetch_calls() {
    assert_eq!(Topic::Announcement.fetch_call(), ApiCall::AnnouncementList);
    assert_eq!(Topic::Point.fetch_call(), ApiCall::PointHistory);
    assert_eq!(Topic::Diamond.fetch_call(), ApiCall::DiamondHistory);
    assert_eq!(Topic::InsList.fetch_call(), ApiCall::InsList);
    assert_eq!(Topic::AuthInfo.fetch_call(), ApiCall::AuthInfo);
    assert_eq!(Topic::Invite.fetch_call(), ApiCall::InviteInfo);
    let req = Topic::Invite.fetch_call().request("https://x");
    assert_eq!(req.url, "https://x/api/invite");
}

#[test]
fn start_needs_token() {
    assert_eq!(EventCore::<u8>::check_start(None), Err(SdkError::MissingToken));
    assert_eq!(EventCore::<u8>::check_start(Some("tok")), Ok(()));
    assert_eq!(EventCore::<u8>::check_start(Some("")), Ok(()));
}
