//! The polling system's decisions: which topics are probed, when a probe
//! reports a change, and when fetched data is new enough to be dispatched.
//! Data already dispatched is remembered per topic (and per watched
//! instance), so the same data is never dispatched twice in a row.

use vstd::prelude::*;
use vstd::string::*;
use crate::api::ApiCall;
use crate::error::SdkError;
use crate::models::{
    AnnouncementItem, AnnouncementListResponse, AuthInfoResponse, DiamondHistoryItem, DiamondHistoryResponse,
    InsListResponse, Instance, InviteResponse, PointHistoryItem, PointHistoryResponse,
};
use crate::text::{decimal_i64, spec_decimal};
use vstd::slice::slice_to_vec;
use crate::transport::ResourceMeta;

verus! {

/// How often each topic is polled, in seconds.
#[derive(Debug, Clone)]
pub struct EventIntervals {
    pub heartbeat_secs: u64,
    pub announcement_secs: u64,
    pub point_secs: u64,
    pub diamond_secs: u64,
    pub ins_list_secs: u64,
    pub auth_info_secs: u64,
    pub invite_secs: u64,
}

impl Default for EventIntervals {
    fn default() -> (r: Self)
        ensures
            r.heartbeat_secs == 30,
            r.announcement_secs == 60,
            r.point_secs == 120,
            r.diamond_secs == 120,
            r.ins_list_secs == 60,
            r.auth_info_secs == 60,
            r.invite_secs == 300,
    {
        EventIntervals {
            heartbeat_secs: 30,
            announcement_secs: 60,
            point_secs: 120,
            diamond_secs: 120,
            ins_list_secs: 60,
            auth_info_secs: 60,
            invite_secs: 300,
        }
    }
}

/// The two probe rates: the fast `HEAD` probe of the critical topics and
/// the slow safety probe that fetches everything.
#[derive(Debug, Clone)]
pub struct PollingConfig {
    pub fast_secs: u64,
    pub safety_secs: u64,
}

impl Default for PollingConfig {
    fn default() -> (r: Self)
        ensures
            r.fast_secs == 1,
            r.safety_secs == 60,
    {
        PollingConfig { fast_secs: 1, safety_secs: 60 }
    }
}

/// A resource the polling system watches.
#[derive(Debug, Clone, Copy, PartialEq, Eq, Hash, Structural)]
pub enum Topic {
    Announcement,
    Point,
    Diamond,
    InsList,
    AuthInfo,
    Invite,
}

/// Every topic, in probing order.
pub open spec fn all_topics() -> Seq<Topic> {
    seq![Topic::Announcement, Topic::Point, Topic::Diamond, Topic::InsList, Topic::AuthInfo, Topic::Invite]
}

/// The topics the fast probe watches.
pub open spec fn critical_topics() -> Seq<Topic> {
    seq![Topic::Announcement, Topic::Point, Topic::InsList]
}

impl Topic {
    /// Every topic.
    pub fn all() -> (r: &'static [Topic])
        ensures
            r@ == all_topics(),
    {
        let r: &'static [Topic] = &[
            Topic::Announcement,
            Topic::Point,
            Topic::Diamond,
            Topic::InsList,
            Topic::AuthInfo,
            Topic::Invite,
        ];
        assert(r@ =~= all_topics());
        r
    }

    /// The topics whose changes are probed every fast tick.
    pub fn critical() -> (r: &'static [Topic])
        ensures
            r@ == critical_topics(),
    {
        let r: &'static [Topic] = &[Topic::Announcement, Topic::Point, Topic::InsList];
        assert(r@ =~= critical_topics());
        r
    }
}

/// The fast probe watches only topics the system knows, and no topic is
/// listed twice.
pub proof fn critical_topics_are_topics()
    ensures
        all_topics().no_duplicates(),
        critical_topics().no_duplicates(),
        forall|i: int| 0 <= i < critical_topics().len() ==> all_topics().contains(#[trigger] critical_topics()[i]),
{
    let a = all_topics();
    let c = critical_topics();
    assert(a[0] == Topic::Announcement && a[1] == Topic::Point && a[3] == Topic::InsList);
    assert forall|i: int| 0 <= i < c.len() implies a.contains(#[trigger] c[i]) by {
        if i == 0 {
            assert(a[0] == c[i]);
        } else if i == 1 {
            assert(a[1] == c[i]);
        } else {
            assert(a[3] == c[i]);
        }
    }
}

impl Topic {
    /// The resource the topic's `HEAD` probe asks for.
    pub open spec fn spec_head_path(self) -> Seq<char> {
        match self {
            Topic::Announcement => "/api/announcement"@,
            Topic::Point => "/api/pointhistory"@,
            Topic::Diamond => "/api/diamondhistory"@,
            Topic::InsList => "/api/ins/list"@,
            Topic::AuthInfo => "/api/auth/info"@,
            Topic::Invite => "/api/invite"@,
        }
    }

    /// The name reports use for the topic.
    pub open spec fn spec_label(self) -> Seq<char> {
        match self {
            Topic::Announcement => "Announcement"@,
            Topic::Point => "Point"@,
            Topic::Diamond => "Diamond"@,
            Topic::InsList => "InsList"@,
            Topic::AuthInfo => "AuthInfo"@,
            Topic::Invite => "Invite"@,
        }
    }

    /// The API call that fetches the topic's data.
    pub open spec fn spec_fetch_call(self) -> ApiCall {
        match self {
            Topic::Announcement => ApiCall::AnnouncementList,
            Topic::Point => ApiCall::PointHistory,
            Topic::Diamond => ApiCall::DiamondHistory,
            Topic::InsList => ApiCall::InsList,
            Topic::AuthInfo => ApiCall::AuthInfo,
            Topic::Invite => ApiCall::InviteInfo,
        }
    }

    /// The API call that fetches the topic's data.
    pub fn fetch_call(self) -> (r: ApiCall)
        ensures
            r == self.spec_fetch_call(),
    {
        match self {
            Topic::Announcement => ApiCall::AnnouncementList,
            Topic::Point => ApiCall::PointHistory,
            Topic::Diamond => ApiCall::DiamondHistory,
            Topic::InsList => ApiCall::InsList,
            Topic::AuthInfo => ApiCall::AuthInfo,
            Topic::Invite => ApiCall::InviteInfo,
        }
    }

    /// The resource the topic's `HEAD` probe asks for.
    pub fn head_path(self) -> (p: &'static str)
        ensures
            p@ == self.spec_head_path(),
    {
        match self {
            Topic::Announcement => "/api/announcement",
            Topic::Point => "/api/pointhistory",
            Topic::Diamond => "/api/diamondhistory",
            Topic::InsList => "/api/ins/list",
            Topic::AuthInfo => "/api/auth/info",
            Topic::Invite => "/api/invite",
        }
    }

    /// The name reports use for the topic.
    pub fn label(self) -> (l: &'static str)
        ensures
            l@ == self.spec_label(),
    {
        match self {
            Topic::Announcement => "Announcement",
            Topic::Point => "Point",
            Topic::Diamond => "Diamond",
            Topic::InsList => "InsList",
            Topic::AuthInfo => "AuthInfo",
            Topic::Invite => "Invite",
        }
    }
}

/// Each topic is probed and fetched at the same resource: its data comes
/// from a `GET` without a body on the path its `HEAD` probe asks for, which
/// is the topic's own endpoint.
pub proof fn topic_probe_matches_fetch(t: Topic)
    ensures
        t.spec_fetch_call().spec_path() == t.spec_head_path(),
        t.spec_fetch_call().spec_method() == crate::api::Method::Get,
        t.spec_fetch_call().spec_body() is None,
        t.spec_fetch_call().spec_authorized(),
        t.spec_fetch_call().spec_checks_reply(),
        t == Topic::Announcement ==> t.spec_head_path() == "/api/announcement"@ && t.spec_label() == "Announcement"@,
        t == Topic::Point ==> t.spec_head_path() == "/api/pointhistory"@ && t.spec_label() == "Point"@,
        t == Topic::Diamond ==> t.spec_head_path() == "/api/diamondhistory"@ && t.spec_label() == "Diamond"@,
        t == Topic::InsList ==> t.spec_head_path() == "/api/ins/list"@ && t.spec_label() == "InsList"@,
        t == Topic::AuthInfo ==> t.spec_head_path() == "/api/auth/info"@ && t.spec_label() == "AuthInfo"@,
        t == Topic::Invite ==> t.spec_head_path() == "/api/invite"@ && t.spec_label() == "Invite"@,
{
}

/// Every topic is polled, each once; the fast probe watches exactly the
/// announcements, the point history and the instance list.
pub proof fn topic_lists(t: Topic)
    ensures
        all_topics().contains(t),
        all_topics().len() == 6,
        critical_topics().contains(t) <==> (t == Topic::Announcement || t == Topic::Point || t == Topic::InsList),
{
    let a = all_topics();
    match t {
        Topic::Announcement => assert(a[0] == t),
        Topic::Point => assert(a[1] == t),
        Topic::Diamond => assert(a[2] == t),
        Topic::InsList => assert(a[3] == t),
        Topic::AuthInfo => assert(a[4] == t),
        Topic::Invite => assert(a[5] == t),
    }
    let c = critical_topics();
    if t == Topic::Announcement {
        assert(c[0] == t);
    } else if t == Topic::Point {
        assert(c[1] == t);
    } else if t == Topic::InsList {
        assert(c[2] == t);
    }
}

/// The `HEAD` path of a watched instance's details.
pub open spec fn spec_detail_path(id: i64) -> Seq<char> {
    "/api/ins/"@ + spec_decimal(id as int) + "/detail"@
}

/// The `HEAD` path of a watched instance's details.
pub fn detail_path(id: i64) -> (p: String)
    ensures
        p@ == spec_detail_path(id),
{
    let mut p = String::from_str("/api/ins/");
    p.append(decimal_i64(id).as_str());
    p.append("/detail");
    p
}

/// A watched instance is probed where its details are fetched:
/// `/api/ins/<id>/detail`, with a `GET` that carries no body.
pub proof fn detail_probe_matches_fetch(id: i64)
    ensures
        spec_detail_path(id) == (ApiCall::InsDetail { id }).spec_path(),
        spec_detail_path(id) == "/api/ins/"@ + spec_decimal(id as int) + "/detail"@,
        (ApiCall::InsDetail { id }).spec_method() == crate::api::Method::Get,
        (ApiCall::InsDetail { id }).spec_body() is None,
{
}

/// The name reports use for a watched instance.
pub open spec fn spec_detail_label(id: i64) -> Seq<char> {
    "ins:"@ + spec_decimal(id as int)
}

/// The name reports use for a watched instance.
pub fn detail_label(id: i64) -> (l: String)
    ensures
        l@ == spec_detail_label(id),
{
    let mut l = String::from_str("ins:");
    l.append(decimal_i64(id).as_str());
    l
}

/// A command sent to a running polling loop.
#[derive(Debug)]
pub enum EventCmd {
    /// Fetch the given topics now (every topic when `None`).
    ForceRefresh { topics: Option<Vec<Topic>> },
    /// Replace the list of instances whose details are watched.
    UpdateWatchList(Vec<i64>),
}

/// The last data dispatched for a topic.
#[derive(Debug, Clone)]
pub enum CachedData {
    Announcement(AnnouncementListResponse),
    Point(PointHistoryResponse),
    Diamond(DiamondHistoryResponse),
    InsList(InsListResponse),
    AuthInfo(AuthInfoResponse),
    Invite(InviteResponse),
}

impl CachedData {
    /// The topic the data belongs to.
    pub open spec fn spec_topic(self) -> Topic {
        match self {
            CachedData::Announcement(_) => Topic::Announcement,
            CachedData::Point(_) => Topic::Point,
            CachedData::Diamond(_) => Topic::Diamond,
            CachedData::InsList(_) => Topic::InsList,
            CachedData::AuthInfo(_) => Topic::AuthInfo,
            CachedData::Invite(_) => Topic::Invite,
        }
    }

    /// The topic the data belongs to.
    pub fn topic(&self) -> (t: Topic)
        ensures
            t == self.spec_topic(),
    {
        match self {
            CachedData::Announcement(_) => Topic::Announcement,
            CachedData::Point(_) => Topic::Point,
            CachedData::Diamond(_) => Topic::Diamond,
            CachedData::InsList(_) => Topic::InsList,
            CachedData::AuthInfo(_) => Topic::AuthInfo,
            CachedData::Invite(_) => Topic::Invite,
        }
    }
}

// ----------------------------------------------------- change detection

/// Id of the first announcement, if any.
pub open spec fn first_announcement(l: Seq<AnnouncementItem>) -> Option<i64> {
    if l.len() == 0 {
        None
    } else {
        Some(l[0].id)
    }
}

/// Id of the last announcement, if any.
pub open spec fn last_announcement(l: Seq<AnnouncementItem>) -> Option<i64> {
    if l.len() == 0 {
        None
    } else {
        Some(l[l.len() - 1].id)
    }
}

/// Id of the newest point change, if any.
pub open spec fn first_point(l: Seq<PointHistoryItem>) -> Option<i64> {
    if l.len() == 0 {
        None
    } else {
        Some(l[0].id)
    }
}

/// Id of the newest diamond change, if any.
pub open spec fn first_diamond(l: Seq<DiamondHistoryItem>) -> Option<i64> {
    if l.len() == 0 {
        None
    } else {
        Some(l[0].id)
    }
}

/// The (id, state) of every instance, in order.
pub open spec fn instance_keys(l: Seq<Instance>) -> Seq<(i64, i32)> {
    l.map_values(|i: Instance| (i.id, i.state))
}

/// Whether `new` differs from the last dispatched data in what the polling
/// system watches: list lengths and the ids at the list ends, the (id,
/// state) of every instance, the user's id and balances, the invite code
/// and registration count. Data of a topic with nothing dispatched yet
/// (or a cache of another topic) always counts as changed.
pub open spec fn spec_changed(new: CachedData, last: Option<CachedData>) -> bool {
    match (new, last) {
        (CachedData::Announcement(n), Some(CachedData::Announcement(o))) => {
            n.list@.len() != o.list@.len() || first_announcement(n.list@) != first_announcement(o.list@)
                || last_announcement(n.list@) != last_announcement(o.list@)
        },
        (CachedData::Point(n), Some(CachedData::Point(o))) => {
            n.list@.len() != o.list@.len() || first_point(n.list@) != first_point(o.list@)
        },
        (CachedData::Diamond(n), Some(CachedData::Diamond(o))) => {
            n.list@.len() != o.list@.len() || first_diamond(n.list@) != first_diamond(o.list@)
        },
        (CachedData::InsList(n), Some(CachedData::InsList(o))) => {
            n.list@.len() != o.list@.len() || instance_keys(n.list@) != instance_keys(o.list@)
        },
        (CachedData::AuthInfo(n), Some(CachedData::AuthInfo(o))) => {
            n.info.id != o.info.id || n.info.point != o.info.point || n.info.diamond != o.info.diamond
        },
        (CachedData::Invite(n), Some(CachedData::Invite(o))) => {
            n.data.invite_code != o.data.invite_code || n.data.register_times != o.data.register_times
        },
        _ => true,
    }
}

/// Whether an announcement list differs from the last one dispatched.
pub fn is_announcement_changed(new: &AnnouncementListResponse, last: &Option<CachedData>) -> (b: bool)
    ensures
        b == spec_changed(CachedData::Announcement(*new), *last),
{
    match last {
        Some(CachedData::Announcement(old)) => {
            let n = new.list.len();
            if n != old.list.len() {
                return true;
            }
            if n == 0 {
                return false;
            }
            new.list[0].id != old.list[0].id || new.list[n - 1].id != old.list[n - 1].id
        },
        _ => true,
    }
}

/// Whether a point history differs from the last one dispatched.
pub fn is_point_history_changed(new: &PointHistoryResponse, last: &Option<CachedData>) -> (b: bool)
    ensures
        b == spec_changed(CachedData::Point(*new), *last),
{
    match last {
        Some(CachedData::Point(old)) => {
            let n = new.list.len();
            if n != old.list.len() {
                return true;
            }
            n != 0 && new.list[0].id != old.list[0].id
        },
        _ => true,
    }
}

/// Whether a diamond history differs from the last one dispatched.
pub fn is_diamond_history_changed(new: &DiamondHistoryResponse, last: &Option<CachedData>) -> (b: bool)
    ensures
        b == spec_changed(CachedData::Diamond(*new), *last),
{
    match last {
        Some(CachedData::Diamond(old)) => {
            let n = new.list.len();
            if n != old.list.len() {
                return true;
            }
            n != 0 && new.list[0].id != old.list[0].id
        },
        _ => true,
    }
}

/// Whether an instance list differs from the last one dispatched.
pub fn is_ins_list_changed(new: &InsListResponse, last: &Option<CachedData>) -> (b: bool)
    ensures
        b == spec_changed(CachedData::InsList(*new), *last),
{
    match last {
        Some(CachedData::InsList(old)) => {
            let n = new.list.len();
            if n != old.list.len() {
                return true;
            }
            let mut i: usize = 0;
            while i < n
                invariant
                    n == new.list@.len() == old.list@.len(),
                    *last == Some(CachedData::InsList(*old)),
                    i <= n,
                    forall|j: int|
                        0 <= j < i ==> new.list@[j].id == old.list@[j].id && new.list@[j].state
                            == old.list@[j].state,
                decreases n - i,
            {
                if new.list[i].id != old.list[i].id || new.list[i].state != old.list[i].state {
                    assert(instance_keys(new.list@)[i as int] != instance_keys(old.list@)[i as int]);
                    return true;
                }
                i = i + 1;
            }
            assert(instance_keys(new.list@) =~= instance_keys(old.list@));
            false
        },
        _ => true,
    }
}

/// Whether the user information differs from the last one dispatched.
pub fn is_auth_info_changed(new: &AuthInfoResponse, last: &Option<CachedData>) -> (b: bool)
    ensures
        b == spec_changed(CachedData::AuthInfo(*new), *last),
{
    match last {
        Some(CachedData::AuthInfo(old)) => {
            new.info.id != old.info.id || new.info.point != old.info.point || new.info.diamond != old.info.diamond
        },
        _ => true,
    }
}

/// Whether the invitation statistics differ from the last ones dispatched.
pub fn is_invite_changed(new: &InviteResponse, last: &Option<CachedData>) -> (b: bool)
    ensures
        b == spec_changed(CachedData::Invite(*new), *last),
{
    match last {
        Some(CachedData::Invite(old)) => {
            new.data.invite_code != old.data.invite_code || new.data.register_times != old.data.register_times
        },
        _ => true,
    }
}

/// Whether `new` differs from the last dispatched data of its topic.
pub fn is_changed(new: &CachedData, last: &Option<CachedData>) -> (b: bool)
    ensures
        b == spec_changed(*new, *last),
{
    match new {
        CachedData::Announcement(v) => is_announcement_changed(v, last),
        CachedData::Point(v) => is_point_history_changed(v, last),
        CachedData::Diamond(v) => is_diamond_history_changed(v, last),
        CachedData::InsList(v) => is_ins_list_changed(v, last),
        CachedData::AuthInfo(v) => is_auth_info_changed(v, last),
        CachedData::Invite(v) => is_invite_changed(v, last),
    }
}

/// Dispatching the same data twice: the second time is no change.
pub proof fn same_data_is_unchanged(d: CachedData)
    ensures
        !spec_changed(d, Some(d)),
{
}

/// The first data of a topic is always dispatched.
pub proof fn first_data_is_changed(d: CachedData)
    ensures
        spec_changed(d, None),
{
}

/// Invitation statistics count as changed exactly when the invite code or
/// the number of registrations differs from the last ones dispatched; the
/// other counters are not watched.
pub proof fn invite_change_law(n: InviteResponse, o: InviteResponse)
    ensures
        n.data.register_times != o.data.register_times ==> spec_changed(
            CachedData::Invite(n),
            Some(CachedData::Invite(o)),
        ),
        n.data.invite_code != o.data.invite_code ==> spec_changed(
            CachedData::Invite(n),
            Some(CachedData::Invite(o)),
        ),
        (n.data.register_times == o.data.register_times && n.data.invite_code == o.data.invite_code) ==> !spec_changed(
            CachedData::Invite(n),
            Some(CachedData::Invite(o)),
        ),
{
}

/// User information counts as changed exactly when the user's id, points
/// or diamonds differ from the last ones dispatched.
pub proof fn auth_info_change_law(n: AuthInfoResponse, o: AuthInfoResponse)
    ensures
        n.info.id != o.info.id ==> spec_changed(CachedData::AuthInfo(n), Some(CachedData::AuthInfo(o))),
        n.info.point != o.info.point ==> spec_changed(CachedData::AuthInfo(n), Some(CachedData::AuthInfo(o))),
        n.info.diamond != o.info.diamond ==> spec_changed(CachedData::AuthInfo(n), Some(CachedData::AuthInfo(o))),
        (n.info.id == o.info.id && n.info.point == o.info.point && n.info.diamond == o.info.diamond) ==> !spec_changed(
            CachedData::AuthInfo(n),
            Some(CachedData::AuthInfo(o)),
        ),
{
}

/// An announcement list counts as changed exactly when its length, its
/// first id or its last id differs from the last one dispatched.
pub proof fn announcement_change_law(n: AnnouncementListResponse, o: AnnouncementListResponse)
    ensures
        n.list@.len() != o.list@.len() ==> spec_changed(
            CachedData::Announcement(n),
            Some(CachedData::Announcement(o)),
        ),
        (n.list@.len() == o.list@.len() && n.list@.len() > 0) ==> (spec_changed(
            CachedData::Announcement(n),
            Some(CachedData::Announcement(o)),
        ) <==> (n.list@[0].id != o.list@[0].id || n.list@[n.list@.len() - 1].id != o.list@[n.list@.len() - 1].id)),
        (n.list@.len() == 0 && o.list@.len() == 0) ==> !spec_changed(
            CachedData::Announcement(n),
            Some(CachedData::Announcement(o)),
        ),
{
}

/// A point history counts as changed exactly when its length or its newest
/// entry's id differs from the last one dispatched.
pub proof fn point_change_law(n: PointHistoryResponse, o: PointHistoryResponse)
    ensures
        n.list@.len() != o.list@.len() ==> spec_changed(CachedData::Point(n), Some(CachedData::Point(o))),
        (n.list@.len() == o.list@.len() && n.list@.len() > 0) ==> (spec_changed(
            CachedData::Point(n),
            Some(CachedData::Point(o)),
        ) <==> n.list@[0].id != o.list@[0].id),
        (n.list@.len() == 0 && o.list@.len() == 0) ==> !spec_changed(CachedData::Point(n), Some(CachedData::Point(o))),
{
}

/// A diamond history counts as changed exactly when its length or its
/// newest entry's id differs from the last one dispatched.
pub proof fn diamond_change_law(n: DiamondHistoryResponse, o: DiamondHistoryResponse)
    ensures
        n.list@.len() != o.list@.len() ==> spec_changed(CachedData::Diamond(n), Some(CachedData::Diamond(o))),
        (n.list@.len() == o.list@.len() && n.list@.len() > 0) ==> (spec_changed(
            CachedData::Diamond(n),
            Some(CachedData::Diamond(o)),
        ) <==> n.list@[0].id != o.list@[0].id),
        (n.list@.len() == 0 && o.list@.len() == 0) ==> !spec_changed(
            CachedData::Diamond(n),
            Some(CachedData::Diamond(o)),
        ),
{
}

/// An instance list counts as changed exactly when its length differs, or
/// some instance at the same position has another id or another state.
pub proof fn ins_list_change_law(n: InsListResponse, o: InsListResponse)
    ensures
        spec_changed(CachedData::InsList(n), Some(CachedData::InsList(o))) <==> (n.list@.len() != o.list@.len()
            || exists|i: int|
            0 <= i < n.list@.len() && (#[trigger] n.list@[i].id != o.list@[i].id || n.list@[i].state
                != o.list@[i].state)),
{
    let a = instance_keys(n.list@);
    let b = instance_keys(o.list@);
    if n.list@.len() == o.list@.len() {
        if a != b {
            assert(!(a =~= b));
            let i = choose|i: int| 0 <= i < a.len() && a[i] != b[i];
            assert(n.list@[i].id != o.list@[i].id || n.list@[i].state != o.list@[i].state);
        }
        if exists|i: int|
            0 <= i < n.list@.len() && (#[trigger] n.list@[i].id != o.list@[i].id || n.list@[i].state
                != o.list@[i].state) {
            let i = choose|i: int|
                0 <= i < n.list@.len() && (#[trigger] n.list@[i].id != o.list@[i].id || n.list@[i].state
                    != o.list@[i].state);
            assert(a[i] != b[i]);
        }
    }
}

/// Data of one topic never counts as unchanged against the cache of
/// another topic.
pub proof fn other_topic_is_changed(n: CachedData, o: CachedData)
    requires
        n.spec_topic() != o.spec_topic(),
    ensures
        spec_changed(n, Some(o)),
{
}

// ------------------------------------------------------ monitor state

/// The view of an optional entity tag.
pub open spec fn etag_view(e: Option<String>) -> Option<Seq<char>> {
    match e {
        Some(t) => Some(t@),
        None => None,
    }
}

/// What the polling system remembers of one resource: the length and
/// entity tag of its last probe, and the last data dispatched.
#[derive(Debug, Clone)]
pub struct MonitorState<D> {
    pub last_len: Option<u64>,
    pub last_etag: Option<String>,
    pub last_data: Option<D>,
}

impl<D> MonitorState<D> {
    /// A resource not probed nor fetched yet.
    pub open spec fn spec_empty() -> Self {
        MonitorState { last_len: None, last_etag: None, last_data: None }
    }

    /// Whether a probe's result announces a change: a length or an entity
    /// tag that the probe reported and that differs from the last one.
    pub open spec fn meta_changed(self, meta: ResourceMeta) -> bool {
        (meta.len is Some && meta.len != self.last_len) || (meta.etag is Some && etag_view(meta.etag)
            != etag_view(self.last_etag))
    }

    /// The state after a fast probe: the probe's result is remembered only
    /// when it announces a change.
    pub open spec fn after_observe(self, meta: ResourceMeta) -> Self {
        if self.meta_changed(meta) {
            MonitorState { last_len: meta.len, last_etag: meta.etag, last_data: self.last_data }
        } else {
            self
        }
    }

    /// The state after a safety probe: the probe's result is remembered.
    pub open spec fn after_record(self, meta: ResourceMeta) -> Self {
        MonitorState { last_len: meta.len, last_etag: meta.etag, last_data: self.last_data }
    }

    /// The state with `d` as the last dispatched data.
    pub open spec fn with_data(self, d: D) -> Self {
        MonitorState { last_len: self.last_len, last_etag: self.last_etag, last_data: Some(d) }
    }

    /// A resource not probed nor fetched yet.
    pub fn new() -> (s: Self)
        ensures
            s == Self::spec_empty(),
    {
        MonitorState { last_len: None, last_etag: None, last_data: None }
    }

    /// Handles a fast probe's result; returns whether it announces a change
    /// (and the resource must be fetched).
    pub fn observe_head(&mut self, meta: ResourceMeta) -> (changed: bool)
        ensures
            changed == old(self).meta_changed(meta),
            *final(self) == old(self).after_observe(meta),
    {
        let len_changed = match meta.len {
            Some(l) => match self.last_len {
                Some(o) => l != o,
                None => true,
            },
            None => false,
        };
        let etag_changed = match &meta.etag {
            Some(e) => match &self.last_etag {
                Some(o) => !(e.eq(o)),
                None => true,
            },
            None => false,
        };
        if len_changed || etag_changed {
            self.last_len = meta.len;
            self.last_etag = meta.etag;
            true
        } else {
            false
        }
    }

    /// Handles a safety probe's result: it is remembered as it is.
    pub fn record_head(&mut self, meta: ResourceMeta)
        ensures
            *final(self) == old(self).after_record(meta),
    {
        self.last_len = meta.len;
        self.last_etag = meta.etag;
    }

    /// Remembers `d` as the last dispatched data.
    pub fn store(&mut self, d: D)
        ensures
            *final(self) == old(self).with_data(d),
    {
        self.last_data = Some(d);
    }
}

impl MonitorState<CachedData> {
    /// The state after fetched data was handled: the data is remembered
    /// when it is dispatched, that is when it differs from the last one.
    pub open spec fn after_accept(self, d: CachedData) -> Self {
        if spec_changed(d, self.last_data) {
            self.with_data(d)
        } else {
            self
        }
    }

    /// Handles fetched data; returns whether it is to be dispatched.
    pub fn accept(&mut self, d: CachedData) -> (changed: bool)
        ensures
            changed == spec_changed(d, old(self).last_data),
            *final(self) == old(self).after_accept(d),
    {
        if is_changed(&d, &self.last_data) {
            self.last_data = Some(d);
            true
        } else {
            false
        }
    }
}

/// A probe that announced a change is not announced again by the same
/// probe result: the fast probe fetches a resource once per change.
pub proof fn observe_is_idempotent<D>(s: MonitorState<D>, meta: ResourceMeta)
    ensures
        !s.after_observe(meta).meta_changed(meta),
{
}

/// A probe that reports neither length nor entity tag never announces a
/// change.
pub proof fn blank_probe_is_unchanged<D>(s: MonitorState<D>, meta: ResourceMeta)
    requires
        meta.len is None,
        meta.etag is None,
    ensures
        !s.meta_changed(meta),
{
}

/// After a safety probe, a fast probe with the same result announces no
/// change.
pub proof fn record_then_observe_is_unchanged<D>(s: MonitorState<D>, meta: ResourceMeta)
    ensures
        !s.after_record(meta).meta_changed(meta),
{
}

/// Local de-duplication: data handled once is not dispatched again when
/// it is fetched a second time.
pub proof fn accept_is_idempotent(s: MonitorState<CachedData>, d: CachedData)
    ensures
        !spec_changed(d, s.after_accept(d).last_data),
{
}

// ------------------------------------------------------- topic states

/// What the polling system remembers of each topic.
#[derive(Debug, Clone)]
pub struct TopicStates {
    pub announcement: MonitorState<CachedData>,
    pub point: MonitorState<CachedData>,
    pub diamond: MonitorState<CachedData>,
    pub ins_list: MonitorState<CachedData>,
    pub auth_info: MonitorState<CachedData>,
    pub invite: MonitorState<CachedData>,
}

impl TopicStates {
    /// The state of topic `t`.
    pub open spec fn slot(self, t: Topic) -> MonitorState<CachedData> {
        match t {
            Topic::Announcement => self.announcement,
            Topic::Point => self.point,
            Topic::Diamond => self.diamond,
            Topic::InsList => self.ins_list,
            Topic::AuthInfo => self.auth_info,
            Topic::Invite => self.invite,
        }
    }

    /// These states with topic `t`'s replaced by `st`.
    pub open spec fn with_slot(self, t: Topic, st: MonitorState<CachedData>) -> Self {
        match t {
            Topic::Announcement => TopicStates { announcement: st, ..self },
            Topic::Point => TopicStates { point: st, ..self },
            Topic::Diamond => TopicStates { diamond: st, ..self },
            Topic::InsList => TopicStates { ins_list: st, ..self },
            Topic::AuthInfo => TopicStates { auth_info: st, ..self },
            Topic::Invite => TopicStates { invite: st, ..self },
        }
    }

    /// No topic probed nor fetched yet.
    pub fn new() -> (s: Self)
        ensures
            forall|t: Topic| #[trigger] s.slot(t) == MonitorState::<CachedData>::spec_empty(),
    {
        TopicStates {
            announcement: MonitorState::new(),
            point: MonitorState::new(),
            diamond: MonitorState::new(),
            ins_list: MonitorState::new(),
            auth_info: MonitorState::new(),
            invite: MonitorState::new(),
        }
    }

    /// Handles a fast probe's result for topic `t`; returns whether the
    /// topic must be fetched.
    pub fn observe_head(&mut self, t: Topic, meta: ResourceMeta) -> (changed: bool)
        ensures
            changed == old(self).slot(t).meta_changed(meta),
            *final(self) == old(self).with_slot(t, old(self).slot(t).after_observe(meta)),
    {
        match t {
            Topic::Announcement => self.announcement.observe_head(meta),
            Topic::Point => self.point.observe_head(meta),
            Topic::Diamond => self.diamond.observe_head(meta),
            Topic::InsList => self.ins_list.observe_head(meta),
            Topic::AuthInfo => self.auth_info.observe_head(meta),
            Topic::Invite => self.invite.observe_head(meta),
        }
    }

    /// Handles a safety probe's result for topic `t`.
    pub fn record_head(&mut self, t: Topic, meta: ResourceMeta)
        ensures
            *final(self) == old(self).with_slot(t, old(self).slot(t).after_record(meta)),
    {
        match t {
            Topic::Announcement => self.announcement.record_head(meta),
            Topic::Point => self.point.record_head(meta),
            Topic::Diamond => self.diamond.record_head(meta),
            Topic::InsList => self.ins_list.record_head(meta),
            Topic::AuthInfo => self.auth_info.record_head(meta),
            Topic::Invite => self.invite.record_head(meta),
        }
    }

    /// Handles fetched data of its topic; returns whether it is to be
    /// dispatched.
    pub fn accept(&mut self, d: CachedData) -> (changed: bool)
        ensures
            changed == spec_changed(d, old(self).slot(d.spec_topic()).last_data),
            *final(self) == old(self).with_slot(d.spec_topic(), old(self).slot(d.spec_topic()).after_accept(d)),
    {
        match d.topic() {
            Topic::Announcement => self.announcement.accept(d),
            Topic::Point => self.point.accept(d),
            Topic::Diamond => self.diamond.accept(d),
            Topic::InsList => self.ins_list.accept(d),
            Topic::AuthInfo => self.auth_info.accept(d),
            Topic::Invite => self.invite.accept(d),
        }
    }
}

/// Handling one topic's probe or data leaves every other topic's state as
/// it was.
pub proof fn other_topics_unchanged(s: TopicStates, t: Topic, st: MonitorState<CachedData>, u: Topic)
    requires
        u != t,
    ensures
        s.with_slot(t, st).slot(u) == s.slot(u),
        s.with_slot(t, st).slot(t) == st,
{
}

// ------------------------------------------------------ detail states

/// Whether `id` is a key of `s`.
pub open spec fn has_key<D>(s: Seq<(i64, MonitorState<D>)>, id: i64) -> bool {
    exists|i: int| 0 <= i < s.len() && (#[trigger] s[i]).0 == id
}

/// No key occurs twice in `s`.
pub open spec fn keys_unique<D>(s: Seq<(i64, MonitorState<D>)>) -> bool {
    forall|i: int, j: int| 0 <= i < s.len() && 0 <= j < s.len() && i != j ==> (#[trigger] s[i]).0 != (#[trigger] s[j]).0
}

/// The position of key `id` in `s`.
pub open spec fn key_index<D>(s: Seq<(i64, MonitorState<D>)>, id: i64) -> int {
    choose|i: int| 0 <= i < s.len() && (#[trigger] s[i]).0 == id
}

/// The map an association list stands for.
pub open spec fn assoc_map<D>(s: Seq<(i64, MonitorState<D>)>) -> Map<i64, MonitorState<D>> {
    Map::new(|id: i64| has_key(s, id), |id: i64| s[key_index(s, id)].1)
}

proof fn lemma_key_index<D>(s: Seq<(i64, MonitorState<D>)>, i: int)
    requires
        keys_unique(s),
        0 <= i < s.len(),
    ensures
        has_key(s, s[i].0),
        key_index(s, s[i].0) == i,
{
    assert(has_key(s, s[i].0));
    let j = key_index(s, s[i].0);
    assert(s[j].0 == s[i].0);
}

proof fn lemma_assoc_update<D>(s: Seq<(i64, MonitorState<D>)>, i: int, v: MonitorState<D>)
    requires
        keys_unique(s),
        0 <= i < s.len(),
    ensures
        keys_unique(s.update(i, (s[i].0, v))),
        assoc_map(s.update(i, (s[i].0, v))) == assoc_map(s).insert(s[i].0, v),
{
    let t = s.update(i, (s[i].0, v));
    assert forall|a: int, b: int| 0 <= a < t.len() && 0 <= b < t.len() && a != b implies (#[trigger] t[a]).0
        != (#[trigger] t[b]).0 by {
        assert(t[a].0 == s[a].0);
        assert(t[b].0 == s[b].0);
    }
    assert forall|id: i64| has_key(t, id) <==> has_key(s, id) by {
        if has_key(t, id) {
            let k = choose|k: int| 0 <= k < t.len() && (#[trigger] t[k]).0 == id;
            assert(s[k].0 == id);
        }
        if has_key(s, id) {
            let k = choose|k: int| 0 <= k < s.len() && (#[trigger] s[k]).0 == id;
            assert(t[k].0 == id);
        }
    }
    assert forall|id: i64| #[trigger] has_key(t, id) implies assoc_map(t)[id] == assoc_map(s).insert(
        s[i].0,
        v,
    )[id] by {
        let k = choose|k: int| 0 <= k < t.len() && (#[trigger] t[k]).0 == id;
        lemma_key_index(t, k);
        assert(s[k].0 == id);
        lemma_key_index(s, k);
    }
    assert(has_key(s, s[i].0)) by {
        assert(s[i].0 == s[i].0);
    }
    assert(assoc_map(t) =~= assoc_map(s).insert(s[i].0, v));
}

proof fn lemma_assoc_push<D>(s: Seq<(i64, MonitorState<D>)>, id: i64, v: MonitorState<D>)
    requires
        keys_unique(s),
        !has_key(s, id),
    ensures
        keys_unique(s.push((id, v))),
        assoc_map(s.push((id, v))) == assoc_map(s).insert(id, v),
{
    let t = s.push((id, v));
    assert forall|a: int, b: int| 0 <= a < t.len() && 0 <= b < t.len() && a != b implies (#[trigger] t[a]).0
        != (#[trigger] t[b]).0 by {
        if a < s.len() && b < s.len() {
            assert(t[a] == s[a] && t[b] == s[b]);
        } else if a < s.len() {
            assert(t[a] == s[a]);
        } else {
            assert(t[b] == s[b]);
        }
    }
    assert forall|k: i64| has_key(t, k) <==> (has_key(s, k) || k == id) by {
        if has_key(t, k) {
            let j = choose|j: int| 0 <= j < t.len() && (#[trigger] t[j]).0 == k;
            if j < s.len() {
                assert(s[j] == t[j]);
            }
        }
        if has_key(s, k) {
            let j = choose|j: int| 0 <= j < s.len() && (#[trigger] s[j]).0 == k;
            assert(t[j] == s[j]);
        }
        if k == id {
            assert(t[s.len() as int].0 == id);
        }
    }
    assert forall|k: i64| #[trigger] has_key(t, k) implies assoc_map(t)[k] == assoc_map(s).insert(id, v)[k] by {
        let j = choose|j: int| 0 <= j < t.len() && (#[trigger] t[j]).0 == k;
        lemma_key_index(t, j);
        if j < s.len() {
            assert(s[j] == t[j]);
            lemma_key_index(s, j);
        }
    }
    assert(assoc_map(t) =~= assoc_map(s).insert(id, v));
}

/// What the polling system remembers of each watched instance's details,
/// keyed by instance id. No id occurs twice.
#[derive(Debug)]
pub struct DetailStates<D> {
    entries: Vec<(i64, MonitorState<D>)>,
}

impl<D> View for DetailStates<D> {
    type V = Map<i64, MonitorState<D>>;

    closed spec fn view(&self) -> Map<i64, MonitorState<D>> {
        assoc_map(self.entries@)
    }
}

impl<D> DetailStates<D> {
    /// The states are well formed: no instance occurs twice.
    pub closed spec fn wf(&self) -> bool {
        keys_unique(self.entries@)
    }

    /// The state of instance `id` (empty when it was never probed).
    pub open spec fn slot(&self, id: i64) -> MonitorState<D> {
        if self@.contains_key(id) {
            self@[id]
        } else {
            MonitorState::<D>::spec_empty()
        }
    }

    /// No instance probed nor fetched yet.
    pub fn new() -> (s: Self)
        ensures
            s.wf(),
            s@ == Map::<i64, MonitorState<D>>::empty(),
    {
        let s = DetailStates { entries: Vec::new() };
        assert(s@ =~= Map::<i64, MonitorState<D>>::empty());
        s
    }

    fn find(&self, id: i64) -> (r: Option<usize>)
        requires
            self.wf(),
        ensures
            r matches Some(i) ==> i < self.entries@.len() && self.entries@[i as int].0 == id,
            r is None ==> !has_key(self.entries@, id),
    {
        let mut i: usize = 0;
        while i < self.entries.len()
            invariant
                i <= self.entries@.len(),
                forall|j: int| 0 <= j < i ==> (#[trigger] self.entries@[j]).0 != id,
            decreases self.entries@.len() - i,
        {
            if self.entries[i].0 == id {
                return Some(i);
            }
            i = i + 1;
        }
        None
    }

    /// Takes out the state of `id` (empty when absent), remembering where
    /// it stood.
    fn take_slot(&mut self, id: i64) -> (r: (Option<usize>, MonitorState<D>))
        requires
            old(self).wf(),
        ensures
            r.1 == old(self).slot(id),
            match r.0 {
                Some(i) => i < old(self).entries@.len() && old(self).entries@[i as int].0 == id
                    && final(self).entries@ == old(self).entries@.remove(i as int),
                None => !has_key(old(self).entries@, id) && final(self).entries@ == old(self).entries@,
            },
    {
        match self.find(id) {
            Some(i) => {
                proof {
                    lemma_key_index(self.entries@, i as int);
                }
                let (_, st) = self.entries.remove(i);
                (Some(i), st)
            },
            None => (None, MonitorState::new()),
        }
    }

    /// Puts back the state of `id` where `take_slot` found it.
    fn put_slot(&mut self, id: i64, at: Option<usize>, st: MonitorState<D>, Ghost(before): Ghost<Seq<(i64, MonitorState<D>)>>)
        requires
            keys_unique(before),
            match at {
                Some(i) => i < before.len() && before[i as int].0 == id && old(self).entries@ == before.remove(i as int),
                None => !has_key(before, id) && old(self).entries@ == before,
            },
        ensures
            final(self).wf(),
            final(self)@ == assoc_map(before).insert(id, st),
    {
        match at {
            Some(i) => {
                self.entries.insert(i, (id, st));
                assert(self.entries@ =~= before.update(i as int, (id, st)));
                proof {
                    lemma_assoc_update(before, i as int, st);
                }
            },
            None => {
                self.entries.push((id, st));
                proof {
                    lemma_assoc_push(before, id, st);
                }
            },
        }
    }

    /// Handles a fast probe's result for instance `id`; returns whether its
    /// details must be fetched.
    pub fn observe_head(&mut self, id: i64, meta: ResourceMeta) -> (changed: bool)
        requires
            old(self).wf(),
        ensures
            final(self).wf(),
            changed == old(self).slot(id).meta_changed(meta),
            final(self)@ == old(self)@.insert(id, old(self).slot(id).after_observe(meta)),
    {
        let ghost before = self.entries@;
        let (at, mut st) = self.take_slot(id);
        let changed = st.observe_head(meta);
        self.put_slot(id, at, st, Ghost(before));
        changed
    }

    /// Handles a safety probe's result for instance `id`.
    pub fn record_head(&mut self, id: i64, meta: ResourceMeta)
        requires
            old(self).wf(),
        ensures
            final(self).wf(),
            final(self)@ == old(self)@.insert(id, old(self).slot(id).after_record(meta)),
    {
        let ghost before = self.entries@;
        let (at, mut st) = self.take_slot(id);
        st.record_head(meta);
        self.put_slot(id, at, st, Ghost(before));
    }

    /// Remembers `d` as the last details dispatched for instance `id`.
    pub fn store(&mut self, id: i64, d: D)
        requires
            old(self).wf(),
        ensures
            final(self).wf(),
            final(self)@ == old(self)@.insert(id, old(self).slot(id).with_data(d)),
    {
        let ghost before = self.entries@;
        let (at, mut st) = self.take_slot(id);
        st.store(d);
        self.put_slot(id, at, st, Ghost(before));
    }

    /// The last details dispatched for instance `id`, if any.
    pub fn last_data(&self, id: i64) -> (r: Option<&D>)
        requires
            self.wf(),
        ensures
            r is Some <==> self.slot(id).last_data is Some,
            r matches Some(d) ==> self.slot(id).last_data == Some(*d),
    {
        match self.find(id) {
            Some(i) => {
                proof {
                    lemma_key_index(self.entries@, i as int);
                }
                match &self.entries[i].1.last_data {
                    Some(d) => Some(d),
                    None => None,
                }
            },
            None => None,
        }
    }

    /// Forgets every instance not in `ids`.
    pub fn retain_watched(&mut self, ids: &Vec<i64>)
        requires
            old(self).wf(),
        ensures
            final(self).wf(),
            final(self)@ == old(self)@.restrict(ids@.to_set()),
    {
        let ghost src = self.entries@;
        let ghost keep = ids@.to_set();
        let mut kept: Vec<(i64, MonitorState<D>)> = Vec::new();
        let mut rest: Vec<(i64, MonitorState<D>)> = Vec::new();
        std::mem::swap(&mut rest, &mut self.entries);
        // walk the entries front to back
        let mut remaining = reverse(rest);
        let ghost mut n: int = 0;
        assert(assoc_map(src.subrange(0, 0)) =~= Map::<i64, MonitorState<D>>::empty());
        assert(kept@ =~= Seq::<(i64, MonitorState<D>)>::empty());
        assert(assoc_map(kept@) =~= assoc_map(src.subrange(0, 0)).restrict(keep));
        while remaining.len() > 0
            invariant
                keys_unique(src),
                0 <= n <= src.len(),
                n + remaining@.len() == src.len(),
                forall|j: int| 0 <= j < remaining@.len() ==> #[trigger] remaining@[j] == src[src.len() - 1 - j],
                keys_unique(kept@),
                keep == ids@.to_set(),
                assoc_map(kept@) == assoc_map(src.subrange(0, n)).restrict(keep),
                forall|k: i64| has_key(kept@, k) ==> has_key(src.subrange(0, n), k),
            decreases remaining@.len(),
        {
            let e = remaining.pop().unwrap();
            let ghost pre = src.subrange(0, n);
            assert(e == src[n]);
            proof {
                assert(src.subrange(0, n + 1) =~= pre.push(src[n]));
                assert(keys_unique(pre));
                assert(!has_key(pre, src[n].0)) by {
                    if has_key(pre, src[n].0) {
                        let j = choose|j: int| 0 <= j < pre.len() && (#[trigger] pre[j]).0 == src[n].0;
                        assert(src[j].0 == src[n].0);
                    }
                }
                lemma_assoc_push(pre, src[n].0, src[n].1);
            }
            if contains_id(ids, e.0) {
                proof {
                    assert(!has_key(kept@, e.0));
                    lemma_assoc_push(kept@, e.0, e.1);
                    assert(assoc_map(kept@.push(e)) =~= assoc_map(src.subrange(0, n + 1)).restrict(keep));
                    assert forall|k: i64| has_key(kept@.push(e), k) implies has_key(src.subrange(0, n + 1), k) by {
                        let j = choose|j: int| 0 <= j < kept@.push(e).len() && (#[trigger] kept@.push(e)[j]).0 == k;
                        if j < kept@.len() {
                            assert(kept@.push(e)[j] == kept@[j]);
                            assert(has_key(kept@, k));
                            let q = choose|q: int| 0 <= q < pre.len() && (#[trigger] pre[q]).0 == k;
                            assert(src.subrange(0, n + 1)[q] == pre[q]);
                        } else {
                            assert(src.subrange(0, n + 1)[n] == src[n]);
                        }
                    }
                }
                kept.push(e);
            } else {
                proof {
                    assert(assoc_map(kept@) =~= assoc_map(src.subrange(0, n + 1)).restrict(keep));
                    assert forall|k: i64| has_key(kept@, k) implies has_key(src.subrange(0, n + 1), k) by {
                        let q = choose|q: int| 0 <= q < pre.len() && (#[trigger] pre[q]).0 == k;
                        assert(src.subrange(0, n + 1)[q] == pre[q]);
                    }
                }
            }
            proof {
                n = n + 1;
            }
        }
        assert(src.subrange(0, n) =~= src);
        self.entries = kept;
    }
}

fn contains_id(ids: &Vec<i64>, id: i64) -> (b: bool)
    ensures
        b == ids@.contains(id),
{
    let mut i: usize = 0;
    while i < ids.len()
        invariant
            i <= ids@.len(),
            forall|j: int| 0 <= j < i ==> ids@[j] != id,
        decreases ids@.len() - i,
    {
        if ids[i] == id {
            assert(ids@[i as int] == id);
            return true;
        }
        i = i + 1;
    }
    false
}

fn reverse<T>(v: Vec<T>) -> (r: Vec<T>)
    ensures
        r@.len() == v@.len(),
        forall|j: int| 0 <= j < v@.len() ==> #[trigger] r@[j] == v@[v@.len() - 1 - j],
{
    let mut v = v;
    let ghost orig = v@;
    let mut r: Vec<T> = Vec::new();
    while v.len() > 0
        invariant
            v@ == orig.subrange(0, v@.len() as int),
            r@.len() + v@.len() == orig.len(),
            forall|j: int| 0 <= j < r@.len() ==> #[trigger] r@[j] == orig[orig.len() - 1 - j],
        decreases v@.len(),
    {
        let x = v.pop().unwrap();
        r.push(x);
    }
    r
}

// ------------------------------------------------------- the loop state

/// Everything a running polling loop remembers: each topic's state, each
/// watched instance's state, and the instances watched.
#[derive(Debug)]
pub struct EventCore<D> {
    pub topics: TopicStates,
    pub details: DetailStates<D>,
    pub watch: Vec<i64>,
}

impl<D> EventCore<D> {
    /// Whether a polling loop may start with the client's `token`: it needs
    /// one, and fails with `MissingToken` without it.
    pub fn check_start(token: Option<&str>) -> (r: Result<(), SdkError>)
        ensures
            r is Err <==> token is None,
            r matches Err(e) ==> e == SdkError::MissingToken,
    {
        match token {
            Some(_) => Ok(()),
            None => Err(SdkError::MissingToken),
        }
    }

    /// A loop that has seen nothing yet and watches `watch`.
    pub fn new(watch: Vec<i64>) -> (c: Self)
        ensures
            c.details.wf(),
            c.details@ == Map::<i64, MonitorState<D>>::empty(),
            forall|t: Topic| #[trigger] c.topics.slot(t) == MonitorState::<CachedData>::spec_empty(),
            c.watch@ == watch@,
    {
        EventCore { topics: TopicStates::new(), details: DetailStates::new(), watch }
    }

    /// Handles a command; returns the topics to fetch now.
    pub fn on_command(&mut self, cmd: EventCmd) -> (refresh: Vec<Topic>)
        requires
            old(self).details.wf(),
        ensures
            final(self).details.wf(),
            final(self).topics == old(self).topics,
            match cmd {
                EventCmd::ForceRefresh { topics } => {
                    &&& refresh@ == (match topics {
                        Some(v) => v@,
                        None => all_topics(),
                    })
                    &&& final(self).details@ == old(self).details@
                    &&& final(self).watch@ == old(self).watch@
                },
                EventCmd::UpdateWatchList(ids) => {
                    &&& refresh@.len() == 0
                    &&& final(self).watch@ == ids@
                    &&& final(self).details@ == old(self).details@.restrict(ids@.to_set())
                },
            },
    {
        match cmd {
            EventCmd::ForceRefresh { topics } => match topics {
                Some(v) => v,
                None => slice_to_vec(Topic::all()),
            },
            EventCmd::UpdateWatchList(ids) => {
                self.details.retain_watched(&ids);
                self.watch = ids;
                Vec::new()
            },
        }
    }
}

/// After the watch list is replaced, only watched instances are
/// remembered, each as it was.
pub proof fn watch_update_forgets_unwatched<D>(
    before: Map<i64, MonitorState<D>>,
    ids: Seq<i64>,
    id: i64,
)
    ensures
        before.restrict(ids.to_set()).contains_key(id) <==> (before.contains_key(id) && ids.contains(id)),
        before.restrict(ids.to_set()).contains_key(id) ==> before.restrict(ids.to_set())[id] == before[id],
{
}

// --------------------------------------------------------- error reports

/// What a failed probe or fetch is reported as.
#[derive(Debug, Clone, PartialEq)]
pub enum ErrorReport {
    /// The API answered 400: the account is offline.
    Offline(String),
    /// Any other failure.
    Error(String),
}

/// Whether `err` is an HTTP 400 answer.
pub open spec fn is_bad_request(err: SdkError) -> bool {
    err matches SdkError::Status { status, .. } && status == 400
}

/// How a failure of operation `op` on resource `ctx` is reported; `err_text`
/// is the error's display text. A 400 answer means the account is
/// offline: `"<ctx> 400"`; anything else is `"<op> <ctx> <err_text>"`.
pub fn error_report(ctx: &str, op: &str, err: &SdkError, err_text: &str) -> (r: ErrorReport)
    ensures
        is_bad_request(*err) ==> (r matches ErrorReport::Offline(m) && m@ == ctx@ + " 400"@),
        !is_bad_request(*err) ==> (r matches ErrorReport::Error(m) && m@ == op@ + " "@ + ctx@ + " "@
            + err_text@),
{
    let bad_request = match err {
        SdkError::Status { status, .. } => *status == 400,
        _ => false,
    };
    if bad_request {
        let mut m = String::from_str(ctx);
        m.append(" 400");
        ErrorReport::Offline(m)
    } else {
        ErrorReport::Error(plain_error_text(ctx, op, err_text))
    }
}

/// The text of a failure report: `"<op> <ctx> <err_text>"`.
pub fn plain_error_text(ctx: &str, op: &str, err_text: &str) -> (m: String)
    ensures
        m@ == op@ + " "@ + ctx@ + " "@ + err_text@,
{
    let mut m = String::from_str(op);
    m.append(" ");
    m.append(ctx);
    m.append(" ");
    m.append(err_text);
    m
}

} // verus!
