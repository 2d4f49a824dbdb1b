//! The instance WebSocket protocol: the control messages the SDK sends,
//! how each message from the server is handled, and the reconnect backoff.

use vstd::prelude::*;
use vstd::arithmetic::power2::{pow2, lemma_pow2_unfold};
use vstd::string::*;
use crate::codec::{json_array_of, json_string_array, strings_view};
use crate::text::{decimal_u64, spec_digits};

verus! {

/// What the WebSocket connection reports to the SDK's user.
#[derive(Debug, Clone, PartialEq)]
pub enum WsEvent {
    AuthSuccess,
    TokenExpiring,
    TokenRefreshing,
    TokenRefreshed,
    TokenRefreshFailed(String),
    Status(String),
    Stats(String),
    ConsoleOutput(String),
    InstallOutput(String),
    Error(String),
    Reconnecting(String),
}

/// A control message the SDK sends over the WebSocket.
#[derive(Debug, Clone, PartialEq)]
pub enum WsCommand {
    /// Authenticate with a connection token.
    Auth { token: String },
    /// Ask for the console log so far.
    SendLogs,
    /// Change the power state (`start`, `stop`, `kill`, ...).
    SetState { state: String },
    /// Type a command into the console.
    SendCommand { command: String },
}

impl WsCommand {
    /// The event name of the message.
    pub open spec fn spec_event(self) -> Seq<char> {
        match self {
            WsCommand::Auth { .. } => "auth"@,
            WsCommand::SendLogs => "send logs"@,
            WsCommand::SetState { .. } => "set state"@,
            WsCommand::SendCommand { .. } => "send command"@,
        }
    }

    /// The arguments of the message.
    pub open spec fn spec_args(self) -> Seq<Seq<char>> {
        match self {
            WsCommand::Auth { token } => seq![token@],
            WsCommand::SendLogs => seq![],
            WsCommand::SetState { state } => seq![state@],
            WsCommand::SendCommand { command } => seq![command@],
        }
    }

    /// The message's JSON text: an object with the arguments under
    /// `"args"` and the event name under `"event"`, keys in sorted order,
    /// no spaces. (Event names hold no character JSON escapes.)
    pub open spec fn spec_payload(self) -> Seq<char> {
        "{\"args\":"@ + json_string_array(self.spec_args()) + ",\"event\":\""@ + self.spec_event() + "\"}"@
    }

    /// The message's JSON text.
    pub fn payload(&self) -> (p: String)
        ensures
            p@ == self.spec_payload(),
    {
        let mut args: Vec<String> = Vec::new();
        let tail = match self {
            WsCommand::Auth { token } => {
                args.push(token.clone());
                ",\"event\":\"auth\"}"
            },
            WsCommand::SendLogs => ",\"event\":\"send logs\"}",
            WsCommand::SetState { state } => {
                args.push(state.clone());
                ",\"event\":\"set state\"}"
            },
            WsCommand::SendCommand { command } => {
                args.push(command.clone());
                ",\"event\":\"send command\"}"
            },
        };
        assert(strings_view(args@) =~= self.spec_args());
        let ghost name = self.spec_event();
        assert(tail@ == ",\"event\":\""@ + name + "\"}"@) by {
            reveal_strlit(",\"event\":\"auth\"}");
            reveal_strlit(",\"event\":\"send logs\"}");
            reveal_strlit(",\"event\":\"set state\"}");
            reveal_strlit(",\"event\":\"send command\"}");
            reveal_strlit(",\"event\":\"");
            reveal_strlit("\"}");
            reveal_strlit("auth");
            reveal_strlit("send logs");
            reveal_strlit("set state");
            reveal_strlit("send command");
            assert(tail@ =~= ",\"event\":\""@ + name + "\"}"@);
        }
        let mut p = String::from_str("{\"args\":");
        p.append(json_array_of(&args).as_str());
        p.append(tail);
        p
    }
}

/// A text message from the server, decoded: its event name and, when it
/// carried them, its string arguments.
#[derive(Debug, Clone, PartialEq)]
pub struct WsPacket {
    pub event: String,
    pub args: Option<Vec<String>>,
}

/// What to do about a message from the server.
#[derive(Debug, Clone, PartialEq)]
pub enum WsReaction {
    /// Report this event.
    Emit(WsEvent),
    /// Authentication succeeded: report it and ask for the console log.
    AuthSucceeded,
    /// The connection token is about to expire: fetch a new one (unless a
    /// refresh is already running) and authenticate with it.
    RefreshToken,
    /// Nothing to do.
    Ignore,
}

/// The first argument of a message, if it carried any.
pub open spec fn first_arg(args: Option<Vec<String>>) -> Option<Seq<char>> {
    match args {
        Some(v) => if v@.len() > 0 {
            Some(v@[0]@)
        } else {
            None
        },
        None => None,
    }
}

/// How a message is handled. A text that does not decode is reported as
/// an error; `status`, `stats`, `console output` and `install output`
/// report their first argument (nothing when there is none); unknown
/// events are ignored.
pub open spec fn spec_reaction_is(packet: Option<WsPacket>, r: WsReaction) -> bool {
    match packet {
        None => r matches WsReaction::Emit(WsEvent::Error(m)) && m@ == "解析WS文本失败"@,
        Some(p) => {
            let e = p.event@;
            let a = first_arg(p.args);
            if e == "auth success"@ {
                r == WsReaction::AuthSucceeded
            } else if e == "token expiring"@ {
                r == WsReaction::RefreshToken
            } else if e == "status"@ || e == "stats"@ || e == "console output"@ || e == "install output"@ {
                match a {
                    None => r == WsReaction::Ignore,
                    Some(x) => match r {
                        WsReaction::Emit(WsEvent::Status(m)) => e == "status"@ && m@ == x,
                        WsReaction::Emit(WsEvent::Stats(m)) => e == "stats"@ && m@ == x,
                        WsReaction::Emit(WsEvent::ConsoleOutput(m)) => e == "console output"@ && m@ == x,
                        WsReaction::Emit(WsEvent::InstallOutput(m)) => e == "install output"@ && m@ == x,
                        _ => false,
                    },
                }
            } else {
                r == WsReaction::Ignore
            }
        },
    }
}

/// Each control message names its event and carries its own argument:
/// authentication sends the token under `auth`, the log request sends no
/// argument under `send logs`, a power change sends the state under
/// `set state` and a console command sends the command under
/// `send command`.
pub proof fn command_payloads(token: String, state: String, command: String)
    ensures
        (WsCommand::Auth { token }).spec_payload() == "{\"args\":"@ + json_string_array(seq![token@])
            + ",\"event\":\"auth\"}"@,
        (WsCommand::SendLogs).spec_payload() == "{\"args\":"@ + json_string_array(Seq::<Seq<char>>::empty())
            + ",\"event\":\"send logs\"}"@,
        (WsCommand::SetState { state }).spec_payload() == "{\"args\":"@ + json_string_array(seq![state@])
            + ",\"event\":\"set state\"}"@,
        (WsCommand::SendCommand { command }).spec_payload() == "{\"args\":"@ + json_string_array(
            seq![command@],
        ) + ",\"event\":\"send command\"}"@,
{
    reveal_strlit(",\"event\":\"");
    reveal_strlit("\"}");
    reveal_strlit("auth");
    reveal_strlit("send logs");
    reveal_strlit("set state");
    reveal_strlit("send command");
    reveal_strlit(",\"event\":\"auth\"}");
    reveal_strlit(",\"event\":\"send logs\"}");
    reveal_strlit(",\"event\":\"set state\"}");
    reveal_strlit(",\"event\":\"send command\"}");
    assert(",\"event\":\""@ + "auth"@ + "\"}"@ =~= ",\"event\":\"auth\"}"@);
    assert(",\"event\":\""@ + "send logs"@ + "\"}"@ =~= ",\"event\":\"send logs\"}"@);
    assert(",\"event\":\""@ + "set state"@ + "\"}"@ =~= ",\"event\":\"set state\"}"@);
    assert(",\"event\":\""@ + "send command"@ + "\"}"@ =~= ",\"event\":\"send command\"}"@);
    let a = "{\"args\":"@;
    assert(a + json_string_array(seq![token@]) + ",\"event\":\""@ + "auth"@ + "\"}"@ =~= a + json_string_array(seq![token@]) + (",\"event\":\""@ + "auth"@ + "\"}"@));
    assert(a + json_string_array(Seq::<Seq<char>>::empty()) + ",\"event\":\""@ + "send logs"@ + "\"}"@ =~= a + json_string_array(Seq::<Seq<char>>::empty()) + (",\"event\":\""@ + "send logs"@ + "\"}"@));
    assert(a + json_string_array(seq![state@]) + ",\"event\":\""@ + "set state"@ + "\"}"@ =~= a + json_string_array(seq![state@]) + (",\"event\":\""@ + "set state"@ + "\"}"@));
    assert(a + json_string_array(seq![command@]) + ",\"event\":\""@ + "send command"@ + "\"}"@ =~= a + json_string_array(seq![command@]) + (",\"event\":\""@ + "send command"@ + "\"}"@));
}

/// What each server message leads to, for any packet and any reaction the
/// handler may give: authentication success and token expiry have their own
/// reactions; `status`, `stats`, `console output` and `install output` are
/// reported as the event of the same name carrying the first argument, and
/// ignored without one; any other event is ignored; an undecodable text is
/// reported as an error.
pub proof fn reaction_law(p: WsPacket, r: WsReaction, x: Seq<char>)
    ensures
        spec_reaction_is(None, r) ==> (r matches WsReaction::Emit(WsEvent::Error(m)) && m@ == "解析WS文本失败"@),
        spec_reaction_is(Some(p), r) && p.event@ == "auth success"@ ==> r == WsReaction::AuthSucceeded,
        spec_reaction_is(Some(p), r) && p.event@ == "token expiring"@ ==> r == WsReaction::RefreshToken,
        spec_reaction_is(Some(p), r) && p.event@ == "status"@ && first_arg(p.args) == Some(x) ==> (r matches WsReaction::Emit(
            WsEvent::Status(m),
        ) && m@ == x),
        spec_reaction_is(Some(p), r) && p.event@ == "stats"@ && first_arg(p.args) == Some(x) ==> (r matches WsReaction::Emit(
            WsEvent::Stats(m),
        ) && m@ == x),
        spec_reaction_is(Some(p), r) && p.event@ == "console output"@ && first_arg(p.args) == Some(x) ==> (r matches WsReaction::Emit(
            WsEvent::ConsoleOutput(m),
        ) && m@ == x),
        spec_reaction_is(Some(p), r) && p.event@ == "install output"@ && first_arg(p.args) == Some(x) ==> (r matches WsReaction::Emit(
            WsEvent::InstallOutput(m),
        ) && m@ == x),
        spec_reaction_is(Some(p), r) && first_arg(p.args) is None && p.event@ != "auth success"@ && p.event@
            != "token expiring"@ ==> r == WsReaction::Ignore,
        spec_reaction_is(Some(p), r) && p.event@ != "auth success"@ && p.event@ != "token expiring"@ && p.event@
            != "status"@ && p.event@ != "stats"@ && p.event@ != "console output"@ && p.event@ != "install output"@
            ==> r == WsReaction::Ignore,
{
    reveal_strlit("auth success");
    reveal_strlit("token expiring");
    reveal_strlit("status");
    reveal_strlit("stats");
    reveal_strlit("console output");
    reveal_strlit("install output");
    assert("auth success"@.len() != "token expiring"@.len());
    assert("auth success"@.len() != "status"@.len());
    assert("auth success"@.len() != "stats"@.len());
    assert("auth success"@.len() != "console output"@.len());
    assert("auth success"@.len() != "install output"@.len());
    assert("token expiring"@.len() != "status"@.len());
    assert("token expiring"@.len() != "stats"@.len());
    assert("token expiring"@[0] != "console output"@[0]);
    assert("token expiring"@[0] != "install output"@[0]);
    assert("status"@.len() != "stats"@.len());
    assert("status"@.len() != "console output"@.len());
    assert("status"@.len() != "install output"@.len());
    assert("stats"@.len() != "console output"@.len());
    assert("stats"@.len() != "install output"@.len());
    assert("console output"@[0] != "install output"@[0]);
}

fn first_arg_of(args: Option<Vec<String>>) -> (r: Option<String>)
    ensures
        match r {
            Some(s) => first_arg(args) == Some(s@),
            None => first_arg(args) is None,
        },
{
    match args {
        Some(v) => {
            if v.len() > 0 {
                Some(v[0].clone())
            } else {
                None
            }
        },
        None => None,
    }
}

/// Decides what to do about a message from the server.
pub fn react(packet: Option<WsPacket>) -> (r: WsReaction)
    ensures
        spec_reaction_is(packet, r),
{
    match packet {
        None => WsReaction::Emit(WsEvent::Error(String::from_str("解析WS文本失败"))),
        Some(p) => {
            let e = p.event;
            if e == String::from_str("auth success") {
                WsReaction::AuthSucceeded
            } else if e == String::from_str("token expiring") {
                WsReaction::RefreshToken
            } else if e == String::from_str("status") {
                match first_arg_of(p.args) {
                    Some(x) => WsReaction::Emit(WsEvent::Status(x)),
                    None => WsReaction::Ignore,
                }
            } else if e == String::from_str("stats") {
                match first_arg_of(p.args) {
                    Some(x) => WsReaction::Emit(WsEvent::Stats(x)),
                    None => WsReaction::Ignore,
                }
            } else if e == String::from_str("console output") {
                match first_arg_of(p.args) {
                    Some(x) => WsReaction::Emit(WsEvent::ConsoleOutput(x)),
                    None => WsReaction::Ignore,
                }
            } else if e == String::from_str("install output") {
                match first_arg_of(p.args) {
                    Some(x) => WsReaction::Emit(WsEvent::InstallOutput(x)),
                    None => WsReaction::Ignore,
                }
            } else {
                WsReaction::Ignore
            }
        },
    }
}

// ------------------------------------------------------------ backoff

/// The longest wait between reconnect attempts, in seconds.
pub const MAX_BACKOFF_SECS: u64 = 60;

/// The wait after `b` seconds: doubled, capped at `MAX_BACKOFF_SECS`.
pub open spec fn next_backoff(b: nat) -> nat {
    if 2 * b < MAX_BACKOFF_SECS {
        2 * b
    } else {
        MAX_BACKOFF_SECS as nat
    }
}

/// The wait after `k` failed attempts in a row, starting from `b`.
pub open spec fn backoff_after(b: nat, k: nat) -> nat
    decreases k,
{
    if k == 0 {
        b
    } else {
        next_backoff(backoff_after(b, (k - 1) as nat))
    }
}

/// The waits the reconnect loop can take: 1, 2, 4, 8, 16, 32 or 60 seconds.
pub open spec fn is_backoff_wait(b: nat) -> bool {
    b == 1 || b == 2 || b == 4 || b == 8 || b == 16 || b == 32 || b == MAX_BACKOFF_SECS
}

/// Doubling a wait of the set, capped at 60, stays in the set.
pub proof fn next_backoff_stays_in_set(b: nat)
    requires
        is_backoff_wait(b),
    ensures
        is_backoff_wait(next_backoff(b)),
{
}

/// Every wait reached from one second, after any number of failures in a
/// row, is one of 1, 2, 4, 8, 16, 32 or 60 seconds.
pub proof fn backoff_after_is_in_set(k: nat)
    ensures
        is_backoff_wait(backoff_after(1, k)),
    decreases k,
{
    if k > 0 {
        backoff_after_is_in_set((k - 1) as nat);
        next_backoff_stays_in_set(backoff_after(1, (k - 1) as nat));
    }
}

/// After `k` failures in a row since the last successful connection, the
/// wait is `2^k` seconds, capped at 60.
pub proof fn backoff_doubles_to_cap(k: nat)
    ensures
        backoff_after(1, k) == (if pow2(k) < 60 { pow2(k) } else { 60 }),
    decreases k,
{
    if k == 0 {
        vstd::arithmetic::power2::lemma2_to64();
    } else {
        backoff_doubles_to_cap((k - 1) as nat);
        lemma_pow2_unfold(k);
    }
}

/// The reconnect loop's wait, in seconds; always one of 1, 2, 4, 8, 16,
/// 32 or 60.
#[derive(Debug, Clone)]
pub struct Reconnect {
    secs: u64,
}

impl Reconnect {
    /// The current wait.
    pub closed spec fn spec_secs(&self) -> nat {
        self.secs as nat
    }

    /// The wait is one of the reconnect loop's waits.
    pub closed spec fn wf(&self) -> bool {
        is_backoff_wait(self.secs as nat)
    }

    /// A well-formed loop's wait is one of 1, 2, 4, 8, 16, 32 or 60 seconds.
    pub proof fn wait_is_in_set(&self)
        requires
            self.wf(),
        ensures
            is_backoff_wait(self.spec_secs()),
    {
    }

    /// Before any attempt: one second.
    pub fn new() -> (r: Self)
        ensures
            r.wf(),
            r.spec_secs() == 1,
            is_backoff_wait(r.spec_secs()),
    {
        Reconnect { secs: 1 }
    }

    /// The current wait.
    pub fn secs(&self) -> (s: u64)
        ensures
            s == self.spec_secs(),
    {
        self.secs
    }

    /// A connection succeeded: the wait starts over at one second.
    pub fn on_connected(&mut self)
        ensures
            final(self).wf(),
            final(self).spec_secs() == 1,
    {
        self.secs = 1;
    }

    fn step(&mut self) -> (waited: u64)
        requires
            old(self).wf(),
        ensures
            final(self).wf(),
            waited == old(self).spec_secs(),
            final(self).spec_secs() == next_backoff(old(self).spec_secs()),
    {
        let waited = self.secs;
        self.secs = if self.secs * 2 < MAX_BACKOFF_SECS {
            self.secs * 2
        } else {
            MAX_BACKOFF_SECS
        };
        waited
    }

    /// Fetching the connection information failed with `err_text`: the
    /// events to report and the seconds to wait before the next attempt.
    pub fn on_init_failed(&mut self, err_text: &str) -> (r: (Vec<WsEvent>, u64))
        requires
            old(self).wf(),
        ensures
            final(self).wf(),
            r.1 == old(self).spec_secs(),
            is_backoff_wait(r.1 as nat),
            final(self).spec_secs() == next_backoff(old(self).spec_secs()),
            r.0@.len() == 2,
            r.0@[0] matches WsEvent::Error(m) && m@ == "获取WS信息失败: "@ + err_text@,
            r.0@[1] matches WsEvent::Reconnecting(m) && m@ == "等待 "@ + spec_digits(r.1 as nat) + "s 后重试..."@,
    {
        let mut first = String::from_str("获取WS信息失败: ");
        first.append(err_text);
        let waited = self.step();
        let mut events: Vec<WsEvent> = Vec::new();
        events.push(WsEvent::Error(first));
        events.push(WsEvent::Reconnecting(waiting_text("等待 ", waited)));
        (events, waited)
    }

    /// Connecting failed with `err_text`: the events to report and the
    /// seconds to wait before the next attempt.
    pub fn on_connect_failed(&mut self, err_text: &str) -> (r: (Vec<WsEvent>, u64))
        requires
            old(self).wf(),
        ensures
            final(self).wf(),
            r.1 == old(self).spec_secs(),
            is_backoff_wait(r.1 as nat),
            final(self).spec_secs() == next_backoff(old(self).spec_secs()),
            r.0@.len() == 2,
            r.0@[0] matches WsEvent::Error(m) && m@ == "连接失败: "@ + err_text@,
            r.0@[1] matches WsEvent::Reconnecting(m) && m@ == "等待 "@ + spec_digits(r.1 as nat) + "s 后重试..."@,
    {
        let mut first = String::from_str("连接失败: ");
        first.append(err_text);
        let waited = self.step();
        let mut events: Vec<WsEvent> = Vec::new();
        events.push(WsEvent::Error(first));
        events.push(WsEvent::Reconnecting(waiting_text("等待 ", waited)));
        (events, waited)
    }

    /// An established connection ended: the event to report and the seconds
    /// to wait before reconnecting.
    pub fn on_disconnected(&mut self) -> (r: (WsEvent, u64))
        requires
            old(self).wf(),
        ensures
            final(self).wf(),
            r.1 == old(self).spec_secs(),
            is_backoff_wait(r.1 as nat),
            final(self).spec_secs() == next_backoff(old(self).spec_secs()),
            r.0 matches WsEvent::Reconnecting(m) && m@ == "连接断开，"@ + spec_digits(r.1 as nat) + "s 后重试..."@,
    {
        let waited = self.step();
        (WsEvent::Reconnecting(waiting_text("连接断开，", waited)), waited)
    }
}

fn waiting_text(prefix: &str, secs: u64) -> (m: String)
    ensures
        m@ == prefix@ + spec_digits(secs as nat) + "s 后重试..."@,
{
    let mut m = String::from_str(prefix);
    m.append(decimal_u64(secs).as_str());
    m.append("s 后重试...");
    m
}

} // verus!
