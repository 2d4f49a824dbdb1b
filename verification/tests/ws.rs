use simpfun_sdk::ws::react;
use simpfun_sdk::{Reconnect, WsCommand, WsEvent, WsPacket, WsReaction};

fn packet(event: &str, args: Option<Vec<&str>>) -> Option<WsPacket> {
    Some(WsPacket { event: event.to_string(), args: args.map(|a| a.into_iter().map(|s| s.to_string()).collect()) })
}

#[test]
fn control_payloads() {
    assert_eq!(WsCommand::SendLogs.payload(), r#"{"args":[],"event":"send logs"}"#);
    assert_eq!(WsCommand::SetState { state: "start".to_string() }.payload(), r#"{"args":["start"],"event":"set state"}"#);
    assert_eq!(
        WsCommand::SendCommand { command: "say \"hi\"".to_string() }.payload(),
        r#"{"args":["say \"hi\""],"event":"send command"}"#
    );
    assert_eq!(WsCommand::Auth { token: "t\\k".to_string() }.payload(), r#"{"args":["t\\k"],"event":"auth"}"#);
}

#[test]
fn server_messages() {
    assert_eq!(react(None), WsReaction::Emit(WsEvent::Error("解析WS文本失败".to_string())));
    assert_eq!(react(packet("auth success", None)), WsReaction::AuthSucceeded);
    assert_eq!(react(packet("token expiring", None)), WsReaction::RefreshToken);
    assert_eq!(
        react(packet("status", Some(vec!["running", "x"]))),
        WsReaction::Emit(WsEvent::Status("running".to_string()))
    );
    assert_eq!(react(packet("stats", Some(vec!["{}"]))), WsReaction::Emit(WsEvent::Stats("{}".to_string())));
    assert_eq!(
        react(packet("console output", Some(vec!["line"]))),
        WsReaction::Emit(WsEvent::ConsoleOutput("line".to_string()))
    );
    assert_eq!(
        react(packet("install output", Some(vec!["step"]))),
        WsReaction::Emit(WsEvent::InstallOutput("step".to_string()))
    );
    assert_eq!(react(packet("status", None)), WsReaction::Ignore);
    assert_eq!(react(packet("status", Some(vec![]))), WsReaction::Ignore);
    assert_eq!(react(packet("jwt error", Some(vec!["x"]))), WsReaction::Ignore);
}

#[test]
fn reconnect_backoff() {
    let mut r = Reconnect::new();
    assert_eq!(r.secs(), 1);
    let (events, wait) = r.on_init_failed("boom");
    assert_eq!(wait, 1);
    assert_eq!(
        events,
        vec![WsEvent::Error("获取WS信息失败: boom".to_string()), WsEvent::Reconnecting("等待 1s 后重试...".to_string())]
    );
    let mut waits = vec![];
    for _ in 0..7 {
        let (events, wait) = r.on_connect_failed("refused");
        assert_eq!(events[0], WsEvent::Error("连接失败: refused".to_string()));
        waits.push(wait);
    }
    assert_eq!(waits, vec![2, 4, 8, 16, 32, 60, 60]);
    r.on_connected();
    assert_eq!(r.secs(), 1);
    let (event, wait) = r.on_disconnected();
    assert_eq!(event, WsEvent::Reconnecting("连接断开，1s 后重试...".to_string()));
    assert_eq!(wait, 1);
    assert_eq!(r.secs(), 2);
}

#[test]
fn reconnect_waits_stay_in_set() {
    let allowed = [1u64, 2, 4, 8, 16, 32, 60];
    let mut r = Reconnect::new();
    for round in 0..40 {
        let wait = if round % 3 == 0 { r.on_disconnected().1 } else { r.on_connect_failed("x").1 };
        assert!(allowed.contains(&wait));
        assert!(allowed.contains(&r.secs()));
        if round == 20 {
            r.on_connected();
            assert_eq!(r.secs(), 1);
        }
    }
    assert_eq!(r.secs(), 60);
}
