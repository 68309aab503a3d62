use discord_ipc::{Activity, ActivityCmd, ActivityEvent, DiscordIPCCommandOutgoing,
    DiscordIPCPayload, HandshakeData, cmd_name_str, cmd_from_name, evt_name_str, evt_from_name};

#[test]
fn test_handshake_serialize_exact_bytes() {
    let payload = DiscordIPCPayload::Handshake(HandshakeData::new("123"));
    assert_eq!(payload.serialize(), b"{\"v\":1,\"client_id\":\"123\"}".to_vec());
}

#[test]
fn test_handshake_serialize_escapes() {
    let payload = DiscordIPCPayload::Handshake(HandshakeData::new("a\"b\\c\nd"));
    let body = payload.serialize();
    assert_eq!(
        body,
        b"{\"v\":1,\"client_id\":\"a\\\"b\\\\c\\u000ad\"}".to_vec()
    );
    // The escaped body reads back as the original string through a real
    // JSON parser.
    let parsed: serde_json::Value = serde_json::from_slice(&body).expect("valid JSON");
    assert_eq!(parsed["client_id"].as_str(), Some("a\"b\\c\nd"));
    assert_eq!(parsed["v"].as_u64(), Some(1));
}

#[test]
fn test_handshake_serialize_keeps_unicode() {
    let payload = DiscordIPCPayload::Handshake(HandshakeData::new("héllo→"));
    let body = payload.serialize();
    let parsed: serde_json::Value = serde_json::from_slice(&body).expect("valid JSON");
    assert_eq!(parsed["client_id"].as_str(), Some("héllo→"));
}

#[test]
fn test_set_activity_envelope() {
    let activity = Activity::new(b"{\"state\":\"hi\"}".to_vec());
    let cmd = DiscordIPCCommandOutgoing::set_activity(activity, 77);
    assert_eq!(cmd.cmd, ActivityCmd::SetActivity);
    assert_eq!(cmd.args.pid, 77);
    assert_eq!(cmd.evt, None);
    assert_eq!(cmd.nonce.len(), 36);

    let body = DiscordIPCPayload::Command(cmd.clone()).serialize();
    let parsed: serde_json::Value = serde_json::from_slice(&body).expect("valid JSON");
    assert_eq!(parsed["cmd"].as_str(), Some("SET_ACTIVITY"));
    assert_eq!(parsed["args"]["pid"].as_u64(), Some(77));
    assert_eq!(parsed["args"]["activity"]["state"].as_str(), Some("hi"));
    assert_eq!(parsed["nonce"].as_str(), Some(cmd.nonce.as_str()));
    assert!(parsed["evt"].is_null());
}

#[test]
fn test_clear_activity_envelope() {
    let cmd = DiscordIPCCommandOutgoing::clear_activity(77);
    assert_eq!(cmd.cmd, ActivityCmd::SetActivity);
    assert_eq!(cmd.args.activity, None);

    let body = DiscordIPCPayload::Command(cmd).serialize();
    let parsed: serde_json::Value = serde_json::from_slice(&body).expect("valid JSON");
    assert_eq!(parsed["cmd"].as_str(), Some("SET_ACTIVITY"));
    assert!(parsed["args"]["activity"].is_null());
}

#[test]
fn test_fresh_nonces_differ() {
    let a = DiscordIPCCommandOutgoing::clear_activity(1);
    let b = DiscordIPCCommandOutgoing::clear_activity(1);
    assert_ne!(a.nonce, b.nonce, "each envelope carries a fresh nonce");
}

#[test]
fn test_command_names_round_trip() {
    for cmd in [
        ActivityCmd::Dispatch,
        ActivityCmd::SetActivity,
        ActivityCmd::SetUserVoiceSettings2,
        ActivityCmd::BraintreePopupBridgeCallback,
        ActivityCmd::GetUserAchievements,
    ] {
        let name = cmd_name_str(&cmd);
        assert_eq!(cmd_from_name(name), Some(cmd));
    }
    assert_eq!(cmd_name_str(&ActivityCmd::SetActivity), "SET_ACTIVITY");
    assert_eq!(cmd_name_str(&ActivityCmd::SetUserVoiceSettings2), "SET_USER_VOICE_SETTINGS2");
    assert_eq!(cmd_from_name("NOT_A_COMMAND"), None);
}

#[test]
fn test_event_names_round_trip() {
    for evt in [
        ActivityEvent::CreateUserUpdate,
        ActivityEvent::Ready,
        ActivityEvent::Error,
        ActivityEvent::VoiceSettingsUpdate2,
    ] {
        let name = evt_name_str(&evt);
        assert_eq!(evt_from_name(name), Some(evt));
    }
    assert_eq!(evt_name_str(&ActivityEvent::Ready), "READY");
    assert_eq!(evt_from_name("NOT_AN_EVENT"), None);
}
