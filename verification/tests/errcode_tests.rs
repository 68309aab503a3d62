use discord_ipc::{DiscordIPCErrorCode, DiscordIPCErrorCodeCritical, DiscordIPCErrorCodeNonCritical};

#[test]
fn test_error_code_priority_on_1000() {
    // 1000 stands in both tables; the critical reading wins.
    assert_eq!(
        DiscordIPCErrorCode::from_code(1000),
        Some(DiscordIPCErrorCode::Critical(DiscordIPCErrorCodeCritical::CloseNormal))
    );
    assert_eq!(
        DiscordIPCErrorCodeNonCritical::from_repr(1000),
        Some(DiscordIPCErrorCodeNonCritical::UnknownError)
    );
}

#[test]
fn test_error_code_priority_on_other_overlaps() {
    // 4002 and 4005 also stand in both tables.
    assert_eq!(
        DiscordIPCErrorCode::from_code(4002),
        Some(DiscordIPCErrorCode::Critical(DiscordIPCErrorCodeCritical::RateLimited))
    );
    assert_eq!(
        DiscordIPCErrorCode::from_code(4005),
        Some(DiscordIPCErrorCode::Critical(DiscordIPCErrorCodeCritical::InvalidEncoding))
    );
}

#[test]
fn test_non_critical_fallback() {
    assert_eq!(
        DiscordIPCErrorCode::from_code(5004),
        Some(DiscordIPCErrorCode::NonCritical(
            DiscordIPCErrorCodeNonCritical::CaptureShortcutAlreadyListening
        ))
    );
    assert_eq!(
        DiscordIPCErrorCode::from_code(1001),
        Some(DiscordIPCErrorCode::NonCritical(
            DiscordIPCErrorCodeNonCritical::ServiceUnavailable
        ))
    );
}

#[test]
fn test_unknown_code_rejected() {
    assert_eq!(DiscordIPCErrorCode::from_code(9999), None);
    assert_eq!(DiscordIPCErrorCode::from_code(0), None);
    assert_eq!(DiscordIPCErrorCode::from_code(5012), None);
}

#[test]
fn test_from_repr_and_code_round_trip() {
    assert_eq!(
        DiscordIPCErrorCodeCritical::from_repr(1003),
        Some(DiscordIPCErrorCodeCritical::CloseUnsupported)
    );
    assert_eq!(DiscordIPCErrorCodeCritical::CloseUnsupported.code(), 1003);
    assert_eq!(DiscordIPCErrorCodeCritical::from_repr(5000), None);
    assert_eq!(
        DiscordIPCErrorCodeNonCritical::from_repr(5000),
        Some(DiscordIPCErrorCodeNonCritical::Oauth2Error)
    );
    assert_eq!(DiscordIPCErrorCodeNonCritical::Oauth2Error.code(), 5000);
    assert_eq!(
        DiscordIPCErrorCode::Critical(DiscordIPCErrorCodeCritical::TokenRevoked).code(),
        4003
    );
}

#[test]
fn test_code_names() {
    assert_eq!(DiscordIPCErrorCodeCritical::CloseNormal.name_str(), "CloseNormal");
    assert_eq!(
        DiscordIPCErrorCode::NonCritical(DiscordIPCErrorCodeNonCritical::LobbyFull).name_str(),
        "LobbyFull"
    );
}
