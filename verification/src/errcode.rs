use vstd::prelude::*;

verus! {

/// All of the possible errors from the companion application that end the connection or the session (critical).
#[allow(missing_docs)]
#[derive(Debug, Clone, Copy, PartialEq, Eq, Hash, Structural)]
pub enum DiscordIPCErrorCodeCritical {
    CloseNormal,
    CloseUnsupported,
    CloseAbnormal,
    InvalidClientId,
    InvalidOrigin,
    RateLimited,
    TokenRevoked,
    InvalidVersion,
    InvalidEncoding,
}

/// All of the possible command-level errors from the companion application (non-critical).
#[allow(missing_docs)]
#[derive(Debug, Clone, Copy, PartialEq, Eq, Hash, Structural)]
pub enum DiscordIPCErrorCodeNonCritical {
    CaptureShortcutAlreadyListening,
    GetGuildTimedOut,
    InvalidActivityJoinRequest,
    InvalidActivitySecret,
    InvalidChannel,
    InvalidClientId,
    InvalidCommand,
    InvalidEntitlement,
    InvalidEvent,
    InvalidGiftCode,
    InvalidGuild,
    InvalidInvite,
    InvalidLobby,
    InvalidLobbySecret,
    InvalidOrigin,
    InvalidPayload,
    InvalidPermissions,
    InvalidToken,
    InvalidUser,
    LobbyFull,
    NoEligibleActivity,
    Oauth2Error,
    PurchaseCanceled,
    PurchaseError,
    RateLimited,
    SelectChannelTimedOut,
    SelectVoiceForceRequired,
    ServiceUnavailable,
    TransactionAborted,
    UnauthorizedForAchievement,
    UnknownError,
}

/// The critical table: which critical variant a numeric code names.
pub open spec fn critical_from_repr(code: u16) -> Option<DiscordIPCErrorCodeCritical> {
    if code == 1000 {
        Some(DiscordIPCErrorCodeCritical::CloseNormal)
    } else if code == 1003 {
        Some(DiscordIPCErrorCodeCritical::CloseUnsupported)
    } else if code == 1006 {
        Some(DiscordIPCErrorCodeCritical::CloseAbnormal)
    } else if code == 4000 {
        Some(DiscordIPCErrorCodeCritical::InvalidClientId)
    } else if code == 4001 {
        Some(DiscordIPCErrorCodeCritical::InvalidOrigin)
    } else if code == 4002 {
        Some(DiscordIPCErrorCodeCritical::RateLimited)
    } else if code == 4003 {
        Some(DiscordIPCErrorCodeCritical::TokenRevoked)
    } else if code == 4004 {
        Some(DiscordIPCErrorCodeCritical::InvalidVersion)
    } else if code == 4005 {
        Some(DiscordIPCErrorCodeCritical::InvalidEncoding)
    } else {
        None
    }
}

/// The non-critical table: which non-critical variant a numeric code names.
pub open spec fn non_critical_from_repr(code: u16) -> Option<DiscordIPCErrorCodeNonCritical> {
    if code == 5004 {
        Some(DiscordIPCErrorCodeNonCritical::CaptureShortcutAlreadyListening)
    } else if code == 5002 {
        Some(DiscordIPCErrorCodeNonCritical::GetGuildTimedOut)
    } else if code == 4012 {
        Some(DiscordIPCErrorCodeNonCritical::InvalidActivityJoinRequest)
    } else if code == 5005 {
        Some(DiscordIPCErrorCodeNonCritical::InvalidActivitySecret)
    } else if code == 4005 {
        Some(DiscordIPCErrorCodeNonCritical::InvalidChannel)
    } else if code == 4007 {
        Some(DiscordIPCErrorCodeNonCritical::InvalidClientId)
    } else if code == 4002 {
        Some(DiscordIPCErrorCodeNonCritical::InvalidCommand)
    } else if code == 4015 {
        Some(DiscordIPCErrorCodeNonCritical::InvalidEntitlement)
    } else if code == 4004 {
        Some(DiscordIPCErrorCodeNonCritical::InvalidEvent)
    } else if code == 4016 {
        Some(DiscordIPCErrorCodeNonCritical::InvalidGiftCode)
    } else if code == 4003 {
        Some(DiscordIPCErrorCodeNonCritical::InvalidGuild)
    } else if code == 4011 {
        Some(DiscordIPCErrorCodeNonCritical::InvalidInvite)
    } else if code == 4013 {
        Some(DiscordIPCErrorCodeNonCritical::InvalidLobby)
    } else if code == 4014 {
        Some(DiscordIPCErrorCodeNonCritical::InvalidLobbySecret)
    } else if code == 4008 {
        Some(DiscordIPCErrorCodeNonCritical::InvalidOrigin)
    } else if code == 4000 {
        Some(DiscordIPCErrorCodeNonCritical::InvalidPayload)
    } else if code == 4006 {
        Some(DiscordIPCErrorCodeNonCritical::InvalidPermissions)
    } else if code == 4009 {
        Some(DiscordIPCErrorCodeNonCritical::InvalidToken)
    } else if code == 4010 {
        Some(DiscordIPCErrorCodeNonCritical::InvalidUser)
    } else if code == 5007 {
        Some(DiscordIPCErrorCodeNonCritical::LobbyFull)
    } else if code == 5006 {
        Some(DiscordIPCErrorCodeNonCritical::NoEligibleActivity)
    } else if code == 5000 {
        Some(DiscordIPCErrorCodeNonCritical::Oauth2Error)
    } else if code == 5008 {
        Some(DiscordIPCErrorCodeNonCritical::PurchaseCanceled)
    } else if code == 5009 {
        Some(DiscordIPCErrorCodeNonCritical::PurchaseError)
    } else if code == 5011 {
        Some(DiscordIPCErrorCodeNonCritical::RateLimited)
    } else if code == 5001 {
        Some(DiscordIPCErrorCodeNonCritical::SelectChannelTimedOut)
    } else if code == 5003 {
        Some(DiscordIPCErrorCodeNonCritical::SelectVoiceForceRequired)
    } else if code == 1001 {
        Some(DiscordIPCErrorCodeNonCritical::ServiceUnavailable)
    } else if code == 1002 {
        Some(DiscordIPCErrorCodeNonCritical::TransactionAborted)
    } else if code == 5010 {
        Some(DiscordIPCErrorCodeNonCritical::UnauthorizedForAchievement)
    } else if code == 1000 {
        Some(DiscordIPCErrorCodeNonCritical::UnknownError)
    } else {
        None
    }
}

/// The numeric code of a critical variant.
pub open spec fn critical_code(c: DiscordIPCErrorCodeCritical) -> u16 {
    match c {
        DiscordIPCErrorCodeCritical::CloseNormal => 1000,
        DiscordIPCErrorCodeCritical::CloseUnsupported => 1003,
        DiscordIPCErrorCodeCritical::CloseAbnormal => 1006,
        DiscordIPCErrorCodeCritical::InvalidClientId => 4000,
        DiscordIPCErrorCodeCritical::InvalidOrigin => 4001,
        DiscordIPCErrorCodeCritical::RateLimited => 4002,
        DiscordIPCErrorCodeCritical::TokenRevoked => 4003,
        DiscordIPCErrorCodeCritical::InvalidVersion => 4004,
        DiscordIPCErrorCodeCritical::InvalidEncoding => 4005,
    }
}

/// The numeric code of a non-critical variant.
pub open spec fn non_critical_code(c: DiscordIPCErrorCodeNonCritical) -> u16 {
    match c {
        DiscordIPCErrorCodeNonCritical::CaptureShortcutAlreadyListening => 5004,
        DiscordIPCErrorCodeNonCritical::GetGuildTimedOut => 5002,
        DiscordIPCErrorCodeNonCritical::InvalidActivityJoinRequest => 4012,
        DiscordIPCErrorCodeNonCritical::InvalidActivitySecret => 5005,
        DiscordIPCErrorCodeNonCritical::InvalidChannel => 4005,
        DiscordIPCErrorCodeNonCritical::InvalidClientId => 4007,
        DiscordIPCErrorCodeNonCritical::InvalidCommand => 4002,
        DiscordIPCErrorCodeNonCritical::InvalidEntitlement => 4015,
        DiscordIPCErrorCodeNonCritical::InvalidEvent => 4004,
        DiscordIPCErrorCodeNonCritical::InvalidGiftCode => 4016,
        DiscordIPCErrorCodeNonCritical::InvalidGuild => 4003,
        DiscordIPCErrorCodeNonCritical::InvalidInvite => 4011,
        DiscordIPCErrorCodeNonCritical::InvalidLobby => 4013,
        DiscordIPCErrorCodeNonCritical::InvalidLobbySecret => 4014,
        DiscordIPCErrorCodeNonCritical::InvalidOrigin => 4008,
        DiscordIPCErrorCodeNonCritical::InvalidPayload => 4000,
        DiscordIPCErrorCodeNonCritical::InvalidPermissions => 4006,
        DiscordIPCErrorCodeNonCritical::InvalidToken => 4009,
        DiscordIPCErrorCodeNonCritical::InvalidUser => 4010,
        DiscordIPCErrorCodeNonCritical::LobbyFull => 5007,
        DiscordIPCErrorCodeNonCritical::NoEligibleActivity => 5006,
        DiscordIPCErrorCodeNonCritical::Oauth2Error => 5000,
        DiscordIPCErrorCodeNonCritical::PurchaseCanceled => 5008,
        DiscordIPCErrorCodeNonCritical::PurchaseError => 5009,
        DiscordIPCErrorCodeNonCritical::RateLimited => 5011,
        DiscordIPCErrorCodeNonCritical::SelectChannelTimedOut => 5001,
        DiscordIPCErrorCodeNonCritical::SelectVoiceForceRequired => 5003,
        DiscordIPCErrorCodeNonCritical::ServiceUnavailable => 1001,
        DiscordIPCErrorCodeNonCritical::TransactionAborted => 1002,
        DiscordIPCErrorCodeNonCritical::UnauthorizedForAchievement => 5010,
        DiscordIPCErrorCodeNonCritical::UnknownError => 1000,
    }
}

/// The display name of each `DiscordIPCErrorCodeCritical` variant.
pub open spec fn critical_name(c: DiscordIPCErrorCodeCritical) -> Seq<char> {
    match c {
        DiscordIPCErrorCodeCritical::CloseNormal => "CloseNormal"@,
        DiscordIPCErrorCodeCritical::CloseUnsupported => "CloseUnsupported"@,
        DiscordIPCErrorCodeCritical::CloseAbnormal => "CloseAbnormal"@,
        DiscordIPCErrorCodeCritical::InvalidClientId => "InvalidClientId"@,
        DiscordIPCErrorCodeCritical::InvalidOrigin => "InvalidOrigin"@,
        DiscordIPCErrorCodeCritical::RateLimited => "RateLimited"@,
        DiscordIPCErrorCodeCritical::TokenRevoked => "TokenRevoked"@,
        DiscordIPCErrorCodeCritical::InvalidVersion => "InvalidVersion"@,
        DiscordIPCErrorCodeCritical::InvalidEncoding => "InvalidEncoding"@,
    }
}

/// The display name of each `DiscordIPCErrorCodeNonCritical` variant.
pub open spec fn non_critical_name(c: DiscordIPCErrorCodeNonCritical) -> Seq<char> {
    match c {
        DiscordIPCErrorCodeNonCritical::CaptureShortcutAlreadyListening => "CaptureShortcutAlreadyListening"@,
        DiscordIPCErrorCodeNonCritical::GetGuildTimedOut => "GetGuildTimedOut"@,
        DiscordIPCErrorCodeNonCritical::InvalidActivityJoinRequest => "InvalidActivityJoinRequest"@,
        DiscordIPCErrorCodeNonCritical::InvalidActivitySecret => "InvalidActivitySecret"@,
        DiscordIPCErrorCodeNonCritical::InvalidChannel => "InvalidChannel"@,
        DiscordIPCErrorCodeNonCritical::InvalidClientId => "InvalidClientId"@,
        DiscordIPCErrorCodeNonCritical::InvalidCommand => "InvalidCommand"@,
        DiscordIPCErrorCodeNonCritical::InvalidEntitlement => "InvalidEntitlement"@,
        DiscordIPCErrorCodeNonCritical::InvalidEvent => "InvalidEvent"@,
        DiscordIPCErrorCodeNonCritical::InvalidGiftCode => "InvalidGiftCode"@,
        DiscordIPCErrorCodeNonCritical::InvalidGuild => "InvalidGuild"@,
        DiscordIPCErrorCodeNonCritical::InvalidInvite => "InvalidInvite"@,
        DiscordIPCErrorCodeNonCritical::InvalidLobby => "InvalidLobby"@,
        DiscordIPCErrorCodeNonCritical::InvalidLobbySecret => "InvalidLobbySecret"@,
        DiscordIPCErrorCodeNonCritical::InvalidOrigin => "InvalidOrigin"@,
        DiscordIPCErrorCodeNonCritical::InvalidPayload => "InvalidPayload"@,
        DiscordIPCErrorCodeNonCritical::InvalidPermissions => "InvalidPermissions"@,
        DiscordIPCErrorCodeNonCritical::InvalidToken => "InvalidToken"@,
        DiscordIPCErrorCodeNonCritical::InvalidUser => "InvalidUser"@,
        DiscordIPCErrorCodeNonCritical::LobbyFull => "LobbyFull"@,
        DiscordIPCErrorCodeNonCritical::NoEligibleActivity => "NoEligibleActivity"@,
        DiscordIPCErrorCodeNonCritical::Oauth2Error => "Oauth2Error"@,
        DiscordIPCErrorCodeNonCritical::PurchaseCanceled => "PurchaseCanceled"@,
        DiscordIPCErrorCodeNonCritical::PurchaseError => "PurchaseError"@,
        DiscordIPCErrorCodeNonCritical::RateLimited => "RateLimited"@,
        DiscordIPCErrorCodeNonCritical::SelectChannelTimedOut => "SelectChannelTimedOut"@,
        DiscordIPCErrorCodeNonCritical::SelectVoiceForceRequired => "SelectVoiceForceRequired"@,
        DiscordIPCErrorCodeNonCritical::ServiceUnavailable => "ServiceUnavailable"@,
        DiscordIPCErrorCodeNonCritical::TransactionAborted => "TransactionAborted"@,
        DiscordIPCErrorCodeNonCritical::UnauthorizedForAchievement => "UnauthorizedForAchievement"@,
        DiscordIPCErrorCodeNonCritical::UnknownError => "UnknownError"@,
    }
}

impl DiscordIPCErrorCodeCritical {
    /// The variant whose numeric code this is, if any.
    pub fn from_repr(code: u16) -> (r: Option<DiscordIPCErrorCodeCritical>)
        ensures
            r == critical_from_repr(code),
    {
        if code == 1000 {
            Some(DiscordIPCErrorCodeCritical::CloseNormal)
        } else if code == 1003 {
            Some(DiscordIPCErrorCodeCritical::CloseUnsupported)
        } else if code == 1006 {
            Some(DiscordIPCErrorCodeCritical::CloseAbnormal)
        } else if code == 4000 {
            Some(DiscordIPCErrorCodeCritical::InvalidClientId)
        } else if code == 4001 {
            Some(DiscordIPCErrorCodeCritical::InvalidOrigin)
        } else if code == 4002 {
            Some(DiscordIPCErrorCodeCritical::RateLimited)
        } else if code == 4003 {
            Some(DiscordIPCErrorCodeCritical::TokenRevoked)
        } else if code == 4004 {
            Some(DiscordIPCErrorCodeCritical::InvalidVersion)
        } else if code == 4005 {
            Some(DiscordIPCErrorCodeCritical::InvalidEncoding)
        } else {
            None
        }
    }

    /// The numeric code of this variant.
    pub fn code(&self) -> (r: u16)
        ensures
            r == critical_code(*self),
    {
        match self {
            DiscordIPCErrorCodeCritical::CloseNormal => 1000,
            DiscordIPCErrorCodeCritical::CloseUnsupported => 1003,
            DiscordIPCErrorCodeCritical::CloseAbnormal => 1006,
            DiscordIPCErrorCodeCritical::InvalidClientId => 4000,
            DiscordIPCErrorCodeCritical::InvalidOrigin => 4001,
            DiscordIPCErrorCodeCritical::RateLimited => 4002,
            DiscordIPCErrorCodeCritical::TokenRevoked => 4003,
            DiscordIPCErrorCodeCritical::InvalidVersion => 4004,
            DiscordIPCErrorCodeCritical::InvalidEncoding => 4005,
        }
    }

    /// The name of this variant, for display purposes.
    pub fn name_str(&self) -> (r: &'static str)
        ensures
            r@ == critical_name(*self),
    {
        match self {
            DiscordIPCErrorCodeCritical::CloseNormal => "CloseNormal",
            DiscordIPCErrorCodeCritical::CloseUnsupported => "CloseUnsupported",
            DiscordIPCErrorCodeCritical::CloseAbnormal => "CloseAbnormal",
            DiscordIPCErrorCodeCritical::InvalidClientId => "InvalidClientId",
            DiscordIPCErrorCodeCritical::InvalidOrigin => "InvalidOrigin",
            DiscordIPCErrorCodeCritical::RateLimited => "RateLimited",
            DiscordIPCErrorCodeCritical::TokenRevoked => "TokenRevoked",
            DiscordIPCErrorCodeCritical::InvalidVersion => "InvalidVersion",
            DiscordIPCErrorCodeCritical::InvalidEncoding => "InvalidEncoding",
        }
    }
}

impl DiscordIPCErrorCodeNonCritical {
    /// The variant whose numeric code this is, if any.
    pub fn from_repr(code: u16) -> (r: Option<DiscordIPCErrorCodeNonCritical>)
        ensures
            r == non_critical_from_repr(code),
    {
        if code == 5004 {
            Some(DiscordIPCErrorCodeNonCritical::CaptureShortcutAlreadyListening)
        } else if code == 5002 {
            Some(DiscordIPCErrorCodeNonCritical::GetGuildTimedOut)
        } else if code == 4012 {
            Some(DiscordIPCErrorCodeNonCritical::InvalidActivityJoinRequest)
        } else if code == 5005 {
            Some(DiscordIPCErrorCodeNonCritical::InvalidActivitySecret)
        } else if code == 4005 {
            Some(DiscordIPCErrorCodeNonCritical::InvalidChannel)
        } else if code == 4007 {
            Some(DiscordIPCErrorCodeNonCritical::InvalidClientId)
        } else if code == 4002 {
            Some(DiscordIPCErrorCodeNonCritical::InvalidCommand)
        } else if code == 4015 {
            Some(DiscordIPCErrorCodeNonCritical::InvalidEntitlement)
        } else if code == 4004 {
            Some(DiscordIPCErrorCodeNonCritical::InvalidEvent)
        } else if code == 4016 {
            Some(DiscordIPCErrorCodeNonCritical::InvalidGiftCode)
        } else if code == 4003 {
            Some(DiscordIPCErrorCodeNonCritical::InvalidGuild)
        } else if code == 4011 {
            Some(DiscordIPCErrorCodeNonCritical::InvalidInvite)
        } else if code == 4013 {
            Some(DiscordIPCErrorCodeNonCritical::InvalidLobby)
        } else if code == 4014 {
            Some(DiscordIPCErrorCodeNonCritical::InvalidLobbySecret)
        } else if code == 4008 {
            Some(DiscordIPCErrorCodeNonCritical::InvalidOrigin)
        } else if code == 4000 {
            Some(DiscordIPCErrorCodeNonCritical::InvalidPayload)
        } else if code == 4006 {
            Some(DiscordIPCErrorCodeNonCritical::InvalidPermissions)
        } else if code == 4009 {
            Some(DiscordIPCErrorCodeNonCritical::InvalidToken)
        } else if code == 4010 {
            Some(DiscordIPCErrorCodeNonCritical::InvalidUser)
        } else if code == 5007 {
            Some(DiscordIPCErrorCodeNonCritical::LobbyFull)
        } else if code == 5006 {
            Some(DiscordIPCErrorCodeNonCritical::NoEligibleActivity)
        } else if code == 5000 {
            Some(DiscordIPCErrorCodeNonCritical::Oauth2Error)
        } else if code == 5008 {
            Some(DiscordIPCErrorCodeNonCritical::PurchaseCanceled)
        } else if code == 5009 {
            Some(DiscordIPCErrorCodeNonCritical::PurchaseError)
        } else if code == 5011 {
            Some(DiscordIPCErrorCodeNonCritical::RateLimited)
        } else if code == 5001 {
            Some(DiscordIPCErrorCodeNonCritical::SelectChannelTimedOut)
        } else if code == 5003 {
            Some(DiscordIPCErrorCodeNonCritical::SelectVoiceForceRequired)
        } else if code == 1001 {
            Some(DiscordIPCErrorCodeNonCritical::ServiceUnavailable)
        } else if code == 1002 {
            Some(DiscordIPCErrorCodeNonCritical::TransactionAborted)
        } else if code == 5010 {
            Some(DiscordIPCErrorCodeNonCritical::UnauthorizedForAchievement)
        } else if code == 1000 {
            Some(DiscordIPCErrorCodeNonCritical::UnknownError)
        } else {
            None
        }
    }

    /// The numeric code of this variant.
    pub fn code(&self) -> (r: u16)
        ensures
            r == non_critical_code(*self),
    {
        match self {
            DiscordIPCErrorCodeNonCritical::CaptureShortcutAlreadyListening => 5004,
            DiscordIPCErrorCodeNonCritical::GetGuildTimedOut => 5002,
            DiscordIPCErrorCodeNonCritical::InvalidActivityJoinRequest => 4012,
            DiscordIPCErrorCodeNonCritical::InvalidActivitySecret => 5005,
            DiscordIPCErrorCodeNonCritical::InvalidChannel => 4005,
            DiscordIPCErrorCodeNonCritical::InvalidClientId => 4007,
            DiscordIPCErrorCodeNonCritical::InvalidCommand => 4002,
            DiscordIPCErrorCodeNonCritical::InvalidEntitlement => 4015,
            DiscordIPCErrorCodeNonCritical::InvalidEvent => 4004,
            DiscordIPCErrorCodeNonCritical::InvalidGiftCode => 4016,
            DiscordIPCErrorCodeNonCritical::InvalidGuild => 4003,
            DiscordIPCErrorCodeNonCritical::InvalidInvite => 4011,
            DiscordIPCErrorCodeNonCritical::InvalidLobby => 4013,
            DiscordIPCErrorCodeNonCritical::InvalidLobbySecret => 4014,
            DiscordIPCErrorCodeNonCritical::InvalidOrigin => 4008,
            DiscordIPCErrorCodeNonCritical::InvalidPayload => 4000,
            DiscordIPCErrorCodeNonCritical::InvalidPermissions => 4006,
            DiscordIPCErrorCodeNonCritical::InvalidToken => 4009,
            DiscordIPCErrorCodeNonCritical::InvalidUser => 4010,
            DiscordIPCErrorCodeNonCritical::LobbyFull => 5007,
            DiscordIPCErrorCodeNonCritical::NoEligibleActivity => 5006,
            DiscordIPCErrorCodeNonCritical::Oauth2Error => 5000,
            DiscordIPCErrorCodeNonCritical::PurchaseCanceled => 5008,
            DiscordIPCErrorCodeNonCritical::PurchaseError => 5009,
            DiscordIPCErrorCodeNonCritical::RateLimited => 5011,
            DiscordIPCErrorCodeNonCritical::SelectChannelTimedOut => 5001,
            DiscordIPCErrorCodeNonCritical::SelectVoiceForceRequired => 5003,
            DiscordIPCErrorCodeNonCritical::ServiceUnavailable => 1001,
            DiscordIPCErrorCodeNonCritical::TransactionAborted => 1002,
            DiscordIPCErrorCodeNonCritical::UnauthorizedForAchievement => 5010,
            DiscordIPCErrorCodeNonCritical::UnknownError => 1000,
        }
    }

    /// The name of this variant, for display purposes.
    pub fn name_str(&self) -> (r: &'static str)
        ensures
            r@ == non_critical_name(*self),
    {
        match self {
            DiscordIPCErrorCodeNonCritical::CaptureShortcutAlreadyListening => "CaptureShortcutAlreadyListening",
            DiscordIPCErrorCodeNonCritical::GetGuildTimedOut => "GetGuildTimedOut",
            DiscordIPCErrorCodeNonCritical::InvalidActivityJoinRequest => "InvalidActivityJoinRequest",
            DiscordIPCErrorCodeNonCritical::InvalidActivitySecret => "InvalidActivitySecret",
            DiscordIPCErrorCodeNonCritical::InvalidChannel => "InvalidChannel",
            DiscordIPCErrorCodeNonCritical::InvalidClientId => "InvalidClientId",
            DiscordIPCErrorCodeNonCritical::InvalidCommand => "InvalidCommand",
            DiscordIPCErrorCodeNonCritical::InvalidEntitlement => "InvalidEntitlement",
            DiscordIPCErrorCodeNonCritical::InvalidEvent => "InvalidEvent",
            DiscordIPCErrorCodeNonCritical::InvalidGiftCode => "InvalidGiftCode",
            DiscordIPCErrorCodeNonCritical::InvalidGuild => "InvalidGuild",
            DiscordIPCErrorCodeNonCritical::InvalidInvite => "InvalidInvite",
            DiscordIPCErrorCodeNonCritical::InvalidLobby => "InvalidLobby",
            DiscordIPCErrorCodeNonCritical::InvalidLobbySecret => "InvalidLobbySecret",
            DiscordIPCErrorCodeNonCritical::InvalidOrigin => "InvalidOrigin",
            DiscordIPCErrorCodeNonCritical::InvalidPayload => "InvalidPayload",
            DiscordIPCErrorCodeNonCritical::InvalidPermissions => "InvalidPermissions",
            DiscordIPCErrorCodeNonCritical::InvalidToken => "InvalidToken",
            DiscordIPCErrorCodeNonCritical::InvalidUser => "InvalidUser",
            DiscordIPCErrorCodeNonCritical::LobbyFull => "LobbyFull",
            DiscordIPCErrorCodeNonCritical::NoEligibleActivity => "NoEligibleActivity",
            DiscordIPCErrorCodeNonCritical::Oauth2Error => "Oauth2Error",
            DiscordIPCErrorCodeNonCritical::PurchaseCanceled => "PurchaseCanceled",
            DiscordIPCErrorCodeNonCritical::PurchaseError => "PurchaseError",
            DiscordIPCErrorCodeNonCritical::RateLimited => "RateLimited",
            DiscordIPCErrorCodeNonCritical::SelectChannelTimedOut => "SelectChannelTimedOut",
            DiscordIPCErrorCodeNonCritical::SelectVoiceForceRequired => "SelectVoiceForceRequired",
            DiscordIPCErrorCodeNonCritical::ServiceUnavailable => "ServiceUnavailable",
            DiscordIPCErrorCodeNonCritical::TransactionAborted => "TransactionAborted",
            DiscordIPCErrorCodeNonCritical::UnauthorizedForAchievement => "UnauthorizedForAchievement",
            DiscordIPCErrorCodeNonCritical::UnknownError => "UnknownError",
        }
    }
}


/// All of the possible errors from the companion application: a critical
/// or a non-critical code.
///
/// The two numeric spaces overlap (1000 is `CloseNormal` in the critical
/// table and `UnknownError` in the non-critical one).  Classification
/// tries the critical table first and falls back to the non-critical
/// one; this tie-break is the protocol's documented, deliberately kept
/// policy.
#[allow(missing_docs)]
#[derive(Debug, Clone, Copy, PartialEq, Eq, Hash, Structural)]
pub enum DiscordIPCErrorCode {
    Critical(DiscordIPCErrorCodeCritical),
    NonCritical(DiscordIPCErrorCodeNonCritical),
}

/// How a numeric code is classified: the critical table first, then the
/// non-critical table, and `None` when neither lists the code.
pub open spec fn error_code_of(code: u16) -> Option<DiscordIPCErrorCode> {
    match critical_from_repr(code) {
        Some(c) => Some(DiscordIPCErrorCode::Critical(c)),
        None => match non_critical_from_repr(code) {
            Some(n) => Some(DiscordIPCErrorCode::NonCritical(n)),
            None => None,
        },
    }
}

impl DiscordIPCErrorCode {
    /// Classifies a numeric code: critical first, non-critical second,
    /// `None` when neither table lists it.
    pub fn from_code(code: u16) -> (r: Option<DiscordIPCErrorCode>)
        ensures
            r == error_code_of(code),
    {
        if let Some(c) = DiscordIPCErrorCodeCritical::from_repr(code) {
            Some(DiscordIPCErrorCode::Critical(c))
        } else if let Some(n) = DiscordIPCErrorCodeNonCritical::from_repr(code) {
            Some(DiscordIPCErrorCode::NonCritical(n))
        } else {
            None
        }
    }

    /// The numeric code this classification came from.
    pub fn code(&self) -> (r: u16)
        ensures
            r == error_code_value(*self),
    {
        match self {
            DiscordIPCErrorCode::Critical(c) => c.code(),
            DiscordIPCErrorCode::NonCritical(n) => n.code(),
        }
    }

    /// The display name of the classified variant.
    pub fn name_str(&self) -> (r: &'static str)
        ensures
            r@ == error_code_name(*self),
    {
        match self {
            DiscordIPCErrorCode::Critical(c) => c.name_str(),
            DiscordIPCErrorCode::NonCritical(n) => n.name_str(),
        }
    }
}

/// The numeric code under a classified error code.
pub open spec fn error_code_value(c: DiscordIPCErrorCode) -> u16 {
    match c {
        DiscordIPCErrorCode::Critical(cc) => critical_code(cc),
        DiscordIPCErrorCode::NonCritical(nc) => non_critical_code(nc),
    }
}

/// The display name under a classified error code.
pub open spec fn error_code_name(c: DiscordIPCErrorCode) -> Seq<char> {
    match c {
        DiscordIPCErrorCode::Critical(cc) => critical_name(cc),
        DiscordIPCErrorCode::NonCritical(nc) => non_critical_name(nc),
    }
}

/// The critical table always wins: a code that it lists is classified as
/// its critical variant, whatever the non-critical table says of it.  In
/// particular 1000, which both tables list, is read as the critical
/// `CloseNormal`, not as the non-critical `UnknownError`.
pub proof fn lemma_error_code_priority(code: u16)
    ensures
        critical_from_repr(code) is Some ==> error_code_of(code) == Some(
            DiscordIPCErrorCode::Critical(critical_from_repr(code)->0),
        ),
        error_code_of(1000) == Some(
            DiscordIPCErrorCode::Critical(DiscordIPCErrorCodeCritical::CloseNormal),
        ),
        non_critical_from_repr(1000) == Some(DiscordIPCErrorCodeNonCritical::UnknownError),
{
}

/// A code in neither table is classified by nothing: classification
/// fails exactly on the codes that both tables miss.
pub proof fn lemma_unknown_code_rejected(code: u16)
    ensures
        error_code_of(code) is None <==> (critical_from_repr(code) is None
            && non_critical_from_repr(code) is None),
{
}

} // verus!
