use vstd::prelude::*;
use crate::json::str_eq;

verus! {

/// Every command identifier of the protocol.
#[allow(missing_docs)]
#[derive(Debug, Clone, Copy, PartialEq, Eq, Hash, Structural)]
pub enum ActivityCmd {
    Dispatch,
    Authorize,
    Authenticate,
    GetGuild,
    GetGuilds,
    GetChannel,
    GetChannels,
    CreateChannelInvite,
    GetRelationships,
    GetUser,
    Subscribe,
    Unsubscribe,
    SetUserVoiceSettings,
    SetUserVoiceSettings2,
    SelectVoiceChannel,
    GetSelectedVoiceChannel,
    SelectTextChannel,
    GetVoiceSettings,
    SetVoiceSettings2,
    SetVoiceSettings,
    CaptureShortcut,
    SetActivity,
    SendActivityJoinInvite,
    CloseActivityJoinRequest,
    ActivityInviteUser,
    AcceptActivityInvite,
    InviteBrowser,
    DeepLink,
    ConnectionsCallback,
    BraintreePopupBridgeCallback,
    GiftCodeBrowser,
    GuildTemplateBrowser,
    Overlay,
    BrowserHandoff,
    SetCertifiedDevices,
    GetImage,
    CreateLobby,
    UpdateLobby,
    DeleteLobby,
    UpdateLobbyMember,
    ConnectToLobby,
    DisconnectFromLobby,
    SendToLobby,
    SearchLobbies,
    ConnectToLobbyVoice,
    DisconnectFromLobbyVoice,
    SetOverlayLocked,
    OpenOverlayActivityInvite,
    OpenOverlayGuildInvite,
    OpenOverlayVoiceSettings,
    ValidateApplication,
    GetEntitlementTicket,
    GetApplicationTicket,
    StartPurchase,
    GetSkus,
    GetEntitlements,
    GetNetworkingConfig,
    NetworkingSystemMetrics,
    NetworkingPeerMetrics,
    NetworkingCreateToken,
    SetUserAchievement,
    GetUserAchievements,
}

/// Every event identifier of the protocol.
#[allow(missing_docs)]
#[derive(Debug, Clone, Copy, PartialEq, Eq, Hash, Structural)]
pub enum ActivityEvent {
    CreateUserUpdate,
    GuildStatus,
    GuildCrate,
    ChannelCreate,
    RelationshipUpdate,
    VoiceChannelSelect,
    VoiceStateCreate,
    VoiceStateDelete,
    VoiceStateUpdate,
    VoiceSettingsUpdate,
    VoiceSettingsUpdate2,
    VoiceConnectionStatus,
    SpeakingStart,
    SpeakingStop,
    GameJoin,
    GameSpectate,
    ActivityJoin,
    ActivityJoinRequest,
    ActivitySpectate,
    ActivityInvite,
    NotificationCreate,
    MessageCreate,
    MessageUpdate,
    MessageDelete,
    LobbyDelete,
    LobbyUpdate,
    LobbyMemberConnect,
    LobbyMemberDisconnect,
    LobbyMemberUpdate,
    LobbyMessage,
    CaptureShortcutChange,
    Overlay,
    OverlayUpdate,
    EntitlementCreate,
    EntitlementDelete,
    UserAchievementUpdate,
    Ready,
    Error,
}

/// The wire name of each `ActivityCmd` variant.
pub open spec fn cmd_name(c: ActivityCmd) -> Seq<char> {
    match c {
        ActivityCmd::Dispatch => "DISPATCH"@,
        ActivityCmd::Authorize => "AUTHORIZE"@,
        ActivityCmd::Authenticate => "AUTHENTICATE"@,
        ActivityCmd::GetGuild => "GET_GUILD"@,
        ActivityCmd::GetGuilds => "GET_GUILDS"@,
        ActivityCmd::GetChannel => "GET_CHANNEL"@,
        ActivityCmd::GetChannels => "GET_CHANNELS"@,
        ActivityCmd::CreateChannelInvite => "CREATE_CHANNEL_INVITE"@,
        ActivityCmd::GetRelationships => "GET_RELATIONSHIPS"@,
        ActivityCmd::GetUser => "GET_USER"@,
        ActivityCmd::Subscribe => "SUBSCRIBE"@,
        ActivityCmd::Unsubscribe => "UNSUBSCRIBE"@,
        ActivityCmd::SetUserVoiceSettings => "SET_USER_VOICE_SETTINGS"@,
        ActivityCmd::SetUserVoiceSettings2 => "SET_USER_VOICE_SETTINGS2"@,
        ActivityCmd::SelectVoiceChannel => "SELECT_VOICE_CHANNEL"@,
        ActivityCmd::GetSelectedVoiceChannel => "GET_SELECTED_VOICE_CHANNEL"@,
        ActivityCmd::SelectTextChannel => "SELECT_TEXT_CHANNEL"@,
        ActivityCmd::GetVoiceSettings => "GET_VOICE_SETTINGS"@,
        ActivityCmd::SetVoiceSettings2 => "SET_VOICE_SETTINGS2"@,
        ActivityCmd::SetVoiceSettings => "SET_VOICE_SETTINGS"@,
        ActivityCmd::CaptureShortcut => "CAPTURE_SHORTCUT"@,
        ActivityCmd::SetActivity => "SET_ACTIVITY"@,
        ActivityCmd::SendActivityJoinInvite => "SEND_ACTIVITY_JOIN_INVITE"@,
        ActivityCmd::CloseActivityJoinRequest => "CLOSE_ACTIVITY_JOIN_REQUEST"@,
        ActivityCmd::ActivityInviteUser => "ACTIVITY_INVITE_USER"@,
        ActivityCmd::AcceptActivityInvite => "ACCEPT_ACTIVITY_INVITE"@,
        ActivityCmd::InviteBrowser => "INVITE_BROWSER"@,
        ActivityCmd::DeepLink => "DEEP_LINK"@,
        ActivityCmd::ConnectionsCallback => "CONNECTIONS_CALLBACK"@,
        ActivityCmd::BraintreePopupBridgeCallback => "BRAINTREE_POPUP_BRIDGE_CALLBACK"@,
        ActivityCmd::GiftCodeBrowser => "GIFT_CODE_BROWSER"@,
        ActivityCmd::GuildTemplateBrowser => "GUILD_TEMPLATE_BROWSER"@,
        ActivityCmd::Overlay => "OVERLAY"@,
        ActivityCmd::BrowserHandoff => "BROWSER_HANDOFF"@,
        ActivityCmd::SetCertifiedDevices => "SET_CERTIFIED_DEVICES"@,
        ActivityCmd::GetImage => "GET_IMAGE"@,
        ActivityCmd::CreateLobby => "CREATE_LOBBY"@,
        ActivityCmd::UpdateLobby => "UPDATE_LOBBY"@,
        ActivityCmd::DeleteLobby => "DELETE_LOBBY"@,
        ActivityCmd::UpdateLobbyMember => "UPDATE_LOBBY_MEMBER"@,
        ActivityCmd::ConnectToLobby => "CONNECT_TO_LOBBY"@,
        ActivityCmd::DisconnectFromLobby => "DISCONNECT_FROM_LOBBY"@,
        ActivityCmd::SendToLobby => "SEND_TO_LOBBY"@,
        ActivityCmd::SearchLobbies => "SEARCH_LOBBIES"@,
        ActivityCmd::ConnectToLobbyVoice => "CONNECT_TO_LOBBY_VOICE"@,
        ActivityCmd::DisconnectFromLobbyVoice => "DISCONNECT_FROM_LOBBY_VOICE"@,
        ActivityCmd::SetOverlayLocked => "SET_OVERLAY_LOCKED"@,
        ActivityCmd::OpenOverlayActivityInvite => "OPEN_OVERLAY_ACTIVITY_INVITE"@,
        ActivityCmd::OpenOverlayGuildInvite => "OPEN_OVERLAY_GUILD_INVITE"@,
        ActivityCmd::OpenOverlayVoiceSettings => "OPEN_OVERLAY_VOICE_SETTINGS"@,
        ActivityCmd::ValidateApplication => "VALIDATE_APPLICATION"@,
        ActivityCmd::GetEntitlementTicket => "GET_ENTITLEMENT_TICKET"@,
        ActivityCmd::GetApplicationTicket => "GET_APPLICATION_TICKET"@,
        ActivityCmd::StartPurchase => "START_PURCHASE"@,
        ActivityCmd::GetSkus => "GET_SKUS"@,
        ActivityCmd::GetEntitlements => "GET_ENTITLEMENTS"@,
        ActivityCmd::GetNetworkingConfig => "GET_NETWORKING_CONFIG"@,
        ActivityCmd::NetworkingSystemMetrics => "NETWORKING_SYSTEM_METRICS"@,
        ActivityCmd::NetworkingPeerMetrics => "NETWORKING_PEER_METRICS"@,
        ActivityCmd::NetworkingCreateToken => "NETWORKING_CREATE_TOKEN"@,
        ActivityCmd::SetUserAchievement => "SET_USER_ACHIEVEMENT"@,
        ActivityCmd::GetUserAchievements => "GET_USER_ACHIEVEMENTS"@,
    }
}

/// The wire name of a command, as serialized and parsed on the wire.
pub fn cmd_name_str(c: &ActivityCmd) -> (r: &'static str)
    ensures
        r@ == cmd_name(*c),
{
    match c {
        ActivityCmd::Dispatch => "DISPATCH",
        ActivityCmd::Authorize => "AUTHORIZE",
        ActivityCmd::Authenticate => "AUTHENTICATE",
        ActivityCmd::GetGuild => "GET_GUILD",
        ActivityCmd::GetGuilds => "GET_GUILDS",
        ActivityCmd::GetChannel => "GET_CHANNEL",
        ActivityCmd::GetChannels => "GET_CHANNELS",
        ActivityCmd::CreateChannelInvite => "CREATE_CHANNEL_INVITE",
        ActivityCmd::GetRelationships => "GET_RELATIONSHIPS",
        ActivityCmd::GetUser => "GET_USER",
        ActivityCmd::Subscribe => "SUBSCRIBE",
        ActivityCmd::Unsubscribe => "UNSUBSCRIBE",
        ActivityCmd::SetUserVoiceSettings => "SET_USER_VOICE_SETTINGS",
        ActivityCmd::SetUserVoiceSettings2 => "SET_USER_VOICE_SETTINGS2",
        ActivityCmd::SelectVoiceChannel => "SELECT_VOICE_CHANNEL",
        ActivityCmd::GetSelectedVoiceChannel => "GET_SELECTED_VOICE_CHANNEL",
        ActivityCmd::SelectTextChannel => "SELECT_TEXT_CHANNEL",
        ActivityCmd::GetVoiceSettings => "GET_VOICE_SETTINGS",
        ActivityCmd::SetVoiceSettings2 => "SET_VOICE_SETTINGS2",
        ActivityCmd::SetVoiceSettings => "SET_VOICE_SETTINGS",
        ActivityCmd::CaptureShortcut => "CAPTURE_SHORTCUT",
        ActivityCmd::SetActivity => "SET_ACTIVITY",
        ActivityCmd::SendActivityJoinInvite => "SEND_ACTIVITY_JOIN_INVITE",
        ActivityCmd::CloseActivityJoinRequest => "CLOSE_ACTIVITY_JOIN_REQUEST",
        ActivityCmd::ActivityInviteUser => "ACTIVITY_INVITE_USER",
        ActivityCmd::AcceptActivityInvite => "ACCEPT_ACTIVITY_INVITE",
        ActivityCmd::InviteBrowser => "INVITE_BROWSER",
        ActivityCmd::DeepLink => "DEEP_LINK",
        ActivityCmd::ConnectionsCallback => "CONNECTIONS_CALLBACK",
        ActivityCmd::BraintreePopupBridgeCallback => "BRAINTREE_POPUP_BRIDGE_CALLBACK",
        ActivityCmd::GiftCodeBrowser => "GIFT_CODE_BROWSER",
        ActivityCmd::GuildTemplateBrowser => "GUILD_TEMPLATE_BROWSER",
        ActivityCmd::Overlay => "OVERLAY",
        ActivityCmd::BrowserHandoff => "BROWSER_HANDOFF",
        ActivityCmd::SetCertifiedDevices => "SET_CERTIFIED_DEVICES",
        ActivityCmd::GetImage => "GET_IMAGE",
        ActivityCmd::CreateLobby => "CREATE_LOBBY",
        ActivityCmd::UpdateLobby => "UPDATE_LOBBY",
        ActivityCmd::DeleteLobby => "DELETE_LOBBY",
        ActivityCmd::UpdateLobbyMember => "UPDATE_LOBBY_MEMBER",
        ActivityCmd::ConnectToLobby => "CONNECT_TO_LOBBY",
        ActivityCmd::DisconnectFromLobby => "DISCONNECT_FROM_LOBBY",
        ActivityCmd::SendToLobby => "SEND_TO_LOBBY",
        ActivityCmd::SearchLobbies => "SEARCH_LOBBIES",
        ActivityCmd::ConnectToLobbyVoice => "CONNECT_TO_LOBBY_VOICE",
        ActivityCmd::DisconnectFromLobbyVoice => "DISCONNECT_FROM_LOBBY_VOICE",
        ActivityCmd::SetOverlayLocked => "SET_OVERLAY_LOCKED",
        ActivityCmd::OpenOverlayActivityInvite => "OPEN_OVERLAY_ACTIVITY_INVITE",
        ActivityCmd::OpenOverlayGuildInvite => "OPEN_OVERLAY_GUILD_INVITE",
        ActivityCmd::OpenOverlayVoiceSettings => "OPEN_OVERLAY_VOICE_SETTINGS",
        ActivityCmd::ValidateApplication => "VALIDATE_APPLICATION",
        ActivityCmd::GetEntitlementTicket => "GET_ENTITLEMENT_TICKET",
        ActivityCmd::GetApplicationTicket => "GET_APPLICATION_TICKET",
        ActivityCmd::StartPurchase => "START_PURCHASE",
        ActivityCmd::GetSkus => "GET_SKUS",
        ActivityCmd::GetEntitlements => "GET_ENTITLEMENTS",
        ActivityCmd::GetNetworkingConfig => "GET_NETWORKING_CONFIG",
        ActivityCmd::NetworkingSystemMetrics => "NETWORKING_SYSTEM_METRICS",
        ActivityCmd::NetworkingPeerMetrics => "NETWORKING_PEER_METRICS",
        ActivityCmd::NetworkingCreateToken => "NETWORKING_CREATE_TOKEN",
        ActivityCmd::SetUserAchievement => "SET_USER_ACHIEVEMENT",
        ActivityCmd::GetUserAchievements => "GET_USER_ACHIEVEMENTS",
    }
}

/// The `ActivityCmd` variant named by a wire string, if any.
pub open spec fn cmd_of_name(s: Seq<char>) -> Option<ActivityCmd> {
    if s == "DISPATCH"@ {
        Some(ActivityCmd::Dispatch)
    } else if s == "AUTHORIZE"@ {
        Some(ActivityCmd::Authorize)
    } else if s == "AUTHENTICATE"@ {
        Some(ActivityCmd::Authenticate)
    } else if s == "GET_GUILD"@ {
        Some(ActivityCmd::GetGuild)
    } else if s == "GET_GUILDS"@ {
        Some(ActivityCmd::GetGuilds)
    } else if s == "GET_CHANNEL"@ {
        Some(ActivityCmd::GetChannel)
    } else if s == "GET_CHANNELS"@ {
        Some(ActivityCmd::GetChannels)
    } else if s == "CREATE_CHANNEL_INVITE"@ {
        Some(ActivityCmd::CreateChannelInvite)
    } else if s == "GET_RELATIONSHIPS"@ {
        Some(ActivityCmd::GetRelationships)
    } else if s == "GET_USER"@ {
        Some(ActivityCmd::GetUser)
    } else if s == "SUBSCRIBE"@ {
        Some(ActivityCmd::Subscribe)
    } else if s == "UNSUBSCRIBE"@ {
        Some(ActivityCmd::Unsubscribe)
    } else if s == "SET_USER_VOICE_SETTINGS"@ {
        Some(ActivityCmd::SetUserVoiceSettings)
    } else if s == "SET_USER_VOICE_SETTINGS2"@ {
        Some(ActivityCmd::SetUserVoiceSettings2)
    } else if s == "SELECT_VOICE_CHANNEL"@ {
        Some(ActivityCmd::SelectVoiceChannel)
    } else if s == "GET_SELECTED_VOICE_CHANNEL"@ {
        Some(ActivityCmd::GetSelectedVoiceChannel)
    } else if s == "SELECT_TEXT_CHANNEL"@ {
        Some(ActivityCmd::SelectTextChannel)
    } else if s == "GET_VOICE_SETTINGS"@ {
        Some(ActivityCmd::GetVoiceSettings)
    } else if s == "SET_VOICE_SETTINGS2"@ {
        Some(ActivityCmd::SetVoiceSettings2)
    } else if s == "SET_VOICE_SETTINGS"@ {
        Some(ActivityCmd::SetVoiceSettings)
    } else if s == "CAPTURE_SHORTCUT"@ {
        Some(ActivityCmd::CaptureShortcut)
    } else if s == "SET_ACTIVITY"@ {
        Some(ActivityCmd::SetActivity)
    } else if s == "SEND_ACTIVITY_JOIN_INVITE"@ {
        Some(ActivityCmd::SendActivityJoinInvite)
    } else if s == "CLOSE_ACTIVITY_JOIN_REQUEST"@ {
        Some(ActivityCmd::CloseActivityJoinRequest)
    } else if s == "ACTIVITY_INVITE_USER"@ {
        Some(ActivityCmd::ActivityInviteUser)
    } else if s == "ACCEPT_ACTIVITY_INVITE"@ {
        Some(ActivityCmd::AcceptActivityInvite)
    } else if s == "INVITE_BROWSER"@ {
        Some(ActivityCmd::InviteBrowser)
    } else if s == "DEEP_LINK"@ {
        Some(ActivityCmd::DeepLink)
    } else if s == "CONNECTIONS_CALLBACK"@ {
        Some(ActivityCmd::ConnectionsCallback)
    } else if s == "BRAINTREE_POPUP_BRIDGE_CALLBACK"@ {
        Some(ActivityCmd::BraintreePopupBridgeCallback)
    } else if s == "GIFT_CODE_BROWSER"@ {
        Some(ActivityCmd::GiftCodeBrowser)
    } else if s == "GUILD_TEMPLATE_BROWSER"@ {
        Some(ActivityCmd::GuildTemplateBrowser)
    } else if s == "OVERLAY"@ {
        Some(ActivityCmd::Overlay)
    } else if s == "BROWSER_HANDOFF"@ {
        Some(ActivityCmd::BrowserHandoff)
    } else if s == "SET_CERTIFIED_DEVICES"@ {
        Some(ActivityCmd::SetCertifiedDevices)
    } else if s == "GET_IMAGE"@ {
        Some(ActivityCmd::GetImage)
    } else if s == "CREATE_LOBBY"@ {
        Some(ActivityCmd::CreateLobby)
    } else if s == "UPDATE_LOBBY"@ {
        Some(ActivityCmd::UpdateLobby)
    } else if s == "DELETE_LOBBY"@ {
        Some(ActivityCmd::DeleteLobby)
    } else if s == "UPDATE_LOBBY_MEMBER"@ {
        Some(ActivityCmd::UpdateLobbyMember)
    } else if s == "CONNECT_TO_LOBBY"@ {
        Some(ActivityCmd::ConnectToLobby)
    } else if s == "DISCONNECT_FROM_LOBBY"@ {
        Some(ActivityCmd::DisconnectFromLobby)
    } else if s == "SEND_TO_LOBBY"@ {
        Some(ActivityCmd::SendToLobby)
    } else if s == "SEARCH_LOBBIES"@ {
        Some(ActivityCmd::SearchLobbies)
    } else if s == "CONNECT_TO_LOBBY_VOICE"@ {
        Some(ActivityCmd::ConnectToLobbyVoice)
    } else if s == "DISCONNECT_FROM_LOBBY_VOICE"@ {
        Some(ActivityCmd::DisconnectFromLobbyVoice)
    } else if s == "SET_OVERLAY_LOCKED"@ {
        Some(ActivityCmd::SetOverlayLocked)
    } else if s == "OPEN_OVERLAY_ACTIVITY_INVITE"@ {
        Some(ActivityCmd::OpenOverlayActivityInvite)
    } else if s == "OPEN_OVERLAY_GUILD_INVITE"@ {
        Some(ActivityCmd::OpenOverlayGuildInvite)
    } else if s == "OPEN_OVERLAY_VOICE_SETTINGS"@ {
        Some(ActivityCmd::OpenOverlayVoiceSettings)
    } else if s == "VALIDATE_APPLICATION"@ {
        Some(ActivityCmd::ValidateApplication)
    } else if s == "GET_ENTITLEMENT_TICKET"@ {
        Some(ActivityCmd::GetEntitlementTicket)
    } else if s == "GET_APPLICATION_TICKET"@ {
        Some(ActivityCmd::GetApplicationTicket)
    } else if s == "START_PURCHASE"@ {
        Some(ActivityCmd::StartPurchase)
    } else if s == "GET_SKUS"@ {
        Some(ActivityCmd::GetSkus)
    } else if s == "GET_ENTITLEMENTS"@ {
        Some(ActivityCmd::GetEntitlements)
    } else if s == "GET_NETWORKING_CONFIG"@ {
        Some(ActivityCmd::GetNetworkingConfig)
    } else if s == "NETWORKING_SYSTEM_METRICS"@ {
        Some(ActivityCmd::NetworkingSystemMetrics)
    } else if s == "NETWORKING_PEER_METRICS"@ {
        Some(ActivityCmd::NetworkingPeerMetrics)
    } else if s == "NETWORKING_CREATE_TOKEN"@ {
        Some(ActivityCmd::NetworkingCreateToken)
    } else if s == "SET_USER_ACHIEVEMENT"@ {
        Some(ActivityCmd::SetUserAchievement)
    } else if s == "GET_USER_ACHIEVEMENTS"@ {
        Some(ActivityCmd::GetUserAchievements)
    } else {
        None
    }
}

/// The command a wire name stands for; `None` for an unknown name.
pub fn cmd_from_name(s: &str) -> (r: Option<ActivityCmd>)
    ensures
        r == cmd_of_name(s@),
{
    if str_eq(s, "DISPATCH") {
        Some(ActivityCmd::Dispatch)
    } else if str_eq(s, "AUTHORIZE") {
        Some(ActivityCmd::Authorize)
    } else if str_eq(s, "AUTHENTICATE") {
        Some(ActivityCmd::Authenticate)
    } else if str_eq(s, "GET_GUILD") {
        Some(ActivityCmd::GetGuild)
    } else if str_eq(s, "GET_GUILDS") {
        Some(ActivityCmd::GetGuilds)
    } else if str_eq(s, "GET_CHANNEL") {
        Some(ActivityCmd::GetChannel)
    } else if str_eq(s, "GET_CHANNELS") {
        Some(ActivityCmd::GetChannels)
    } else if str_eq(s, "CREATE_CHANNEL_INVITE") {
        Some(ActivityCmd::CreateChannelInvite)
    } else if str_eq(s, "GET_RELATIONSHIPS") {
        Some(ActivityCmd::GetRelationships)
    } else if str_eq(s, "GET_USER") {
        Some(ActivityCmd::GetUser)
    } else if str_eq(s, "SUBSCRIBE") {
        Some(ActivityCmd::Subscribe)
    } else if str_eq(s, "UNSUBSCRIBE") {
        Some(ActivityCmd::Unsubscribe)
    } else if str_eq(s, "SET_USER_VOICE_SETTINGS") {
        Some(ActivityCmd::SetUserVoiceSettings)
    } else if str_eq(s, "SET_USER_VOICE_SETTINGS2") {
        Some(ActivityCmd::SetUserVoiceSettings2)
    } else if str_eq(s, "SELECT_VOICE_CHANNEL") {
        Some(ActivityCmd::SelectVoiceChannel)
    } else if str_eq(s, "GET_SELECTED_VOICE_CHANNEL") {
        Some(ActivityCmd::GetSelectedVoiceChannel)
    } else if str_eq(s, "SELECT_TEXT_CHANNEL") {
        Some(ActivityCmd::SelectTextChannel)
    } else if str_eq(s, "GET_VOICE_SETTINGS") {
        Some(ActivityCmd::GetVoiceSettings)
    } else if str_eq(s, "SET_VOICE_SETTINGS2") {
        Some(ActivityCmd::SetVoiceSettings2)
    } else if str_eq(s, "SET_VOICE_SETTINGS") {
        Some(ActivityCmd::SetVoiceSettings)
    } else if str_eq(s, "CAPTURE_SHORTCUT") {
        Some(ActivityCmd::CaptureShortcut)
    } else if str_eq(s, "SET_ACTIVITY") {
        Some(ActivityCmd::SetActivity)
    } else if str_eq(s, "SEND_ACTIVITY_JOIN_INVITE") {
        Some(ActivityCmd::SendActivityJoinInvite)
    } else if str_eq(s, "CLOSE_ACTIVITY_JOIN_REQUEST") {
        Some(ActivityCmd::CloseActivityJoinRequest)
    } else if str_eq(s, "ACTIVITY_INVITE_USER") {
        Some(ActivityCmd::ActivityInviteUser)
    } else if str_eq(s, "ACCEPT_ACTIVITY_INVITE") {
        Some(ActivityCmd::AcceptActivityInvite)
    } else if str_eq(s, "INVITE_BROWSER") {
        Some(ActivityCmd::InviteBrowser)
    } else if str_eq(s, "DEEP_LINK") {
        Some(ActivityCmd::DeepLink)
    } else if str_eq(s, "CONNECTIONS_CALLBACK") {
        Some(ActivityCmd::ConnectionsCallback)
    } else if str_eq(s, "BRAINTREE_POPUP_BRIDGE_CALLBACK") {
        Some(ActivityCmd::BraintreePopupBridgeCallback)
    } else if str_eq(s, "GIFT_CODE_BROWSER") {
        Some(ActivityCmd::GiftCodeBrowser)
    } else if str_eq(s, "GUILD_TEMPLATE_BROWSER") {
        Some(ActivityCmd::GuildTemplateBrowser)
    } else if str_eq(s, "OVERLAY") {
        Some(ActivityCmd::Overlay)
    } else if str_eq(s, "BROWSER_HANDOFF") {
        Some(ActivityCmd::BrowserHandoff)
    } else if str_eq(s, "SET_CERTIFIED_DEVICES") {
        Some(ActivityCmd::SetCertifiedDevices)
    } else if str_eq(s, "GET_IMAGE") {
        Some(ActivityCmd::GetImage)
    } else if str_eq(s, "CREATE_LOBBY") {
        Some(ActivityCmd::CreateLobby)
    } else if str_eq(s, "UPDATE_LOBBY") {
        Some(ActivityCmd::UpdateLobby)
    } else if str_eq(s, "DELETE_LOBBY") {
        Some(ActivityCmd::DeleteLobby)
    } else if str_eq(s, "UPDATE_LOBBY_MEMBER") {
        Some(ActivityCmd::UpdateLobbyMember)
    } else if str_eq(s, "CONNECT_TO_LOBBY") {
        Some(ActivityCmd::ConnectToLobby)
    } else if str_eq(s, "DISCONNECT_FROM_LOBBY") {
        Some(ActivityCmd::DisconnectFromLobby)
    } else if str_eq(s, "SEND_TO_LOBBY") {
        Some(ActivityCmd::SendToLobby)
    } else if str_eq(s, "SEARCH_LOBBIES") {
        Some(ActivityCmd::SearchLobbies)
    } else if str_eq(s, "CONNECT_TO_LOBBY_VOICE") {
        Some(ActivityCmd::ConnectToLobbyVoice)
    } else if str_eq(s, "DISCONNECT_FROM_LOBBY_VOICE") {
        Some(ActivityCmd::DisconnectFromLobbyVoice)
    } else if str_eq(s, "SET_OVERLAY_LOCKED") {
        Some(ActivityCmd::SetOverlayLocked)
    } else if str_eq(s, "OPEN_OVERLAY_ACTIVITY_INVITE") {
        Some(ActivityCmd::OpenOverlayActivityInvite)
    } else if str_eq(s, "OPEN_OVERLAY_GUILD_INVITE") {
        Some(ActivityCmd::OpenOverlayGuildInvite)
    } else if str_eq(s, "OPEN_OVERLAY_VOICE_SETTINGS") {
        Some(ActivityCmd::OpenOverlayVoiceSettings)
    } else if str_eq(s, "VALIDATE_APPLICATION") {
        Some(ActivityCmd::ValidateApplication)
    } else if str_eq(s, "GET_ENTITLEMENT_TICKET") {
        Some(ActivityCmd::GetEntitlementTicket)
    } else if str_eq(s, "GET_APPLICATION_TICKET") {
        Some(ActivityCmd::GetApplicationTicket)
    } else if str_eq(s, "START_PURCHASE") {
        Some(ActivityCmd::StartPurchase)
    } else if str_eq(s, "GET_SKUS") {
        Some(ActivityCmd::GetSkus)
    } else if str_eq(s, "GET_ENTITLEMENTS") {
        Some(ActivityCmd::GetEntitlements)
    } else if str_eq(s, "GET_NETWORKING_CONFIG") {
        Some(ActivityCmd::GetNetworkingConfig)
    } else if str_eq(s, "NETWORKING_SYSTEM_METRICS") {
        Some(ActivityCmd::NetworkingSystemMetrics)
    } else if str_eq(s, "NETWORKING_PEER_METRICS") {
        Some(ActivityCmd::NetworkingPeerMetrics)
    } else if str_eq(s, "NETWORKING_CREATE_TOKEN") {
        Some(ActivityCmd::NetworkingCreateToken)
    } else if str_eq(s, "SET_USER_ACHIEVEMENT") {
        Some(ActivityCmd::SetUserAchievement)
    } else if str_eq(s, "GET_USER_ACHIEVEMENTS") {
        Some(ActivityCmd::GetUserAchievements)
    } else {
        None
    }
}

/// The wire name of each `ActivityEvent` variant.
pub open spec fn evt_name(c: ActivityEvent) -> Seq<char> {
    match c {
        ActivityEvent::CreateUserUpdate => "CREATE_USER_UPDATE"@,
        ActivityEvent::GuildStatus => "GUILD_STATUS"@,
        ActivityEvent::GuildCrate => "GUILD_CRATE"@,
        ActivityEvent::ChannelCreate => "CHANNEL_CREATE"@,
        ActivityEvent::RelationshipUpdate => "RELATIONSHIP_UPDATE"@,
        ActivityEvent::VoiceChannelSelect => "VOICE_CHANNEL_SELECT"@,
        ActivityEvent::VoiceStateCreate => "VOICE_STATE_CREATE"@,
        ActivityEvent::VoiceStateDelete => "VOICE_STATE_DELETE"@,
        ActivityEvent::VoiceStateUpdate => "VOICE_STATE_UPDATE"@,
        ActivityEvent::VoiceSettingsUpdate => "VOICE_SETTINGS_UPDATE"@,
        ActivityEvent::VoiceSettingsUpdate2 => "VOICE_SETTINGS_UPDATE2"@,
        ActivityEvent::VoiceConnectionStatus => "VOICE_CONNECTION_STATUS"@,
        ActivityEvent::SpeakingStart => "SPEAKING_START"@,
        ActivityEvent::SpeakingStop => "SPEAKING_STOP"@,
        ActivityEvent::GameJoin => "GAME_JOIN"@,
        ActivityEvent::GameSpectate => "GAME_SPECTATE"@,
        ActivityEvent::ActivityJoin => "ACTIVITY_JOIN"@,
        ActivityEvent::ActivityJoinRequest => "ACTIVITY_JOIN_REQUEST"@,
        ActivityEvent::ActivitySpectate => "ACTIVITY_SPECTATE"@,
        ActivityEvent::ActivityInvite => "ACTIVITY_INVITE"@,
        ActivityEvent::NotificationCreate => "NOTIFICATION_CREATE"@,
        ActivityEvent::MessageCreate => "MESSAGE_CREATE"@,
        ActivityEvent::MessageUpdate => "MESSAGE_UPDATE"@,
        ActivityEvent::MessageDelete => "MESSAGE_DELETE"@,
        ActivityEvent::LobbyDelete => "LOBBY_DELETE"@,
        ActivityEvent::LobbyUpdate => "LOBBY_UPDATE"@,
        ActivityEvent::LobbyMemberConnect => "LOBBY_MEMBER_CONNECT"@,
        ActivityEvent::LobbyMemberDisconnect => "LOBBY_MEMBER_DISCONNECT"@,
        ActivityEvent::LobbyMemberUpdate => "LOBBY_MEMBER_UPDATE"@,
        ActivityEvent::LobbyMessage => "LOBBY_MESSAGE"@,
        ActivityEvent::CaptureShortcutChange => "CAPTURE_SHORTCUT_CHANGE"@,
        ActivityEvent::Overlay => "OVERLAY"@,
        ActivityEvent::OverlayUpdate => "OVERLAY_UPDATE"@,
        ActivityEvent::EntitlementCreate => "ENTITLEMENT_CREATE"@,
        ActivityEvent::EntitlementDelete => "ENTITLEMENT_DELETE"@,
        ActivityEvent::UserAchievementUpdate => "USER_ACHIEVEMENT_UPDATE"@,
        ActivityEvent::Ready => "READY"@,
        ActivityEvent::Error => "ERROR"@,
    }
}

/// The wire name of an event, as serialized and parsed on the wire.
pub fn evt_name_str(c: &ActivityEvent) -> (r: &'static str)
    ensures
        r@ == evt_name(*c),
{
    match c {
        ActivityEvent::CreateUserUpdate => "CREATE_USER_UPDATE",
        ActivityEvent::GuildStatus => "GUILD_STATUS",
        ActivityEvent::GuildCrate => "GUILD_CRATE",
        ActivityEvent::ChannelCreate => "CHANNEL_CREATE",
        ActivityEvent::RelationshipUpdate => "RELATIONSHIP_UPDATE",
        ActivityEvent::VoiceChannelSelect => "VOICE_CHANNEL_SELECT",
        ActivityEvent::VoiceStateCreate => "VOICE_STATE_CREATE",
        ActivityEvent::VoiceStateDelete => "VOICE_STATE_DELETE",
        ActivityEvent::VoiceStateUpdate => "VOICE_STATE_UPDATE",
        ActivityEvent::VoiceSettingsUpdate => "VOICE_SETTINGS_UPDATE",
        ActivityEvent::VoiceSettingsUpdate2 => "VOICE_SETTINGS_UPDATE2",
        ActivityEvent::VoiceConnectionStatus => "VOICE_CONNECTION_STATUS",
        ActivityEvent::SpeakingStart => "SPEAKING_START",
        ActivityEvent::SpeakingStop => "SPEAKING_STOP",
        ActivityEvent::GameJoin => "GAME_JOIN",
        ActivityEvent::GameSpectate => "GAME_SPECTATE",
        ActivityEvent::ActivityJoin => "ACTIVITY_JOIN",
        ActivityEvent::ActivityJoinRequest => "ACTIVITY_JOIN_REQUEST",
        ActivityEvent::ActivitySpectate => "ACTIVITY_SPECTATE",
        ActivityEvent::ActivityInvite => "ACTIVITY_INVITE",
        ActivityEvent::NotificationCreate => "NOTIFICATION_CREATE",
        ActivityEvent::MessageCreate => "MESSAGE_CREATE",
        ActivityEvent::MessageUpdate => "MESSAGE_UPDATE",
        ActivityEvent::MessageDelete => "MESSAGE_DELETE",
        ActivityEvent::LobbyDelete => "LOBBY_DELETE",
        ActivityEvent::LobbyUpdate => "LOBBY_UPDATE",
        ActivityEvent::LobbyMemberConnect => "LOBBY_MEMBER_CONNECT",
        ActivityEvent::LobbyMemberDisconnect => "LOBBY_MEMBER_DISCONNECT",
        ActivityEvent::LobbyMemberUpdate => "LOBBY_MEMBER_UPDATE",
        ActivityEvent::LobbyMessage => "LOBBY_MESSAGE",
        ActivityEvent::CaptureShortcutChange => "CAPTURE_SHORTCUT_CHANGE",
        ActivityEvent::Overlay => "OVERLAY",
        ActivityEvent::OverlayUpdate => "OVERLAY_UPDATE",
        ActivityEvent::EntitlementCreate => "ENTITLEMENT_CREATE",
        ActivityEvent::EntitlementDelete => "ENTITLEMENT_DELETE",
        ActivityEvent::UserAchievementUpdate => "USER_ACHIEVEMENT_UPDATE",
        ActivityEvent::Ready => "READY",
        ActivityEvent::Error => "ERROR",
    }
}

/// The `ActivityEvent` variant named by a wire string, if any.
pub open spec fn evt_of_name(s: Seq<char>) -> Option<ActivityEvent> {
    if s == "CREATE_USER_UPDATE"@ {
        Some(ActivityEvent::CreateUserUpdate)
    } else if s == "GUILD_STATUS"@ {
        Some(ActivityEvent::GuildStatus)
    } else if s == "GUILD_CRATE"@ {
        Some(ActivityEvent::GuildCrate)
    } else if s == "CHANNEL_CREATE"@ {
        Some(ActivityEvent::ChannelCreate)
    } else if s == "RELATIONSHIP_UPDATE"@ {
        Some(ActivityEvent::RelationshipUpdate)
    } else if s == "VOICE_CHANNEL_SELECT"@ {
        Some(ActivityEvent::VoiceChannelSelect)
    } else if s == "VOICE_STATE_CREATE"@ {
        Some(ActivityEvent::VoiceStateCreate)
    } else if s == "VOICE_STATE_DELETE"@ {
        Some(ActivityEvent::VoiceStateDelete)
    } else if s == "VOICE_STATE_UPDATE"@ {
        Some(ActivityEvent::VoiceStateUpdate)
    } else if s == "VOICE_SETTINGS_UPDATE"@ {
        Some(ActivityEvent::VoiceSettingsUpdate)
    } else if s == "VOICE_SETTINGS_UPDATE2"@ {
        Some(ActivityEvent::VoiceSettingsUpdate2)
    } else if s == "VOICE_CONNECTION_STATUS"@ {
        Some(ActivityEvent::VoiceConnectionStatus)
    } else if s == "SPEAKING_START"@ {
        Some(ActivityEvent::SpeakingStart)
    } else if s == "SPEAKING_STOP"@ {
        Some(ActivityEvent::SpeakingStop)
    } else if s == "GAME_JOIN"@ {
        Some(ActivityEvent::GameJoin)
    } else if s == "GAME_SPECTATE"@ {
        Some(ActivityEvent::GameSpectate)
    } else if s == "ACTIVITY_JOIN"@ {
        Some(ActivityEvent::ActivityJoin)
    } else if s == "ACTIVITY_JOIN_REQUEST"@ {
        Some(ActivityEvent::ActivityJoinRequest)
    } else if s == "ACTIVITY_SPECTATE"@ {
        Some(ActivityEvent::ActivitySpectate)
    } else if s == "ACTIVITY_INVITE"@ {
        Some(ActivityEvent::ActivityInvite)
    } else if s == "NOTIFICATION_CREATE"@ {
        Some(ActivityEvent::NotificationCreate)
    } else if s == "MESSAGE_CREATE"@ {
        Some(ActivityEvent::MessageCreate)
    } else if s == "MESSAGE_UPDATE"@ {
        Some(ActivityEvent::MessageUpdate)
    } else if s == "MESSAGE_DELETE"@ {
        Some(ActivityEvent::MessageDelete)
    } else if s == "LOBBY_DELETE"@ {
        Some(ActivityEvent::LobbyDelete)
    } else if s == "LOBBY_UPDATE"@ {
        Some(ActivityEvent::LobbyUpdate)
    } else if s == "LOBBY_MEMBER_CONNECT"@ {
        Some(ActivityEvent::LobbyMemberConnect)
    } else if s == "LOBBY_MEMBER_DISCONNECT"@ {
        Some(ActivityEvent::LobbyMemberDisconnect)
    } else if s == "LOBBY_MEMBER_UPDATE"@ {
        Some(ActivityEvent::LobbyMemberUpdate)
    } else if s == "LOBBY_MESSAGE"@ {
        Some(ActivityEvent::LobbyMessage)
    } else if s == "CAPTURE_SHORTCUT_CHANGE"@ {
        Some(ActivityEvent::CaptureShortcutChange)
    } else if s == "OVERLAY"@ {
        Some(ActivityEvent::Overlay)
    } else if s == "OVERLAY_UPDATE"@ {
        Some(ActivityEvent::OverlayUpdate)
    } else if s == "ENTITLEMENT_CREATE"@ {
        Some(ActivityEvent::EntitlementCreate)
    } else if s == "ENTITLEMENT_DELETE"@ {
        Some(ActivityEvent::EntitlementDelete)
    } else if s == "USER_ACHIEVEMENT_UPDATE"@ {
        Some(ActivityEvent::UserAchievementUpdate)
    } else if s == "READY"@ {
        Some(ActivityEvent::Ready)
    } else if s == "ERROR"@ {
        Some(ActivityEvent::Error)
    } else {
        None
    }
}

/// The event a wire name stands for; `None` for an unknown name.
pub fn evt_from_name(s: &str) -> (r: Option<ActivityEvent>)
    ensures
        r == evt_of_name(s@),
{
    if str_eq(s, "CREATE_USER_UPDATE") {
        Some(ActivityEvent::CreateUserUpdate)
    } else if str_eq(s, "GUILD_STATUS") {
        Some(ActivityEvent::GuildStatus)
    } else if str_eq(s, "GUILD_CRATE") {
        Some(ActivityEvent::GuildCrate)
    } else if str_eq(s, "CHANNEL_CREATE") {
        Some(ActivityEvent::ChannelCreate)
    } else if str_eq(s, "RELATIONSHIP_UPDATE") {
        Some(ActivityEvent::RelationshipUpdate)
    } else if str_eq(s, "VOICE_CHANNEL_SELECT") {
        Some(ActivityEvent::VoiceChannelSelect)
    } else if str_eq(s, "VOICE_STATE_CREATE") {
        Some(ActivityEvent::VoiceStateCreate)
    } else if str_eq(s, "VOICE_STATE_DELETE") {
        Some(ActivityEvent::VoiceStateDelete)
    } else if str_eq(s, "VOICE_STATE_UPDATE") {
        Some(ActivityEvent::VoiceStateUpdate)
    } else if str_eq(s, "VOICE_SETTINGS_UPDATE") {
        Some(ActivityEvent::VoiceSettingsUpdate)
    } else if str_eq(s, "VOICE_SETTINGS_UPDATE2") {
        Some(ActivityEvent::VoiceSettingsUpdate2)
    } else if str_eq(s, "VOICE_CONNECTION_STATUS") {
        Some(ActivityEvent::VoiceConnectionStatus)
    } else if str_eq(s, "SPEAKING_START") {
        Some(ActivityEvent::SpeakingStart)
    } else if str_eq(s, "SPEAKING_STOP") {
        Some(ActivityEvent::SpeakingStop)
    } else if str_eq(s, "GAME_JOIN") {
        Some(ActivityEvent::GameJoin)
    } else if str_eq(s, "GAME_SPECTATE") {
        Some(ActivityEvent::GameSpectate)
    } else if str_eq(s, "ACTIVITY_JOIN") {
        Some(ActivityEvent::ActivityJoin)
    } else if str_eq(s, "ACTIVITY_JOIN_REQUEST") {
        Some(ActivityEvent::ActivityJoinRequest)
    } else if str_eq(s, "ACTIVITY_SPECTATE") {
        Some(ActivityEvent::ActivitySpectate)
    } else if str_eq(s, "ACTIVITY_INVITE") {
        Some(ActivityEvent::ActivityInvite)
    } else if str_eq(s, "NOTIFICATION_CREATE") {
        Some(ActivityEvent::NotificationCreate)
    } else if str_eq(s, "MESSAGE_CREATE") {
        Some(ActivityEvent::MessageCreate)
    } else if str_eq(s, "MESSAGE_UPDATE") {
        Some(ActivityEvent::MessageUpdate)
    } else if str_eq(s, "MESSAGE_DELETE") {
        Some(ActivityEvent::MessageDelete)
    } else if str_eq(s, "LOBBY_DELETE") {
        Some(ActivityEvent::LobbyDelete)
    } else if str_eq(s, "LOBBY_UPDATE") {
        Some(ActivityEvent::LobbyUpdate)
    } else if str_eq(s, "LOBBY_MEMBER_CONNECT") {
        Some(ActivityEvent::LobbyMemberConnect)
    } else if str_eq(s, "LOBBY_MEMBER_DISCONNECT") {
        Some(ActivityEvent::LobbyMemberDisconnect)
    } else if str_eq(s, "LOBBY_MEMBER_UPDATE") {
        Some(ActivityEvent::LobbyMemberUpdate)
    } else if str_eq(s, "LOBBY_MESSAGE") {
        Some(ActivityEvent::LobbyMessage)
    } else if str_eq(s, "CAPTURE_SHORTCUT_CHANGE") {
        Some(ActivityEvent::CaptureShortcutChange)
    } else if str_eq(s, "OVERLAY") {
        Some(ActivityEvent::Overlay)
    } else if str_eq(s, "OVERLAY_UPDATE") {
        Some(ActivityEvent::OverlayUpdate)
    } else if str_eq(s, "ENTITLEMENT_CREATE") {
        Some(ActivityEvent::EntitlementCreate)
    } else if str_eq(s, "ENTITLEMENT_DELETE") {
        Some(ActivityEvent::EntitlementDelete)
    } else if str_eq(s, "USER_ACHIEVEMENT_UPDATE") {
        Some(ActivityEvent::UserAchievementUpdate)
    } else if str_eq(s, "READY") {
        Some(ActivityEvent::Ready)
    } else if str_eq(s, "ERROR") {
        Some(ActivityEvent::Error)
    } else {
        None
    }
}

} // verus!
