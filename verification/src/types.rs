//! Records exchanged with the chat services, the web dashboard and the
//! desktop agent, as plain values.
use vstd::prelude::*;

verus! {

/// The agent service's answer to a poll.
pub struct AgentRsp {
    pub version: String,
    pub success: bool,
    pub actions: Vec<AgentAction>,
    pub error_message: Option<String>,
}

/// One input action for the desktop agent.
pub struct AgentAction {
    pub name: String,
    pub keys: Vec<u8>,
    pub hold: u8,
    pub delay: u8,
}

/// Why a dashboard request carries no valid session.
pub enum AuthError {
    Missing,
    Invalid,
}

/// A signal to a channel's worker.
pub enum ThreadAction {
    Kill,
    Part(String),
}

/// A request to the chat connection's worker.
pub enum ClientAction {
    Privmsg(String, String),
    Part(String),
    Command(String, Vec<String>),
}

pub struct DiscordPayload {
    pub heartbeat_inverval: i32,
}

/// The claims of a dashboard session token.
pub struct Auth {
    pub channel: String,
    pub exp: u64,
}

pub struct TmiChatters {
    pub chatters: Chatters,
}

pub struct Chatters {
    pub moderators: Vec<String>,
    pub viewers: Vec<String>,
    pub vips: Vec<String>,
}

pub struct HelixUsers {
    pub data: Vec<HelixUsersData>,
}

pub struct HelixUsersData {
    pub id: String,
    pub login: String,
    pub display_name: String,
}

pub struct HelixGames {
    pub data: Vec<HelixGamesData>,
}

pub struct HelixGamesData {
    pub name: String,
}

pub struct KrakenHosts {
    pub hosts: Vec<KrakenHost>,
}

pub struct KrakenHost {
    pub host_id: String,
    pub target_id: String,
}

pub struct KrakenFollow {
    pub created_at: String,
}

pub struct KrakenFollows {
    pub total: i32,
}

pub struct KrakenSubs {
    pub total: i32,
}

pub struct KrakenUsers {
    pub total: i32,
    pub users: Vec<KrakenUser>,
}

pub struct KrakenUser {
    pub id: String,
    pub name: String,
    pub created_at: String,
}

pub struct KrakenChannel {
    pub status: String,
    pub game: String,
    pub name: String,
    pub logo: String,
    pub url: String,
    pub display_name: String,
}

pub struct KrakenStreams {
    pub total: u16,
    pub streams: Vec<KrakenStream>,
}

pub struct KrakenStream {
    pub created_at: String,
    pub viewers: i32,
    pub channel: KrakenChannel,
}

pub struct PubgMatchData {
    pub attributes: PubgMatchAttrs,
}

pub struct PubgMatchAttrs {
    pub created_at: String,
}

pub struct PubgPlayers {
    pub data: Vec<Player>,
}

pub struct Player {
    pub id: String,
}

pub struct PubgPlayer {
    pub data: PlayerData,
}

pub struct PlayerData {
    pub relationships: PlayerRelationships,
}

pub struct PlayerRelationships {
    pub matches: PlayerMatches,
}

pub struct PlayerMatches {
    pub data: Vec<PlayerMatch>,
}

pub struct PlayerMatch {
    pub id: String,
    pub mtype: String,
}

pub struct YoutubeData {
    pub title: String,
}

/// The track Spotify reports as playing: its name, its album's name and
/// its artists' names.
pub struct SpotifyTrack {
    pub name: String,
    pub album: String,
    pub artists: Vec<String>,
}

/// Everything the dashboard shows of a channel. Each map is kept as the
/// sequence of its insertions, in order: a later entry for a key replaces an
/// earlier one, as inserting into a map does.
pub struct ApiData {
    pub channel: String,
    pub fields: Vec<(String, String)>,
    pub commands: Vec<(String, String)>,
    pub notices: Vec<(String, Vec<String>)>,
    pub settings: Vec<(String, String)>,
    pub blacklist: Vec<(String, Vec<(String, String)>)>,
    pub songreqs: Vec<(String, String, String)>,
    pub integrations: Vec<(String, Vec<(String, String)>)>,
}

/// The dashboard API's answer to a form.
pub struct ApiRsp {
    pub success: bool,
    pub field: Option<String>,
    pub success_value: Option<String>,
    pub error_message: Option<String>,
}

pub struct ApiLoginReq {
    pub channel: String,
    pub password: String,
}

pub struct ApiSignupReq {
    pub token: String,
    pub password: String,
    pub invite: String,
}

pub struct ApiPasswordReq {
    pub password: String,
}

pub struct ApiTitleReq {
    pub title: String,
}

pub struct ApiGameReq {
    pub game: String,
}

pub struct ApiSaveCommandReq {
    pub command: String,
    pub message: String,
}

pub struct ApiTrashCommandReq {
    pub command: String,
}

pub struct ApiNoticeReq {
    pub interval: String,
    pub command: String,
}

pub struct ApiSaveSettingReq {
    pub name: String,
    pub value: String,
}

pub struct ApiTrashSettingReq {
    pub name: String,
}

pub struct ApiNewBlacklistReq {
    pub regex: String,
    pub length: String,
}

pub struct ApiSaveBlacklistReq {
    pub regex: String,
    pub length: String,
    pub key: String,
}

pub struct ApiTrashBlacklistReq {
    pub key: String,
}

pub struct ApiTrashSongReq {
    pub index: usize,
}

} // verus!
