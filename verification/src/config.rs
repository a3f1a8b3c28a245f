use vstd::prelude::*;
use vstd::string::*;

verus! {

/// How the front end reaches the messaging platform, and the chats it
/// works in.
#[derive(Debug, Clone)]
pub struct TelegramBotConfig {
    pub bot_token: String,
    /// The chat in which members talk to the bot.
    pub public_chat_id: i64,
    /// The chat whose members are the residents.
    pub private_chat_id: i64,
    /// The channel to which posts are passed on.
    pub public_channel_id: i64,
    pub alert_chat_id: i64,
}

impl TelegramBotConfig {
    /// Whether a chat is the one in which members talk to the bot.
    pub fn is_public_chat(&self, chat_id: i64) -> (public: bool)
        ensures
            public == (chat_id == self.public_chat_id),
    {
        chat_id == self.public_chat_id
    }
}

/// Where the visit table is kept.
#[derive(Debug, Clone)]
pub struct DbConfig {
    pub sqlite_path: String,
}

/// Where the read-only query surface listens.
#[derive(Debug, Clone)]
pub struct RestApiConfig {
    pub bind_address: String,
}

impl Default for RestApiConfig {
    fn default() -> (config: Self)
        ensures
            config.bind_address@ == "127.0.0.1:3000"@,
    {
        RestApiConfig { bind_address: "127.0.0.1:3000".to_owned() }
    }
}

/// All that the program is configured with.
#[derive(Debug, Clone)]
pub struct Config {
    pub telegram_bot: TelegramBotConfig,
    pub db: DbConfig,
    pub rest_api: RestApiConfig,
}

} // verus!
