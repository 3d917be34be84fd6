//! Where kept statuses are written.
use crate::config::LoggerConfig;
use vstd::prelude::*;

pub mod discord;
pub mod stdout;

pub use discord::DiscordLogger;
pub use stdout::StdoutLogger;

verus! {

/// The loggers that a configuration enables.
pub struct Loggers {
    pub stdout: Option<StdoutLogger>,
    pub discord: Option<DiscordLogger>,
}

impl Loggers {
    /// The loggers that `config` enables; an enabled Discord logger needs a webhook.
    pub fn new(config: LoggerConfig) -> (res: Self)
        requires
            config.discord.enable ==> config.discord.webhook is Some,
        ensures
            res.stdout is Some <==> config.stdout.enable,
            res.discord is Some <==> config.discord.enable,
            res.discord matches Some(d) ==> d.webhook == config.discord.webhook->0
                && d.use_embed == config.discord.use_embed,
    {
        let stdout = if config.stdout.enable {
            Some(StdoutLogger::new())
        } else {
            None
        };
        let discord = if config.discord.enable {
            Some(DiscordLogger::new(config.discord))
        } else {
            None
        };
        Loggers { stdout, discord }
    }
}

} // verus!
