//! The process-wide configuration the dispatcher consumes. It is produced
//! once at startup by an external loader and read-only afterwards.

use vstd::prelude::*;

verus! {

/// Settings for the email channel.
#[derive(Debug, Clone)]
pub struct EmailConfig {
    /// The SMTP relay to deliver through.
    pub server: String,
    /// The account name; also the address mail is sent from and to.
    pub username: String,
    /// The credential presented to the relay.
    pub password: String,
    /// A distinct recipient. It exists in the configuration format but is
    /// never consulted when a message is built: mail always goes from and
    /// to `username`. Kept as found, not silently wired in.
    pub to: Option<String>,
}

/// Everything the dispatcher reads from the configuration file.
#[derive(Debug, Clone)]
pub struct Config {
    /// The textual form of the method used when the sentinel is requested;
    /// parsed on demand.
    pub default_method: String,
    /// Fallback notification title.
    pub default_title: String,
    /// Fallback notification body.
    pub default_msg: String,
    /// Email settings; absent unless the user configured them.
    pub email_config: Option<EmailConfig>,
}

impl Default for Config {
    /// The configuration written when none exists yet: desktop delivery,
    /// placeholder content, no email settings.
    fn default() -> (r: Config)
        ensures
            r.default_method@ == "desktop"@,
            r.default_title@ == "[Empty Title]"@,
            r.default_msg@ == "Oops, empty message body."@,
            r.email_config is None,
    {
        Config {
            default_method: "desktop".to_owned(),
            default_title: "[Empty Title]".to_owned(),
            default_msg: "Oops, empty message body.".to_owned(),
            email_config: None,
        }
    }
}

} // verus!
