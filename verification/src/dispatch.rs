//! Orchestration: selecting and building a channel from configuration and
//! the requested method, and resolving the final notification content from
//! defaults, command outcome and explicit overrides.

use vstd::prelude::*;
use vstd::string::StringExecFns;
use crate::command::{CommandResult, CommandResultDetail};
use crate::common::{method_of, NotifyMethod};
use crate::config::Config;
use crate::notify::{Beep, Channel, Content, Desktop, Echo, Email};

verus! {

/// The error when no channel can be selected or built.
#[derive(Debug, Clone)]
pub enum ParseNotifyError {
    /// The configured default method names no known method; carries it.
    MalformedDefaultMethod(String),
    /// The configured default method names the sentinel itself, which
    /// resolves to no channel.
    UnresolvedDefaultMethod,
    /// Email was selected but the configuration has no email settings.
    EmailNotConfigured,
}

impl ParseNotifyError {
    /// A human-readable account of the failure.
    pub fn message(&self) -> (r: String)
        ensures
            self matches ParseNotifyError::MalformedDefaultMethod(s)
                ==> r@ == "default method in config malformed: "@ + s@,
            self is UnresolvedDefaultMethod
                ==> r@ == "default method in config resolves to no channel"@,
            self is EmailNotConfigured ==> r@ == "email config is not configured"@,
    {
        match self {
            ParseNotifyError::MalformedDefaultMethod(s) => {
                let mut text: String = "default method in config malformed: ".to_owned();
                text.append(s.as_str());
                text
            },
            ParseNotifyError::UnresolvedDefaultMethod => {
                "default method in config resolves to no channel".to_owned()
            },
            ParseNotifyError::EmailNotConfigured => "email config is not configured".to_owned(),
        }
    }
}

/// The method the dispatcher acts on: the requested one, or, for the
/// sentinel, whatever the configured default method denotes.
pub open spec fn resolved_method(config: Config, method: NotifyMethod) -> Option<NotifyMethod> {
    if method is Default {
        method_of(config.default_method@)
    } else {
        Some(method)
    }
}

/// The channel `parse_email` yields: one built from the configured email
/// settings, or `EmailNotConfigured` when there are none.
pub open spec fn spec_parse_email(config: Config) -> Result<Email, ParseNotifyError> {
    match config.email_config {
        None => Err(ParseNotifyError::EmailNotConfigured),
        Some(ec) => Ok(Email { username: ec.username, password: ec.password, server: ec.server }),
    }
}

/// The outcome of channel selection for a configuration and a requested
/// method.
pub open spec fn spec_parse_notify(config: Config, method: NotifyMethod) -> Result<
    Channel,
    ParseNotifyError,
> {
    match resolved_method(config, method) {
        None => Err(ParseNotifyError::MalformedDefaultMethod(config.default_method)),
        Some(NotifyMethod::Default) => Err(ParseNotifyError::UnresolvedDefaultMethod),
        Some(NotifyMethod::Beep) => Ok(Channel::Beep(Beep)),
        Some(NotifyMethod::Echo) => Ok(Channel::Echo(Echo)),
        Some(NotifyMethod::Desktop) => Ok(Channel::Desktop(Desktop)),
        Some(NotifyMethod::Email) => match spec_parse_email(config) {
            Ok(email) => Ok(Channel::Email(email)),
            Err(e) => Err(e),
        },
    }
}

/// Builds the email channel from the configured settings; selecting email
/// without them is refused, never a panic and never a half-built channel.
pub fn parse_email(config: &Config) -> (r: Result<Email, ParseNotifyError>)
    ensures
        r == spec_parse_email(*config),
{
    match &config.email_config {
        None => Err(ParseNotifyError::EmailNotConfigured),
        Some(conf) => Ok(
            Email {
                username: conf.username.clone(),
                password: conf.password.clone(),
                server: conf.server.clone(),
            },
        ),
    }
}

/// Selects and builds the channel for one invocation. The sentinel is
/// resolved against the configuration first; a malformed or unresolvable
/// configured default is rejected before any channel is built.
pub fn parse_notify(config: &Config, method: NotifyMethod) -> (r: Result<
    Channel,
    ParseNotifyError,
>)
    ensures
        r == spec_parse_notify(*config, method),
{
    let resolved = if let NotifyMethod::Default = method {
        match NotifyMethod::from_str(config.default_method.as_str()) {
            Ok(m) => m,
            Err(_) => {
                return Err(ParseNotifyError::MalformedDefaultMethod(config.default_method.clone()));
            },
        }
    } else {
        method
    };
    match resolved {
        NotifyMethod::Default => Err(ParseNotifyError::UnresolvedDefaultMethod),
        NotifyMethod::Email => match parse_email(config) {
            Ok(email) => Ok(Channel::Email(email)),
            Err(e) => Err(e),
        },
        NotifyMethod::Beep => Ok(Channel::Beep(Beep)),
        NotifyMethod::Desktop => Ok(Channel::Desktop(Desktop)),
        NotifyMethod::Echo => Ok(Channel::Echo(Echo)),
    }
}

/// The textual form of a status flag.
pub open spec fn spec_bool_text(b: bool) -> Seq<char> {
    if b {
        "true"@
    } else {
        "false"@
    }
}

/// The title announcing that a command finished.
pub open spec fn spec_command_title(command: Seq<char>) -> Seq<char> {
    "Command '"@ + command + "' finished execution"@
}

/// The view of an optionally captured stream: absent reads as empty.
pub open spec fn spec_stream_text(s: Option<String>) -> Seq<char> {
    match s {
        Some(t) => t@,
        None => Seq::<char>::empty(),
    }
}

/// The four-line report of an executed command.
pub open spec fn spec_command_report(detail: CommandResultDetail, status: bool) -> Seq<char> {
    "command: "@ + detail.command@ + "\nstatus: "@ + spec_bool_text(status) + "\noutput: "@
        + spec_stream_text(detail.out) + "\nerror output: "@ + spec_stream_text(detail.err) + "\n"@
}

/// The one-line report of a command result that carries no detail.
pub open spec fn spec_status_report(status: bool) -> Seq<char> {
    "status: "@ + spec_bool_text(status) + "\n"@
}

/// The title `parse_content` resolves: an explicit override wins; otherwise
/// a detailed command result announces the command; otherwise the
/// configured default stands.
pub open spec fn spec_resolved_title(
    config: Config,
    cli_title: Option<String>,
    result: Option<CommandResult>,
) -> Seq<char> {
    match cli_title {
        Some(t) => t@,
        None => match result {
            Some(cr) => match cr.detail {
                Some(d) => spec_command_title(d.command@),
                None => config.default_title@,
            },
            None => config.default_title@,
        },
    }
}

/// The message `parse_content` resolves: an explicit override wins;
/// otherwise a command result is reported, in full when detail was
/// captured and as a bare status line when not; otherwise the configured
/// default stands.
pub open spec fn spec_resolved_msg(
    config: Config,
    cli_msg: Option<String>,
    result: Option<CommandResult>,
) -> Seq<char> {
    match cli_msg {
        Some(m) => m@,
        None => match result {
            Some(cr) => match cr.detail {
                Some(d) => spec_command_report(d, cr.status),
                None => spec_status_report(cr.status),
            },
            None => config.default_msg@,
        },
    }
}

/// The textual form of a status flag.
fn bool_text(b: bool) -> (r: &'static str)
    ensures
        r@ == spec_bool_text(b),
{
    if b {
        "true"
    } else {
        "false"
    }
}

/// The text of an optionally captured stream: absent reads as empty.
fn stream_text<'a>(s: &'a Option<String>) -> (r: &'a str)
    ensures
        r@ == spec_stream_text(*s),
{
    match s {
        Some(t) => t.as_str(),
        None => {
            proof {
                reveal_strlit("");
                assert(""@ =~= Seq::<char>::empty());
            }
            ""
        },
    }
}

/// Resolves the final notification content. Pure: no I/O, deterministic in
/// its inputs. Precedence, lowest to highest: configured defaults, then
/// the report of an executed command, then explicit overrides.
pub fn parse_content(
    config: &Config,
    cli_title: &Option<String>,
    cli_msg: &Option<String>,
    result: &Option<CommandResult>,
) -> (r: Content)
    ensures
        r.title@ == spec_resolved_title(*config, *cli_title, *result),
        r.msg@ == spec_resolved_msg(*config, *cli_msg, *result),
{
    let mut title: String = config.default_title.clone();
    let mut msg: String = config.default_msg.clone();
    if let Some(command_result) = result {
        if let Some(detail) = &command_result.detail {
            title = "Command '".to_owned();
            title.append(detail.command.as_str());
            title.append("' finished execution");

            msg = "command: ".to_owned();
            msg.append(detail.command.as_str());
            msg.append("\nstatus: ");
            msg.append(bool_text(command_result.status));
            msg.append("\noutput: ");
            msg.append(stream_text(&detail.out));
            msg.append("\nerror output: ");
            msg.append(stream_text(&detail.err));
            msg.append("\n");
        } else {
            msg = "status: ".to_owned();
            msg.append(bool_text(command_result.status));
            msg.append("\n");
        }
    }
    if let Some(t) = cli_title {
        title = t.clone();
    }
    if let Some(m) = cli_msg {
        msg = m.clone();
    }
    Content { title, msg }
}

/// What one invocation does: open the configuration file in an editor and
/// exit, or deliver a notification, running the given command first when
/// one was supplied.
pub enum InvocationPlan {
    OpenConfig,
    Notify { command: Option<String> },
}

/// Decides the shape of the run before anything else happens: an
/// invocation that asks for the configuration file opens it and nothing
/// more — no channel is built and no command is run; every other
/// invocation notifies.
pub fn plan_invocation(open_config: bool, command: Option<String>) -> (r: InvocationPlan)
    ensures
        open_config ==> r is OpenConfig,
        !open_config ==> (r matches InvocationPlan::Notify { command: c } && c == command),
{
    if open_config {
        InvocationPlan::OpenConfig
    } else {
        InvocationPlan::Notify { command }
    }
}

/// Law: selecting beep, echo or desktop directly never consults the email
/// configuration — every configuration yields the same, successful,
/// channel, whether or not email settings are present.
pub proof fn lemma_direct_selection_ignores_config(c1: Config, c2: Config, method: NotifyMethod)
    requires
        method is Beep || method is Echo || method is Desktop,
    ensures
        spec_parse_notify(c1, method) is Ok,
        spec_parse_notify(c1, method) == spec_parse_notify(c2, method),
{
}

/// Law: with `desktop` configured as the default method, the sentinel
/// resolves to the desktop channel; a configured default that names no
/// method is rejected, carrying the offending string, before any channel
/// is built.
pub proof fn lemma_default_method_resolution(config: Config)
    ensures
        config.default_method@ == "desktop"@ ==> spec_parse_notify(config, NotifyMethod::Default)
            == Ok::<Channel, ParseNotifyError>(Channel::Desktop(Desktop)),
        method_of(config.default_method@) is None ==> spec_parse_notify(
            config,
            NotifyMethod::Default,
        ) == Err::<Channel, ParseNotifyError>(
            ParseNotifyError::MalformedDefaultMethod(config.default_method),
        ),
{
    reveal_strlit("desktop");
    reveal_strlit("default");
    reveal_strlit("email");
    reveal_strlit("beep");
    assert("desktop"@ != "default"@) by {
        assert("desktop"@[3] == 'k');
        assert("default"@[3] == 'a');
    }
    assert("desktop"@ != "email"@) by {
        assert("desktop"@.len() == 7);
        assert("email"@.len() == 5);
    }
    assert("desktop"@ != "beep"@) by {
        assert("desktop"@.len() == 7);
        assert("beep"@.len() == 4);
    }
}

/// Law: selecting email against a configuration with no email settings
/// yields the not-configured error, never a panic and never a channel.
pub proof fn lemma_email_requires_config(config: Config)
    requires
        config.email_config is None,
    ensures
        spec_parse_notify(config, NotifyMethod::Email) == Err::<Channel, ParseNotifyError>(
            ParseNotifyError::EmailNotConfigured,
        ),
{
}

/// Law: with no overrides and no command result, the resolved content is
/// the configured defaults, verbatim.
pub proof fn lemma_resolve_yields_defaults(config: Config)
    ensures
        spec_resolved_title(config, None, None) == config.default_title@,
        spec_resolved_msg(config, None, None) == config.default_msg@,
{
}

/// Law: explicit overrides win unconditionally, whatever command result is
/// present.
pub proof fn lemma_overrides_win(
    config: Config,
    title: String,
    msg: String,
    result: Option<CommandResult>,
)
    ensures
        spec_resolved_title(config, Some(title), result) == title@,
        spec_resolved_msg(config, Some(msg), result) == msg@,
{
}

} // verus!
