//! The notification channels: a closed set of delivery mechanisms behind
//! one capability, `do_notify`. Channels that cannot fail say so in their
//! contract; the fallible ones surface every delivery failure.

use vstd::prelude::*;
use vstd::string::StringExecFns;
use lettre::message::Mailbox;
use lettre::transport::smtp::authentication::Credentials;
use lettre::{Message, SmtpTransport, Transport};
use std::io::Write;

verus! {

/// The resolved notification payload: plain text, channel-specific
/// rendering is the channel's concern.
#[derive(Debug, Clone)]
pub struct Content {
    pub title: String,
    pub msg: String,
}

/// The error a channel reports when it could not deliver.
#[derive(Debug, Clone)]
pub enum NotifyError {
    /// The channel was built but delivery failed (no notification service,
    /// SMTP connect, authentication or send failure); carries the reason.
    Delivery(String),
}

impl NotifyError {
    /// A human-readable account of the failure.
    pub fn message(&self) -> (r: String)
        ensures
            self matches NotifyError::Delivery(reason) && r@ == "delivery failed: "@ + reason@,
    {
        let mut text: String = "delivery failed: ".to_owned();
        match self {
            NotifyError::Delivery(reason) => {
                text.append(reason.as_str());
            },
        }
        text
    }
}

/// One concrete delivery mechanism.
pub trait Notify {
    /// Whether this channel's delivery can fail at all.
    spec fn infallible(&self) -> bool;

    /// Delivers `content`; a channel that cannot fail returns `Ok`.
    fn do_notify(&self, content: &Content) -> (r: Result<(), NotifyError>)
        ensures
            self.infallible() ==> r is Ok,
    ;
}

/// Relies on std::io::Stdout::write_fmt through the writeln macro: prints
/// `s` followed by a newline to standard output. A write failure there is
/// fatal, as it is for ordinary console printing.
#[verifier::external_body]
fn emit_line(s: &str) {
    writeln!(std::io::stdout(), "{}", s).expect("writing to standard output failed");
}

/// The audible channel: a single terminal bell; content is ignored.
#[derive(Debug)]
pub struct Beep;

impl Notify for Beep {
    open spec fn infallible(&self) -> bool {
        true
    }

    fn do_notify(&self, _content: &Content) -> (r: Result<(), NotifyError>) {
        emit_line("\x07");
        Ok(())
    }
}

/// The console channel: writes the title and the message as two labelled
/// lines.
#[derive(Debug)]
pub struct Echo;

impl Echo {
    /// The two lines echoed for `content`: the labelled title, then the
    /// labelled message, each field verbatim.
    pub fn render(&self, content: &Content) -> (r: (String, String))
        ensures
            r.0@ == "title: "@ + content.title@,
            r.1@ == "msg: "@ + content.msg@,
    {
        let mut title_line: String = "title: ".to_owned();
        title_line.append(content.title.as_str());
        let mut msg_line: String = "msg: ".to_owned();
        msg_line.append(content.msg.as_str());
        (title_line, msg_line)
    }
}

impl Notify for Echo {
    open spec fn infallible(&self) -> bool {
        true
    }

    fn do_notify(&self, content: &Content) -> (r: Result<(), NotifyError>) {
        let (title_line, msg_line) = self.render(content);
        emit_line(title_line.as_str());
        emit_line(msg_line.as_str());
        Ok(())
    }
}

/// Relies on notify_rust::Notification: summary and body set the displayed
/// fields, timeout(0) asks for a popup that stays until dismissed, and show
/// hands it to the session's notification service, failing when that
/// service cannot be reached.
#[verifier::external_body]
fn show_desktop_notification(title: &str, body: &str) -> (r: Result<(), String>) {
    match notify_rust::Notification::new().summary(title).body(body).timeout(0).show() {
        Ok(_) => Ok(()),
        Err(e) => Err(format!("{}", e)),
    }
}

/// The desktop channel: a transient system notification that persists
/// until dismissed.
#[derive(Debug)]
pub struct Desktop;

impl Notify for Desktop {
    open spec fn infallible(&self) -> bool {
        false
    }

    fn do_notify(&self, content: &Content) -> (r: Result<(), NotifyError>) {
        match show_desktop_notification(content.title.as_str(), content.msg.as_str()) {
            Ok(()) => Ok(()),
            Err(reason) => Err(NotifyError::Delivery(reason)),
        }
    }
}

/// Relies on lettre: Message::builder with from = to = the mailbox parsed
/// from `username`, the given subject and body; SmtpTransport::relay(server)
/// with username/password credentials; send delivers synchronously. Every
/// failure (mailbox parse, message build, relay resolution, send) comes
/// back as its rendered reason.
#[verifier::external_body]
fn smtp_send(server: &str, username: &str, password: &str, subject: &str, body: &str) -> (r: Result<(), String>) {
    let mbox: Mailbox = match username.parse() { Ok(m) => m, Err(e) => return Err(e.to_string()) };
    let msg = Message::builder().to(mbox.clone()).from(mbox).subject(subject).body(body.to_string());
    let msg = match msg { Ok(m) => m, Err(e) => return Err(e.to_string()) };
    let relay = match SmtpTransport::relay(server) { Ok(t) => t, Err(e) => return Err(e.to_string()) };
    let mailer = relay.credentials(Credentials::new(username.to_string(), password.to_string())).build();
    match mailer.send(&msg) { Ok(_) => Ok(()), Err(e) => Err(e.to_string()) }
}

/// The email channel: sends the content as a message from and to the
/// configured account, subject = title, body = message.
#[derive(Debug)]
pub struct Email {
    pub username: String,
    pub password: String,
    pub server: String,
}

impl Notify for Email {
    open spec fn infallible(&self) -> bool {
        false
    }

    fn do_notify(&self, content: &Content) -> (r: Result<(), NotifyError>) {
        let sent = smtp_send(
            self.server.as_str(),
            self.username.as_str(),
            self.password.as_str(),
            content.title.as_str(),
            content.msg.as_str(),
        );
        match sent {
            Ok(()) => Ok(()),
            Err(reason) => Err(NotifyError::Delivery(reason)),
        }
    }
}

/// The closed union of constructed channels, as the dispatcher hands them
/// out.
#[derive(Debug)]
pub enum Channel {
    Beep(Beep),
    Echo(Echo),
    Desktop(Desktop),
    Email(Email),
}

impl Notify for Channel {
    open spec fn infallible(&self) -> bool {
        match self {
            Channel::Beep(_) => true,
            Channel::Echo(_) => true,
            Channel::Desktop(_) => false,
            Channel::Email(_) => false,
        }
    }

    fn do_notify(&self, content: &Content) -> (r: Result<(), NotifyError>) {
        match self {
            Channel::Beep(channel) => channel.do_notify(content),
            Channel::Echo(channel) => channel.do_notify(content),
            Channel::Desktop(channel) => channel.do_notify(content),
            Channel::Email(channel) => channel.do_notify(content),
        }
    }
}

} // verus!
