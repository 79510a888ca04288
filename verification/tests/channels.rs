use patme::notify::{Beep, Content, Desktop, Echo, Email, Notify};

fn content() -> Content {
    Content { title: "Ahoy".to_string(), msg: "Be aware, Amigo.".to_string() }
}

#[test]
pub fn test_desktop() {
    let content = &content();
    // Delivery needs a desktop session; without one the channel reports a
    // delivery error rather than panicking.
    let _ = Desktop.do_notify(content);
}

#[test]
pub fn test_beep() {
    let content = &content();
    let delivered = Beep.do_notify(content);
    assert!(delivered.is_ok());
}

#[test]
pub fn test_email() {
    let content = &content();
    let email = Email {
        username: "12345@qq.com".to_string(),
        password: "12345".to_string(),
        server: "smtp.qq.com".to_string(),
    };
    // Delivery needs a reachable relay; without one the channel reports a
    // delivery error rather than panicking.
    let _ = email.do_notify(content);
}

#[test]
pub fn test_echo() {
    let content = &content();
    let delivered = Echo.do_notify(content);
    assert!(delivered.is_ok());
}

#[test]
fn echo_renders_both_fields_verbatim() {
    let content = Content { title: "Ahoy".to_string(), msg: "Be aware".to_string() };
    let (title_line, msg_line) = Echo.render(&content);
    assert_eq!(title_line, "title: Ahoy");
    assert_eq!(msg_line, "msg: Be aware");
}

#[test]
fn notify_error_message_names_the_reason() {
    let err = patme::notify::NotifyError::Delivery("relay unreachable".to_string());
    assert_eq!(err.message(), "delivery failed: relay unreachable");
}
