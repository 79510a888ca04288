use patme::command::{CommandResult, CommandResultDetail, LookbackError};
use patme::common::NotifyMethod;
use patme::config::{Config, EmailConfig};
use patme::dispatch::{
    parse_content, parse_email, parse_notify, plan_invocation, InvocationPlan, ParseNotifyError,
};
use patme::notify::Channel;

fn base_config() -> Config {
    Config {
        default_method: "desktop".to_string(),
        default_title: "[Empty Title]".to_string(),
        default_msg: "Oops, empty message body.".to_string(),
        email_config: None,
    }
}

fn email_config() -> EmailConfig {
    EmailConfig {
        server: "smtp.example.org".to_string(),
        username: "someone@example.org".to_string(),
        password: "12345".to_string(),
        to: None,
    }
}

#[test]
fn method_parses_every_known_name() {
    assert!(matches!(NotifyMethod::from_str("default"), Ok(NotifyMethod::Default)));
    assert!(matches!(NotifyMethod::from_str("email"), Ok(NotifyMethod::Email)));
    assert!(matches!(NotifyMethod::from_str("beep"), Ok(NotifyMethod::Beep)));
    assert!(matches!(NotifyMethod::from_str("desktop"), Ok(NotifyMethod::Desktop)));
    assert!(matches!(NotifyMethod::from_str("echo"), Ok(NotifyMethod::Echo)));
}

#[test]
fn method_rejects_unknown_names() {
    let rejected = NotifyMethod::from_str("loud");
    match rejected {
        Err(e) => assert_eq!(e.0, "loud"),
        Ok(_) => panic!("an unknown method name must be rejected"),
    }
    assert!(NotifyMethod::from_str("").is_err());
    assert!(NotifyMethod::from_str("Desktop").is_err());
}

#[test]
fn method_names_render() {
    assert_eq!(NotifyMethod::Default.name(), "Default");
    assert_eq!(NotifyMethod::Email.name(), "Email");
    assert_eq!(NotifyMethod::Beep.name(), "Beep");
    assert_eq!(NotifyMethod::Desktop.name(), "Desktop");
    assert_eq!(NotifyMethod::Echo.name(), "Echo");
}

#[test]
fn parse_method_error_message_carries_the_string() {
    let e = NotifyMethod::from_str("loud").unwrap_err();
    assert_eq!(e.message(), "loud does not match any default or custom notify command");
}

#[test]
fn config_default_is_the_documented_one() {
    let c = Config::default();
    assert_eq!(c.default_method, "desktop");
    assert_eq!(c.default_title, "[Empty Title]");
    assert_eq!(c.default_msg, "Oops, empty message body.");
    assert!(c.email_config.is_none());
}

#[test]
fn direct_methods_never_need_email_config() {
    let config = base_config();
    assert!(matches!(parse_notify(&config, NotifyMethod::Beep), Ok(Channel::Beep(_))));
    assert!(matches!(parse_notify(&config, NotifyMethod::Echo), Ok(Channel::Echo(_))));
    assert!(matches!(parse_notify(&config, NotifyMethod::Desktop), Ok(Channel::Desktop(_))));
}

#[test]
fn default_resolves_through_the_config() {
    let config = base_config();
    assert!(matches!(parse_notify(&config, NotifyMethod::Default), Ok(Channel::Desktop(_))));
}

#[test]
fn malformed_default_method_is_rejected() {
    let mut config = base_config();
    config.default_method = "loud".to_string();
    match parse_notify(&config, NotifyMethod::Default) {
        Err(ParseNotifyError::MalformedDefaultMethod(s)) => assert_eq!(s, "loud"),
        _ => panic!("a malformed configured default must be rejected"),
    }
}

#[test]
fn default_naming_the_sentinel_is_rejected() {
    let mut config = base_config();
    config.default_method = "default".to_string();
    assert!(matches!(
        parse_notify(&config, NotifyMethod::Default),
        Err(ParseNotifyError::UnresolvedDefaultMethod)
    ));
}

#[test]
fn email_without_config_is_a_selection_error() {
    let config = base_config();
    assert!(matches!(parse_email(&config), Err(ParseNotifyError::EmailNotConfigured)));
    assert!(matches!(
        parse_notify(&config, NotifyMethod::Email),
        Err(ParseNotifyError::EmailNotConfigured)
    ));
}

#[test]
fn email_with_config_is_built_from_it() {
    let mut config = base_config();
    config.email_config = Some(email_config());
    match parse_notify(&config, NotifyMethod::Email) {
        Ok(Channel::Email(email)) => {
            assert_eq!(email.server, "smtp.example.org");
            assert_eq!(email.username, "someone@example.org");
            assert_eq!(email.password, "12345");
        }
        _ => panic!("configured email must yield the email channel"),
    }
}

#[test]
fn selection_error_messages_render() {
    let config = base_config();
    let e = parse_email(&config).unwrap_err();
    assert_eq!(e.message(), "email config is not configured");
    let malformed = ParseNotifyError::MalformedDefaultMethod("loud".to_string());
    assert_eq!(malformed.message(), "default method in config malformed: loud");
    let unresolved = ParseNotifyError::UnresolvedDefaultMethod;
    assert_eq!(unresolved.message(), "default method in config resolves to no channel");
}

#[test]
fn resolve_without_inputs_returns_the_defaults_verbatim() {
    let config = base_config();
    let content = parse_content(&config, &None, &None, &None);
    assert_eq!(content.title, "[Empty Title]");
    assert_eq!(content.msg, "Oops, empty message body.");
}

#[test]
fn explicit_overrides_always_win() {
    let config = base_config();
    let result = Some(CommandResult {
        status: false,
        detail: Some(CommandResultDetail {
            command: "exit 1".to_string(),
            out: Some("".to_string()),
            err: Some("boom".to_string()),
        }),
    });
    let content =
        parse_content(&config, &Some("T".to_string()), &Some("M".to_string()), &result);
    assert_eq!(content.title, "T");
    assert_eq!(content.msg, "M");
}

#[test]
fn failed_command_is_reported_in_full() {
    let config = base_config();
    let result = Some(CommandResult {
        status: false,
        detail: Some(CommandResultDetail {
            command: "exit 1".to_string(),
            out: Some("".to_string()),
            err: Some("boom".to_string()),
        }),
    });
    let content = parse_content(&config, &None, &None, &result);
    assert_eq!(content.title, "Command 'exit 1' finished execution");
    assert_eq!(content.msg, "command: exit 1\nstatus: false\noutput: \nerror output: boom\n");
}

#[test]
fn uncaptured_streams_read_as_empty() {
    let config = base_config();
    let result = Some(CommandResult {
        status: true,
        detail: Some(CommandResultDetail {
            command: "true".to_string(),
            out: None,
            err: None,
        }),
    });
    let content = parse_content(&config, &None, &None, &result);
    assert_eq!(content.msg, "command: true\nstatus: true\noutput: \nerror output: \n");
}

#[test]
fn detail_free_result_degrades_to_a_status_line() {
    let config = base_config();
    let result = Some(CommandResult { status: false, detail: None });
    let content = parse_content(&config, &None, &None, &result);
    assert_eq!(content.title, "[Empty Title]");
    assert_eq!(content.msg, "status: false\n");
}

#[test]
fn capture_of_a_successful_command_keeps_both_streams() {
    let captured = CommandResult::from_capture("echo hi".to_string(), true, "hi\n".to_string(), "".to_string());
    assert!(captured.status);
    let detail = captured.detail.expect("direct execution always carries detail");
    assert_eq!(detail.command, "echo hi");
    assert!(detail.out.as_deref().unwrap().contains("hi"));
    assert_eq!(detail.err.as_deref(), Some(""));
}

#[test]
fn lookback_is_not_implemented() {
    assert!(matches!(patme::command::lookback(), Err(LookbackError::NotImplemented)));
}

#[test]
fn open_config_plans_no_notification() {
    let plan = plan_invocation(true, Some("echo hi".to_string()));
    assert!(matches!(plan, InvocationPlan::OpenConfig));
}

#[test]
fn ordinary_invocations_plan_a_notification() {
    let plan = plan_invocation(false, Some("echo hi".to_string()));
    match plan {
        InvocationPlan::Notify { command } => assert_eq!(command.as_deref(), Some("echo hi")),
        InvocationPlan::OpenConfig => panic!("without the open-config flag the run notifies"),
    }
    assert!(matches!(plan_invocation(false, None), InvocationPlan::Notify { command: None }));
}
