use svbony_ai_assistant::actions::{ActionError, ActionExecutor, ActionInvocation};
use svbony_ai_assistant::config::{ActionConfig, ActionParameters, ActionType};

fn empty_parameters() -> ActionParameters {
    ActionParameters {
        url: None,
        command: None,
        args: None,
        keys: None,
        message: None,
        title: None,
    }
}

fn action(name: &str, action_type: ActionType, parameters: ActionParameters) -> ActionConfig {
    ActionConfig { name: name.to_owned(), action_type, parameters, enabled: true }
}

#[test]
fn test_open_url_without_url_is_parameter_missing() {
    let executor = ActionExecutor::new();
    let bad = action("open", ActionType::OpenUrl, empty_parameters());
    // The plan fails before any side effect could be attempted: no
    // invocation is produced for the performing caller.
    assert!(matches!(executor.plan_action(&bad), Err(ActionError::ParameterMissing)));
}

#[test]
fn test_open_url_resolves_to_its_url() {
    let executor = ActionExecutor::new();
    let mut parameters = empty_parameters();
    parameters.url = Some("https://app.notta.ai".to_owned());
    let good = action("open", ActionType::OpenUrl, parameters);
    match executor.plan_action(&good) {
        Ok(ActionInvocation::OpenUrl { url }) => assert_eq!(url, "https://app.notta.ai"),
        other => panic!("unexpected plan: {:?}", other.is_ok()),
    }
}

#[test]
fn test_disabled_action_is_skipped_and_succeeds() {
    let executor = ActionExecutor::new();
    let mut disabled = action("open", ActionType::OpenUrl, empty_parameters());
    disabled.enabled = false;
    // Even with its required parameter absent: a disabled action is a no-op
    // that always succeeds.
    assert!(matches!(executor.plan_action(&disabled), Ok(ActionInvocation::Skip)));
}

#[test]
fn test_run_command_defaults_to_no_args() {
    let executor = ActionExecutor::new();
    let mut parameters = empty_parameters();
    parameters.command = Some("xdg-open".to_owned());
    let run = action("run", ActionType::RunCommand, parameters);
    match executor.plan_action(&run) {
        Ok(ActionInvocation::RunCommand { command, args }) => {
            assert_eq!(command, "xdg-open");
            assert!(args.is_empty());
        }
        _ => panic!("expected a run-command invocation"),
    }
}

#[test]
fn test_run_command_without_command_is_parameter_missing() {
    let executor = ActionExecutor::new();
    let bad = action("run", ActionType::RunCommand, empty_parameters());
    assert!(matches!(executor.plan_action(&bad), Err(ActionError::ParameterMissing)));
}

#[test]
fn test_send_keys_requires_its_keys() {
    let executor = ActionExecutor::new();
    let bad = action("keys", ActionType::SendKeys, empty_parameters());
    assert!(matches!(executor.plan_action(&bad), Err(ActionError::ParameterMissing)));

    let mut parameters = empty_parameters();
    parameters.keys = Some("ctrl+shift+a".to_owned());
    let good = action("keys", ActionType::SendKeys, parameters);
    match executor.plan_action(&good) {
        Ok(ActionInvocation::SendKeys { keys }) => assert_eq!(keys, "ctrl+shift+a"),
        _ => panic!("expected a send-keys invocation"),
    }
}

#[test]
fn test_notification_title_falls_back_to_default() {
    let executor = ActionExecutor::new();
    let mut parameters = empty_parameters();
    parameters.message = Some("AI Assistant activated!".to_owned());
    let notify = action("notify", ActionType::ShowNotification, parameters);
    match executor.plan_action(&notify) {
        Ok(ActionInvocation::ShowNotification { title, message }) => {
            assert_eq!(title, "SVBONY AI Assistant");
            assert_eq!(message, "AI Assistant activated!");
        }
        _ => panic!("expected a notification invocation"),
    }
}

#[test]
fn test_notification_without_message_is_parameter_missing() {
    let executor = ActionExecutor::new();
    let mut parameters = empty_parameters();
    parameters.title = Some("a title alone is not enough".to_owned());
    let bad = action("notify", ActionType::ShowNotification, parameters);
    assert!(matches!(executor.plan_action(&bad), Err(ActionError::ParameterMissing)));
}

#[test]
fn test_batch_plans_every_action_in_order_despite_a_failure() {
    let executor = ActionExecutor::new();

    let mut url_parameters = empty_parameters();
    url_parameters.url = Some("https://example.com".to_owned());
    let first = action("first", ActionType::OpenUrl, url_parameters);

    // The middle action fails: its required parameter is absent.
    let second = action("second", ActionType::RunCommand, empty_parameters());

    let mut notify_parameters = empty_parameters();
    notify_parameters.message = Some("done".to_owned());
    let third = action("third", ActionType::ShowNotification, notify_parameters);

    let batch = vec![first, second, third];
    let plans = executor.plan_actions(&batch);

    // All three actions are attempted, in the configured order; the failure
    // in the middle removes nothing.
    assert_eq!(plans.len(), 3);
    assert!(matches!(&plans[0], Ok(ActionInvocation::OpenUrl { .. })));
    assert!(matches!(&plans[1], Err(ActionError::ParameterMissing)));
    assert!(matches!(&plans[2], Ok(ActionInvocation::ShowNotification { .. })));
}
