//! The dispatcher's decisions: which side effect each configured action
//! asks for, which parameters its type requires, and what a whole batch
//! plans. The side effects themselves (opening a URL, spawning a process,
//! raising a notification) are performed by the surrounding application,
//! one invocation at a time, failures notwithstanding.

use vstd::prelude::*;

use crate::config::ActionConfig;
use crate::config::ActionParameters;
use crate::config::ActionType;

verus! {

/// The default notification title, used when an action sets none.
pub const DEFAULT_NOTIFICATION_TITLE: &'static str = "SVBONY AI Assistant";

/// Errors of one action's dispatch.
#[derive(Debug, Clone, Copy, PartialEq, Eq, Structural)]
pub enum ActionError {
    /// A parameter the action's type requires is absent; detected before
    /// any side effect is attempted.
    ParameterMissing,
    /// The underlying OS call failed; reported by the caller that performs
    /// the invocation.
    ExecutionFailure,
}

/// The side effect one enabled action asks for, with every parameter
/// resolved: the one value the performing caller needs.
pub enum ActionInvocation {
    /// The action is disabled: nothing is to be done, and the action counts
    /// as succeeded.
    Skip,
    /// Ask the host's default handler to open the URL; the handler is not
    /// awaited.
    OpenUrl { url: String },
    /// Spawn the command with the arguments, standard streams discarded;
    /// the process is not awaited.
    RunCommand { command: String, args: Vec<String> },
    /// Declared capability placeholder: the key sequence is validated and
    /// reported, and no input is injected.
    SendKeys { keys: String },
    /// Raise a desktop notification with the title and the message.
    ShowNotification { title: String, message: String },
}

/// The argument list an action runs its command with: the configured one,
/// or empty when none is set.
pub open spec fn effective_args(p: ActionParameters) -> Seq<String> {
    match p.args {
        Some(a) => a@,
        None => Seq::empty(),
    }
}

/// The title a notification is raised with: the configured one, or the
/// default when none is set.
pub open spec fn effective_title(p: ActionParameters) -> Seq<char> {
    match p.title {
        Some(t) => t@,
        None => DEFAULT_NOTIFICATION_TITLE@,
    }
}

/// True when the action is enabled but the parameter its type requires is
/// absent: the one condition under which planning an action fails.
pub open spec fn missing_required_parameter(action: ActionConfig) -> bool {
    action.enabled && match action.action_type {
        ActionType::OpenUrl => action.parameters.url is None,
        ActionType::RunCommand => action.parameters.command is None,
        ActionType::SendKeys => action.parameters.keys is None,
        ActionType::ShowNotification => action.parameters.message is None,
    }
}

/// What the invocation planned for an action must hold: a disabled action
/// is skipped; an enabled one carries exactly its configured parameters,
/// with the argument list and the title defaulted where absent.
pub open spec fn invocation_for(action: ActionConfig, inv: ActionInvocation) -> bool {
    if !action.enabled {
        inv is Skip
    } else {
        match action.action_type {
            ActionType::OpenUrl => (inv matches ActionInvocation::OpenUrl { url }
                && action.parameters.url == Some(url)),
            ActionType::RunCommand => (inv matches ActionInvocation::RunCommand { command, args }
                && action.parameters.command == Some(command)
                && args@ == effective_args(action.parameters)),
            ActionType::SendKeys => (inv matches ActionInvocation::SendKeys { keys }
                && action.parameters.keys == Some(keys)),
            ActionType::ShowNotification => (inv matches ActionInvocation::ShowNotification {
                title,
                message,
            } && action.parameters.message == Some(message)
                && title@ == effective_title(action.parameters)),
        }
    }
}

/// What one planned result must hold of its action: an error exactly when a
/// required parameter is missing, the resolved invocation otherwise.
pub open spec fn plan_result_for(action: ActionConfig, r: Result<
    ActionInvocation,
    ActionError,
>) -> bool {
    &&& r is Err <==> missing_required_parameter(action)
    &&& r is Err ==> r == Err::<ActionInvocation, ActionError>(ActionError::ParameterMissing)
    &&& (r matches Ok(inv) ==> invocation_for(action, inv))
}

/// Plans and hands out action invocations; it holds no state of its own.
pub struct ActionExecutor {}

impl ActionExecutor {
    pub fn new() -> (r: ActionExecutor) {
        ActionExecutor {}
    }

    /// Decides what one action asks for. A disabled action is skipped and
    /// succeeds; an enabled action with its required parameter absent fails
    /// with `ParameterMissing` before any side effect could be attempted;
    /// any other action resolves to exactly its configured side effect.
    pub fn plan_action(&self, action: &ActionConfig) -> (r: Result<ActionInvocation, ActionError>)
        ensures
            plan_result_for(*action, r),
    {
        if !action.enabled {
            return Ok(ActionInvocation::Skip);
        }
        match action.action_type {
            ActionType::OpenUrl => match &action.parameters.url {
                Some(url) => Ok(ActionInvocation::OpenUrl { url: url.clone() }),
                None => Err(ActionError::ParameterMissing),
            },
            ActionType::RunCommand => match &action.parameters.command {
                Some(command) => {
                    let args = match &action.parameters.args {
                        Some(a) => a.clone(),
                        None => Vec::new(),
                    };
                    Ok(ActionInvocation::RunCommand { command: command.clone(), args })
                },
                None => Err(ActionError::ParameterMissing),
            },
            ActionType::SendKeys => match &action.parameters.keys {
                Some(keys) => Ok(ActionInvocation::SendKeys { keys: keys.clone() }),
                None => Err(ActionError::ParameterMissing),
            },
            ActionType::ShowNotification => match &action.parameters.message {
                Some(message) => {
                    let title = match &action.parameters.title {
                        Some(t) => t.clone(),
                        None => DEFAULT_NOTIFICATION_TITLE.to_owned(),
                    };
                    Ok(ActionInvocation::ShowNotification { title, message: message.clone() })
                },
                None => Err(ActionError::ParameterMissing),
            },
        }
    }

    /// Plans a whole batch: every action of the list is planned, in the
    /// configured order, and each plan depends on its own action alone — in
    /// particular, one action's failure never removes, reorders or changes
    /// another action's plan.
    pub fn plan_actions(&self, actions: &Vec<ActionConfig>) -> (r: Vec<
        Result<ActionInvocation, ActionError>,
    >)
        ensures
            r@.len() == actions@.len(),
            forall|k: int| 0 <= k < actions@.len() ==> plan_result_for(actions@[k], #[trigger] r@[k]),
    {
        let n = actions.len();
        let mut r: Vec<Result<ActionInvocation, ActionError>> = Vec::new();
        let mut i: usize = 0;
        while i < n
            invariant
                i <= n,
                n == actions@.len(),
                r@.len() == i,
                forall|k: int| 0 <= k < i ==> plan_result_for(actions@[k], #[trigger] r@[k]),
            decreases n - i,
        {
            let planned = self.plan_action(&actions[i]);
            r.push(planned);
            i = i + 1;
        }
        r
    }
}

} // verus!
