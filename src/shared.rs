//! The state shown to clients, and the callbacks that clients send.
use vstd::prelude::*;
use vstd::string::StringExecFns;
use crate::command::{
    corrupt_exit_code, polled_status, status_view, text_view, update_running_command, ExitCodeError,
    JobStatus, RunningCommand, StatusArtifacts,
};

verus! {

/// The state that is pushed to clients.
#[derive(Debug, PartialEq, Clone)]
pub struct Shared {
    pub error: String,
    pub running: Option<RunningCommand>,
}

/// The model of `Shared`.
pub struct SharedView {
    pub error: Seq<char>,
    pub running: Option<JobStatus>,
}

impl View for Shared {
    type V = SharedView;

    open spec fn view(&self) -> SharedView {
        SharedView { error: self.error@, running: status_view(self.running) }
    }
}

/// The state after publishing a status: a status replaces the one shown, and
/// no status leaves the state as it was.
pub open spec fn published(s: SharedView, running: Option<JobStatus>) -> SharedView {
    match running {
        Some(j) => SharedView { error: s.error, running: Some(j) },
        None => s,
    }
}

impl Shared {
    /// The state at start-up: no error and no job.
    pub fn new() -> (r: Shared)
        ensures
            r@.error.len() == 0,
            r@.running is None,
    {
        Shared { error: String::new(), running: None }
    }

    /// Shows a job status in place of the one shown before; `None` changes nothing.
    pub fn publish(&mut self, running: Option<RunningCommand>)
        ensures
            final(self)@ == published(old(self)@, status_view(running)),
    {
        if running.is_some() {
            self.running = running;
        }
    }

    /// One poll: reads the job status from the records and shows it. Where
    /// the exit-code record is corrupt, the state is left as it was and the
    /// error is returned.
    pub fn refresh(&mut self, store: &StatusArtifacts) -> (r: Result<(), ExitCodeError>)
        ensures
            corrupt_exit_code(store@) ==> (r matches Err(ExitCodeError::Corrupt(t))
                && store@.exit_code == Some(t@)),
            corrupt_exit_code(store@) ==> final(self)@ == old(self)@,
            !corrupt_exit_code(store@) ==> r is Ok,
            !corrupt_exit_code(store@) ==> final(self)@ == published(
                old(self)@,
                polled_status(store@),
            ),
    {
        match update_running_command(store) {
            Ok(running) => {
                self.publish(running);
                Ok(())
            },
            Err(e) => Err(e),
        }
    }
}

/// What to do with a callback from a client.
#[derive(Debug, PartialEq, Clone)]
pub enum CallbackAction {
    /// Launch this recipe.
    RunRecipe(String),
    /// The callback names no known action; it is logged and ignored.
    UnknownName(String),
    /// The callback's arguments are not a single string; it is logged and ignored.
    PayloadInvalid,
}

/// The name of the callback that launches a recipe.
pub open spec fn run_recipe_name() -> Seq<char> {
    "run-recipe"@
}

/// Decides what a callback asks for, given its name and its arguments as a
/// string, if they were one.
pub fn callback_action(name: &str, recipe: Option<String>) -> (r: CallbackAction)
    ensures
        name@ != run_recipe_name() ==> (r matches CallbackAction::UnknownName(n) && n@ == name@),
        name@ == run_recipe_name() && recipe is None ==> r == CallbackAction::PayloadInvalid,
        name@ == run_recipe_name() && recipe is Some ==> r == CallbackAction::RunRecipe(recipe->Some_0),
{
    let known = String::from_str("run-recipe");
    let given = String::from_str(name);
    if given == known {
        match recipe {
            Some(r) => CallbackAction::RunRecipe(r),
            None => CallbackAction::PayloadInvalid,
        }
    } else {
        CallbackAction::UnknownName(given)
    }
}

#[verifier::external_type_specification]
#[verifier::external_body]
pub struct ExValue(serde_json::Value);

/// The string that a JSON value holds, if it is a string.
pub uninterp spec fn json_string_of(v: serde_json::Value) -> Option<Seq<char>>;

/// Relies on `serde_json::from_value::<String>`: decodes the callback's
/// arguments as one string, the string of a `Value::String` and an error for
/// any other value; the result depends on the value alone.
#[verifier::external_body]
fn recipe_from_args(args: serde_json::Value) -> (r: Option<String>)
    ensures
        text_view(r) == json_string_of(args),
{
    serde_json::from_value::<String>(args).ok()
}

/// Decides what a callback asks for, given its name and its arguments as
/// JSON: a known name with arguments that are not a string is invalid.
pub fn decode_callback(name: &str, args: serde_json::Value) -> (r: CallbackAction)
    ensures
        name@ != run_recipe_name() ==> (r matches CallbackAction::UnknownName(n) && n@ == name@),
        name@ == run_recipe_name() && json_string_of(args) is None ==> r
            == CallbackAction::PayloadInvalid,
        name@ == run_recipe_name() && json_string_of(args) is Some ==> (r matches CallbackAction::RunRecipe(
            x,
        ) && x@ == json_string_of(args)->Some_0),
{
    let recipe = recipe_from_args(args);
    callback_action(name, recipe)
}

} // verus!
