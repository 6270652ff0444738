//! The actions: what each one is called and what it computes.
//!
//! An action is a pure function of its parameters. A missing parameter or an
//! unknown name is reported in the result; no action fails in any other way.

use crate::params::ActionParams;
use crate::text::{decimal, flag, flag_text, push_decimal, text_eq};
use vstd::prelude::*;

verus! {

/// The actions that can be run.
#[derive(Clone, Copy, Debug, PartialEq, Eq)]
pub enum Action {
    Increment,
    Decrement,
    Reset,
    ToggleCounter,
    ToggleStats,
}

/// The action of a given name. Names are matched exactly.
pub open spec fn action_named(name: Seq<char>) -> Option<Action> {
    if name == "increment"@ {
        Some(Action::Increment)
    } else if name == "decrement"@ {
        Some(Action::Decrement)
    } else if name == "reset"@ {
        Some(Action::Reset)
    } else if name == "toggleCounter"@ {
        Some(Action::ToggleCounter)
    } else if name == "toggleStats"@ {
        Some(Action::ToggleStats)
    } else {
        None
    }
}

/// The name under which an action is run.
pub open spec fn name_of(action: Action) -> Seq<char> {
    match action {
        Action::Increment => "increment"@,
        Action::Decrement => "decrement"@,
        Action::Reset => "reset"@,
        Action::ToggleCounter => "toggleCounter"@,
        Action::ToggleStats => "toggleStats"@,
    }
}

/// What a successful action hands back.
#[derive(Clone, Copy, Debug, PartialEq, Eq)]
pub enum ActionData {
    /// `count`: the counter's new value.
    Count(i64),
    /// `showCounter`: whether the counter block is now shown.
    ShowCounter(bool),
    /// `showStats`: whether the stats block is now shown.
    ShowStats(bool),
}

/// The result of running an action.
#[derive(Clone, Debug, PartialEq, Eq)]
pub struct ActionResult {
    pub success: bool,
    pub data: Option<ActionData>,
    pub message: Option<String>,
    pub error: Option<String>,
}

/// An `ActionResult` with its texts as character sequences.
pub struct Outcome {
    pub success: bool,
    pub data: Option<ActionData>,
    pub message: Option<Seq<char>>,
    pub error: Option<Seq<char>>,
}

impl View for ActionResult {
    type V = Outcome;

    open spec fn view(&self) -> Outcome {
        Outcome {
            success: self.success,
            data: self.data,
            message: match self.message {
                Some(text) => Some(text@),
                None => None,
            },
            error: match self.error {
                Some(text) => Some(text@),
                None => None,
            },
        }
    }
}

/// The result of an action that worked.
pub open spec fn succeeded(data: ActionData, message: Seq<char>) -> Outcome {
    Outcome { success: true, data: Some(data), message: Some(message), error: None }
}

/// The result of an action that could not be run.
pub open spec fn failed(error: Seq<char>) -> Outcome {
    Outcome { success: false, data: None, message: None, error: Some(error) }
}

/// The amount by which a counter changes where the caller names none.
pub const DEFAULT_AMOUNT: i32 = 1;

/// The amount to change a counter by: the one given, or the default.
pub open spec fn amount_of(params: ActionParams) -> i32 {
    match params.amount {
        Some(amount) => amount,
        None => DEFAULT_AMOUNT,
    }
}

/// `increment`: the counter plus the amount. The sum is exact: it is not cut
/// to 32 bits.
pub open spec fn incremented(count: i32, amount: i32) -> Outcome {
    succeeded(
        ActionData::Count((count + amount) as i64),
        "Counter incremented by "@ + decimal(amount as int) + " to "@ + decimal(count + amount),
    )
}

/// `decrement`: the counter minus the amount. The difference is exact: it is
/// not cut to 32 bits.
pub open spec fn decremented(count: i32, amount: i32) -> Outcome {
    succeeded(
        ActionData::Count((count - amount) as i64),
        "Counter decremented by "@ + decimal(amount as int) + " to "@ + decimal(count - amount),
    )
}

/// `reset`: the counter at zero.
pub open spec fn reset_outcome() -> Outcome {
    succeeded(ActionData::Count(0), "Counter reset to 0"@)
}

/// `toggleCounter`: the counter block shown if it was hidden, hidden if it was
/// shown.
pub open spec fn counter_toggled(shown: bool) -> Outcome {
    succeeded(ActionData::ShowCounter(!shown), "Counter visibility toggled to "@ + flag(!shown))
}

/// `toggleStats`: the stats block shown if it was hidden, hidden if it was
/// shown.
pub open spec fn stats_toggled(shown: bool) -> Outcome {
    succeeded(ActionData::ShowStats(!shown), "Stats visibility toggled to "@ + flag(!shown))
}

/// The result when a parameter that the action needs is not there.
pub open spec fn missing(parameter: Seq<char>) -> Outcome {
    failed("Missing required parameter: "@ + parameter)
}

/// The result for a name that is no action's.
pub open spec fn unknown(name: Seq<char>) -> Outcome {
    failed("Unknown action: "@ + name)
}

/// What running an action on given parameters yields.
pub open spec fn run(action: Action, params: ActionParams) -> Outcome {
    match action {
        Action::Increment => match params.count {
            Some(count) => incremented(count, amount_of(params)),
            None => missing("count"@),
        },
        Action::Decrement => match params.count {
            Some(count) => decremented(count, amount_of(params)),
            None => missing("count"@),
        },
        Action::Reset => reset_outcome(),
        Action::ToggleCounter => match params.show_counter {
            Some(shown) => counter_toggled(shown),
            None => missing("showCounter"@),
        },
        Action::ToggleStats => match params.show_stats {
            Some(shown) => stats_toggled(shown),
            None => missing("showStats"@),
        },
    }
}

/// What `execute` yields for a name and parameters.
pub open spec fn outcome(name: Seq<char>, params: ActionParams) -> Outcome {
    match action_named(name) {
        Some(action) => run(action, params),
        None => unknown(name),
    }
}

impl Action {
    /// Finds the action of a given name.
    pub fn named(name: &str) -> (found: Option<Action>)
        ensures
            found == action_named(name@),
    {
        if text_eq(name, "increment") {
            Some(Action::Increment)
        } else if text_eq(name, "decrement") {
            Some(Action::Decrement)
        } else if text_eq(name, "reset") {
            Some(Action::Reset)
        } else if text_eq(name, "toggleCounter") {
            Some(Action::ToggleCounter)
        } else if text_eq(name, "toggleStats") {
            Some(Action::ToggleStats)
        } else {
            None
        }
    }

    /// The name under which the action is run.
    pub fn name(&self) -> (name: &'static str)
        ensures
            name@ == name_of(*self),
    {
        match self {
            Action::Increment => "increment",
            Action::Decrement => "decrement",
            Action::Reset => "reset",
            Action::ToggleCounter => "toggleCounter",
            Action::ToggleStats => "toggleStats",
        }
    }
}

fn success(data: ActionData, message: String) -> (result: ActionResult)
    ensures
        result@ == succeeded(data, message@),
{
    ActionResult { success: true, data: Some(data), message: Some(message), error: None }
}

fn failure(error: String) -> (result: ActionResult)
    ensures
        result@ == failed(error@),
{
    ActionResult { success: false, data: None, message: None, error: Some(error) }
}

fn missing_parameter(parameter: &str) -> (result: ActionResult)
    ensures
        result@ == missing(parameter@),
{
    let mut error = String::from_str("Missing required parameter: ");
    error.append(parameter);
    failure(error)
}

/// Adds an amount to a counter.
pub fn increment(count: i32, amount: i32) -> (result: ActionResult)
    ensures
        result@ == incremented(count, amount),
{
    let new_count: i64 = count as i64 + amount as i64;
    let mut message = String::from_str("Counter incremented by ");
    push_decimal(&mut message, amount as i64);
    message.append(" to ");
    push_decimal(&mut message, new_count);
    assert(message@ =~= "Counter incremented by "@ + decimal(amount as int) + " to "@ + decimal(
        count + amount,
    ));
    success(ActionData::Count(new_count), message)
}

/// Takes an amount from a counter.
pub fn decrement(count: i32, amount: i32) -> (result: ActionResult)
    ensures
        result@ == decremented(count, amount),
{
    let new_count: i64 = count as i64 - amount as i64;
    let mut message = String::from_str("Counter decremented by ");
    push_decimal(&mut message, amount as i64);
    message.append(" to ");
    push_decimal(&mut message, new_count);
    assert(message@ =~= "Counter decremented by "@ + decimal(amount as int) + " to "@ + decimal(
        count - amount,
    ));
    success(ActionData::Count(new_count), message)
}

/// Sets a counter back to zero.
pub fn reset() -> (result: ActionResult)
    ensures
        result@ == reset_outcome(),
{
    success(ActionData::Count(0), String::from_str("Counter reset to 0"))
}

/// Shows the counter block if it is hidden, hides it if it is shown.
pub fn toggle_counter(shown: bool) -> (result: ActionResult)
    ensures
        result@ == counter_toggled(shown),
{
    let new_state = !shown;
    let mut message = String::from_str("Counter visibility toggled to ");
    message.append(flag_text(new_state));
    success(ActionData::ShowCounter(new_state), message)
}

/// Shows the stats block if it is hidden, hides it if it is shown.
pub fn toggle_stats(shown: bool) -> (result: ActionResult)
    ensures
        result@ == stats_toggled(shown),
{
    let new_state = !shown;
    let mut message = String::from_str("Stats visibility toggled to ");
    message.append(flag_text(new_state));
    success(ActionData::ShowStats(new_state), message)
}

/// Runs the action of a given name on the parameters.
///
/// `increment` and `decrement` need `count` and change it by `amount`, or by 1
/// where no amount is given. `reset` needs nothing. `toggleCounter` needs
/// `showCounter` and `toggleStats` needs `showStats`. A missing parameter and
/// an unknown name give a result that says so, with `success` false.
pub fn execute(name: &str, params: &ActionParams) -> (result: ActionResult)
    ensures
        result@ == outcome(name@, *params),
{
    match Action::named(name) {
        Some(Action::Increment) => match params.count {
            Some(count) => increment(count, params.amount.unwrap_or(DEFAULT_AMOUNT)),
            None => missing_parameter("count"),
        },
        Some(Action::Decrement) => match params.count {
            Some(count) => decrement(count, params.amount.unwrap_or(DEFAULT_AMOUNT)),
            None => missing_parameter("count"),
        },
        Some(Action::Reset) => reset(),
        Some(Action::ToggleCounter) => match params.show_counter {
            Some(shown) => toggle_counter(shown),
            None => missing_parameter("showCounter"),
        },
        Some(Action::ToggleStats) => match params.show_stats {
            Some(shown) => toggle_stats(shown),
            None => missing_parameter("showStats"),
        },
        None => {
            let mut error = String::from_str("Unknown action: ");
            error.append(name);
            failure(error)
        },
    }
}

} // verus!
