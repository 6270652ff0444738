//! What holds of the actions, of their description and of their forms,
//! whatever the parameters.

use crate::action::{
    action_named, amount_of, failed, name_of, outcome, reset_outcome, unknown, Action,
    ActionData,
};
use crate::demo::{demo_actions, demo_module};
use crate::descriptor::ValidationRule;
use crate::form::{form_document, form_of, FormDocumentView};
use crate::params::ActionParams;
use vstd::prelude::*;

verus! {

/// No two actions share a name: looking up the name of an action finds that
/// action.
pub proof fn law_names_are_distinct(action: Action)
    ensures
        action_named(name_of(action)) == Some(action),
{
    reveal_strlit("increment");
    reveal_strlit("decrement");
    reveal_strlit("reset");
    reveal_strlit("toggleCounter");
    reveal_strlit("toggleStats");
    // Names of one length differ in a character; the others differ in length.
    assert("increment"@[0] != "decrement"@[0]);
    assert("toggleCounter"@.len() != "toggleStats"@.len());
}

/// A name runs an action exactly when it is that action's name.
pub proof fn law_named_exactly(name: Seq<char>, action: Action)
    ensures
        action_named(name) == Some(action) <==> name == name_of(action),
{
    law_names_are_distinct(action);
}

/// `increment` with a count and an amount succeeds, and the new count is their
/// sum.
pub proof fn law_increment_adds(params: ActionParams, count: i32, amount: i32)
    requires
        params.count == Some(count),
        params.amount == Some(amount),
    ensures
        outcome("increment"@, params).success,
        outcome("increment"@, params).error is None,
        outcome("increment"@, params).data matches Some(ActionData::Count(n)) && n == count
            + amount,
{
    law_names_are_distinct(Action::Increment);
}

/// `decrement` with a count and an amount succeeds, and the new count is their
/// difference.
pub proof fn law_decrement_subtracts(params: ActionParams, count: i32, amount: i32)
    requires
        params.count == Some(count),
        params.amount == Some(amount),
    ensures
        outcome("decrement"@, params).success,
        outcome("decrement"@, params).error is None,
        outcome("decrement"@, params).data matches Some(ActionData::Count(n)) && n == count
            - amount,
{
    law_names_are_distinct(Action::Decrement);
}

/// Without an amount the counter changes by 1: `increment` and `decrement`
/// then yield what they yield for the amount 1.
pub proof fn law_amount_defaults_to_one(params: ActionParams, count: i32)
    requires
        params.count == Some(count),
        params.amount is None,
    ensures
        outcome("increment"@, params) == outcome(
            "increment"@,
            ActionParams { amount: Some(1i32), ..params },
        ),
        outcome("increment"@, params).data matches Some(ActionData::Count(n)) && n == count + 1,
        outcome("decrement"@, params) == outcome(
            "decrement"@,
            ActionParams { amount: Some(1i32), ..params },
        ),
        outcome("decrement"@, params).data matches Some(ActionData::Count(n)) && n == count - 1,
{
    law_names_are_distinct(Action::Increment);
    law_names_are_distinct(Action::Decrement);
}

/// `reset` succeeds with the count 0, whatever the parameters: its result does
/// not depend on them.
pub proof fn law_reset_is_constant(params: ActionParams)
    ensures
        outcome("reset"@, params) == reset_outcome(),
        outcome("reset"@, params).success,
        outcome("reset"@, params).data == Some(ActionData::Count(0)),
{
    law_names_are_distinct(Action::Reset);
}

/// `toggleCounter` yields the opposite of the flag it is given, and applied to
/// its own result yields the flag again.
pub proof fn law_toggle_counter_twice(params: ActionParams, shown: bool)
    requires
        params.show_counter == Some(shown),
    ensures
        outcome("toggleCounter"@, params).success,
        outcome("toggleCounter"@, params).data == Some(ActionData::ShowCounter(!shown)),
        outcome("toggleCounter"@, ActionParams { show_counter: Some(!shown), ..params }).data
            == Some(ActionData::ShowCounter(shown)),
{
    law_names_are_distinct(Action::ToggleCounter);
}

/// `toggleStats` yields the opposite of the flag it is given, and applied to
/// its own result yields the flag again.
pub proof fn law_toggle_stats_twice(params: ActionParams, shown: bool)
    requires
        params.show_stats == Some(shown),
    ensures
        outcome("toggleStats"@, params).success,
        outcome("toggleStats"@, params).data == Some(ActionData::ShowStats(!shown)),
        outcome("toggleStats"@, ActionParams { show_stats: Some(!shown), ..params }).data
            == Some(ActionData::ShowStats(shown)),
{
    law_names_are_distinct(Action::ToggleStats);
}

/// `increment` and `decrement` without a count fail, and the error says that
/// `count` is missing. An amount does not help.
pub proof fn law_count_is_required(params: ActionParams)
    requires
        params.count is None,
    ensures
        outcome("increment"@, params) == failed("Missing required parameter: count"@),
        outcome("decrement"@, params) == failed("Missing required parameter: count"@),
        !outcome("increment"@, params).success,
        !outcome("decrement"@, params).success,
{
    law_names_are_distinct(Action::Increment);
    law_names_are_distinct(Action::Decrement);
    reveal_strlit("Missing required parameter: ");
    reveal_strlit("count");
    reveal_strlit("Missing required parameter: count");
    assert("Missing required parameter: "@ + "count"@ =~= "Missing required parameter: count"@);
}

/// `toggleCounter` without `showCounter` and `toggleStats` without `showStats`
/// fail, and the error names the missing flag.
pub proof fn law_flag_is_required(params: ActionParams)
    ensures
        params.show_counter is None ==> outcome("toggleCounter"@, params) == failed(
            "Missing required parameter: showCounter"@,
        ),
        params.show_stats is None ==> outcome("toggleStats"@, params) == failed(
            "Missing required parameter: showStats"@,
        ),
{
    law_names_are_distinct(Action::ToggleCounter);
    law_names_are_distinct(Action::ToggleStats);
    reveal_strlit("Missing required parameter: ");
    reveal_strlit("showCounter");
    reveal_strlit("showStats");
    reveal_strlit("Missing required parameter: showCounter");
    reveal_strlit("Missing required parameter: showStats");
    assert("Missing required parameter: "@ + "showCounter"@
        =~= "Missing required parameter: showCounter"@);
    assert("Missing required parameter: "@ + "showStats"@
        =~= "Missing required parameter: showStats"@);
}

/// A name that is no action's gives a result, not a failure of the call: one
/// without success, data or message, whose error is `Unknown action: ` and the
/// name.
pub proof fn law_unknown_name_is_reported(name: Seq<char>, params: ActionParams)
    requires
        action_named(name) is None,
    ensures
        outcome(name, params) == unknown(name),
        !outcome(name, params).success,
        outcome(name, params).data is None,
        outcome(name, params).error == Some("Unknown action: "@ + name),
{
}

/// An action succeeds exactly when the name is known and the parameter that
/// the action needs is there; a result has an error exactly when it has no
/// success.
pub proof fn law_success_or_error(name: Seq<char>, params: ActionParams)
    ensures
        outcome(name, params).success <==> outcome(name, params).error is None,
        outcome(name, params).success <==> outcome(name, params).data is Some,
        outcome(name, params).success <==> outcome(name, params).message is Some,
        outcome(name, params).success <==> match action_named(name) {
            Some(Action::Increment) | Some(Action::Decrement) => params.count is Some,
            Some(Action::Reset) => true,
            Some(Action::ToggleCounter) => params.show_counter is Some,
            Some(Action::ToggleStats) => params.show_stats is Some,
            None => false,
        },
{
}

/// The description of this module is well formed: its parameters are numbers
/// or flags, limits are in order and only on numbers, and no two actions
/// share a name.
pub proof fn law_description_is_well_formed()
    ensures
        demo_module().wf(),
{
    reveal_strlit("number");
    reveal_strlit("boolean");
    assert("number"@.len() != "boolean"@.len());
    let actions = demo_actions();
    assert forall|i: int| 0 <= i < actions.len() implies (#[trigger] actions[i]).wf() by {
        let action = actions[i];
        assert forall|k: int| 0 <= k < action.inputs.len() implies (
        #[trigger] action.inputs[k]).wf() by {}
        assert forall|k: int| 0 <= k < action.outputs.len() implies (
        #[trigger] action.outputs[k]).wf() by {}
    }
    assert forall|i: int, j: int| 0 <= i < j < actions.len() implies (#[trigger] actions[i]).name
        != (#[trigger] actions[j]).name by {
        law_names_are_distinct(Action::Increment);
        law_names_are_distinct(Action::Decrement);
        law_names_are_distinct(Action::Reset);
        law_names_are_distinct(Action::ToggleCounter);
        law_names_are_distinct(Action::ToggleStats);
    }
}

/// Where the description lists an action.
pub open spec fn position(action: Action) -> int {
    match action {
        Action::Increment => 0,
        Action::Decrement => 1,
        Action::Reset => 2,
        Action::ToggleCounter => 3,
        Action::ToggleStats => 4,
    }
}

/// The description lists five actions, each at its position and under the name
/// by which it is run.
pub proof fn law_description_lists_every_action(action: Action)
    ensures
        demo_module().actions.len() == 5,
        0 <= position(action) < demo_module().actions.len(),
        demo_module().actions[position(action)].name == name_of(action),
{
}

/// The names that the description lists are exactly the names that can be
/// run, and exactly the names that have a form.
pub proof fn law_described_names_are_the_runnable(name: Seq<char>)
    ensures
        demo_module().describes(name) <==> action_named(name) is Some,
        form_document(name) is Form <==> action_named(name) is Some,
{
    let actions = demo_module().actions;
    if action_named(name) is Some {
        let action = action_named(name)->0;
        law_description_lists_every_action(action);
        assert(actions[position(action)].name == name);
    }
    if demo_module().describes(name) {
        let i = choose|i: int| 0 <= i < actions.len() && (#[trigger] actions[i]).name == name;
        assert(actions[i].name == name);
    }
}

/// The form of a known name is the form of its action; for any other name the
/// document holds only the error `Unknown action: ` and the name.
pub proof fn law_form_or_error(name: Seq<char>)
    ensures
        match action_named(name) {
            Some(action) => form_document(name) == FormDocumentView::Form(form_of(action)),
            None => form_document(name) == (FormDocumentView::Error {
                error: "Unknown action: "@ + name,
            }),
        },
{
}

/// Forms, description and actions agree on the amount. The forms of
/// `increment` and `decrement` have one field: it has the name, the limits
/// and the optionality that the description declares for the first input,
/// and where nothing is entered it shows the amount that the action takes
/// where none is given. The other forms have no field.
pub proof fn law_forms_agree_with_description(action: Action, params: ActionParams)
    requires
        params.amount is None,
    ensures
        match action {
            Action::Increment | Action::Decrement => {
                let field = form_of(action).parameters[0];
                let declared = demo_module().actions[position(action)].inputs[0];
                &&& form_of(action).parameters.len() == 1
                &&& field.name == declared.name
                &&& field.field_type == declared.param_type
                &&& field.required == declared.required
                &&& declared.validation == Some(ValidationRule { min: field.min, max: field.max })
                &&& field.default == amount_of(params)
            },
            _ => form_of(action).parameters.len() == 0,
        },
{
}

} // verus!
