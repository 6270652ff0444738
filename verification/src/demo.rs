//! The description of this module: its five actions and what it asks of the
//! host.

use crate::descriptor::{
    action_views, capability_views, parameter_views, plugin_views, texts, ActionDefinition,
    ActionView, Capability, CapabilityView, ModuleInfo, ModuleView, NetworkCapability,
    ParameterDefinition, ParameterView, PluginDefinition, PluginView, ValidationRule,
};
use crate::laws::law_description_is_well_formed;
use vstd::prelude::*;

verus! {

/// The least amount that a form lets a caller enter.
pub const MIN_AMOUNT: i64 = 1;

/// The greatest amount that a form lets a caller enter.
pub const MAX_AMOUNT: i64 = 100;

/// The limits declared for `amount`.
pub open spec fn amount_limits() -> ValidationRule {
    ValidationRule { min: Some(MIN_AMOUNT), max: Some(MAX_AMOUNT) }
}

/// `amount`: an optional number within the declared limits.
pub open spec fn amount_input(description: Seq<char>) -> ParameterView {
    ParameterView {
        name: "amount"@,
        param_type: "number"@,
        description,
        required: false,
        validation: Some(amount_limits()),
    }
}

/// `count`: a required number without limits.
pub open spec fn count_parameter(description: Seq<char>) -> ParameterView {
    ParameterView {
        name: "count"@,
        param_type: "number"@,
        description,
        required: true,
        validation: None,
    }
}

/// A required flag.
pub open spec fn flag_parameter(name: Seq<char>, description: Seq<char>) -> ParameterView {
    ParameterView {
        name,
        param_type: "boolean"@,
        description,
        required: true,
        validation: None,
    }
}

/// An action that needs no capability.
pub open spec fn plain_action(
    name: Seq<char>,
    description: Seq<char>,
    inputs: Seq<ParameterView>,
    outputs: Seq<ParameterView>,
) -> ActionView {
    ActionView { name, description, inputs, outputs, required_capabilities: Seq::empty() }
}

/// An action that changes the counter by an amount.
pub open spec fn counting_action(
    name: Seq<char>,
    description: Seq<char>,
    amount_description: Seq<char>,
) -> ActionView {
    plain_action(
        name,
        description,
        seq![amount_input(amount_description), count_parameter("Current counter value"@)],
        seq![count_parameter("Updated counter value"@)],
    )
}

/// An action that flips a visibility flag.
pub open spec fn toggling_action(
    name: Seq<char>,
    description: Seq<char>,
    flag_name: Seq<char>,
    flag_description: Seq<char>,
) -> ActionView {
    plain_action(
        name,
        description,
        seq![flag_parameter(flag_name, flag_description)],
        seq![flag_parameter(flag_name, "Updated visibility state"@)],
    )
}

/// The description of `increment`.
pub open spec fn increment_action() -> ActionView {
    counting_action("increment"@, "Increment the counter"@, "Amount to increment by"@)
}

/// The description of `decrement`.
pub open spec fn decrement_action() -> ActionView {
    counting_action("decrement"@, "Decrement the counter"@, "Amount to decrement by"@)
}

/// The description of `reset`.
pub open spec fn reset_action() -> ActionView {
    plain_action(
        "reset"@,
        "Reset the counter to zero"@,
        Seq::empty(),
        seq![count_parameter("Reset counter value (0)"@)],
    )
}

/// The description of `toggleCounter`.
pub open spec fn toggle_counter_action() -> ActionView {
    toggling_action(
        "toggleCounter"@,
        "Toggle visibility of counter block"@,
        "showCounter"@,
        "Current visibility state of counter"@,
    )
}

/// The description of `toggleStats`.
pub open spec fn toggle_stats_action() -> ActionView {
    toggling_action(
        "toggleStats"@,
        "Toggle visibility of stats block"@,
        "showStats"@,
        "Current visibility state of stats"@,
    )
}

/// The actions of this module, in the order in which it lists them.
pub open spec fn demo_actions() -> Seq<ActionView> {
    seq![
        increment_action(),
        decrement_action(),
        reset_action(),
        toggle_counter_action(),
        toggle_stats_action(),
    ]
}

/// What this module asks of the host: to query the main and the test network.
pub open spec fn demo_capabilities() -> Seq<CapabilityView> {
    seq![
        CapabilityView::Network {
            networks: seq!["mainnet"@, "testnet"@],
            operations: seq!["query"@],
        },
    ]
}

/// The description of this module.
pub open spec fn demo_module() -> ModuleView {
    ModuleView {
        name: "Demo Actions Module"@,
        version: "1.0.0"@,
        hashlinks_version: "0.1.0"@,
        creator: "HashGraph Online"@,
        purpose: "Demo actions for counter and container blocks"@,
        actions: demo_actions(),
        capabilities: demo_capabilities(),
        plugins: Seq::empty(),
    }
}

fn amount(description: &str) -> (parameter: ParameterDefinition)
    ensures
        parameter@ == amount_input(description@),
{
    ParameterDefinition {
        name: String::from_str("amount"),
        param_type: String::from_str("number"),
        description: String::from_str(description),
        required: false,
        validation: Some(ValidationRule { min: Some(MIN_AMOUNT), max: Some(MAX_AMOUNT) }),
    }
}

fn count(description: &str) -> (parameter: ParameterDefinition)
    ensures
        parameter@ == count_parameter(description@),
{
    ParameterDefinition {
        name: String::from_str("count"),
        param_type: String::from_str("number"),
        description: String::from_str(description),
        required: true,
        validation: None,
    }
}

fn flag(name: &str, description: &str) -> (parameter: ParameterDefinition)
    ensures
        parameter@ == flag_parameter(name@, description@),
{
    ParameterDefinition {
        name: String::from_str(name),
        param_type: String::from_str("boolean"),
        description: String::from_str(description),
        required: true,
        validation: None,
    }
}

fn plain(
    name: &str,
    description: &str,
    inputs: Vec<ParameterDefinition>,
    outputs: Vec<ParameterDefinition>,
) -> (action: ActionDefinition)
    ensures
        action@ == plain_action(
            name@,
            description@,
            parameter_views(inputs@),
            parameter_views(outputs@),
        ),
{
    let action = ActionDefinition {
        name: String::from_str(name),
        description: String::from_str(description),
        inputs,
        outputs,
        required_capabilities: Vec::new(),
    };
    assert(action@.required_capabilities =~= Seq::empty());
    action
}

fn counting(name: &str, description: &str, amount_description: &str) -> (action: ActionDefinition)
    ensures
        action@ == counting_action(name@, description@, amount_description@),
{
    let inputs = vec![amount(amount_description), count("Current counter value")];
    let outputs = vec![count("Updated counter value")];
    assert(parameter_views(inputs@) =~= seq![
        amount_input(amount_description@),
        count_parameter("Current counter value"@),
    ]);
    assert(parameter_views(outputs@) =~= seq![count_parameter("Updated counter value"@)]);
    plain(name, description, inputs, outputs)
}

fn toggling(name: &str, description: &str, flag_name: &str, flag_description: &str) -> (action:
    ActionDefinition)
    ensures
        action@ == toggling_action(name@, description@, flag_name@, flag_description@),
{
    let inputs = vec![flag(flag_name, flag_description)];
    let outputs = vec![flag(flag_name, "Updated visibility state")];
    assert(parameter_views(inputs@) =~= seq![flag_parameter(flag_name@, flag_description@)]);
    assert(parameter_views(outputs@) =~= seq![
        flag_parameter(flag_name@, "Updated visibility state"@),
    ]);
    plain(name, description, inputs, outputs)
}

fn resetting() -> (action: ActionDefinition)
    ensures
        action@ == reset_action(),
{
    let inputs: Vec<ParameterDefinition> = Vec::new();
    let outputs = vec![count("Reset counter value (0)")];
    assert(parameter_views(inputs@) =~= Seq::empty());
    assert(parameter_views(outputs@) =~= seq![count_parameter("Reset counter value (0)"@)]);
    plain("reset", "Reset the counter to zero", inputs, outputs)
}

fn capabilities() -> (list: Vec<Capability>)
    ensures
        capability_views(list@) == demo_capabilities(),
{
    let networks = vec![String::from_str("mainnet"), String::from_str("testnet")];
    let operations = vec![String::from_str("query")];
    assert(texts(networks@) =~= seq!["mainnet"@, "testnet"@]);
    assert(texts(operations@) =~= seq!["query"@]);
    let list = vec![Capability::Network { value: NetworkCapability { networks, operations } }];
    assert(capability_views(list@) =~= demo_capabilities());
    list
}

/// Builds the description of this module. It is well formed.
pub fn describe() -> (info: ModuleInfo)
    ensures
        info@ == demo_module(),
        info@.wf(),
{
    proof {
        law_description_is_well_formed();
    }
    let actions = vec![
        counting("increment", "Increment the counter", "Amount to increment by"),
        counting("decrement", "Decrement the counter", "Amount to decrement by"),
        resetting(),
        toggling(
            "toggleCounter",
            "Toggle visibility of counter block",
            "showCounter",
            "Current visibility state of counter",
        ),
        toggling(
            "toggleStats",
            "Toggle visibility of stats block",
            "showStats",
            "Current visibility state of stats",
        ),
    ];
    assert(action_views(actions@) =~= demo_actions());
    let plugins: Vec<PluginDefinition> = Vec::new();
    assert(plugin_views(plugins@) =~= Seq::<PluginView>::empty());
    ModuleInfo {
        name: String::from_str("Demo Actions Module"),
        version: String::from_str("1.0.0"),
        hashlinks_version: String::from_str("0.1.0"),
        creator: String::from_str("HashGraph Online"),
        purpose: String::from_str("Demo actions for counter and container blocks"),
        actions,
        capabilities: capabilities(),
        plugins,
    }
}

} // verus!
