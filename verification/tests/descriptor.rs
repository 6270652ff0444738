use demo_actions::action::Action;
use demo_actions::demo::{describe, MAX_AMOUNT, MIN_AMOUNT};
use demo_actions::descriptor::{
    ActionDefinition, Capability, NetworkCapability, ParameterDefinition, ValidationRule,
};
use demo_actions::form::FormDocument;
use demo_actions::interface::WasmInterface;

fn parameter(
    name: &str,
    param_type: &str,
    description: &str,
    required: bool,
    validation: Option<ValidationRule>,
) -> ParameterDefinition {
    ParameterDefinition {
        name: name.to_string(),
        param_type: param_type.to_string(),
        description: description.to_string(),
        required,
        validation,
    }
}

fn action(
    name: &str,
    description: &str,
    inputs: Vec<ParameterDefinition>,
    outputs: Vec<ParameterDefinition>,
) -> ActionDefinition {
    ActionDefinition {
        name: name.to_string(),
        description: description.to_string(),
        inputs,
        outputs,
        required_capabilities: vec![],
    }
}

#[test]
fn info_names_the_module() {
    let info = WasmInterface::new().info();
    assert_eq!(info.name, "Demo Actions Module");
    assert_eq!(info.version, "1.0.0");
    assert_eq!(info.hashlinks_version, "0.1.0");
    assert_eq!(info.creator, "HashGraph Online");
    assert_eq!(info.purpose, "Demo actions for counter and container blocks");
    assert!(info.plugins.is_empty());
}

#[test]
fn info_asks_for_queries_on_two_networks() {
    let info = WasmInterface::new().info();
    assert_eq!(
        info.capabilities,
        vec![Capability::Network {
            value: NetworkCapability {
                networks: vec!["mainnet".to_string(), "testnet".to_string()],
                operations: vec!["query".to_string()],
            },
        }]
    );
}

#[test]
fn info_describes_increment_and_decrement() {
    let limits = Some(ValidationRule { min: Some(1), max: Some(100) });
    let info = WasmInterface::new().info();
    assert_eq!(
        info.actions[0],
        action(
            "increment",
            "Increment the counter",
            vec![
                parameter("amount", "number", "Amount to increment by", false, limits),
                parameter("count", "number", "Current counter value", true, None),
            ],
            vec![parameter("count", "number", "Updated counter value", true, None)],
        )
    );
    assert_eq!(
        info.actions[1],
        action(
            "decrement",
            "Decrement the counter",
            vec![
                parameter("amount", "number", "Amount to decrement by", false, limits),
                parameter("count", "number", "Current counter value", true, None),
            ],
            vec![parameter("count", "number", "Updated counter value", true, None)],
        )
    );
}

#[test]
fn info_describes_reset() {
    let info = WasmInterface::new().info();
    assert_eq!(
        info.actions[2],
        action(
            "reset",
            "Reset the counter to zero",
            vec![],
            vec![parameter("count", "number", "Reset counter value (0)", true, None)],
        )
    );
}

#[test]
fn info_describes_the_toggles() {
    let info = WasmInterface::new().info();
    assert_eq!(
        info.actions[3],
        action(
            "toggleCounter",
            "Toggle visibility of counter block",
            vec![parameter(
                "showCounter",
                "boolean",
                "Current visibility state of counter",
                true,
                None
            )],
            vec![parameter("showCounter", "boolean", "Updated visibility state", true, None)],
        )
    );
    assert_eq!(
        info.actions[4],
        action(
            "toggleStats",
            "Toggle visibility of stats block",
            vec![parameter(
                "showStats",
                "boolean",
                "Current visibility state of stats",
                true,
                None
            )],
            vec![parameter("showStats", "boolean", "Updated visibility state", true, None)],
        )
    );
    assert_eq!(info.actions.len(), 5);
}

#[test]
fn describe_is_what_info_returns() {
    assert_eq!(describe(), WasmInterface::new().info());
}

#[test]
fn described_names_are_exactly_the_runnable_names() {
    let interface = WasmInterface::new();
    let info = interface.info();
    let described: Vec<&str> = info.actions.iter().map(|a| a.name.as_str()).collect();
    assert_eq!(
        described,
        vec!["increment", "decrement", "reset", "toggleCounter", "toggleStats"]
    );
    for name in &described {
        assert!(Action::named(name).is_some());
        let result = interface.post(name, "{}", "", "").unwrap();
        let unknown = format!("Unknown action: {}", name);
        assert_ne!(result.error.as_deref(), Some(unknown.as_str()));
        assert!(matches!(interface.get(name, "{}", ""), FormDocument::Form(_)));
    }
    let all = [
        Action::Increment,
        Action::Decrement,
        Action::Reset,
        Action::ToggleCounter,
        Action::ToggleStats,
    ];
    for action in all {
        assert!(described.contains(&action.name()));
    }
    for name in ["unknownAction", "Reset", "toggle", ""] {
        assert!(!described.contains(&name));
        assert!(Action::named(name).is_none());
        assert!(matches!(interface.get(name, "{}", ""), FormDocument::Error { .. }));
    }
}

#[test]
fn no_two_described_actions_share_a_name() {
    let info = WasmInterface::new().info();
    for i in 0..info.actions.len() {
        for j in (i + 1)..info.actions.len() {
            assert_ne!(info.actions[i].name, info.actions[j].name);
        }
    }
}

#[test]
fn described_parameters_are_well_formed() {
    let info = WasmInterface::new().info();
    for action in &info.actions {
        for parameter in action.inputs.iter().chain(action.outputs.iter()) {
            assert!(parameter.param_type == "number" || parameter.param_type == "boolean");
            if parameter.param_type == "boolean" {
                assert_eq!(parameter.validation, None);
            }
            if let Some(ValidationRule { min: Some(min), max: Some(max) }) = parameter.validation {
                assert!(min <= max);
            }
        }
    }
}

#[test]
fn forms_show_the_declared_limits() {
    assert_eq!(MIN_AMOUNT, 1);
    assert_eq!(MAX_AMOUNT, 100);
    let interface = WasmInterface::new();
    let info = interface.info();
    for action in &info.actions[0..2] {
        let declared = action.inputs[0].validation.expect("amount has limits");
        let FormDocument::Form(form) = interface.get(&action.name, "{}", "") else {
            panic!("no form for {}", action.name);
        };
        assert_eq!(form.parameters.len(), 1);
        assert_eq!(form.parameters[0].name, action.inputs[0].name);
        assert_eq!(form.parameters[0].min, declared.min);
        assert_eq!(form.parameters[0].max, declared.max);
        assert_eq!(form.parameters[0].required, action.inputs[0].required);
    }
}
