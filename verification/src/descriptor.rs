//! How a module describes itself: its name and version, the actions it
//! offers with their parameters, and the capabilities it asks of its host.

use vstd::prelude::*;

verus! {

/// The limits of a numeric parameter.
#[derive(Clone, Copy, Debug, PartialEq, Eq)]
pub struct ValidationRule {
    pub min: Option<i64>,
    pub max: Option<i64>,
}

impl ValidationRule {
    /// Where both limits are given, the lower is not above the upper.
    pub open spec fn wf(self) -> bool {
        self.min is Some && self.max is Some ==> self.min->0 <= self.max->0
    }
}

/// One input or output of an action.
#[derive(Clone, Debug, PartialEq, Eq)]
pub struct ParameterDefinition {
    pub name: String,
    pub param_type: String,
    pub description: String,
    pub required: bool,
    pub validation: Option<ValidationRule>,
}

/// A `ParameterDefinition` with its texts as character sequences.
pub struct ParameterView {
    pub name: Seq<char>,
    pub param_type: Seq<char>,
    pub description: Seq<char>,
    pub required: bool,
    pub validation: Option<ValidationRule>,
}

impl View for ParameterDefinition {
    type V = ParameterView;

    open spec fn view(&self) -> ParameterView {
        ParameterView {
            name: self.name@,
            param_type: self.param_type@,
            description: self.description@,
            required: self.required,
            validation: self.validation,
        }
    }
}

impl ParameterView {
    /// The type is `number` or `boolean`; limits, where there are any, are in
    /// order; a boolean parameter has none.
    pub open spec fn wf(self) -> bool {
        &&& self.param_type == "number"@ || self.param_type == "boolean"@
        &&& self.param_type == "boolean"@ ==> self.validation is None
        &&& self.validation is Some ==> self.validation->0.wf()
    }
}

/// Access to networks that a module asks for.
#[derive(Clone, Debug, PartialEq, Eq)]
pub struct NetworkCapability {
    pub networks: Vec<String>,
    pub operations: Vec<String>,
}

/// Authority over transactions that a module asks for.
#[derive(Clone, Debug, PartialEq, Eq)]
pub struct TransactionCapability {
    pub transaction_types: Vec<String>,
    pub max_fee_hbar: Option<i64>,
}

/// A permission that the host must grant before it runs an action.
#[derive(Clone, Debug, PartialEq, Eq)]
pub enum Capability {
    Network { value: NetworkCapability },
    Transaction { value: TransactionCapability },
}

/// A `Capability` with its texts as character sequences.
pub enum CapabilityView {
    Network { networks: Seq<Seq<char>>, operations: Seq<Seq<char>> },
    Transaction { transaction_types: Seq<Seq<char>>, max_fee_hbar: Option<i64> },
}

/// The texts of a list of strings.
pub open spec fn texts(list: Seq<String>) -> Seq<Seq<char>> {
    list.map_values(|text: String| text@)
}

impl View for Capability {
    type V = CapabilityView;

    open spec fn view(&self) -> CapabilityView {
        match self {
            Capability::Network { value } => CapabilityView::Network {
                networks: texts(value.networks@),
                operations: texts(value.operations@),
            },
            Capability::Transaction { value } => CapabilityView::Transaction {
                transaction_types: texts(value.transaction_types@),
                max_fee_hbar: value.max_fee_hbar,
            },
        }
    }
}

/// The views of a list of parameters.
pub open spec fn parameter_views(list: Seq<ParameterDefinition>) -> Seq<ParameterView> {
    list.map_values(|parameter: ParameterDefinition| parameter@)
}

/// The views of a list of capabilities.
pub open spec fn capability_views(list: Seq<Capability>) -> Seq<CapabilityView> {
    list.map_values(|capability: Capability| capability@)
}

/// One action that a module offers.
#[derive(Clone, Debug, PartialEq, Eq)]
pub struct ActionDefinition {
    pub name: String,
    pub description: String,
    pub inputs: Vec<ParameterDefinition>,
    pub outputs: Vec<ParameterDefinition>,
    pub required_capabilities: Vec<Capability>,
}

/// An `ActionDefinition` with its texts as character sequences.
pub struct ActionView {
    pub name: Seq<char>,
    pub description: Seq<char>,
    pub inputs: Seq<ParameterView>,
    pub outputs: Seq<ParameterView>,
    pub required_capabilities: Seq<CapabilityView>,
}

impl View for ActionDefinition {
    type V = ActionView;

    open spec fn view(&self) -> ActionView {
        ActionView {
            name: self.name@,
            description: self.description@,
            inputs: parameter_views(self.inputs@),
            outputs: parameter_views(self.outputs@),
            required_capabilities: capability_views(self.required_capabilities@),
        }
    }
}

impl ActionView {
    /// Every input and every output is well formed.
    pub open spec fn wf(self) -> bool {
        &&& forall|i: int| 0 <= i < self.inputs.len() ==> (#[trigger] self.inputs[i]).wf()
        &&& forall|i: int| 0 <= i < self.outputs.len() ==> (#[trigger] self.outputs[i]).wf()
    }
}

/// The views of a list of actions.
pub open spec fn action_views(list: Seq<ActionDefinition>) -> Seq<ActionView> {
    list.map_values(|action: ActionDefinition| action@)
}

/// Another module that a module builds on.
#[derive(Clone, Debug, PartialEq, Eq)]
pub struct PluginDefinition {
    pub name: String,
    pub version: String,
    pub url: String,
    pub description: String,
    pub required: bool,
}

/// A `PluginDefinition` with its texts as character sequences.
pub struct PluginView {
    pub name: Seq<char>,
    pub version: Seq<char>,
    pub url: Seq<char>,
    pub description: Seq<char>,
    pub required: bool,
}

impl View for PluginDefinition {
    type V = PluginView;

    open spec fn view(&self) -> PluginView {
        PluginView {
            name: self.name@,
            version: self.version@,
            url: self.url@,
            description: self.description@,
            required: self.required,
        }
    }
}

/// The views of a list of plugins.
pub open spec fn plugin_views(list: Seq<PluginDefinition>) -> Seq<PluginView> {
    list.map_values(|plugin: PluginDefinition| plugin@)
}

/// What a module says of itself.
#[derive(Clone, Debug, PartialEq, Eq)]
pub struct ModuleInfo {
    pub name: String,
    pub version: String,
    pub hashlinks_version: String,
    pub creator: String,
    pub purpose: String,
    pub actions: Vec<ActionDefinition>,
    pub capabilities: Vec<Capability>,
    pub plugins: Vec<PluginDefinition>,
}

/// A `ModuleInfo` with its texts as character sequences.
pub struct ModuleView {
    pub name: Seq<char>,
    pub version: Seq<char>,
    pub hashlinks_version: Seq<char>,
    pub creator: Seq<char>,
    pub purpose: Seq<char>,
    pub actions: Seq<ActionView>,
    pub capabilities: Seq<CapabilityView>,
    pub plugins: Seq<PluginView>,
}

impl View for ModuleInfo {
    type V = ModuleView;

    open spec fn view(&self) -> ModuleView {
        ModuleView {
            name: self.name@,
            version: self.version@,
            hashlinks_version: self.hashlinks_version@,
            creator: self.creator@,
            purpose: self.purpose@,
            actions: action_views(self.actions@),
            capabilities: capability_views(self.capabilities@),
            plugins: plugin_views(self.plugins@),
        }
    }
}

impl ModuleView {
    /// Whether the module describes an action of the given name.
    pub open spec fn describes(self, name: Seq<char>) -> bool {
        exists|i: int| 0 <= i < self.actions.len() && (#[trigger] self.actions[i]).name == name
    }

    /// Every action is well formed, and no two actions share a name.
    pub open spec fn wf(self) -> bool {
        &&& forall|i: int| 0 <= i < self.actions.len() ==> (#[trigger] self.actions[i]).wf()
        &&& forall|i: int, j: int|
            0 <= i < j < self.actions.len() ==> (#[trigger] self.actions[i]).name != (
            #[trigger] self.actions[j]).name
    }
}

} // verus!
