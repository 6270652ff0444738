//! The input form of each action: what a host shows a person before it runs
//! the action.

use crate::action::{action_named, Action, DEFAULT_AMOUNT};
use crate::demo::{MAX_AMOUNT, MIN_AMOUNT};
use vstd::prelude::*;

verus! {

/// One field of a form.
#[derive(Clone, Debug, PartialEq, Eq)]
pub struct FormField {
    pub field_type: String,
    pub name: String,
    pub label: String,
    pub required: bool,
    pub default: i64,
    pub min: Option<i64>,
    pub max: Option<i64>,
}

/// A `FormField` with its texts as character sequences.
pub struct FieldView {
    pub field_type: Seq<char>,
    pub name: Seq<char>,
    pub label: Seq<char>,
    pub required: bool,
    pub default: i64,
    pub min: Option<i64>,
    pub max: Option<i64>,
}

impl View for FormField {
    type V = FieldView;

    open spec fn view(&self) -> FieldView {
        FieldView {
            field_type: self.field_type@,
            name: self.name@,
            label: self.label@,
            required: self.required,
            default: self.default,
            min: self.min,
            max: self.max,
        }
    }
}

/// The views of a list of fields.
pub open spec fn field_views(list: Seq<FormField>) -> Seq<FieldView> {
    list.map_values(|field: FormField| field@)
}

/// The form of one action.
#[derive(Clone, Debug, PartialEq, Eq)]
pub struct FormDescriptor {
    pub title: String,
    pub description: String,
    pub label: String,
    pub parameters: Vec<FormField>,
}

/// A `FormDescriptor` with its texts as character sequences.
pub struct FormView {
    pub title: Seq<char>,
    pub description: Seq<char>,
    pub label: Seq<char>,
    pub parameters: Seq<FieldView>,
}

impl View for FormDescriptor {
    type V = FormView;

    open spec fn view(&self) -> FormView {
        FormView {
            title: self.title@,
            description: self.description@,
            label: self.label@,
            parameters: field_views(self.parameters@),
        }
    }
}

/// What a request for a form is answered with: the form, or only an error.
#[derive(Clone, Debug, PartialEq, Eq)]
pub enum FormDocument {
    Form(FormDescriptor),
    Error { error: String },
}

/// A `FormDocument` with its texts as character sequences.
pub enum FormDocumentView {
    Form(FormView),
    Error { error: Seq<char> },
}

impl View for FormDocument {
    type V = FormDocumentView;

    open spec fn view(&self) -> FormDocumentView {
        match self {
            FormDocument::Form(form) => FormDocumentView::Form(form@),
            FormDocument::Error { error } => FormDocumentView::Error { error: error@ },
        }
    }
}

/// The field in which a person enters the amount: an optional number within
/// the declared limits, 1 where nothing is entered.
pub open spec fn amount_field(label: Seq<char>) -> FieldView {
    FieldView {
        field_type: "number"@,
        name: "amount"@,
        label,
        required: false,
        default: DEFAULT_AMOUNT as i64,
        min: Some(MIN_AMOUNT),
        max: Some(MAX_AMOUNT),
    }
}

/// The form of an action.
pub open spec fn form_of(action: Action) -> FormView {
    match action {
        Action::Increment => FormView {
            title: "Increment Counter"@,
            description: "Increase the counter value"@,
            label: "Increment"@,
            parameters: seq![amount_field("Amount to increment"@)],
        },
        Action::Decrement => FormView {
            title: "Decrement Counter"@,
            description: "Decrease the counter value"@,
            label: "Decrement"@,
            parameters: seq![amount_field("Amount to decrement"@)],
        },
        Action::Reset => FormView {
            title: "Reset Counter"@,
            description: "Reset the counter to zero"@,
            label: "Reset"@,
            parameters: Seq::empty(),
        },
        Action::ToggleCounter => FormView {
            title: "Toggle Counter"@,
            description: "Toggle visibility of the counter block"@,
            label: "Toggle Counter"@,
            parameters: Seq::empty(),
        },
        Action::ToggleStats => FormView {
            title: "Toggle Stats"@,
            description: "Toggle visibility of the stats block"@,
            label: "Toggle Stats"@,
            parameters: Seq::empty(),
        },
    }
}

/// What a request for the form of a name is answered with.
pub open spec fn form_document(name: Seq<char>) -> FormDocumentView {
    match action_named(name) {
        Some(action) => FormDocumentView::Form(form_of(action)),
        None => FormDocumentView::Error { error: "Unknown action: "@ + name },
    }
}

fn amount(label: &str) -> (field: FormField)
    ensures
        field@ == amount_field(label@),
{
    FormField {
        field_type: String::from_str("number"),
        name: String::from_str("amount"),
        label: String::from_str(label),
        required: false,
        default: DEFAULT_AMOUNT as i64,
        min: Some(MIN_AMOUNT),
        max: Some(MAX_AMOUNT),
    }
}

fn form(title: &str, description: &str, label: &str, parameters: Vec<FormField>) -> (form:
    FormDescriptor)
    ensures
        form@ == (FormView {
            title: title@,
            description: description@,
            label: label@,
            parameters: field_views(parameters@),
        }),
{
    FormDescriptor {
        title: String::from_str(title),
        description: String::from_str(description),
        label: String::from_str(label),
        parameters,
    }
}

impl Action {
    /// The form of the action.
    pub fn form(&self) -> (form: FormDescriptor)
        ensures
            form@ == form_of(*self),
    {
        match self {
            Action::Increment => {
                let fields = vec![amount("Amount to increment")];
                assert(field_views(fields@) =~= seq![amount_field("Amount to increment"@)]);
                form("Increment Counter", "Increase the counter value", "Increment", fields)
            },
            Action::Decrement => {
                let fields = vec![amount("Amount to decrement")];
                assert(field_views(fields@) =~= seq![amount_field("Amount to decrement"@)]);
                form("Decrement Counter", "Decrease the counter value", "Decrement", fields)
            },
            Action::Reset => {
                let fields: Vec<FormField> = Vec::new();
                assert(field_views(fields@) =~= Seq::empty());
                form("Reset Counter", "Reset the counter to zero", "Reset", fields)
            },
            Action::ToggleCounter => {
                let fields: Vec<FormField> = Vec::new();
                assert(field_views(fields@) =~= Seq::empty());
                form(
                    "Toggle Counter",
                    "Toggle visibility of the counter block",
                    "Toggle Counter",
                    fields,
                )
            },
            Action::ToggleStats => {
                let fields: Vec<FormField> = Vec::new();
                assert(field_views(fields@) =~= Seq::empty());
                form(
                    "Toggle Stats",
                    "Toggle visibility of the stats block",
                    "Toggle Stats",
                    fields,
                )
            },
        }
    }
}

/// The form of the action of a given name, or a document with only an error
/// where the name is no action's.
pub fn form_for(name: &str) -> (document: FormDocument)
    ensures
        document@ == form_document(name@),
{
    match Action::named(name) {
        Some(action) => FormDocument::Form(action.form()),
        None => {
            let mut error = String::from_str("Unknown action: ");
            error.append(name);
            FormDocument::Error { error }
        },
    }
}

} // verus!
