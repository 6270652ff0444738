//! The three operations that a host calls.

use crate::action::{execute, outcome, ActionResult};
use crate::demo::{demo_module, describe};
use crate::descriptor::ModuleInfo;
use crate::form::{form_document, form_for, FormDocument};
use crate::params::{decode_params, params_of, parse_failure, parsed, ParamsError};
use vstd::prelude::*;

verus! {

/// The module as a host sees it. It holds no state: every call is answered
/// from its arguments alone.
#[derive(Clone, Copy, Debug, PartialEq, Eq)]
pub struct WasmInterface;

impl WasmInterface {
    /// The module. There is nothing to set up.
    pub fn new() -> (interface: Self)
        ensures
            interface == WasmInterface,
    {
        WasmInterface
    }

    /// The description of this module. It is the same at every call, and well
    /// formed.
    pub fn info(&self) -> (info: ModuleInfo)
        ensures
            info@ == demo_module(),
            info@.wf(),
    {
        describe()
    }

    /// Runs an action on the parameters that a JSON text gives.
    ///
    /// A text that is not JSON is an error. For any JSON document there is a
    /// result: what `execute` yields for the parameters that the document
    /// gives. The network and the memo are not read.
    pub fn post(&self, action: &str, params: &str, network: &str, hash_link_memo: &str) -> (posted:
        Result<ActionResult, ParamsError>)
        ensures
            match parsed(params@) {
                Ok(doc) => posted matches Ok(result) && result@ == outcome(action@, params_of(doc)),
                Err(error) => posted matches Err(refusal) && refusal@ == parse_failure(error),
            },
    {
        match decode_params(params) {
            Ok(decoded) => Ok(execute(action, &decoded)),
            Err(refusal) => Err(refusal),
        }
    }

    /// The form of an action. The parameters and the network are not read.
    pub fn get(&self, action: &str, params: &str, network: &str) -> (document: FormDocument)
        ensures
            document@ == form_document(action@),
    {
        form_for(action)
    }
}

} // verus!
