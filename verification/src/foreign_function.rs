//! The invocation bridge: what surrounds one call of a plugin function.
//! The host makes the call itself; this module sets the call up and says
//! what its result means.

use vstd::prelude::*;

use crate::abi::{CallResult, ValueId, FAILURE, NO_VALUE};
use crate::call_context::{argument_views, Argument, CallContextWrapper};
use crate::entry::{Entry, EntryView};
use crate::values::Values;

verus! {

/// Why a call of a plugin function yields no value.
#[derive(Clone, Copy, Debug, PartialEq, Eq, Structural)]
pub enum CallError {
    /// The plugin reported failure.
    Failed,
    /// The plugin reported success with a handle that names nothing.
    NoReturnValue,
}

/// The text of each error.
pub open spec fn call_error_text(error: CallError) -> Seq<char> {
    match error {
        CallError::Failed => "Foreign function call failed"@,
        CallError::NoReturnValue => "Foreign function did not set a return value"@,
    }
}

impl CallError {
    /// The error as the script sees it.
    pub fn message(&self) -> (text: String)
        ensures
            text@ == call_error_text(*self),
    {
        match self {
            CallError::Failed => String::from_str("Foreign function call failed"),
            CallError::NoReturnValue => String::from_str(
                "Foreign function did not set a return value",
            ),
        }
    }
}

/// What a plugin's result means, given the arena it wrote to: failure
/// where the code is `FAILURE`; under any other code, null where the handle
/// is `NO_VALUE`, else the value that the handle names, which must be
/// there.
pub open spec fn call_outcome(values: &Values, result: CallResult) -> Result<
    EntryView,
    CallError,
> {
    if result.code == FAILURE {
        Err(CallError::Failed)
    } else if result.value == NO_VALUE {
        Ok(EntryView::Null)
    } else {
        match values.lookup(result.value) {
            Some(entry) => Ok(entry),
            None => Err(CallError::NoReturnValue),
        }
    }
}

/// The model of what a call hands to the runtime.
pub open spec fn outcome_view(outcome: Result<Entry, CallError>) -> Result<EntryView, CallError> {
    match outcome {
        Ok(entry) => Ok(entry@),
        Err(error) => Err(error),
    }
}

/// One call of a plugin function: the arguments that the plugin may read
/// and the arena in which it builds what it returns.
pub struct ForeignCall {
    pub context: CallContextWrapper,
    pub values: Values,
}

impl ForeignCall {
    /// Sets up a call over `args`, with an arena of its own that holds
    /// nothing yet.
    pub fn begin(args: Vec<Argument>) -> (call: ForeignCall)
        ensures
            call.context@.args == argument_views(args@),
            call.context@.return_value is None,
            call.values@ == Map::<int, EntryView>::empty(),
            call.values.next_key() == 0,
            call.values.span() == 0,
    {
        ForeignCall { context: CallContextWrapper::new(args), values: Values::new() }
    }

    /// Ends the call: says what the plugin's `result` means, and releases
    /// every value that the call's arena still holds.
    pub fn finish(&mut self, result: CallResult) -> (outcome: Result<Entry, CallError>)
        ensures
            outcome_view(outcome) == call_outcome(&old(self).values, result),
            final(self).values@ == Map::<int, EntryView>::empty(),
            forall|id: ValueId| final(self).values.lookup(id) is None,
            final(self).values.next_key() == 0,
            final(self).values.span() == 0,
            final(self).context == old(self).context,
    {
        let outcome = if result.code == FAILURE {
            Err(CallError::Failed)
        } else if result.value == NO_VALUE {
            Ok(Entry::Null)
        } else {
            match self.values.take_value(result.value) {
                Some(value) => Ok(value),
                None => Err(CallError::NoReturnValue),
            }
        };
        self.values.clear();
        outcome
    }
}

} // verus!
