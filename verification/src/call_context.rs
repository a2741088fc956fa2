//! The argument reader: the arguments of one call into a plugin function,
//! read by index. The free functions are the entries of the table of
//! call-context operations that a plugin is handed, with `None` where the
//! plugin passed a null pointer.

use vstd::prelude::*;

use crate::abi::{
    ValueType, MINUS_ONE, NO_ARGUMENT, TYPE_BOOL, TYPE_NULL, TYPE_NUMBER, TYPE_OTHER,
    TYPE_STRING, ZERO,
};
use crate::entry::{Entry, EntryView};
use crate::text::{decimal, decimal_of};

verus! {

/// The model of a call argument.
pub enum ArgumentView {
    Null,
    Bool(bool),
    Number(u64),
    Str(Seq<char>),
    Other,
}

/// One argument of a call, as far as a plugin can read it: a number is
/// held as the bit pattern of its double, and a value of a kind that has no
/// tag of its own is `Other`.
#[derive(Debug, PartialEq, Eq)]
pub enum Argument {
    Null,
    Bool(bool),
    Number(u64),
    Str(String),
    Other,
}

impl View for Argument {
    type V = ArgumentView;

    open spec fn view(&self) -> ArgumentView {
        match self {
            Argument::Null => ArgumentView::Null,
            Argument::Bool(b) => ArgumentView::Bool(*b),
            Argument::Number(bits) => ArgumentView::Number(*bits),
            Argument::Str(s) => ArgumentView::Str(s@),
            Argument::Other => ArgumentView::Other,
        }
    }
}

/// The models of a sequence of arguments.
pub open spec fn argument_views(args: Seq<Argument>) -> Seq<ArgumentView> {
    args.map_values(|argument: Argument| argument@)
}

/// The tag of each kind of argument.
pub open spec fn type_tag(argument: ArgumentView) -> ValueType {
    match argument {
        ArgumentView::Null => TYPE_NULL,
        ArgumentView::Bool(_) => TYPE_BOOL,
        ArgumentView::Number(_) => TYPE_NUMBER,
        ArgumentView::Str(_) => TYPE_STRING,
        ArgumentView::Other => TYPE_OTHER,
    }
}

/// The tag that tells a plugin the kind of `value`.
pub fn kvalue_to_uint(value: &Argument) -> (tag: ValueType)
    ensures
        tag == type_tag(value@),
{
    match value {
        Argument::Null => TYPE_NULL,
        Argument::Bool(_) => TYPE_BOOL,
        Argument::Number(_) => TYPE_NUMBER,
        Argument::Str(_) => TYPE_STRING,
        Argument::Other => TYPE_OTHER,
    }
}

/// The model of a call context: the arguments in order, and the value set
/// aside as the call's result, if any.
pub struct CallContextView {
    pub args: Seq<ArgumentView>,
    pub return_value: Option<EntryView>,
}

/// The arguments of one call, and a place to set a value aside. A call
/// returns through its arena: the bridge never reads what was set aside
/// here.
pub struct CallContextWrapper {
    args: Vec<Argument>,
    return_value: Option<Entry>,
}

impl View for CallContextWrapper {
    type V = CallContextView;

    closed spec fn view(&self) -> CallContextView {
        CallContextView {
            args: argument_views(self.args@),
            return_value: match self.return_value {
                Some(entry) => Some(entry@),
                None => None,
            },
        }
    }
}

impl CallContextWrapper {
    /// A context over `args`, with no value to return yet.
    pub fn new(args: Vec<Argument>) -> (ctx: CallContextWrapper)
        ensures
            ctx@.args == argument_views(args@),
            ctx@.return_value is None,
    {
        CallContextWrapper { args, return_value: None }
    }

    /// The arguments, in order.
    pub fn args(&self) -> (args: &[Argument])
        ensures
            argument_views(args@) == self@.args,
    {
        self.args.as_slice()
    }

    /// Hands out the value that was set aside, and leaves none.
    pub fn take_return_value(&mut self) -> (value: Option<Entry>)
        ensures
            match value {
                Some(entry) => old(self)@.return_value == Some(entry@),
                None => old(self)@.return_value is None,
            },
            final(self)@.return_value is None,
            final(self)@.args == old(self)@.args,
    {
        self.return_value.take()
    }

    /// Sets `value` aside as the call's result, in place of any earlier one.
    pub fn set_return_value(&mut self, value: Entry)
        ensures
            final(self)@.return_value == Some(value@),
            final(self)@.args == old(self)@.args,
    {
        self.return_value = Some(value);
    }
}

/// What a plugin is told when it asks for the number of arguments.
pub open spec fn arg_count_of(ctx: Option<CallContextView>) -> u32 {
    match ctx {
        Some(view) => view.args.len() as u32,
        None => 0,
    }
}

/// What a plugin is told when it asks for the kind of argument `index`.
pub open spec fn arg_type_of(ctx: Option<CallContextView>, index: u32) -> ValueType {
    match ctx {
        Some(view) => if index < view.args.len() {
            type_tag(view.args[index as int])
        } else {
            NO_ARGUMENT
        },
        None => 0,
    }
}

/// What a request for argument `index` as a number comes to.
pub open spec fn arg_number_of(ctx: Option<CallContextView>, index: u32) -> NumberReply {
    match ctx {
        Some(view) => if index < view.args.len() && view.args[index as int] is Number {
            NumberReply { bits: view.args[index as int]->Number_0, diagnose: false }
        } else {
            NumberReply { bits: MINUS_ONE, diagnose: true }
        },
        None => NumberReply { bits: ZERO, diagnose: false },
    }
}

/// The model of the context behind an optional reference.
pub open spec fn context_view(ctx: Option<&CallContextWrapper>) -> Option<CallContextView> {
    match ctx {
        Some(wrapper) => Some(wrapper@),
        None => None,
    }
}

/// The answer to a request for a number: the bit pattern of the double to
/// hand to the plugin, and whether the host owes its error channel a line
/// that says that the argument is no number.
#[derive(Clone, Copy, Debug, PartialEq, Eq, Structural)]
pub struct NumberReply {
    pub bits: u64,
    pub diagnose: bool,
}

/// Table entry: the number of arguments, cut down to 32 bits. `0` where
/// there is no context.
pub fn call_ctx_arg_count(ctx: Option<&CallContextWrapper>) -> (count: u32)
    ensures
        count == arg_count_of(context_view(ctx)),
{
    match ctx {
        Some(wrapper) => {
            let len: usize = wrapper.args.len();
            #[verifier::truncate]
            (len as u32)
        },
        None => 0,
    }
}

/// Table entry: the tag of argument `index`, or `NO_ARGUMENT` past the
/// last argument. `0` where there is no context.
pub fn call_ctx_arg_type(ctx: Option<&CallContextWrapper>, index: u32) -> (tag: ValueType)
    ensures
        tag == arg_type_of(context_view(ctx), index),
{
    match ctx {
        Some(wrapper) => {
            if (index as usize) < wrapper.args.len() {
                kvalue_to_uint(&wrapper.args[index as usize])
            } else {
                NO_ARGUMENT
            }
        },
        None => 0,
    }
}

/// Table entry: argument `index` as a number. Where the argument is
/// missing or is no number the reply holds `-1.0` and asks for a
/// diagnostic; where there is no context it holds `0.0`.
pub fn call_ctx_arg_number(ctx: Option<&CallContextWrapper>, index: u32) -> (reply: NumberReply)
    ensures
        reply == arg_number_of(context_view(ctx), index),
{
    match ctx {
        Some(wrapper) => {
            if (index as usize) < wrapper.args.len() {
                match &wrapper.args[index as usize] {
                    Argument::Number(bits) => NumberReply { bits: *bits, diagnose: false },
                    _ => NumberReply { bits: MINUS_ONE, diagnose: true },
                }
            } else {
                NumberReply { bits: MINUS_ONE, diagnose: true }
            }
        },
        None => NumberReply { bits: ZERO, diagnose: false },
    }
}

/// Table entry: sets the number with bit pattern `bits` aside as the
/// call's result. Nothing happens where there is no context.
pub fn call_ctx_return_number(ctx: Option<&mut CallContextWrapper>, bits: u64)
    ensures
        match ctx {
            Some(wrapper) => final(wrapper)@.return_value == Some(EntryView::Number(bits))
                && final(wrapper)@.args == wrapper@.args,
            None => true,
        },
{
    match ctx {
        Some(wrapper) => wrapper.set_return_value(Entry::Number(bits)),
        None => {},
    }
}

/// A plugin is told `NO_ARGUMENT` for exactly the indices that are not
/// below the count it is told. This holds of a context that is there and
/// whose arguments can be counted in 32 bits.
pub proof fn lemma_no_argument_iff_out_of_range(ctx: CallContextView, index: u32)
    requires
        ctx.args.len() <= u32::MAX,
    ensures
        arg_type_of(Some(ctx), index) == NO_ARGUMENT <==> index >= arg_count_of(Some(ctx)),
{
}

/// The line that the host owes its error channel when a plugin asks for
/// argument `index` as a number and it is none.
pub fn arg_number_diagnostic(index: u32) -> (line: String)
    ensures
        line@ == "arg_number: argument at index "@ + decimal_of(index as nat)
            + " is not a number"@,
{
    let mut line = String::from_str("arg_number: argument at index ");
    line.append(decimal(index).as_str());
    line.append(" is not a number");
    line
}

} // verus!
