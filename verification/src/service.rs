//! The interface-implementation side of a call: a service takes a method
//! index and the decoded parameter values, and produces the method result or
//! an error already converted to the framework's error type.

use vstd::prelude::*;

use crate::errors::ErrModel;
use crate::errors::RPCError;
use crate::wire::ValueModel;
use crate::wire::WireValue;
use crate::wire::outcome_view;

verus! {

/// A user-supplied implementation of a service interface. The server
/// dispatcher selects a method, reads its parameters in declaration order,
/// and hands both to `call`. The declared specification `spec_call` fixes the
/// outcome of every method on every argument tuple, which is what lets the
/// round trip through client, transport and server be pinned end to end.
pub trait Service: Sized {
    /// The declared outcome of method `method` on `args`.
    spec fn spec_call(&self, method: u32, args: Seq<ValueModel>) -> Result<ValueModel, ErrModel>;

    /// Invoke method `method` with `args`, in declaration order. An error
    /// result is the method's declared error, already converted to the
    /// framework's error type.
    fn call(&self, method: u32, args: Vec<WireValue>) -> (r: Result<WireValue, RPCError>)
        ensures
            outcome_view(r) == self.spec_call(method, args.deep_view()),
    ;
}

} // verus!
