//! Small example services with fully declared outcomes, and a stop
//! condition for bounded serving. They exercise the whole surface: a method
//! with parameters and a textual result, a method that returns a declared
//! error, an identity method, and an echo method.

use vstd::prelude::*;

use crate::errors::ErrModel;
use crate::errors::RPCError;
use crate::errors::RPCErrorKind;
use crate::server::ServeCondition;
use crate::service::Service;
use crate::textfmt::i64_to_string;
use crate::textfmt::int_text;
use crate::wire::ValueModel;
use crate::wire::WireValue;

verus! {

/// The error any of the example services answers when a method is invoked
/// with arguments of the wrong shape.
pub open spec fn bad_call_model() -> ErrModel {
    ErrModel {
        kind: RPCErrorKind::SerializationError,
        msg: "unexpected arguments"@,
        chain: Seq::empty(),
    }
}

fn bad_call() -> (r: RPCError)
    ensures
        r@ == bad_call_model(),
{
    RPCError::new(RPCErrorKind::SerializationError, "unexpected arguments".to_owned())
}

/// A service with two methods: `bar(a, b)` concatenates its text and its
/// integer argument into `"{a} is {b}"`, and `expect_error()` always returns
/// a declared error carrying the message `iamerror`.
pub struct FooService;

impl Service for FooService {
    open spec fn spec_call(&self, method: u32, args: Seq<ValueModel>) -> Result<
        ValueModel,
        ErrModel,
    > {
        if method == 0 && args.len() == 2 && args[0] is Text && args[1] is Int {
            Ok(ValueModel::Text(args[0]->Text_0 + " is "@ + int_text(args[1]->Int_0 as int)))
        } else if method == 1 && args.len() == 0 {
            Err(ErrModel { kind: RPCErrorKind::Other, msg: "iamerror"@, chain: Seq::empty() })
        } else {
            Err(bad_call_model())
        }
    }

    fn call(&self, method: u32, args: Vec<WireValue>) -> (r: Result<WireValue, RPCError>) {
        let ghost dv = args.deep_view();
        if method == 0 && args.len() == 2 {
            let mut args = args;
            proof {
                assert(dv[0] == args@[0].deep_view());
                assert(dv[1] == args@[1].deep_view());
            }
            let ghost argsv0 = args@;
            let a = args.remove(0);
            proof {
                assert(args@[0] == argsv0[1]);
            }
            let b = args.remove(0);
            match (a, b) {
                (WireValue::Text(t), WireValue::Int(n)) => {
                    let num = i64_to_string(n);
                    let txt = t.concat(" is ").concat(num.as_str());
                    Ok(WireValue::Text(txt))
                },
                _ => Err(bad_call()),
            }
        } else if method == 1 && args.len() == 0 {
            proof {
                assert(dv.len() == 0);
            }
            Err(RPCError::new(RPCErrorKind::Other, "iamerror".to_owned()))
        } else {
            proof {
                assert(dv.len() == args@.len());
            }
            Err(bad_call())
        }
    }
}

/// A service with two methods: `m0()` returns the unit value and `m1(x)`
/// returns its integer argument unchanged.
pub struct SmallService;

impl Service for SmallService {
    open spec fn spec_call(&self, method: u32, args: Seq<ValueModel>) -> Result<
        ValueModel,
        ErrModel,
    > {
        if method == 0 && args.len() == 0 {
            Ok(ValueModel::Unit)
        } else if method == 1 && args.len() == 1 && args[0] is Int {
            Ok(args[0])
        } else {
            Err(bad_call_model())
        }
    }

    fn call(&self, method: u32, args: Vec<WireValue>) -> (r: Result<WireValue, RPCError>) {
        let ghost dv = args.deep_view();
        if method == 0 && args.len() == 0 {
            proof {
                assert(dv.len() == 0);
            }
            Ok(WireValue::Unit)
        } else if method == 1 && args.len() == 1 {
            let mut args = args;
            proof {
                assert(dv[0] == args@[0].deep_view());
            }
            let x = args.remove(0);
            match x {
                WireValue::Int(n) => Ok(WireValue::Int(n)),
                _ => Err(bad_call()),
            }
        } else {
            proof {
                assert(dv.len() == args@.len());
            }
            Err(bad_call())
        }
    }
}

/// A service with one method: `echo(s)` returns its text argument unchanged.
pub struct EchoService;

impl Service for EchoService {
    open spec fn spec_call(&self, method: u32, args: Seq<ValueModel>) -> Result<
        ValueModel,
        ErrModel,
    > {
        if method == 0 && args.len() == 1 && args[0] is Text {
            Ok(args[0])
        } else {
            Err(bad_call_model())
        }
    }

    fn call(&self, method: u32, args: Vec<WireValue>) -> (r: Result<WireValue, RPCError>) {
        let ghost dv = args.deep_view();
        if method == 0 && args.len() == 1 {
            let mut args = args;
            proof {
                assert(dv[0] == args@[0].deep_view());
            }
            let s = args.remove(0);
            match s {
                WireValue::Text(t) => Ok(WireValue::Text(t)),
                _ => Err(bad_call()),
            }
        } else {
            proof {
                assert(dv.len() == args@.len());
            }
            Err(bad_call())
        }
    }
}

/// A stop condition whose first check already answers false: serving under
/// it stops after exactly one served call.
pub struct StopAfterFirst;

impl ServeCondition for StopAfterFirst {
    open spec fn will_continue(&self) -> bool {
        false
    }

    fn check(&mut self) -> (r: bool) {
        false
    }
}

} // verus!
