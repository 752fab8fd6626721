//! Wire descriptors and wire values: the method identifiers that travel with
//! a call, the values a transport can carry, the request a client assembles,
//! and the result envelope that rides inside every reply.

use vstd::prelude::*;

use crate::errors::ErrModel;
use crate::errors::RPCError;

verus! {

/// Identifies a method by both a name and an index. The index is
/// authoritative and equals the method's zero-based position in its
/// interface; the name is advisory and lets textual transports self-describe.
#[derive(Debug)]
pub struct MethodId {
    pub name: String,
    pub num: u32,
}

/// Model of a full method identifier.
pub ghost struct MethodIdModel {
    pub name: Seq<char>,
    pub num: u32,
}

impl View for MethodId {
    type V = MethodIdModel;

    open spec fn view(&self) -> MethodIdModel {
        MethodIdModel { name: self.name@, num: self.num }
    }
}

/// Identifies a method by either a name or an index: whichever form a
/// transport naturally decodes. Servers accept either.
#[derive(Debug)]
pub enum PartialMethodId {
    Name(String),
    Num(u32),
}

/// A value that can travel through a transport.
#[derive(Debug)]
pub enum WireValue {
    /// The unit value, for methods or results without data.
    Unit,
    /// A signed integer.
    Int(i64),
    /// A text value.
    Text(String),
}

/// Model of a wire value.
pub ghost enum ValueModel {
    Unit,
    Int(i64),
    Text(Seq<char>),
}

impl View for WireValue {
    type V = ValueModel;

    open spec fn view(&self) -> ValueModel {
        match self {
            WireValue::Unit => ValueModel::Unit,
            WireValue::Int(n) => ValueModel::Int(*n),
            WireValue::Text(s) => ValueModel::Text(s@),
        }
    }
}

impl DeepView for WireValue {
    type V = ValueModel;

    open spec fn deep_view(&self) -> ValueModel {
        self.view()
    }
}

/// One complete call as handed to the wire: the method identifier and the
/// parameter values in declaration order.
#[derive(Debug)]
pub struct WireRequest {
    pub method: MethodId,
    pub params: Vec<WireValue>,
}

/// Model of a complete call.
pub ghost struct RequestModel {
    pub name: Seq<char>,
    pub num: u32,
    pub params: Seq<ValueModel>,
}

impl View for WireRequest {
    type V = RequestModel;

    open spec fn view(&self) -> RequestModel {
        RequestModel { name: self.method.name@, num: self.method.num, params: self.params.deep_view() }
    }
}

/// The result envelope: the tagged union of a success value or a serialized
/// error that rides inside every reply. The envelope is part of the wire
/// contract between the generated stubs, not of the transport contract: it is
/// how "success or error" is encoded uniformly across every transport.
#[derive(Debug)]
pub enum Envelope {
    Success(WireValue),
    Failure(RPCError),
}

/// Model of a reply envelope.
pub ghost enum EnvelopeModel {
    Success(ValueModel),
    Failure(ErrModel),
}

impl View for Envelope {
    type V = EnvelopeModel;

    open spec fn view(&self) -> EnvelopeModel {
        match self {
            Envelope::Success(v) => EnvelopeModel::Success(v@),
            Envelope::Failure(e) => EnvelopeModel::Failure(e@),
        }
    }
}

/// What a client concludes from a reply envelope.
pub open spec fn outcome_of(env: EnvelopeModel) -> Result<ValueModel, ErrModel> {
    match env {
        EnvelopeModel::Success(v) => Ok(v),
        EnvelopeModel::Failure(e) => Err(e),
    }
}

/// The model of a method result, success or error.
pub open spec fn outcome_view(r: Result<WireValue, RPCError>) -> Result<ValueModel, ErrModel> {
    match r {
        Ok(v) => Ok(v@),
        Err(e) => Err(e@),
    }
}

} // verus!
