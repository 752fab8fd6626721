//! The transport abstraction: seven operations that carry one method call
//! and its reply, modelled by two one-place channels. The transmit surface
//! assembles a request into a per-call `TXState`; finalizing hands the whole
//! request to the wire. The receive surface consumes the request and reads
//! its parameters in order; a reply travels the other way as one envelope.
//!
//! A transport instance handles one outstanding call at a time: a request
//! channel holding at most one delivered request, and a reply channel holding
//! at most one transmitted reply, model that discipline directly.

use vstd::prelude::*;

use crate::errors::RPCError;
use crate::errors::RPCErrorKind;
use crate::wire::Envelope;
use crate::wire::EnvelopeModel;
use crate::wire::MethodId;
use crate::wire::PartialMethodId;
use crate::wire::RequestModel;
use crate::wire::ValueModel;
use crate::wire::WireRequest;
use crate::wire::WireValue;

verus! {

/// A pluggable carrier of one call and its reply.
///
/// Every operation may fail with an error value; the contracts say what a
/// success means, and that a `reliable` (lossless) transport cannot fail when
/// the operations are used in protocol order: begin, one add per parameter,
/// finalize; then begin-receive, one read per parameter, respond.
pub trait Transport: Sized {
    /// Per-call transmit state, created by `tx_begin_call`.
    type TXState;

    /// Per-call receive state, created by `rx_begin_call`.
    type RXState;

    /// The request handed to the wire and not yet consumed by the peer.
    spec fn req_channel(&self) -> Option<RequestModel>;

    /// The reply transmitted and not yet consumed by the peer.
    spec fn resp_channel(&self) -> Option<EnvelopeModel>;

    /// The call being assembled in a transmit state.
    spec fn tx_model(s: &Self::TXState) -> RequestModel;

    /// The parameters still to be read from a receive state, in order.
    spec fn rx_model(s: &Self::RXState) -> Seq<ValueModel>;

    /// A lossless transport: operations used in protocol order succeed.
    spec fn reliable(&self) -> bool;

    /// Begin calling the given method. The request is assembled in the
    /// returned state and handed to the wire on `tx_finalize`.
    fn tx_begin_call(&mut self, method: MethodId) -> (r: Result<Self::TXState, RPCError>)
        ensures
            final(self).reliable() == old(self).reliable(),
            old(self).reliable() ==> r is Ok,
            match r {
                Ok(s) => {
                    &&& Self::tx_model(&s) == (RequestModel {
                        name: method@.name,
                        num: method@.num,
                        params: Seq::empty(),
                    })
                    &&& final(self).req_channel() == old(self).req_channel()
                    &&& final(self).resp_channel() == old(self).resp_channel()
                },
                Err(_) => true,
            },
    ;

    /// Add the next parameter of the call being assembled. Parameters are
    /// always added in declaration order; the name is advisory and exists so
    /// that textual encodings can self-describe.
    fn tx_add_param(&mut self, name: &str, value: WireValue, state: &mut Self::TXState) -> (r:
        Result<(), RPCError>)
        ensures
            final(self).reliable() == old(self).reliable(),
            old(self).reliable() ==> r is Ok,
            match r {
                Ok(_) => {
                    &&& Self::tx_model(final(state)) == (RequestModel {
                        name: Self::tx_model(old(state)).name,
                        num: Self::tx_model(old(state)).num,
                        params: Self::tx_model(old(state)).params.push(value@),
                    })
                    &&& final(self).req_channel() == old(self).req_channel()
                    &&& final(self).resp_channel() == old(self).resp_channel()
                },
                Err(_) => true,
            },
    ;

    /// Hand the assembled request to the wire. After success the full
    /// request has been delivered.
    fn tx_finalize(&mut self, state: &mut Self::TXState) -> (r: Result<(), RPCError>)
        ensures
            final(self).reliable() == old(self).reliable(),
            old(self).reliable() && old(self).req_channel() is None ==> r is Ok,
            match r {
                Ok(_) => {
                    &&& final(self).req_channel() == Some(Self::tx_model(old(state)))
                    &&& final(self).resp_channel() == old(self).resp_channel()
                },
                Err(_) => true,
            },
    ;

    /// Transmit a reply to the most recently received call. Whether the
    /// envelope holds a success or an error is invisible to the transport.
    fn tx_response(&mut self, value: Envelope) -> (r: Result<(), RPCError>)
        ensures
            final(self).reliable() == old(self).reliable(),
            old(self).reliable() ==> r is Ok,
            match r {
                Ok(_) => {
                    &&& final(self).resp_channel() == Some(value@)
                    &&& final(self).req_channel() == old(self).req_channel()
                },
                Err(_) => true,
            },
    ;

    /// Consume the delivered request: its partial method identifier, in
    /// whichever form this transport naturally decodes, and the state from
    /// which its parameters are read.
    fn rx_begin_call(&mut self) -> (r: Result<(PartialMethodId, Self::RXState), RPCError>)
        ensures
            final(self).reliable() == old(self).reliable(),
            old(self).reliable() && old(self).req_channel() is Some ==> r is Ok,
            match r {
                Ok((pid, s)) => {
                    &&& old(self).req_channel() is Some
                    &&& (pid matches PartialMethodId::Num(n) ==> n
                        == old(self).req_channel().unwrap().num)
                    &&& (pid matches PartialMethodId::Name(nm) ==> nm@
                        == old(self).req_channel().unwrap().name)
                    &&& Self::rx_model(&s) == old(self).req_channel().unwrap().params
                    &&& final(self).req_channel() is None
                    &&& final(self).resp_channel() == old(self).resp_channel()
                },
                Err(_) => true,
            },
    ;

    /// Read the next parameter of the received call, in declaration order.
    fn rx_read_param(&mut self, name: &str, state: &mut Self::RXState) -> (r: Result<
        WireValue,
        RPCError,
    >)
        ensures
            final(self).reliable() == old(self).reliable(),
            old(self).reliable() && Self::rx_model(old(state)).len() > 0 ==> r is Ok,
            match r {
                Ok(v) => {
                    &&& Self::rx_model(old(state)).len() > 0
                    &&& v@ == Self::rx_model(old(state))[0]
                    &&& Self::rx_model(final(state)) == Self::rx_model(old(state)).drop_first()
                    &&& final(self).req_channel() == old(self).req_channel()
                    &&& final(self).resp_channel() == old(self).resp_channel()
                },
                Err(_) => true,
            },
    ;

    /// Consume the transmitted reply. Called by the client after finalize.
    fn rx_response(&mut self) -> (r: Result<Envelope, RPCError>)
        ensures
            final(self).reliable() == old(self).reliable(),
            old(self).reliable() && old(self).resp_channel() is Some ==> r is Ok,
            match r {
                Ok(env) => {
                    &&& old(self).resp_channel() == Some(env@)
                    &&& final(self).resp_channel() is None
                    &&& final(self).req_channel() == old(self).req_channel()
                },
                Err(_) => true,
            },
    ;
}

/// An in-memory, in-process transport: the two channels held directly as
/// values. It is lossless, and both sides of a call can use it from a single
/// thread by moving the delivered request and the transmitted reply between
/// two endpoints explicitly.
pub struct Loopback {
    req: Option<WireRequest>,
    resp: Option<Envelope>,
}

impl Loopback {
    /// A fresh endpoint with both channels empty.
    pub fn new() -> (r: Self)
        ensures
            r.req_channel() is None,
            r.resp_channel() is None,
            r.reliable(),
    {
        Loopback { req: None, resp: None }
    }

    /// Take the delivered request off this endpoint, to hand it to the
    /// peer's endpoint.
    pub fn take_request(&mut self) -> (r: Option<WireRequest>)
        ensures
            final(self).req_channel() is None,
            final(self).resp_channel() == old(self).resp_channel(),
            final(self).reliable() == old(self).reliable(),
            match r {
                Some(w) => old(self).req_channel() == Some(w@),
                None => old(self).req_channel() is None,
            },
    {
        self.req.take()
    }

    /// Deliver a request to this endpoint.
    pub fn give_request(&mut self, w: WireRequest)
        ensures
            final(self).req_channel() == Some(w@),
            final(self).resp_channel() == old(self).resp_channel(),
            final(self).reliable() == old(self).reliable(),
    {
        self.req = Some(w);
    }

    /// Take the transmitted reply off this endpoint, to hand it to the
    /// peer's endpoint.
    pub fn take_response(&mut self) -> (r: Option<Envelope>)
        ensures
            final(self).resp_channel() is None,
            final(self).req_channel() == old(self).req_channel(),
            final(self).reliable() == old(self).reliable(),
            match r {
                Some(env) => old(self).resp_channel() == Some(env@),
                None => old(self).resp_channel() is None,
            },
    {
        self.resp.take()
    }

    /// Deliver a reply to this endpoint.
    pub fn give_response(&mut self, env: Envelope)
        ensures
            final(self).resp_channel() == Some(env@),
            final(self).req_channel() == old(self).req_channel(),
            final(self).reliable() == old(self).reliable(),
    {
        self.resp = Some(env);
    }
}

impl Transport for Loopback {
    type TXState = WireRequest;

    type RXState = Vec<WireValue>;

    closed spec fn req_channel(&self) -> Option<RequestModel> {
        match self.req {
            Some(w) => Some(w@),
            None => None,
        }
    }

    closed spec fn resp_channel(&self) -> Option<EnvelopeModel> {
        match self.resp {
            Some(env) => Some(env@),
            None => None,
        }
    }

    closed spec fn tx_model(s: &WireRequest) -> RequestModel {
        s@
    }

    closed spec fn rx_model(s: &Vec<WireValue>) -> Seq<ValueModel> {
        s.deep_view()
    }

    closed spec fn reliable(&self) -> bool {
        true
    }

    fn tx_begin_call(&mut self, method: MethodId) -> (r: Result<WireRequest, RPCError>) {
        let s = WireRequest { method, params: Vec::new() };
        proof {
            assert(s@.params =~= Seq::<ValueModel>::empty());
        }
        Ok(s)
    }

    fn tx_add_param(&mut self, name: &str, value: WireValue, state: &mut WireRequest) -> (r: Result<
        (),
        RPCError,
    >) {
        state.params.push(value);
        proof {
            assert(state.params.deep_view() =~= old(state).params.deep_view().push(value@));
        }
        Ok(())
    }

    fn tx_finalize(&mut self, state: &mut WireRequest) -> (r: Result<(), RPCError>) {
        let mut params: Vec<WireValue> = Vec::new();
        core::mem::swap(&mut params, &mut state.params);
        let done = WireRequest {
            method: MethodId { name: state.method.name.clone(), num: state.method.num },
            params,
        };
        proof {
            assert(done@ == old(state)@);
        }
        self.req = Some(done);
        Ok(())
    }

    fn tx_response(&mut self, value: Envelope) -> (r: Result<(), RPCError>) {
        self.resp = Some(value);
        Ok(())
    }

    fn rx_begin_call(&mut self) -> (r: Result<(PartialMethodId, Vec<WireValue>), RPCError>) {
        match self.req.take() {
            None => Err(
                RPCError::new(RPCErrorKind::Other, "no request has been delivered".to_owned()),
            ),
            Some(w) => Ok((PartialMethodId::Num(w.method.num), w.params)),
        }
    }

    fn rx_read_param(&mut self, name: &str, state: &mut Vec<WireValue>) -> (r: Result<
        WireValue,
        RPCError,
    >) {
        if state.len() == 0 {
            Err(RPCError::new(RPCErrorKind::SerializationError, "missing parameter".to_owned()))
        } else {
            let v = state.remove(0);
            proof {
                assert(state.deep_view() =~= old(state).deep_view().drop_first());
            }
            Ok(v)
        }
    }

    fn rx_response(&mut self) -> (r: Result<Envelope, RPCError>) {
        match self.resp.take() {
            None => Err(RPCError::new(RPCErrorKind::Other, "no reply has been transmitted".to_owned())),
            Some(env) => Ok(env),
        }
    }
}

/// An in-memory transport whose receive side refuses to decode text values
/// longer than a fixed bound: a stand-in for an encoding with a hard limit.
/// It is not lossless — reading an oversized parameter fails with a
/// serialization error — so none of the lossless guarantees apply to it.
pub struct LimitedLoopback {
    inner: Loopback,
    max_text: usize,
}

impl LimitedLoopback {
    /// The longest text value the receive side will decode.
    pub closed spec fn limit(&self) -> usize {
        self.max_text
    }

    /// A fresh endpoint refusing text values longer than `max_text`
    /// characters.
    pub fn new(max_text: usize) -> (r: Self)
        ensures
            r.req_channel() is None,
            r.resp_channel() is None,
            r.limit() == max_text,
    {
        LimitedLoopback { inner: Loopback::new(), max_text }
    }

    /// Deliver a request to this endpoint.
    pub fn give_request(&mut self, w: WireRequest)
        ensures
            final(self).req_channel() == Some(w@),
            final(self).resp_channel() == old(self).resp_channel(),
    {
        self.inner.give_request(w);
    }

    /// Take the transmitted reply off this endpoint.
    pub fn take_response(&mut self) -> (r: Option<Envelope>)
        ensures
            final(self).resp_channel() is None,
            final(self).req_channel() == old(self).req_channel(),
            match r {
                Some(env) => old(self).resp_channel() == Some(env@),
                None => old(self).resp_channel() is None,
            },
    {
        self.inner.take_response()
    }
}

impl Transport for LimitedLoopback {
    type TXState = WireRequest;

    type RXState = Vec<WireValue>;

    closed spec fn req_channel(&self) -> Option<RequestModel> {
        self.inner.req_channel()
    }

    closed spec fn resp_channel(&self) -> Option<EnvelopeModel> {
        self.inner.resp_channel()
    }

    closed spec fn tx_model(s: &WireRequest) -> RequestModel {
        s@
    }

    closed spec fn rx_model(s: &Vec<WireValue>) -> Seq<ValueModel> {
        s.deep_view()
    }

    closed spec fn reliable(&self) -> bool {
        false
    }

    fn tx_begin_call(&mut self, method: MethodId) -> (r: Result<WireRequest, RPCError>) {
        self.inner.tx_begin_call(method)
    }

    fn tx_add_param(&mut self, name: &str, value: WireValue, state: &mut WireRequest) -> (r: Result<
        (),
        RPCError,
    >) {
        self.inner.tx_add_param(name, value, state)
    }

    fn tx_finalize(&mut self, state: &mut WireRequest) -> (r: Result<(), RPCError>) {
        self.inner.tx_finalize(state)
    }

    fn tx_response(&mut self, value: Envelope) -> (r: Result<(), RPCError>) {
        self.inner.tx_response(value)
    }

    fn rx_begin_call(&mut self) -> (r: Result<(PartialMethodId, Vec<WireValue>), RPCError>) {
        self.inner.rx_begin_call()
    }

    /// Besides the shared receive contract: a pending text value longer than
    /// the limit is refused with a serialization error, any other pending
    /// value is decoded, and no decoded text ever exceeds the limit.
    fn rx_read_param(&mut self, name: &str, state: &mut Vec<WireValue>) -> (r: Result<
        WireValue,
        RPCError,
    >)
        ensures
            final(self).limit() == old(self).limit(),
            Self::rx_model(old(state)).len() > 0 ==> match Self::rx_model(old(state))[0] {
                ValueModel::Text(t) => {
                    if t.len() > old(self).limit() {
                        r matches Err(e) && e@.kind == RPCErrorKind::SerializationError
                    } else {
                        r is Ok
                    }
                },
                _ => r is Ok,
            },
            r matches Ok(v) ==> match v@ {
                ValueModel::Text(t) => t.len() <= old(self).limit(),
                _ => true,
            },
    {
        let v = match self.inner.rx_read_param(name, state) {
            Ok(v) => v,
            Err(e) => {
                return Err(e);
            },
        };
        let oversized = match &v {
            WireValue::Text(t) => t.as_str().unicode_len() > self.max_text,
            _ => false,
        };
        if oversized {
            Err(RPCError::new(RPCErrorKind::SerializationError, "text value too long".to_owned()))
        } else {
            Ok(v)
        }
    }

    fn rx_response(&mut self) -> (r: Result<Envelope, RPCError>) {
        self.inner.rx_response()
    }
}

} // verus!
