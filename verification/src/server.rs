//! The server side of a call: a dispatcher that owns an interface
//! implementation and a transport, consumes one delivered request at a time,
//! selects the method by index or by name, reads exactly the declared
//! parameters in declaration order, invokes the implementation, and
//! transmits the result envelope back.

use vstd::prelude::*;

use crate::errors::ErrModel;
use crate::errors::RPCError;
use crate::errors::RPCErrorKind;
use crate::iface::InterfaceDef;
use crate::iface::MethodDefModel;
use crate::iface::resolve_num;
use crate::iface::resolve_name;
use crate::service::Service;
use crate::transport::Transport;
use crate::wire::Envelope;
use crate::wire::EnvelopeModel;
use crate::wire::RequestModel;
use crate::wire::WireValue;

verus! {

/// A request whose two identifications agree: resolving its index and
/// resolving its name select the same method (or both miss). A client built
/// against the same interface, with distinct method names, always produces
/// such requests, and the dispatcher then behaves the same whichever form of
/// identifier the transport hands over.
pub open spec fn request_consistent(ifc: Seq<MethodDefModel>, req: RequestModel) -> bool {
    resolve_num(ifc, req.num) == resolve_name(ifc, req.name)
}

/// The error a dispatcher replies with on a selection miss.
pub open spec fn unknown_method_model() -> ErrModel {
    ErrModel { kind: RPCErrorKind::UnknownMethod, msg: "unknown method"@, chain: Seq::empty() }
}

/// The reply envelope a dispatcher produces for a resolvable request: the
/// declared outcome of the selected method on the declared number of
/// parameters, taken in order, wrapped as success or as a serialized error.
pub open spec fn served_envelope<S: Service>(
    svc: S,
    ifc: Seq<MethodDefModel>,
    req: RequestModel,
) -> EnvelopeModel
    recommends
        resolve_num(ifc, req.num) is Some,
{
    let k = ifc[req.num as int].params.len() as int;
    match svc.spec_call(req.num, req.params.take(k)) {
        Ok(v) => EnvelopeModel::Success(v),
        Err(e) => EnvelopeModel::Failure(e),
    }
}

/// A stop predicate for `serve_until`, evaluated between calls.
pub trait ServeCondition: Sized {
    /// What the next check will answer.
    spec fn will_continue(&self) -> bool;

    /// Ask whether serving should go on.
    fn check(&mut self) -> (r: bool)
        ensures
            r == old(self).will_continue(),
    ;
}

/// The serving surface of a dispatcher.
pub trait RPCServer: Sized {
    /// Serve a single call.
    fn serve_single_call(&mut self) -> Result<(), RPCError>;

    /// Serve calls until `cond` answers false; `cond` is checked after each
    /// served call, so there is no way to interrupt a server waiting for a
    /// request. Stops at once on any failure to serve.
    fn serve_until<C: ServeCondition>(&mut self, cond: &mut C) -> Result<(), RPCError>;

    /// Serve calls until one fails: only a failure returns.
    fn serve(&mut self) -> Result<(), RPCError>;
}

/// A server dispatcher: the interface it serves, the user-supplied
/// implementation, and the transport it owns.
pub struct Server<T: Transport, S: Service> {
    /// The interface table this dispatcher was generated from.
    pub iface: InterfaceDef,
    /// The owned implementation calls are dispatched to.
    pub service: S,
    /// The owned transport endpoint.
    pub transport: T,
}

impl<T: Transport, S: Service> Server<T, S> {
    /// The interface this dispatcher serves.
    pub open spec fn interface(&self) -> Seq<MethodDefModel> {
        self.iface@
    }

    /// The owned implementation.
    pub open spec fn service(&self) -> S {
        self.service
    }

    /// The owned transport.
    pub open spec fn transport(&self) -> T {
        self.transport
    }

    /// Build a dispatcher from an implementation and a transport, taking
    /// ownership of both.
    pub fn new(iface: InterfaceDef, service: S, transport: T) -> (r: Self)
        ensures
            r.interface() == iface@,
            r.service() == service,
            r.transport() == transport,
    {
        Server { iface, service, transport }
    }
}

impl<T: Transport, S: Service> RPCServer for Server<T, S> {
    /// Serve one call: consume the delivered request, select the method,
    /// read its parameters in order, invoke the implementation, and transmit
    /// the envelope. A selection miss is answered with an unknown-method
    /// reply and also surfaced to the caller as an error; an undecodable
    /// parameter list is surfaced without a reply.
    fn serve_single_call(&mut self) -> (r: Result<(), RPCError>)
        ensures
            final(self).interface() == old(self).interface(),
            final(self).service() == old(self).service(),
            final(self).transport().reliable() == old(self).transport().reliable(),
            r is Ok ==> old(self).transport().req_channel() is Some,
            r is Ok ==> final(self).transport().req_channel() is None,
            old(self).transport().reliable() ==> match old(self).transport().req_channel() {
                None => r is Err,
                Some(req) => request_consistent(old(self).interface(), req) ==> match resolve_num(
                    old(self).interface(),
                    req.num,
                ) {
                    None => {
                        &&& (r matches Err(e) && e@ == unknown_method_model())
                        &&& final(self).transport().resp_channel() == Some(
                            EnvelopeModel::Failure(unknown_method_model()),
                        )
                        &&& final(self).transport().req_channel() is None
                    },
                    Some(m) => {
                        if req.params.len() >= old(self).interface()[m].params.len() {
                            &&& r is Ok
                            &&& final(self).transport().resp_channel() == Some(
                                served_envelope(
                                    old(self).service(),
                                    old(self).interface(),
                                    req,
                                ),
                            )
                            &&& final(self).transport().req_channel() is None
                        } else {
                            r is Err
                        }
                    },
                },
            },
    {
        let ghost ifc = self.interface();
        let ghost req_opt = self.transport.req_channel();
        let (pid, mut rxs) = match self.transport.rx_begin_call() {
            Ok(x) => x,
            Err(e) => {
                return Err(e);
            },
        };
        let ghost req = req_opt.unwrap();
        let m = match self.iface.resolve(pid) {
            Some(m) => m,
            None => {
                let reply = Envelope::Failure(
                    RPCError::new(RPCErrorKind::UnknownMethod, "unknown method".to_owned()),
                );
                match self.transport.tx_response(reply) {
                    Ok(_) => {},
                    Err(e) => {
                        return Err(e);
                    },
                }
                return Err(
                    RPCError::new(RPCErrorKind::UnknownMethod, "unknown method".to_owned()),
                );
            },
        };
        proof {
            if request_consistent(ifc, req) {
                assert(resolve_num(ifc, req.num) == Some(m as int));
            }
        }
        let k = self.iface.param_count(m);
        let mut args: Vec<WireValue> = Vec::new();
        let mut j: usize = 0;
        proof {
            assert(args.deep_view() =~= req.params.take(0));
            assert(req.params.skip(0) =~= req.params);
        }
        let ghost resp0 = self.transport.resp_channel();
        while j < k
            invariant
                j <= k,
                j == args.len(),
                j <= req.params.len(),
                self.iface == old(self).iface,
                self.service == old(self).service,
                ifc == old(self).interface(),
                old(self).transport().req_channel() == Some(req),
                request_consistent(ifc, req) ==> resolve_num(ifc, req.num) == Some(m as int),
                m < self.interface().len(),
                k == self.interface()[m as int].params.len(),
                self.transport.req_channel() is None,
                self.transport.resp_channel() == resp0,
                self.transport.reliable() == old(self).transport().reliable(),
                T::rx_model(&rxs) == req.params.skip(j as int),
                args.deep_view() == req.params.take(j as int),
            decreases k - j,
        {
            let pname = self.iface.param_name(m, j);
            let v = match self.transport.rx_read_param(pname.as_str(), &mut rxs) {
                Ok(v) => v,
                Err(e) => {
                    return Err(e);
                },
            };
            let ghost args0 = args.deep_view();
            let ghost argsv0 = args@;
            args.push(v);
            proof {
                assert(v@ == req.params.skip(j as int)[0]);
                assert(j < req.params.len());
                assert(req.params.skip(j as int).drop_first() =~= req.params.skip(j + 1));
                assert(args.deep_view().len() == args@.len());
                assert forall|l: int| 0 <= l < args.deep_view().len() implies args.deep_view()[l]
                    == req.params.take(j + 1)[l] by {
                    assert(args.deep_view()[l] == args@[l].deep_view());
                    if l < j {
                        assert(args@[l] == argsv0[l]);
                        assert(argsv0[l].deep_view() == args0[l]);
                    } else {
                        assert(args@[l] == v);
                    }
                }
                assert(args.deep_view() =~= req.params.take(j + 1));
            }
            j = j + 1;
        }
        proof {
            assert(args.deep_view() =~= req.params.take(k as int));
        }
        let mnum: u32 = #[verifier::truncate] (m as u32);
        proof {
            if request_consistent(ifc, req) {
                assert(mnum == req.num);
            }
        }
        let outcome = self.service.call(mnum, args);
        let reply = match outcome {
            Ok(v) => Envelope::Success(v),
            Err(e) => Envelope::Failure(e),
        };
        match self.transport.tx_response(reply) {
            Ok(_) => Ok(()),
            Err(e) => Err(e),
        }
    }

    /// Serve calls until the stop predicate answers false; the predicate is
    /// evaluated only between calls. A served call whose request was pending
    /// when serving began, followed by a predicate answering false, returns
    /// success with that call's reply transmitted.
    #[verifier::rlimit(50)]
    fn serve_until<C: ServeCondition>(&mut self, cond: &mut C) -> (r: Result<(), RPCError>)
        ensures
            final(self).interface() == old(self).interface(),
            final(self).service() == old(self).service(),
            final(self).transport().reliable() == old(self).transport().reliable(),
            old(self).transport().reliable() ==> match old(self).transport().req_channel() {
                None => r is Err,
                Some(req) => request_consistent(old(self).interface(), req) ==> match resolve_num(
                    old(self).interface(),
                    req.num,
                ) {
                    None => {
                        &&& (r matches Err(e) && e@ == unknown_method_model())
                        &&& final(self).transport().resp_channel() == Some(
                            EnvelopeModel::Failure(unknown_method_model()),
                        )
                        &&& final(self).transport().req_channel() is None
                    },
                    Some(m) => {
                        if req.params.len() >= old(self).interface()[m].params.len() {
                            if old(cond).will_continue() {
                                r is Err
                            } else {
                                &&& r is Ok
                                &&& final(self).transport().resp_channel() == Some(
                                    served_envelope(
                                        old(self).service(),
                                        old(self).interface(),
                                        req,
                                    ),
                                )
                                &&& final(self).transport().req_channel() is None
                            }
                        } else {
                            r is Err
                        }
                    },
                },
            },
    {
        let ghost rel0 = self.transport.reliable();
        let ghost req0 = self.transport.req_channel();
        let ghost good = rel0 && match req0 {
            Some(req) => request_consistent(self.interface(), req) && match resolve_num(
                self.interface(),
                req.num,
            ) {
                Some(m) => req.params.len() >= self.interface()[m].params.len(),
                None => false,
            },
            None => false,
        };
        let ghost mut first: bool = true;
        loop
            invariant
                self.interface() == old(self).interface(),
                self.service() == old(self).service(),
                self.transport.reliable() == rel0,
                rel0 == old(self).transport().reliable(),
                req0 == old(self).transport().req_channel(),
                good == (rel0 && match req0 {
                    Some(rq) => request_consistent(old(self).interface(), rq) && match resolve_num(
                        old(self).interface(),
                        rq.num,
                    ) {
                        Some(m) => rq.params.len() >= old(self).interface()[m].params.len(),
                        None => false,
                    },
                    None => false,
                }),
                first ==> self.transport == old(self).transport() && *cond == *old(cond),
                !first ==> rel0 ==> {
                    &&& req0 is Some
                    &&& old(cond).will_continue()
                    &&& (good ==> {
                        &&& self.transport.req_channel() is None
                        &&& self.transport.resp_channel() == Some(
                            served_envelope(
                                old(self).service(),
                                old(self).interface(),
                                req0.unwrap(),
                            ),
                        )
                    })
                    &&& (request_consistent(old(self).interface(), req0.unwrap()) ==> good)
                },
            decreases (if self.transport.req_channel() is Some { 1int } else { 0int }),
        {
            let ghost pre_t = self.transport;
            let ghost pre_first = first;
            let res = self.serve_single_call();
            proof {
                if rel0 && pre_first && good && res is Ok {
                    assert(pre_t.req_channel() == req0);
                    assert(request_consistent(old(self).interface(), req0.unwrap()));
                    assert(self.transport.resp_channel() == Some(
                        served_envelope(old(self).service(), old(self).interface(), req0.unwrap()),
                    ));
                }
            }
            match res {
                Err(e) => {
                    return Err(e);
                },
                Ok(_) => {},
            }
            let go = cond.check();
            if !go {
                return Ok(());
            }
            proof {
                first = false;
            }
        }
    }

    /// Serve calls until one fails. The result is always an error, because
    /// the loop only ends on one. A pending request is served first: in
    /// particular, a selection miss is answered with the unknown-method
    /// reply before that same error ends the loop.
    fn serve(&mut self) -> (r: Result<(), RPCError>)
        ensures
            final(self).interface() == old(self).interface(),
            final(self).service() == old(self).service(),
            final(self).transport().reliable() == old(self).transport().reliable(),
            r is Err,
            old(self).transport().reliable() ==> match old(self).transport().req_channel() {
                None => true,
                Some(req) => request_consistent(old(self).interface(), req) ==> match resolve_num(
                    old(self).interface(),
                    req.num,
                ) {
                    None => {
                        &&& (r matches Err(e) && e@ == unknown_method_model())
                        &&& final(self).transport().resp_channel() == Some(
                            EnvelopeModel::Failure(unknown_method_model()),
                        )
                        &&& final(self).transport().req_channel() is None
                    },
                    Some(_) => true,
                },
            },
    {
        let ghost rel0 = self.transport.reliable();
        let ghost req0 = self.transport.req_channel();
        let ghost miss = rel0 && match req0 {
            Some(req) => request_consistent(self.interface(), req) && resolve_num(
                self.interface(),
                req.num,
            ) is None,
            None => false,
        };
        let ghost mut first: bool = true;
        loop
            invariant
                self.interface() == old(self).interface(),
                self.service() == old(self).service(),
                self.transport.reliable() == rel0,
                rel0 == old(self).transport().reliable(),
                req0 == old(self).transport().req_channel(),
                miss == (rel0 && match req0 {
                    Some(rq) => request_consistent(old(self).interface(), rq) && resolve_num(
                        old(self).interface(),
                        rq.num,
                    ) is None,
                    None => false,
                }),
                first ==> self.transport == old(self).transport(),
                !first ==> !miss,
            decreases (if self.transport.req_channel() is Some { 1int } else { 0int }),
        {
            match self.serve_single_call() {
                Err(e) => {
                    return Err(e);
                },
                Ok(_) => {},
            }
            proof {
                first = false;
            }
        }
    }
}

} // verus!
