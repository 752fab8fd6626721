//! The client side of a call: a stub that owns a transport and implements
//! each interface method by transmitting the method identifier and the
//! parameters in declaration order, then reading the reply envelope.

use vstd::prelude::*;

use crate::iface::InterfaceDef;
use crate::iface::MethodDefModel;
use crate::transport::Transport;
use crate::wire::Envelope;
use crate::wire::EnvelopeModel;
use crate::wire::RequestModel;
use crate::wire::ValueModel;
use crate::wire::WireValue;
use crate::wire::outcome_of;
use crate::wire::outcome_view;
use crate::errors::RPCError;

verus! {

/// The request a client assembles for method `method` of `ifc` with
/// arguments `args`: the declared name, the stable index, and the arguments
/// in declaration order.
pub open spec fn built_request(
    ifc: Seq<MethodDefModel>,
    method: u32,
    args: Seq<ValueModel>,
) -> RequestModel {
    RequestModel { name: ifc[method as int].name, num: method, params: args }
}

/// A client stub: the interface it was generated from, and the transport it
/// owns and talks through.
pub struct Client<T: Transport> {
    /// The interface table this stub was generated from.
    pub iface: InterfaceDef,
    /// The owned transport endpoint.
    pub transport: T,
}

impl<T: Transport> Client<T> {
    /// The interface this stub speaks.
    pub open spec fn interface(&self) -> Seq<MethodDefModel> {
        self.iface@
    }

    /// The owned transport.
    pub open spec fn transport(&self) -> T {
        self.transport
    }

    /// Build a client stub over an interface, taking ownership of the
    /// transport.
    pub fn new(iface: InterfaceDef, transport: T) -> (r: Self)
        ensures
            r.interface() == iface@,
            r.transport() == transport,
    {
        Client { iface, transport }
    }

    /// Transmit one call: the full method identifier, then every argument in
    /// declaration order, then finalize. On success the whole request is on
    /// the wire. The first transport failure is returned and the call is
    /// abandoned.
    pub fn call_send(&mut self, method: u32, args: Vec<WireValue>) -> (r: Result<(), RPCError>)
        requires
            method < old(self).interface().len(),
            args.len() == old(self).interface()[method as int].params.len(),
        ensures
            final(self).interface() == old(self).interface(),
            final(self).transport().reliable() == old(self).transport().reliable(),
            old(self).transport().reliable() && old(self).transport().req_channel() is None ==> r
                is Ok,
            r is Ok ==> {
                &&& final(self).transport().req_channel() == Some(built_request(
                    old(self).interface(),
                    method,
                    args.deep_view(),
                ))
                &&& final(self).transport().resp_channel() == old(self).transport().resp_channel()
            },
    {
        let ghost all = args.deep_view();
        let mid = self.iface.method_id(method as usize);
        let mut st = match self.transport.tx_begin_call(mid) {
            Ok(s) => s,
            Err(e) => {
                return Err(e);
            },
        };
        let count = self.iface.param_count(method as usize);
        let mut rest = args;
        let mut j: usize = 0;
        proof {
            assert(all.take(0) =~= Seq::<ValueModel>::empty());
            assert(rest.deep_view().skip(0) =~= all);
        }
        while j < count
            invariant
                j <= count,
                self.iface == old(self).iface,
                method < self.interface().len(),
                count == self.interface()[method as int].params.len(),
                all.len() == count,
                rest.deep_view() == all.skip(j as int),
                T::tx_model(&st) == (RequestModel {
                    name: self.interface()[method as int].name,
                    num: method,
                    params: all.take(j as int),
                }),
                self.transport.req_channel() == old(self).transport().req_channel(),
                self.transport.resp_channel() == old(self).transport().resp_channel(),
                self.transport.reliable() == old(self).transport().reliable(),
            decreases count - j,
        {
            let pname = self.iface.param_name(method as usize, j);
            proof {
                assert(rest.deep_view().len() == rest@.len());
                assert(rest.deep_view()[0] == rest@[0].deep_view());
            }
            let ghost rest0 = rest.deep_view();
            let ghost restv0 = rest@;
            let v = rest.remove(0);
            proof {
                assert(v@ == rest0[0]);
                assert(rest0[0] == all.skip(j as int)[0]);
                assert(v@ == all[j as int]);
                assert forall|l: int| 0 <= l < rest.deep_view().len() implies rest.deep_view()[l]
                    == all.skip(j + 1)[l] by {
                    assert(rest.deep_view()[l] == rest@[l].deep_view());
                    assert(rest@[l] == restv0[l + 1]);
                    assert(restv0[l + 1].deep_view() == rest0[l + 1]);
                    assert(rest0[l + 1] == all.skip(j as int)[l + 1]);
                }
                assert(rest.deep_view() =~= all.skip(j + 1));
            }
            match self.transport.tx_add_param(pname.as_str(), v, &mut st) {
                Ok(_) => {},
                Err(e) => {
                    return Err(e);
                },
            }
            proof {
                assert(all.take(j as int).push(all[j as int]) =~= all.take(j + 1));
            }
            j = j + 1;
        }
        proof {
            assert(all.take(count as int) =~= all);
        }
        match self.transport.tx_finalize(&mut st) {
            Ok(_) => Ok(()),
            Err(e) => Err(e),
        }
    }

    /// Read the reply to the transmitted call and open the envelope: a
    /// success value becomes the method result, a serialized error becomes
    /// the returned error. A transport failure is returned as it stands.
    pub fn call_recv(&mut self) -> (r: Result<WireValue, RPCError>)
        ensures
            final(self).interface() == old(self).interface(),
            final(self).transport().reliable() == old(self).transport().reliable(),
            old(self).transport().reliable() ==> (old(self).transport().resp_channel() matches Some(
                env,
            ) ==> {
                &&& outcome_view(r) == outcome_of(env)
                &&& final(self).transport().resp_channel() is None
                &&& final(self).transport().req_channel() == old(self).transport().req_channel()
            }),
            old(self).transport().reliable() && old(self).transport().resp_channel() is None ==> r
                is Err,
            r matches Ok(v) ==> old(self).transport().resp_channel() == Some(
                EnvelopeModel::Success(v@),
            ),
    {
        match self.transport.rx_response() {
            Ok(env) => {
                match env {
                    Envelope::Success(v) => Ok(v),
                    Envelope::Failure(e) => Err(e),
                }
            },
            Err(te) => Err(te),
        }
    }
}

} // verus!
