//! One complete in-process call: the client stub transmits over its
//! endpoint, the wire is crossed by moving the delivered request to the
//! server's endpoint, the dispatcher serves, and the reply crosses back.
//! This is also the degenerate request/response transaction shape: one
//! request value equals one call, one reply envelope equals one response,
//! which is what an asynchronous client hands to a transaction function.

use vstd::prelude::*;

use crate::client::Client;
use crate::client::built_request;
use crate::errors::ErrModel;
use crate::errors::RPCError;
use crate::errors::RPCErrorKind;
use crate::iface::InterfaceDef;
use crate::iface::MethodDefModel;
use crate::iface::resolve_num;
use crate::server::RPCServer;
use crate::server::Server;
use crate::server::request_consistent;
use crate::server::unknown_method_model;
use crate::service::Service;
use crate::transport::Loopback;
use crate::transport::Transport;
use crate::wire::Envelope;
use crate::wire::RequestModel;
use crate::wire::ValueModel;
use crate::wire::WireRequest;
use crate::wire::WireValue;
use crate::wire::outcome_of;
use crate::wire::outcome_view;

verus! {

/// The outcome a conforming server owes for a delivered request: an
/// unknown-method error on a selection miss, and otherwise the declared
/// outcome of the selected method on its declared parameters, in order.
pub open spec fn rpc_outcome<S: Service>(
    svc: S,
    ifc: Seq<MethodDefModel>,
    req: RequestModel,
) -> Result<ValueModel, ErrModel> {
    match resolve_num(ifc, req.num) {
        None => Err(unknown_method_model()),
        Some(m) => svc.spec_call(req.num, req.params.take(ifc[m].params.len() as int)),
    }
}

/// A request whose serving cannot stall on its parameter list: either its
/// index resolves and it carries at least the declared number of parameters,
/// or its index resolves to nothing at all — a selection miss is answered
/// with the unknown-method reply before any parameter is read, so it too
/// falls under the serving guarantee.
pub open spec fn decodable(ifc: Seq<MethodDefModel>, req: RequestModel) -> bool {
    match resolve_num(ifc, req.num) {
        None => true,
        Some(m) => req.params.len() >= ifc[m].params.len(),
    }
}

/// Build the one-buffer request of the transaction shape: the full method
/// identifier and the arguments, exactly what the incremental transmit
/// surface would deliver.
pub fn encode_transaction_request(iface: &InterfaceDef, method: u32, args: Vec<WireValue>) -> (r:
    WireRequest)
    requires
        method < iface@.len(),
        args@.len() == iface@[method as int].params.len(),
    ensures
        r@ == built_request(iface@, method, args.deep_view()),
{
    WireRequest { method: iface.method_id(method as usize), params: args }
}

/// Open a transaction reply: a success envelope becomes the method result,
/// an error envelope becomes the returned error.
pub fn decode_transaction_response(env: Envelope) -> (r: Result<WireValue, RPCError>)
    ensures
        outcome_view(r) == outcome_of(env@),
{
    match env {
        Envelope::Success(v) => Ok(v),
        Envelope::Failure(e) => Err(e),
    }
}

/// Run one request/response transaction against a server: deliver the
/// request, serve it, and hand back the reply envelope. An unknown method is
/// a reply like any other; a request the server cannot decode yields the
/// serve failure instead of a reply.
pub fn transact<S: Service>(server: &mut Server<Loopback, S>, request: WireRequest) -> (r: Result<
    Envelope,
    RPCError,
>)
    requires
        old(server).transport().reliable(),
        old(server).transport().req_channel() is None,
        old(server).transport().resp_channel() is None,
    ensures
        final(server).interface() == old(server).interface(),
        final(server).service() == old(server).service(),
        final(server).transport().reliable(),
        request_consistent(old(server).interface(), request@) && decodable(
            old(server).interface(),
            request@,
        ) ==> {
            &&& (r matches Ok(env) && outcome_of(env@) == rpc_outcome(
                old(server).service(),
                old(server).interface(),
                request@,
            ))
            &&& final(server).transport().req_channel() is None
            &&& final(server).transport().resp_channel() is None
        },
{
    server.transport.give_request(request);
    let served = server.serve_single_call();
    let reply = server.transport.take_response();
    match reply {
        Some(env) => Ok(env),
        None => {
            match served {
                Err(e) => Err(e),
                Ok(_) => Err(
                    RPCError::new(RPCErrorKind::Other, "no reply was transmitted".to_owned()),
                ),
            }
        },
    }
}

/// One complete call over a pair of loopback endpoints: transmit through the
/// client's endpoint, carry the request across, serve, carry the reply back,
/// and read it. For a consistent, decodable request this returns exactly the
/// outcome the server's implementation declares: the round trip neither
/// loses nor alters the result, successful or failed.
pub fn loopback_exchange<S: Service>(
    client: &mut Client<Loopback>,
    server: &mut Server<Loopback, S>,
    method: u32,
    args: Vec<WireValue>,
) -> (r: Result<WireValue, RPCError>)
    requires
        method < old(client).interface().len(),
        args@.len() == old(client).interface()[method as int].params.len(),
        old(client).transport().reliable(),
        old(client).transport().req_channel() is None,
        old(client).transport().resp_channel() is None,
        old(server).transport().reliable(),
        old(server).transport().req_channel() is None,
        old(server).transport().resp_channel() is None,
    ensures
        final(client).interface() == old(client).interface(),
        final(server).interface() == old(server).interface(),
        final(server).service() == old(server).service(),
        final(client).transport().reliable(),
        final(server).transport().reliable(),
        ({
            let req = built_request(old(client).interface(), method, args.deep_view());
            request_consistent(old(server).interface(), req) && decodable(
                old(server).interface(),
                req,
            ) ==> {
                &&& outcome_view(r) == rpc_outcome(
                    old(server).service(),
                    old(server).interface(),
                    req,
                )
                &&& final(client).transport().req_channel() is None
                &&& final(client).transport().resp_channel() is None
                &&& final(server).transport().req_channel() is None
                &&& final(server).transport().resp_channel() is None
            }
        }),
{
    match client.call_send(method, args) {
        Ok(_) => {},
        Err(e) => {
            return Err(e);
        },
    }
    let w = match client.transport.take_request() {
        Some(w) => w,
        None => {
            return Err(RPCError::new(RPCErrorKind::Other, "request was not delivered".to_owned()));
        },
    };
    let reply = match transact(server, w) {
        Ok(env) => env,
        Err(e) => {
            return Err(e);
        },
    };
    client.transport.give_response(reply);
    client.call_recv()
}

} // verus!
