//! The framework's laws, stated once over the specifications the stub
//! contracts use: what a round trip returns, what reaches the
//! implementation, what an unknown method yields, and what stays stable when
//! an interface grows.

use vstd::prelude::*;

use crate::client::built_request;
use crate::errors::ErrModel;
use crate::errors::RPCError;
use crate::errors::RPCErrorKind;
use crate::iface::MethodDefModel;
use crate::iface::lemma_resolve_name_finds;
use crate::iface::resolve_num;
use crate::iface::unique_names;
use crate::roundtrip::decodable;
use crate::roundtrip::rpc_outcome;
use crate::server::request_consistent;
use crate::server::unknown_method_model;
use crate::service::Service;
use crate::wire::ValueModel;
use crate::wire::WireValue;
use crate::wire::outcome_view;

verus! {

/// A request a client builds against the server's own interface is
/// consistent: its index and its name select the same method, whichever the
/// transport hands over, provided the declared names are distinct.
pub proof fn law_same_interface_consistent(
    ifc: Seq<MethodDefModel>,
    method: u32,
    args: Seq<ValueModel>,
)
    requires
        unique_names(ifc),
        (method as int) < ifc.len(),
    ensures
        request_consistent(ifc, built_request(ifc, method, args)),
{
    lemma_resolve_name_finds(ifc, method as int);
}

/// Round trip: when client and server share an interface with distinct
/// names, a call to a declared method with its declared number of arguments
/// is owed exactly the outcome the implementation declares — a returned
/// value arrives unchanged at the client.
pub proof fn law_round_trip<S: Service>(
    svc: S,
    ifc: Seq<MethodDefModel>,
    method: u32,
    args: Seq<ValueModel>,
    v: ValueModel,
)
    requires
        unique_names(ifc),
        (method as int) < ifc.len(),
        args.len() == ifc[method as int].params.len(),
        svc.spec_call(method, args) == Ok::<ValueModel, ErrModel>(v),
    ensures
        request_consistent(ifc, built_request(ifc, method, args)),
        decodable(ifc, built_request(ifc, method, args)),
        rpc_outcome(svc, ifc, built_request(ifc, method, args)) == Ok::<ValueModel, ErrModel>(v),
{
    law_same_interface_consistent(ifc, method, args);
    assert(args.take(ifc[method as int].params.len() as int) =~= args);
}

/// Error envelope identity: an implementation error crosses the wire as it
/// is — the client-side error carries the same message, and a cause chain of
/// some depth arrives as a chain of the same depth with the same
/// descriptions at each level.
pub proof fn law_error_envelope_identity<S: Service>(
    svc: S,
    ifc: Seq<MethodDefModel>,
    method: u32,
    args: Seq<ValueModel>,
    e: ErrModel,
)
    requires
        unique_names(ifc),
        (method as int) < ifc.len(),
        args.len() == ifc[method as int].params.len(),
        svc.spec_call(method, args) == Err::<ValueModel, ErrModel>(e),
    ensures
        rpc_outcome(svc, ifc, built_request(ifc, method, args)) == Err::<ValueModel, ErrModel>(e),
        ({
            let out = rpc_outcome(svc, ifc, built_request(ifc, method, args));
            &&& out matches Err(e2)
            &&& (out matches Err(e2) ==> e2.msg == e.msg && e2.chain == e.chain && e2.chain.len()
                == e.chain.len())
        }),
{
    law_same_interface_consistent(ifc, method, args);
    assert(args.take(ifc[method as int].params.len() as int) =~= args);
}

/// Unknown method: a consistent request whose index resolves to no declared
/// method is owed exactly the unknown-method error, as a reply the client
/// observes like any method result.
pub proof fn law_unknown_method<S: Service>(
    svc: S,
    ifc: Seq<MethodDefModel>,
    req: crate::wire::RequestModel,
)
    requires
        resolve_num(ifc, req.num) is None,
    ensures
        rpc_outcome(svc, ifc, req) == Err::<ValueModel, ErrModel>(unknown_method_model()),
        rpc_outcome(svc, ifc, req)->Err_0.kind == RPCErrorKind::UnknownMethod,
{
}

/// Parameter ordering: what reaches the implementation is the request's
/// parameter sequence itself, in order — the value at each declared position
/// is the value the client added at that position.
pub proof fn law_parameter_order(ifc: Seq<MethodDefModel>, req: crate::wire::RequestModel)
    requires
        resolve_num(ifc, req.num) is Some,
        decodable(ifc, req),
    ensures
        ({
            let k = ifc[resolve_num(ifc, req.num).unwrap()].params.len() as int;
            forall|j: int| 0 <= j < k ==> req.params.take(k)[j] == req.params[j]
        }),
{
}

/// Single-call isolation: the outcome owed for a call depends on the
/// service, the interface and that call's own request alone, so two
/// sequential calls cannot contaminate one another — and equal calls are
/// owed equal outcomes.
pub proof fn law_single_call_isolation<S: Service>(
    svc: S,
    ifc: Seq<MethodDefModel>,
    req1: crate::wire::RequestModel,
    req2: crate::wire::RequestModel,
    r1: Result<WireValue, RPCError>,
    r2: Result<WireValue, RPCError>,
)
    requires
        outcome_view(r1) == rpc_outcome(svc, ifc, req1),
        outcome_view(r2) == rpc_outcome(svc, ifc, req2),
    ensures
        req1 == req2 ==> outcome_view(r1) == outcome_view(r2),
{
}

/// Method indexing: adding a method to the end of an interface preserves the
/// outcome owed for every request that resolved before, so previously
/// declared methods keep their wire compatibility.
pub proof fn law_append_preserves_outcome<S: Service>(
    svc: S,
    ifc: Seq<MethodDefModel>,
    added: MethodDefModel,
    req: crate::wire::RequestModel,
)
    requires
        resolve_num(ifc, req.num) is Some,
    ensures
        rpc_outcome(svc, ifc.push(added), req) == rpc_outcome(svc, ifc, req),
{
    assert(ifc.push(added)[req.num as int] == ifc[req.num as int]);
}

/// Removing the last method breaks the wire compatibility of its index: an
/// index that resolved before resolves no more.
pub proof fn law_removal_breaks_resolution(ifc: Seq<MethodDefModel>)
    requires
        1 <= ifc.len() <= u32::MAX,
    ensures
        resolve_num(ifc, (ifc.len() - 1) as u32) is Some,
        resolve_num(ifc.take(ifc.len() - 1), (ifc.len() - 1) as u32) is None,
{
}

/// Reordering two distinct declarations breaks wire compatibility: after the
/// swap, the first of the two indices selects a different declaration.
pub proof fn law_reorder_changes_selection(ifc: Seq<MethodDefModel>, i: int, j: int)
    requires
        0 <= i < j < ifc.len(),
        ifc.len() <= u32::MAX,
        ifc[i] != ifc[j],
    ensures
        ({
            let swapped = ifc.update(i, ifc[j]).update(j, ifc[i]);
            &&& resolve_num(swapped, i as u32) == resolve_num(ifc, i as u32)
            &&& swapped[i] != ifc[i]
        }),
{
}

} // verus!
