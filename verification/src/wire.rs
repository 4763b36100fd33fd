//! What holds between the two ends of the wire: the table that a service is
//! dispatched by and the stubs that its clients call through, both made from the
//! same descriptors.

use vstd::prelude::*;
use crate::dispatch::{
    arm_action, arm_names, arms_of, completion, dispatch_action, handles, lemma_arm_for_unique,
    method_names_of, ActionView, MatchArmView, OutcomeView,
};
use crate::envelope::{failure, DispatchError, RequestView};
use crate::method::{match_arm_of, proxy_method_of, RpcMethodView};
use crate::params::{
    decode_params, encode_fields, idents_of, lemma_decode_permuted_encoding, single_valued,
    EntryView, PayloadView,
};
use crate::proxy::{proxy_call, CallView};

verus! {

/// The request that carries a call under an id.
pub open spec fn request_of(call: CallView, id: Seq<char>) -> RequestView {
    RequestView { method: call.method, params: call.params, id }
}

/// In the table of a service whose methods have pairwise different names, a
/// request for the name of a method is decided by the arm of that method.
pub proof fn lemma_dispatch_by_own_arm(methods: Seq<RpcMethodView>, i: int, request: RequestView)
    requires
        method_names_of(methods).no_duplicates(),
        0 <= i < methods.len(),
        request.method == methods[i].name,
    ensures
        dispatch_action(arms_of(methods), request) == arm_action(
            match_arm_of(methods[i]),
            request,
        ),
{
    let arms = arms_of(methods);
    assert(arm_names(arms) =~= method_names_of(methods));
    lemma_arm_for_unique(arms, i);
}

/// A method without parameters needs no parameters on either side. A request for
/// it leads to its call, with no arguments, whatever the request carries as
/// parameters and also when it carries none; and its stub sends none.
pub proof fn lemma_no_params_needed(methods: Seq<RpcMethodView>, i: int, request: RequestView)
    requires
        method_names_of(methods).no_duplicates(),
        0 <= i < methods.len(),
        methods[i].args.len() == 0,
        request.method == methods[i].name,
    ensures
        dispatch_action(arms_of(methods), request) == (ActionView::Invoke {
            method: methods[i].name,
            args: Seq::empty(),
        }),
        proxy_call(proxy_method_of(methods[i]), Seq::empty()) == Some(
            CallView { method: methods[i].name, params: None },
        ),
{
    lemma_dispatch_by_own_arm(methods, i, request);
}

/// A request for a name that no method of the service has is answered with
/// `MethodNotFound`, under the id of the request, and nothing is called. No other
/// request is answered so.
pub proof fn lemma_unknown_method_not_found(methods: Seq<RpcMethodView>, request: RequestView)
    ensures
        (forall|i: int| 0 <= i < methods.len() ==> (#[trigger] methods[i]).name != request.method)
            <==> dispatch_action(arms_of(methods), request) == ActionView::Respond(
            failure(request.id, DispatchError::MethodNotFound),
        ),
{
    let arms = arms_of(methods);
    if handles(arms, request.method) {
        let k = choose|k: int|
            0 <= k < arms.len() && (#[trigger] arms[k]).method_ident == request.method;
        assert(methods[k].name == request.method);
    } else {
        assert forall|i: int| 0 <= i < methods.len() implies (#[trigger] methods[i]).name
            != request.method by {
            assert(arms[i].method_ident == methods[i].name);
        }
    }
}

/// Whatever is answered to a request carries the id of the request: the response
/// that dispatch gives where nothing is called, which is always an error, and the
/// response that completes a call.
pub proof fn lemma_response_carries_request_id(
    arms: Seq<MatchArmView>,
    request: RequestView,
    outcome: OutcomeView,
)
    ensures
        dispatch_action(arms, request) matches ActionView::Respond(response) ==> response.id
            == request.id && response.outcome is Err,
        completion(request.id, outcome).id == request.id,
{
}

/// A request for a method with parameters whose own parameters do not decode into
/// the method's argument record is answered with `InvalidParams`, under the id of
/// the request. Nothing is called.
pub proof fn lemma_undecodable_params_rejected(
    methods: Seq<RpcMethodView>,
    i: int,
    request: RequestView,
)
    requires
        method_names_of(methods).no_duplicates(),
        0 <= i < methods.len(),
        methods[i].args.len() > 0,
        request.method == methods[i].name,
        decode_params(idents_of(methods[i].args), request.params) is None,
    ensures
        dispatch_action(arms_of(methods), request) == ActionView::Respond(
            failure(request.id, DispatchError::InvalidParams),
        ),
{
    lemma_dispatch_by_own_arm(methods, i, request);
}

/// The two ends agree. Where the methods of a service have pairwise different
/// names and the arguments under one identifier are all the same, as they are
/// when the parameters of the method have pairwise different identifiers, the call
/// that the stub of the method makes with these arguments, sent as a request under
/// any id, leads the table of the service to call that method with the same
/// arguments, in the same order.
pub proof fn lemma_proxy_call_dispatches(
    methods: Seq<RpcMethodView>,
    i: int,
    values: Seq<Seq<char>>,
    id: Seq<char>,
)
    requires
        method_names_of(methods).no_duplicates(),
        0 <= i < methods.len(),
        values.len() == methods[i].args.len(),
        single_valued(idents_of(methods[i].args), values),
    ensures
        proxy_call(proxy_method_of(methods[i]), values) is Some,
        dispatch_action(
            arms_of(methods),
            request_of(proxy_call(proxy_method_of(methods[i]), values).unwrap(), id),
        ) == (ActionView::Invoke { method: methods[i].name, args: values }),
{
    let call = proxy_call(proxy_method_of(methods[i]), values).unwrap();
    let request = request_of(call, id);
    lemma_dispatch_by_own_arm(methods, i, request);
    if methods[i].args.len() == 0 {
        assert(values =~= Seq::empty());
    } else {
        let names = idents_of(methods[i].args);
        lemma_decode_permuted_encoding(names, values, encode_fields(names, values));
    }
}

/// The two ends agree in whatever order the fields travel. Under the conditions of
/// [`lemma_proxy_call_dispatches`], a request for a method with parameters that
/// carries the entries of the stub's record in any order leads to the call of the
/// method with the arguments that the stub was given.
pub proof fn lemma_field_order_is_free(
    methods: Seq<RpcMethodView>,
    i: int,
    values: Seq<Seq<char>>,
    request: RequestView,
    entries: Seq<EntryView>,
)
    requires
        method_names_of(methods).no_duplicates(),
        0 <= i < methods.len(),
        values.len() == methods[i].args.len(),
        single_valued(idents_of(methods[i].args), values),
        methods[i].args.len() > 0,
        request.method == methods[i].name,
        request.params == Some(PayloadView::Record(entries)),
        entries.to_multiset() == encode_fields(idents_of(methods[i].args), values).to_multiset(),
    ensures
        dispatch_action(arms_of(methods), request) == (ActionView::Invoke {
            method: methods[i].name,
            args: values,
        }),
{
    lemma_dispatch_by_own_arm(methods, i, request);
    lemma_decode_permuted_encoding(idents_of(methods[i].args), values, entries);
}

} // verus!
