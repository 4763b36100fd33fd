//! The dispatch table of a service: from the name in a request to the call of the
//! method, or to the error that is sent back instead.
//!
//! Dispatch is a decision, not a call. [`DispatchTable::dispatch`] says what is to
//! be done with a request; whoever holds the service does it, and hands what came
//! of it to [`complete`]. No state is kept between the two, or between requests.

use vstd::prelude::*;
use crate::envelope::{
    failure, success, DispatchError, Request, RequestView, Response, ResponseView,
};
use crate::method::{match_arm_of, RpcMethod, RpcMethodView};
use crate::params::{decode_params, decode_record, Payload};

verus! {

/// How the arm of a method gets the method's arguments.
#[derive(Clone, Debug, PartialEq, Eq)]
pub enum Handler {
    /// The method takes no arguments: nothing is decoded.
    WithoutArgs,
    /// The parameters of the request are decoded into the record named
    /// `args_struct_ident`, and the method is called with the fields
    /// `method_args` of it, in this order.
    WithArgs { args_struct_ident: String, method_args: Vec<String> },
}

/// The mathematical value of a [`Handler`].
pub enum HandlerView {
    WithoutArgs,
    WithArgs { args_struct_ident: Seq<char>, method_args: Seq<Seq<char>> },
}

impl View for Handler {
    type V = HandlerView;

    open spec fn view(&self) -> HandlerView {
        match self {
            Handler::WithoutArgs => HandlerView::WithoutArgs,
            Handler::WithArgs { args_struct_ident, method_args } => HandlerView::WithArgs {
                args_struct_ident: args_struct_ident@,
                method_args: method_args.deep_view(),
            },
        }
    }
}

/// The arm of the dispatch table for one method: the literal that denotes the
/// method's name in source code, the identifier of the method, which is the name
/// that selects the arm, the return type of the method, and how the method is
/// given its arguments.
#[derive(Clone, Debug, PartialEq, Eq)]
pub struct MatchArm {
    pub method_name_literal: String,
    pub method_ident: String,
    pub return_ty: String,
    pub handler: Handler,
}

/// The mathematical value of a [`MatchArm`].
pub struct MatchArmView {
    pub method_name_literal: Seq<char>,
    pub method_ident: Seq<char>,
    pub return_ty: Seq<char>,
    pub handler: HandlerView,
}

impl View for MatchArm {
    type V = MatchArmView;

    open spec fn view(&self) -> MatchArmView {
        MatchArmView {
            method_name_literal: self.method_name_literal@,
            method_ident: self.method_ident@,
            return_ty: self.return_ty@,
            handler: self.handler@,
        }
    }
}

impl DeepView for MatchArm {
    type V = MatchArmView;

    open spec fn deep_view(&self) -> MatchArmView {
        self@
    }
}

/// What is to be done with a request.
#[derive(Debug, PartialEq, Eq)]
pub enum Action {
    /// Call the method named `method` with these encoded arguments, which stand in
    /// the order in which the method declares its parameters. Each is first decoded
    /// into the type of its parameter; where one does not decode, the method is not
    /// called, and what comes of the action is [`Outcome::ArgumentsRejected`].
    Invoke { method: String, args: Vec<String> },
    /// Call nothing, and send this response.
    Respond(Response),
}

/// The mathematical value of an [`Action`].
pub enum ActionView {
    Invoke { method: Seq<char>, args: Seq<Seq<char>> },
    Respond(ResponseView),
}

impl View for Action {
    type V = ActionView;

    open spec fn view(&self) -> ActionView {
        match self {
            Action::Invoke { method, args } => ActionView::Invoke {
                method: method@,
                args: args.deep_view(),
            },
            Action::Respond(response) => ActionView::Respond(response@),
        }
    }
}

/// What came of an [`Action::Invoke`].
#[derive(Clone, Debug, PartialEq, Eq)]
pub enum Outcome {
    /// The method was called and returned; this is its return value, encoded. A
    /// method that can fail says so in the value it returns, which is passed on as
    /// it is.
    Returned(String),
    /// An argument did not decode into the type of its parameter. The method was
    /// not called.
    ArgumentsRejected,
}

/// The mathematical value of an [`Outcome`].
pub enum OutcomeView {
    Returned(Seq<char>),
    ArgumentsRejected,
}

impl View for Outcome {
    type V = OutcomeView;

    open spec fn view(&self) -> OutcomeView {
        match self {
            Outcome::Returned(value) => OutcomeView::Returned(value@),
            Outcome::ArgumentsRejected => OutcomeView::ArgumentsRejected,
        }
    }
}

/// What an arm does with a request that its name has selected. An arm without
/// arguments never looks at the parameters. An arm with arguments calls the method
/// if every one of its fields is found in the parameters, and otherwise reports
/// invalid parameters.
pub open spec fn arm_action(arm: MatchArmView, request: RequestView) -> ActionView {
    match arm.handler {
        HandlerView::WithoutArgs => ActionView::Invoke {
            method: arm.method_ident,
            args: Seq::empty(),
        },
        HandlerView::WithArgs { method_args, .. } => match decode_params(
            method_args,
            request.params,
        ) {
            Some(args) => ActionView::Invoke { method: arm.method_ident, args },
            None => ActionView::Respond(failure(request.id, DispatchError::InvalidParams)),
        },
    }
}

/// The names that select the arms, in the order of the arms.
pub open spec fn arm_names(arms: Seq<MatchArmView>) -> Seq<Seq<char>> {
    Seq::new(arms.len(), |i: int| arms[i].method_ident)
}

/// Whether some arm is selected by exactly this name.
pub open spec fn handles(arms: Seq<MatchArmView>, method: Seq<char>) -> bool {
    exists|i: int| 0 <= i < arms.len() && (#[trigger] arms[i]).method_ident == method
}

/// The arm that this name selects, in a table that has one. Where the names of the
/// arms are pairwise different there is only one.
pub open spec fn arm_for(arms: Seq<MatchArmView>, method: Seq<char>) -> MatchArmView {
    arms[choose|i: int| 0 <= i < arms.len() && (#[trigger] arms[i]).method_ident == method]
}

/// What a table does with a request: what the arm of the requested method does
/// with it, or, where no arm has that name, the report that the method was not
/// found.
pub open spec fn dispatch_action(arms: Seq<MatchArmView>, request: RequestView) -> ActionView {
    if handles(arms, request.method) {
        arm_action(arm_for(arms, request.method), request)
    } else {
        ActionView::Respond(failure(request.id, DispatchError::MethodNotFound))
    }
}

/// The response to the request with this id, given what came of the call.
pub open spec fn completion(id: Seq<char>, outcome: OutcomeView) -> ResponseView {
    match outcome {
        OutcomeView::Returned(value) => success(id, value),
        OutcomeView::ArgumentsRejected => failure(id, DispatchError::InvalidParams),
    }
}

/// In a table whose names are pairwise different, the arm at a position is the arm
/// that its name selects.
pub proof fn lemma_arm_for_unique(arms: Seq<MatchArmView>, i: int)
    requires
        arm_names(arms).no_duplicates(),
        0 <= i < arms.len(),
    ensures
        handles(arms, arms[i].method_ident),
        arm_for(arms, arms[i].method_ident) == arms[i],
{
    let name = arms[i].method_ident;
    let c = choose|c: int| 0 <= c < arms.len() && (#[trigger] arms[c]).method_ident == name;
    assert(arm_names(arms)[c] == arm_names(arms)[i]);
}

impl MatchArm {
    /// Whether a request for `method` selects this arm: the two names are the same,
    /// character for character.
    pub fn matches(&self, method: &String) -> (r: bool)
        ensures
            r == (self@.method_ident == method@),
    {
        self.method_ident == *method
    }

    /// Decides what to do with a request that has selected this arm.
    pub fn handle(&self, request: &Request) -> (r: Action)
        ensures
            r@ == arm_action(self@, request@),
    {
        match &self.handler {
            Handler::WithoutArgs => {
                let args: Vec<String> = Vec::new();
                assert(args.deep_view() =~= Seq::empty());
                Action::Invoke { method: self.method_ident.clone(), args }
            },
            Handler::WithArgs { args_struct_ident: _, method_args } => {
                let decoded = match &request.params {
                    Some(Payload::Record(entries)) => decode_record(method_args, entries),
                    _ => None,
                };
                match decoded {
                    Some(args) => Action::Invoke { method: self.method_ident.clone(), args },
                    None => Action::Respond(
                        Response::new_error(request.id.clone(), DispatchError::InvalidParams),
                    ),
                }
            },
        }
    }
}

/// The table could not be built: two methods of the service have this name.
#[derive(Clone, Debug, PartialEq, Eq)]
pub struct DuplicateMethod {
    pub name: String,
}

/// The dispatch table of a service: one arm for each method, selected by the
/// method's name. No two arms have the same name. A table does not change once it
/// is built.
#[derive(Debug)]
pub struct DispatchTable {
    arms: Vec<MatchArm>,
}

impl View for DispatchTable {
    type V = Seq<MatchArmView>;

    closed spec fn view(&self) -> Seq<MatchArmView> {
        self.arms.deep_view()
    }
}

/// The names of a list of methods, in order.
pub open spec fn method_names_of(methods: Seq<RpcMethodView>) -> Seq<Seq<char>> {
    Seq::new(methods.len(), |i: int| methods[i].name)
}

/// The arms of a list of methods, in order.
pub open spec fn arms_of(methods: Seq<RpcMethodView>) -> Seq<MatchArmView> {
    Seq::new(methods.len(), |i: int| match_arm_of(methods[i]))
}

/// Whether `names[j]` is the first name in the list that repeats an earlier one.
pub open spec fn is_first_repeat(names: Seq<Seq<char>>, j: int) -> bool {
    &&& 0 <= j < names.len()
    &&& names.take(j).no_duplicates()
    &&& names.take(j).contains(names[j])
}

impl DispatchTable {
    #[verifier::type_invariant]
    spec fn names_differ(&self) -> bool {
        arm_names(self.arms.deep_view()).no_duplicates()
    }

    /// Builds the table of a service from the descriptors of its methods: one arm
    /// for each, in the order of the descriptors. Fails exactly when two
    /// descriptors have the same name, and then names the first that repeats an
    /// earlier one.
    pub fn build(methods: &Vec<RpcMethod>) -> (r: Result<DispatchTable, DuplicateMethod>)
        ensures
            r is Ok <==> method_names_of(methods.deep_view()).no_duplicates(),
            r matches Ok(table) ==> table@ == arms_of(methods.deep_view()),
            r matches Err(e) ==> exists|j: int|
                is_first_repeat(method_names_of(methods.deep_view()), j) && e.name@
                    == #[trigger] method_names_of(methods.deep_view())[j],
    {
        let ghost names = method_names_of(methods.deep_view());
        let mut arms: Vec<MatchArm> = Vec::new();
        let mut j: usize = 0;
        while j < methods.len()
            invariant
                j <= methods.len(),
                arms.len() == j,
                names == method_names_of(methods.deep_view()),
                arms.deep_view() == arms_of(methods.deep_view()).take(j as int),
                names.take(j as int).no_duplicates(),
            decreases methods.len() - j,
        {
            let arm = methods[j].generate_dispatcher_match_arm();
            let ghost built = arms.deep_view();
            let mut i: usize = 0;
            while i < arms.len()
                invariant
                    i <= arms.len(),
                    arms.len() == j,
                    j < methods.len(),
                    built == arms.deep_view(),
                    built == arms_of(methods.deep_view()).take(j as int),
                    names == method_names_of(methods.deep_view()),
                    arm@.method_ident == names[j as int],
                    names.take(j as int).no_duplicates(),
                    forall|k: int| 0 <= k < i ==> names[k] != names[j as int],
                decreases arms.len() - i,
            {
                assert(built[i as int].method_ident == names[i as int]);
                if arms[i].method_ident == arm.method_ident {
                    assert(names.take(j as int)[i as int] == names[j as int]);
                    assert(is_first_repeat(names, j as int));
                    return Err(DuplicateMethod { name: arm.method_ident });
                }
                i += 1;
            }
            arms.push(arm);
            assert(names.take(j + 1).no_duplicates()) by {
                let next = names.take(j + 1);
                assert forall|a: int, b: int|
                    0 <= a < next.len() && 0 <= b < next.len() && a != b implies next[a]
                    != next[b] by {
                    if a < j && b < j {
                        assert(names.take(j as int)[a] != names.take(j as int)[b]);
                    }
                }
            }
            j += 1;
        }
        assert(names.take(j as int) =~= names);
        assert(arm_names(arms.deep_view()) =~= names);
        Ok(DispatchTable { arms })
    }

    /// The arms of the table, in the order of the descriptors it was built from.
    pub fn arms(&self) -> (r: &Vec<MatchArm>)
        ensures
            r.deep_view() == self@,
    {
        &self.arms
    }

    /// The names of the methods that the table serves, in the order of its arms. No
    /// name occurs twice.
    pub fn method_names(&self) -> (r: Vec<String>)
        ensures
            r.deep_view() == arm_names(self@),
            arm_names(self@).no_duplicates(),
    {
        proof {
            use_type_invariant(self);
        }
        let mut names: Vec<String> = Vec::new();
        let mut i: usize = 0;
        while i < self.arms.len()
            invariant
                i <= self.arms.len(),
                names.len() == i,
                forall|k: int| 0 <= k < i ==> names[k]@ == self.arms[k]@.method_ident,
            decreases self.arms.len() - i,
        {
            names.push(self.arms[i].method_ident.clone());
            i += 1;
        }
        names
    }

    /// The position of the arm that a request for `method` selects. The name has to
    /// be the same, character for character.
    pub fn resolve(&self, method: &String) -> (r: Option<usize>)
        ensures
            r is Some <==> handles(self@, method@),
            r matches Some(i) ==> i < self@.len() && self@[i as int] == arm_for(self@, method@),
    {
        proof {
            use_type_invariant(self);
        }
        let mut i: usize = 0;
        while i < self.arms.len()
            invariant
                i <= self.arms.len(),
                arm_names(self@).no_duplicates(),
                forall|k: int| 0 <= k < i ==> (#[trigger] self@[k]).method_ident != method@,
            decreases self.arms.len() - i,
        {
            if self.arms[i].matches(method) {
                proof {
                    lemma_arm_for_unique(self@, i as int);
                }
                return Some(i);
            }
            i += 1;
        }
        None
    }

    /// Decides what to do with a request. Where no arm has the requested name, the
    /// request is answered with `MethodNotFound` and nothing is called. Otherwise the
    /// arm of that name decides. The table is only read.
    pub fn dispatch(&self, request: &Request) -> (r: Action)
        ensures
            r@ == dispatch_action(self@, request@),
    {
        match self.resolve(&request.method) {
            Some(i) => self.arms[i].handle(request),
            None => Action::Respond(
                Response::new_error(request.id.clone(), DispatchError::MethodNotFound),
            ),
        }
    }
}

/// Answers a request, given what came of calling its method: the return value
/// becomes the result of the response, unchanged, and rejected arguments are
/// reported as invalid parameters. The response carries the id of the request.
pub fn complete(request: &Request, outcome: Outcome) -> (r: Response)
    ensures
        r@ == completion(request@.id, outcome@),
{
    match outcome {
        Outcome::Returned(value) => Response::new_success(request.id.clone(), value),
        Outcome::ArgumentsRejected => Response::new_error(
            request.id.clone(),
            DispatchError::InvalidParams,
        ),
    }
}

} // verus!
