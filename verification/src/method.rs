//! The descriptor of one remotely callable method.

use vstd::prelude::*;
use crate::dispatch::{Handler, HandlerView, MatchArm, MatchArmView};
use crate::literal::string_literal;
use crate::params::{
    clone_params, idents_of, param_idents, ArgsStruct, ArgsStructView, Param, ParamView,
};
use crate::proxy::{ProxyArgs, ProxyArgsView, ProxyMethod, ProxyMethodView};
use crate::signature::{
    has_pattern, has_receiver, is_pattern, FnArg, FnArgView, Pat, PatView, ReturnType,
    ReturnTypeView, Signature, SignatureView,
};

verus! {

/// Why a declaration cannot be exposed as a remote method.
#[derive(Clone, Copy, Debug, PartialEq, Eq, Structural)]
pub enum DescriptorError {
    /// An argument is bound by something other than a simple name.
    PatternArgument,
    /// The declaration has no receiver: it is not a method of a service.
    NoReceiver,
}

/// The descriptor of one method: its name, which is also the name it is called by
/// remotely, its return type, its parameters in declared order, the string literal
/// that denotes its name in source code, and the name of the record that carries
/// its arguments.
#[derive(Clone, Debug, PartialEq, Eq)]
pub struct RpcMethod {
    name: String,
    return_ty: String,
    args: Vec<Param>,
    method_name_literal: String,
    args_struct_ident: String,
}

/// The mathematical value of an [`RpcMethod`].
pub struct RpcMethodView {
    pub name: Seq<char>,
    pub return_ty: Seq<char>,
    pub args: Seq<ParamView>,
    pub method_name_literal: Seq<char>,
    pub args_struct_ident: Seq<char>,
}

impl View for RpcMethod {
    type V = RpcMethodView;

    closed spec fn view(&self) -> RpcMethodView {
        RpcMethodView {
            name: self.name@,
            return_ty: self.return_ty@,
            args: self.args.deep_view(),
            method_name_literal: self.method_name_literal@,
            args_struct_ident: self.args_struct_ident@,
        }
    }
}

impl DeepView for RpcMethod {
    type V = RpcMethodView;

    open spec fn deep_view(&self) -> RpcMethodView {
        self@
    }
}

/// The text of the unit type, which a declaration without a return type returns.
pub open spec fn unit_type() -> Seq<char> {
    seq!['(', ')']
}

/// The text that joins the prefix and the method's name in the name of the
/// argument record.
pub open spec fn separator() -> Seq<char> {
    seq!['_']
}

/// The parameters that a list of inputs declares: its simply named arguments, in
/// order. The receiver is no parameter.
pub open spec fn typed_args(inputs: Seq<FnArgView>) -> Seq<ParamView>
    decreases inputs.len(),
{
    if inputs.len() == 0 {
        Seq::empty()
    } else {
        let before = typed_args(inputs.drop_last());
        match inputs.last() {
            FnArgView::Typed { pat: PatView::Ident(ident), ty } => before.push(
                ParamView { ident, ty },
            ),
            _ => before,
        }
    }
}

/// The return type that a declaration gives, as text.
pub open spec fn return_type_text(output: ReturnTypeView) -> Seq<char> {
    match output {
        ReturnTypeView::Default => unit_type(),
        ReturnTypeView::Type(ty) => ty,
    }
}

/// Why a list of inputs cannot be those of a remote method, if anything stands in
/// the way. A pattern argument is reported before a missing receiver.
pub open spec fn rejection(inputs: Seq<FnArgView>) -> Option<DescriptorError> {
    if has_pattern(inputs) {
        Some(DescriptorError::PatternArgument)
    } else if !has_receiver(inputs) {
        Some(DescriptorError::NoReceiver)
    } else {
        None
    }
}

/// The descriptor of a declaration whose inputs are accepted, given the literal
/// that denotes its name. The method is called by the name that it is declared
/// under, unchanged, and its argument record is named by the prefix, an underscore
/// and that name.
pub open spec fn descriptor(
    signature: SignatureView,
    prefix: Seq<char>,
    method_name_literal: Seq<char>,
) -> RpcMethodView {
    RpcMethodView {
        name: signature.ident,
        return_ty: return_type_text(signature.output),
        args: typed_args(signature.inputs),
        method_name_literal,
        args_struct_ident: prefix + separator() + signature.ident,
    }
}

/// The shape of the argument record of a method: it has the name that the
/// descriptor gives it, and one field for each parameter, in declared order.
pub open spec fn args_struct_of(method: RpcMethodView) -> ArgsStructView {
    ArgsStructView { ident: method.args_struct_ident, fields: method.args }
}

/// The arm of the dispatch table for a method. It is selected by the method's
/// name, and carries the literal of that name. A method without parameters gets an
/// arm that decodes nothing; any other gets an arm that decodes the argument
/// record and hands its fields on in declared order.
pub open spec fn match_arm_of(method: RpcMethodView) -> MatchArmView {
    MatchArmView {
        method_name_literal: method.method_name_literal,
        method_ident: method.name,
        return_ty: method.return_ty,
        handler: if method.args.len() == 0 {
            HandlerView::WithoutArgs
        } else {
            HandlerView::WithArgs {
                args_struct_ident: method.args_struct_ident,
                method_args: idents_of(method.args),
            }
        },
    }
}

/// The stub of a method. It calls the method by its name, and offers its caller
/// the method's parameters and return type. The stub of a method without
/// parameters sends nothing; any other sends the argument record, with one field
/// for each parameter, in declared order.
pub open spec fn proxy_method_of(method: RpcMethodView) -> ProxyMethodView {
    ProxyMethodView {
        method_ident: method.name,
        method_name_literal: method.method_name_literal,
        method_args: method.args,
        return_ty: method.return_ty,
        args: if method.args.len() == 0 {
            ProxyArgsView::Unit
        } else {
            ProxyArgsView::Struct {
                args_struct_ident: method.args_struct_ident,
                struct_fields: idents_of(method.args),
            }
        },
    }
}

impl RpcMethod {
    /// Describes the method that `signature` declares. The argument record is named
    /// by `args_struct_prefix`, an underscore and the method's name. The literal of
    /// the method's name is asked of the token library; the rest of the descriptor
    /// is as [`RpcMethod::with_literal`] gives it.
    pub fn new(signature: &Signature, args_struct_prefix: &str) -> (r: Result<
        RpcMethod,
        DescriptorError,
    >)
        ensures
            r is Ok <==> rejection(signature@.inputs) is None,
            r matches Ok(method) ==> method@ == descriptor(
                signature@,
                args_struct_prefix@,
                method@.method_name_literal,
            ),
            r matches Err(e) ==> rejection(signature@.inputs) == Some(e),
    {
        let method_name_literal = string_literal(signature.ident.as_str());
        RpcMethod::with_literal(signature, args_struct_prefix, method_name_literal)
    }

    /// Describes the method that `signature` declares, with `method_name_literal`
    /// as the literal of its name. Fails when an argument is bound by a pattern,
    /// and otherwise when the declaration has no receiver.
    pub fn with_literal(
        signature: &Signature,
        args_struct_prefix: &str,
        method_name_literal: String,
    ) -> (r: Result<RpcMethod, DescriptorError>)
        ensures
            r is Ok <==> rejection(signature@.inputs) is None,
            r matches Ok(method) ==> method@ == descriptor(
                signature@,
                args_struct_prefix@,
                method_name_literal@,
            ),
            r matches Err(e) ==> rejection(signature@.inputs) == Some(e),
    {
        let return_ty = match &signature.output {
            ReturnType::Default => {
                proof {
                    reveal_strlit("()");
                }
                let unit = String::from_str("()");
                assert(unit@ =~= unit_type());
                unit
            },
            ReturnType::Type(ty) => ty.clone(),
        };
        let ghost inputs = signature@.inputs;
        let mut has_self = false;
        let mut args: Vec<Param> = Vec::new();
        let mut i: usize = 0;
        while i < signature.inputs.len()
            invariant
                i <= signature.inputs.len(),
                inputs == signature.inputs.deep_view(),
                has_self == has_receiver(inputs.take(i as int)),
                !has_pattern(inputs.take(i as int)),
                args.deep_view() == typed_args(inputs.take(i as int)),
            decreases signature.inputs.len() - i,
        {
            let ghost seen = inputs.take(i as int);
            let ghost next = inputs.take(i + 1);
            assert(next.drop_last() =~= seen);
            match &signature.inputs[i] {
                FnArg::Receiver => {
                    has_self = true;
                    assert(next[i as int] is Receiver);
                },
                FnArg::Typed { pat, ty } => {
                    match pat {
                        Pat::Ident(ident) => {
                            args.push(Param { ident: ident.clone(), ty: ty.clone() });
                        },
                        Pat::Other => {
                            return Err(DescriptorError::PatternArgument);
                        },
                    }
                },
            }
            assert(has_self == has_receiver(next)) by {
                if has_receiver(seen) {
                    let k = choose|k: int| 0 <= k < seen.len() && #[trigger] seen[k] is Receiver;
                    assert(next[k] is Receiver);
                }
                if has_receiver(next) {
                    let k = choose|k: int| 0 <= k < next.len() && #[trigger] next[k] is Receiver;
                    if k < i {
                        assert(seen[k] is Receiver);
                    }
                }
            }
            assert(!has_pattern(next)) by {
                if has_pattern(next) {
                    let k = choose|k: int| 0 <= k < next.len() && is_pattern(#[trigger] next[k]);
                    if k < i {
                        assert(is_pattern(seen[k]));
                    }
                }
            }
            i += 1;
        }
        assert(inputs.take(i as int) =~= inputs);
        if !has_self {
            return Err(DescriptorError::NoReceiver);
        }
        let mut args_struct_ident = String::from_str(args_struct_prefix);
        proof {
            reveal_strlit("_");
        }
        args_struct_ident.append("_");
        args_struct_ident.append(signature.ident.as_str());
        assert(args_struct_ident@ =~= args_struct_prefix@ + separator() + signature.ident@);
        Ok(
            RpcMethod {
                name: signature.ident.clone(),
                return_ty,
                args,
                method_name_literal,
                args_struct_ident,
            },
        )
    }

    /// The shape of the record that carries the arguments of the method.
    pub fn generate_args_struct(&self) -> (r: ArgsStruct)
        ensures
            r@ == args_struct_of(self@),
    {
        ArgsStruct { ident: self.args_struct_ident.clone(), fields: clone_params(&self.args) }
    }

    /// The arm of the dispatch table that serves the method.
    pub fn generate_dispatcher_match_arm(&self) -> (r: MatchArm)
        ensures
            r@ == match_arm_of(self@),
    {
        let method_args = param_idents(&self.args);
        assert(method_args.len() == method_args.deep_view().len());
        let handler = if method_args.len() == 0 {
            Handler::WithoutArgs
        } else {
            Handler::WithArgs { args_struct_ident: self.args_struct_ident.clone(), method_args }
        };
        MatchArm {
            method_name_literal: self.method_name_literal.clone(),
            method_ident: self.name.clone(),
            return_ty: self.return_ty.clone(),
            handler,
        }
    }

    /// The stub through which a client calls the method.
    pub fn generate_proxy_method(&self) -> (r: ProxyMethod)
        ensures
            r@ == proxy_method_of(self@),
    {
        let args = if self.args.len() == 0 {
            ProxyArgs::Unit
        } else {
            ProxyArgs::Struct {
                args_struct_ident: self.args_struct_ident.clone(),
                struct_fields: param_idents(&self.args),
            }
        };
        ProxyMethod {
            method_ident: self.name.clone(),
            method_name_literal: self.method_name_literal.clone(),
            method_args: clone_params(&self.args),
            return_ty: self.return_ty.clone(),
            args,
        }
    }
    /// The name of the method: the name it is declared under and called by.
    pub fn name(&self) -> (r: &String)
        ensures
            r@ == self@.name,
    {
        &self.name
    }

    /// The return type of the method, as text.
    pub fn return_ty(&self) -> (r: &String)
        ensures
            r@ == self@.return_ty,
    {
        &self.return_ty
    }

    /// The parameters of the method, in declared order.
    pub fn args(&self) -> (r: &Vec<Param>)
        ensures
            r.deep_view() == self@.args,
    {
        &self.args
    }

    /// The string literal that denotes the name of the method in source code.
    pub fn method_name_literal(&self) -> (r: &String)
        ensures
            r@ == self@.method_name_literal,
    {
        &self.method_name_literal
    }

    /// The name of the record that carries the arguments of the method.
    pub fn args_struct_ident(&self) -> (r: &String)
        ensures
            r@ == self@.args_struct_ident,
    {
        &self.args_struct_ident
    }
}

} // verus!
