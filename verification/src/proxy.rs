//! The client's side of a method: a stub that turns the arguments of a call into
//! the name and the parameters that are sent.

use vstd::prelude::*;
use crate::params::{encode_fields, encode_record, Param, ParamView, Payload, PayloadView};

verus! {

/// What the stub of a method sends as parameters.
#[derive(Clone, Debug, PartialEq, Eq)]
pub enum ProxyArgs {
    /// Nothing: the method takes no arguments.
    Unit,
    /// The record named `args_struct_ident`, with the arguments of the call under
    /// the names `struct_fields`, position by position.
    Struct { args_struct_ident: String, struct_fields: Vec<String> },
}

/// The mathematical value of a [`ProxyArgs`].
pub enum ProxyArgsView {
    Unit,
    Struct { args_struct_ident: Seq<char>, struct_fields: Seq<Seq<char>> },
}

impl View for ProxyArgs {
    type V = ProxyArgsView;

    open spec fn view(&self) -> ProxyArgsView {
        match self {
            ProxyArgs::Unit => ProxyArgsView::Unit,
            ProxyArgs::Struct { args_struct_ident, struct_fields } => ProxyArgsView::Struct {
                args_struct_ident: args_struct_ident@,
                struct_fields: struct_fields.deep_view(),
            },
        }
    }
}

/// The stub of one method: the identifier of the method, which is the name it is
/// called by remotely, the literal that denotes that name in source code, the
/// parameters and the return type that the stub offers to its caller, and what it
/// sends.
#[derive(Clone, Debug, PartialEq, Eq)]
pub struct ProxyMethod {
    pub method_ident: String,
    pub method_name_literal: String,
    pub method_args: Vec<Param>,
    pub return_ty: String,
    pub args: ProxyArgs,
}

/// The mathematical value of a [`ProxyMethod`].
pub struct ProxyMethodView {
    pub method_ident: Seq<char>,
    pub method_name_literal: Seq<char>,
    pub method_args: Seq<ParamView>,
    pub return_ty: Seq<char>,
    pub args: ProxyArgsView,
}

impl View for ProxyMethod {
    type V = ProxyMethodView;

    open spec fn view(&self) -> ProxyMethodView {
        ProxyMethodView {
            method_ident: self.method_ident@,
            method_name_literal: self.method_name_literal@,
            method_args: self.method_args.deep_view(),
            return_ty: self.return_ty@,
            args: self.args@,
        }
    }
}

/// One remote call, as it is handed to the transport: the name of the method and
/// the parameters, absent where the method takes none.
#[derive(Clone, Debug, PartialEq, Eq)]
pub struct Call {
    pub method: String,
    pub params: Option<Payload>,
}

/// The mathematical value of a [`Call`].
pub struct CallView {
    pub method: Seq<char>,
    pub params: Option<PayloadView>,
}

impl View for Call {
    type V = CallView;

    open spec fn view(&self) -> CallView {
        CallView {
            method: self.method@,
            params: match self.params {
                Some(payload) => Some(payload@),
                None => None,
            },
        }
    }
}

/// How many arguments a call through the stub takes.
pub open spec fn arity(args: ProxyArgsView) -> nat {
    match args {
        ProxyArgsView::Unit => 0,
        ProxyArgsView::Struct { struct_fields, .. } => struct_fields.len(),
    }
}

/// The call that the stub makes with these encoded arguments, if they are as many
/// as the stub takes. A stub without arguments sends no parameters; any other sends
/// the record of its arguments, in declared order.
pub open spec fn proxy_call(proxy: ProxyMethodView, values: Seq<Seq<char>>) -> Option<CallView> {
    if values.len() != arity(proxy.args) {
        None
    } else {
        Some(
            CallView {
                method: proxy.method_ident,
                params: match proxy.args {
                    ProxyArgsView::Unit => None,
                    ProxyArgsView::Struct { struct_fields, .. } => Some(
                        PayloadView::Record(encode_fields(struct_fields, values)),
                    ),
                },
            },
        )
    }
}

impl ProxyMethod {
    /// Encodes one call of the method: `values[i]` is the encoded value of argument
    /// `i`. There is no call unless there is one value for each argument.
    pub fn encode_call(&self, values: &Vec<String>) -> (r: Option<Call>)
        ensures
            r is Some <==> proxy_call(self@, values.deep_view()) is Some,
            r matches Some(call) ==> proxy_call(self@, values.deep_view()) == Some(call@),
    {
        match &self.args {
            ProxyArgs::Unit => {
                if values.len() == 0 {
                    Some(Call { method: self.method_ident.clone(), params: None })
                } else {
                    None
                }
            },
            ProxyArgs::Struct { args_struct_ident: _, struct_fields } => {
                match encode_record(struct_fields, values) {
                    Some(entries) => Some(
                        Call {
                            method: self.method_ident.clone(),
                            params: Some(Payload::Record(entries)),
                        },
                    ),
                    None => None,
                }
            },
        }
    }
}

} // verus!
