//! The declaration of a service method, as plain data.
//!
//! A declaration names the method, lists its inputs in order and gives its
//! return type. Types are carried as their text and never interpreted.

use vstd::prelude::*;

verus! {

/// The binding of one argument in a declaration.
pub enum Pat {
    /// A simple named binding.
    Ident(String),
    /// Any other binding form, such as a destructuring pattern.
    Other,
}

/// The mathematical value of a [`Pat`].
pub enum PatView {
    Ident(Seq<char>),
    Other,
}

impl View for Pat {
    type V = PatView;

    open spec fn view(&self) -> PatView {
        match self {
            Pat::Ident(ident) => PatView::Ident(ident@),
            Pat::Other => PatView::Other,
        }
    }
}

impl DeepView for Pat {
    type V = PatView;

    open spec fn deep_view(&self) -> PatView {
        self@
    }
}

/// One input of a declaration.
pub enum FnArg {
    /// The service instance that the method is called on.
    Receiver,
    /// An argument, bound by `pat` and of the type written as `ty`.
    Typed { pat: Pat, ty: String },
}

/// The mathematical value of a [`FnArg`].
pub enum FnArgView {
    Receiver,
    Typed { pat: PatView, ty: Seq<char> },
}

impl View for FnArg {
    type V = FnArgView;

    open spec fn view(&self) -> FnArgView {
        match self {
            FnArg::Receiver => FnArgView::Receiver,
            FnArg::Typed { pat, ty } => FnArgView::Typed { pat: pat@, ty: ty@ },
        }
    }
}

impl DeepView for FnArg {
    type V = FnArgView;

    open spec fn deep_view(&self) -> FnArgView {
        self@
    }
}

/// The return type of a declaration.
pub enum ReturnType {
    /// None is written: the method returns the unit type.
    Default,
    /// The type that is written.
    Type(String),
}

/// The mathematical value of a [`ReturnType`].
pub enum ReturnTypeView {
    Default,
    Type(Seq<char>),
}

impl View for ReturnType {
    type V = ReturnTypeView;

    open spec fn view(&self) -> ReturnTypeView {
        match self {
            ReturnType::Default => ReturnTypeView::Default,
            ReturnType::Type(ty) => ReturnTypeView::Type(ty@),
        }
    }
}

/// The declaration of one method: its name, its inputs in order, its return type.
pub struct Signature {
    pub ident: String,
    pub inputs: Vec<FnArg>,
    pub output: ReturnType,
}

/// The mathematical value of a [`Signature`].
pub struct SignatureView {
    pub ident: Seq<char>,
    pub inputs: Seq<FnArgView>,
    pub output: ReturnTypeView,
}

impl View for Signature {
    type V = SignatureView;

    open spec fn view(&self) -> SignatureView {
        SignatureView {
            ident: self.ident@,
            inputs: self.inputs.deep_view(),
            output: self.output@,
        }
    }
}

/// Whether one of the inputs is the receiver.
pub open spec fn has_receiver(inputs: Seq<FnArgView>) -> bool {
    exists|i: int| 0 <= i < inputs.len() && #[trigger] inputs[i] is Receiver
}

/// Whether the input is an argument that is not bound by a simple name.
pub open spec fn is_pattern(arg: FnArgView) -> bool {
    arg matches FnArgView::Typed { pat, .. } && pat is Other
}

/// Whether one of the inputs is an argument that is not bound by a simple name.
pub open spec fn has_pattern(inputs: Seq<FnArgView>) -> bool {
    exists|i: int| 0 <= i < inputs.len() && is_pattern(#[trigger] inputs[i])
}

} // verus!
