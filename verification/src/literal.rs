//! Source text of literals, as the token library writes it.

use vstd::prelude::*;

verus! {

/// The string literal that denotes `value` in source code, as text: what
/// `proc_macro2::Literal::string` builds, written out by its `Display`. The call
/// is made as it stands and nothing is claimed of the text that comes back: how
/// the literal is written is the token library's business, and depends on whether
/// the process runs inside a compiler's macro expansion.
#[verifier::external_body]
pub(crate) fn string_literal(value: &str) -> (text: String) {
    proc_macro2::Literal::string(value).to_string()
}

} // verus!
