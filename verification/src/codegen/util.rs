//! Identifiers that the plans of every backend share.

use vstd::prelude::*;
use proc_macro2::{Ident, Span};

verus! {

#[verifier::external_type_specification]
#[verifier::external_body]
pub struct ExIdent(proc_macro2::Ident);

/// The text of an identifier, as `to_string` gives it.
pub uninterp spec fn ident_text(ident: Ident) -> Seq<char>;

/// An ASCII letter.
pub open spec fn is_letter(c: char) -> bool {
    ('a' <= c && c <= 'z') || ('A' <= c && c <= 'Z')
}

/// An ASCII digit.
pub open spec fn is_digit(c: char) -> bool {
    '0' <= c && c <= '9'
}

/// Whether `name` is an identifier written in ASCII: a letter or an
/// underscore, then letters, digits and underscores.
pub open spec fn is_ascii_identifier(name: Seq<char>) -> bool {
    &&& name.len() > 0
    &&& is_letter(name[0]) || name[0] == '_'
    &&& forall|i: int|
        0 < i < name.len() ==> is_letter(#[trigger] name[i]) || is_digit(name[i]) || name[i]
            == '_'
}

/// `proc_macro2::Ident::new`, with the span of the call site.
///
/// `Ident::new` panics unless the string is an identifier or a keyword; an
/// identifier written in ASCII is one. The identifier that it returns is not
/// raw, so that its text is the string it was made from.
#[verifier::external_body]
fn new_ident(name: &str) -> (ident: Ident)
    requires
        is_ascii_identifier(name@),
    ensures
        ident_text(ident) == name@,
{
    Ident::new(name, Span::call_site())
}

/// The path of the interrupt enumeration of a device crate: the path of the
/// crate, then the identifier of the enumeration.
#[derive(Debug)]
pub struct InterruptMod {
    pub device: String,
    pub ident: Ident,
}

/// The identifier of the interrupt enumeration of a device crate.
pub fn interrupt_enum_ident() -> (ident: Ident)
    ensures
        ident_text(ident) == "Interrupt"@,
{
    proof {
        reveal_strlit("Interrupt");
    }
    new_ident("Interrupt")
}

/// The identifier through which generated code reaches the interrupt
/// enumeration of the device crate. Its name is the hint that the build
/// prints when the device crate lacks the enumeration.
pub fn rt_err_ident() -> (ident: Ident)
    ensures
        ident_text(ident) == "you_must_enable_the_rt_feature_for_the_pac_in_your_cargo_toml"@,
{
    proof {
        reveal_strlit("you_must_enable_the_rt_feature_for_the_pac_in_your_cargo_toml");
    }
    new_ident("you_must_enable_the_rt_feature_for_the_pac_in_your_cargo_toml")
}

} // verus!
