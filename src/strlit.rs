use vstd::prelude::*;

verus! {

/// The text that a quoted string literal stands for, escapes resolved;
/// `None` when the source text is no string literal.
pub uninterp spec fn string_literal_value(text: Seq<char>) -> Option<Seq<char>>;

/// Relies on syn's `LitStr` parser and `LitStr::value`, which read a quoted
/// Rust string literal and resolve its escapes; the result depends on the
/// text alone.
#[verifier::external_body]
pub(crate) fn decode_string_literal(text: &String) -> (r: Option<String>)
    ensures
        match r {
            Some(v) => string_literal_value(text@) == Some(v@),
            None => string_literal_value(text@) is None,
        },
{
    match syn::parse_str::<syn::LitStr>(text) {
        Ok(lit) => Some(lit.value()),
        Err(_) => None,
    }
}

} // verus!
