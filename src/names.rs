//! How the generator names what it emits.
use vstd::prelude::*;

verus! {

/// What heck's snake-case conversion makes of an identifier.
pub uninterp spec fn snake_case_of(s: Seq<char>) -> Seq<char>;

/// Relies on heck's `ToSnakeCase::to_snake_case` for `str`: the result
/// depends on the characters of the input alone.
#[verifier::external_body]
fn to_snake_case(s: &String) -> (r: String)
    ensures
        r@ == snake_case_of(s@),
{
    heck::ToSnakeCase::to_snake_case(s.as_str())
}

/// The super-interface names that are host capabilities (thread safety,
/// a fixed size) rather than interfaces with a table of their own.
pub open spec fn is_marker_name(s: Seq<char>) -> bool {
    s == "Send"@ || s == "Sync"@ || s == "Sized"@
}

pub open spec fn method_ident_of(s: Seq<char>) -> Seq<char> {
    s + "METHOD"@
}

pub open spec fn vtable_ident_of(s: Seq<char>) -> Seq<char> {
    s + "VTable"@
}

pub open spec fn field_ident_of(s: Seq<char>) -> Seq<char> {
    "field_"@ + snake_case_of(s)
}

/// Whether a super-interface name is one of the host's marker capabilities.
pub fn is_marker(ident: &String) -> (r: bool)
    ensures
        r == is_marker_name(ident@),
{
    let send = String::from_str("Send");
    let sync = String::from_str("Sync");
    let sized = String::from_str("Sized");
    *ident == send || *ident == sync || *ident == sized
}

/// The name under which a generic parameter appears inside a trampoline.
pub fn map_method_ident(ident: &String) -> (r: String)
    ensures
        r@ == method_ident_of(ident@),
{
    ident.clone().concat("METHOD")
}

/// The name of the table type generated for an interface.
pub fn map_vtable_ident(ident: &String) -> (r: String)
    ensures
        r@ == vtable_ident_of(ident@),
{
    ident.clone().concat("VTable")
}

/// The name of the table field that refers to a super-interface's table.
pub fn map_field_ident(ident: &String) -> (r: String)
    ensures
        r@ == field_ident_of(ident@),
{
    let snake = to_snake_case(ident);
    field_ident_from_snake(&snake)
}

/// The field name for a super-interface whose snake-case name is given.
pub fn field_ident_from_snake(snake: &String) -> (r: String)
    ensures
        r@ == "field_"@ + snake@,
{
    String::from_str("field_").concat(snake.as_str())
}

} // verus!
