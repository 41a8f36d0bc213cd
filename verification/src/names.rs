//! Identifier generation: catalog names are normalized to the target
//! language's casing, type names to upper camel case and value names to
//! snake case. Names outside the default `public` schema are prefixed
//! with their normalized schema name.
use vstd::prelude::*;
use vstd::string::StringExecFns;

use heck::ToSnakeCase;
use heck::ToUpperCamelCase;

verus! {

/// The upper-camel-case rendering that `heck` produces for a catalog
/// name. The result depends on the characters of the input alone.
pub uninterp spec fn upper_camel_of(s: Seq<char>) -> Seq<char>;

/// The snake-case rendering that `heck` produces for a catalog name.
/// The result depends on the characters of the input alone.
pub uninterp spec fn snake_of(s: Seq<char>) -> Seq<char>;

/// Relies on `heck::ToUpperCamelCase::to_upper_camel_case`: a pure case
/// conversion of its input string.
#[verifier::external_body]
pub(crate) fn to_upper_camel(s: &String) -> (r: String)
    ensures
        r@ == upper_camel_of(s@),
{
    s.as_str().to_upper_camel_case()
}

/// Relies on `heck::ToSnakeCase::to_snake_case`: a pure case conversion
/// of its input string. On ASCII input its output is ASCII lowercase
/// words joined by single underscores with no leading or trailing
/// separator — a fixed point of the conversion, hence the second
/// clause. The clause is conditional because full Unicode lowercasing
/// can emit combining marks that a second conversion drops.
#[verifier::external_body]
pub(crate) fn to_snake(s: &String) -> (r: String)
    ensures
        r@ == snake_of(s@),
        vstd::utf8::is_ascii_chars(s@) ==> snake_of(r@) == r@,
{
    s.as_str().to_snake_case()
}

/// The default schema, whose members keep their bare name.
pub(crate) fn is_public(schema: &String) -> (b: bool)
    ensures
        b == (schema@ == "public"@),
{
    let p: String = String::from_str("public");
    *schema == p
}

pub open spec fn spec_type_name(schema: Seq<char>, name: Seq<char>) -> Seq<char> {
    if schema == "public"@ {
        upper_camel_of(name)
    } else {
        upper_camel_of(schema) + "_"@ + upper_camel_of(name)
    }
}

pub open spec fn spec_function_name(schema: Seq<char>, name: Seq<char>) -> Seq<char> {
    if schema == "public"@ {
        snake_of(name)
    } else {
        snake_of(schema) + "_"@ + snake_of(name)
    }
}

pub open spec fn spec_fld_name(name: Seq<char>) -> Seq<char> {
    snake_of(name)
}

pub open spec fn spec_arg_name(name: Seq<char>) -> Seq<char> {
    snake_of(name)
}

/// Generated identifier for a catalog type.
pub fn gen_type_name(schema: &String, name: &String) -> (r: String)
    ensures
        r@ == spec_type_name(schema@, name@),
{
    if is_public(schema) {
        to_upper_camel(name)
    } else {
        let mut s = to_upper_camel(schema);
        s.append("_");
        let n = to_upper_camel(name);
        s.append(n.as_str());
        s
    }
}

/// Generated identifier for a catalog function or procedure.
pub fn gen_function_name(schema: &String, name: &String) -> (r: String)
    ensures
        r@ == spec_function_name(schema@, name@),
{
    if is_public(schema) {
        to_snake(name)
    } else {
        let mut s = to_snake(schema);
        s.append("_");
        let n = to_snake(name);
        s.append(n.as_str());
        s
    }
}

/// Generated identifier for a record field. On ASCII names the
/// conversion is idempotent: a name already in target casing is
/// returned unchanged, the basis of the identifier round trip.
pub fn gen_fld_name(name: &String) -> (r: String)
    ensures
        r@ == spec_fld_name(name@),
        vstd::utf8::is_ascii_chars(name@) ==> spec_fld_name(r@) == r@,
{
    to_snake(name)
}

/// Generated identifier for a binding argument. On ASCII names the
/// conversion is idempotent, as for fields.
pub fn gen_arg_name(name: &String) -> (r: String)
    ensures
        r@ == spec_arg_name(name@),
        vstd::utf8::is_ascii_chars(name@) ==> spec_arg_name(r@) == r@,
{
    to_snake(name)
}

} // verus!
