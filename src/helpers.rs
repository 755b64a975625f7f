use vstd::prelude::*;
use vstd::string::*;

use crate::decl::{variant_count, variant_count_spec, variant_names, variant_names_spec};
use crate::decl::{Declaration, GenError};
use crate::render::{decimal, path_list, push_decimal, push_path_list};

verus! {

/// The `iter_fields` helper of type `ty` with variants `vs`: a fresh vector
/// of every variant, in declaration order, turned into an iterator.
pub open spec fn iter_fields_text(ty: Seq<char>, vs: Seq<Seq<char>>) -> Seq<char> {
    "impl "@ + ty + " {\n    pub fn iter_fields() -> impl Iterator<Item = "@ + ty
        + "> {\n        vec!["@ + path_list(ty, vs) + "].into_iter()\n    }\n}\n"@
}

/// The `len` helper of type `ty` with `n` variants: the count as a literal.
pub open spec fn len_fields_text(ty: Seq<char>, n: nat) -> Seq<char> {
    "impl "@ + ty + " {\n    pub fn len() -> usize {\n        "@ + decimal(n)
        + "\n    }\n}\n"@
}

/// The `to_hashmap` helper of type `ty`: one entry per variant that
/// `iter_fields` yields, each holding its own clone of the seed.
pub open spec fn hash_fields_text(ty: Seq<char>) -> Seq<char> {
    "impl "@ + ty
        + " {\n    pub fn to_hashmap<T: Clone>(value: T) -> ::std::collections::HashMap<Self, T> {\n        ::std::collections::HashMap::from_iter(Self::iter_fields().map(|field| (field, value.clone())))\n    }\n}\n"@
}

/// What a generator produces for `d` from the text `text` of its variant
/// names: the helper's source, or why `d` has no such helper.
pub open spec fn generated<T>(r: Result<T, GenError>, text: spec_fn(T) -> Seq<char>) -> Result<
    Seq<char>,
    GenError,
> {
    match r {
        Ok(x) => Ok(text(x)),
        Err(e) => Err(e),
    }
}

/// The source of `iter_fields` for `d`.
pub open spec fn iter_fields_spec(d: Declaration) -> Result<Seq<char>, GenError> {
    generated(variant_names_spec(d), |vs: Seq<Seq<char>>| iter_fields_text(d.name@, vs))
}

/// The source of `len` for `d`.
pub open spec fn len_fields_spec(d: Declaration) -> Result<Seq<char>, GenError> {
    generated(variant_count_spec(d), |n: nat| len_fields_text(d.name@, n))
}

/// The source of `to_hashmap` for `d`.
pub open spec fn hash_fields_spec(d: Declaration) -> Result<Seq<char>, GenError> {
    generated(variant_names_spec(d), |vs: Seq<Seq<char>>| hash_fields_text(d.name@))
}

/// Whether `r` is the string or the error that `s` describes.
pub open spec fn source_matches(r: Result<String, GenError>, s: Result<Seq<char>, GenError>) -> bool {
    match (r, s) {
        (Ok(text), Ok(spec_text)) => text@ == spec_text,
        (Err(e), Err(spec_e)) => e == spec_e,
        _ => false,
    }
}

/// Source of an `iter_fields()` method for the enum `d`, which yields every
/// variant in declaration order.
pub fn derive_iter_fields(d: &Declaration) -> (r: Result<String, GenError>)
    ensures
        source_matches(r, iter_fields_spec(*d)),
{
    match variant_names(d) {
        Ok(names) => {
            let mut out = String::from_str("impl ");
            out.append(d.name.as_str());
            out.append(" {\n    pub fn iter_fields() -> impl Iterator<Item = ");
            out.append(d.name.as_str());
            out.append("> {\n        vec![");
            push_path_list(&mut out, &d.name, &names);
            out.append("].into_iter()\n    }\n}\n");
            Ok(out)
        },
        Err(e) => Err(e),
    }
}

/// Source of a `len()` method for the enum `d`, which returns its number of
/// variants.
pub fn derive_len_fields(d: &Declaration) -> (r: Result<String, GenError>)
    ensures
        source_matches(r, len_fields_spec(*d)),
{
    match variant_count(d) {
        Ok(n) => {
            let mut out = String::from_str("impl ");
            out.append(d.name.as_str());
            out.append(" {\n    pub fn len() -> usize {\n        ");
            push_decimal(&mut out, n);
            out.append("\n    }\n}\n");
            Ok(out)
        },
        Err(e) => Err(e),
    }
}

/// Source of a `to_hashmap(value)` method for the enum `d`, which maps every
/// variant to a clone of `value`; it calls the `iter_fields()` method.
pub fn derive_hash_fields(d: &Declaration) -> (r: Result<String, GenError>)
    ensures
        source_matches(r, hash_fields_spec(*d)),
{
    match variant_names(d) {
        Ok(_) => {
            let mut out = String::from_str("impl ");
            out.append(d.name.as_str());
            out.append(
                " {\n    pub fn to_hashmap<T: Clone>(value: T) -> ::std::collections::HashMap<Self, T> {\n        ::std::collections::HashMap::from_iter(Self::iter_fields().map(|field| (field, value.clone())))\n    }\n}\n",
            );
            Ok(out)
        },
        Err(e) => Err(e),
    }
}

} // verus!
