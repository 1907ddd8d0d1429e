//! Case-folding of identifiers and wire tags. The foldings are performed by
//! the `heck` crate and by the standard library; each is named here by an
//! uninterpreted function of the input characters, since all of them depend
//! on the characters of the input alone.

use vstd::prelude::*;

verus! {

/// The snake_case folding of a string, as `heck` computes it.
pub uninterp spec fn snake_of(s: Seq<char>) -> Seq<char>;

/// The PascalCase folding of a string, as `heck` computes it.
pub uninterp spec fn pascal_of(s: Seq<char>) -> Seq<char>;

/// The lowerCamelCase folding of a string, as `heck` computes it.
pub uninterp spec fn lower_camel_of(s: Seq<char>) -> Seq<char>;

/// The SCREAMING_SNAKE_CASE folding of a string, as `heck` computes it.
pub uninterp spec fn shouty_snake_of(s: Seq<char>) -> Seq<char>;

/// The kebab-case folding of a string, as `heck` computes it.
pub uninterp spec fn kebab_of(s: Seq<char>) -> Seq<char>;

/// The SCREAMING-KEBAB-CASE folding of a string, as `heck` computes it.
pub uninterp spec fn shouty_kebab_of(s: Seq<char>) -> Seq<char>;

/// The Unicode lowercasing of a string, as `str::to_lowercase` computes it.
pub uninterp spec fn lower_of(s: Seq<char>) -> Seq<char>;

/// The Unicode uppercasing of a string, as `str::to_uppercase` computes it.
pub uninterp spec fn upper_of(s: Seq<char>) -> Seq<char>;

/// Relies on heck::ToSnakeCase::to_snake_case: the result depends on the
/// characters of the input alone.
#[verifier::external_body]
pub(crate) fn to_snake_case(s: &String) -> (r: String)
    ensures
        r@ == snake_of(s@),
{
    heck::ToSnakeCase::to_snake_case(s.as_str())
}

/// Relies on heck::ToPascalCase::to_pascal_case: the result depends on the
/// characters of the input alone.
#[verifier::external_body]
pub(crate) fn to_pascal_case(s: &String) -> (r: String)
    ensures
        r@ == pascal_of(s@),
{
    heck::ToPascalCase::to_pascal_case(s.as_str())
}

/// Relies on heck::ToLowerCamelCase::to_lower_camel_case: the result depends
/// on the characters of the input alone.
#[verifier::external_body]
pub(crate) fn to_lower_camel_case(s: &String) -> (r: String)
    ensures
        r@ == lower_camel_of(s@),
{
    heck::ToLowerCamelCase::to_lower_camel_case(s.as_str())
}

/// Relies on heck::ToShoutySnakeCase::to_shouty_snake_case: the result
/// depends on the characters of the input alone.
#[verifier::external_body]
pub(crate) fn to_shouty_snake_case(s: &String) -> (r: String)
    ensures
        r@ == shouty_snake_of(s@),
{
    heck::ToShoutySnakeCase::to_shouty_snake_case(s.as_str())
}

/// Relies on heck::ToKebabCase::to_kebab_case: the result depends on the
/// characters of the input alone.
#[verifier::external_body]
pub(crate) fn to_kebab_case(s: &String) -> (r: String)
    ensures
        r@ == kebab_of(s@),
{
    heck::ToKebabCase::to_kebab_case(s.as_str())
}

/// Relies on heck::ToShoutyKebabCase::to_shouty_kebab_case: the result
/// depends on the characters of the input alone.
#[verifier::external_body]
pub(crate) fn to_shouty_kebab_case(s: &String) -> (r: String)
    ensures
        r@ == shouty_kebab_of(s@),
{
    heck::ToShoutyKebabCase::to_shouty_kebab_case(s.as_str())
}

/// Relies on str::to_lowercase: the result depends on the characters of the
/// input alone.
#[verifier::external_body]
pub(crate) fn to_lowercase(s: &String) -> (r: String)
    ensures
        r@ == lower_of(s@),
{
    s.as_str().to_lowercase()
}

/// Relies on str::to_uppercase: the result depends on the characters of the
/// input alone.
#[verifier::external_body]
pub(crate) fn to_uppercase(s: &String) -> (r: String)
    ensures
        r@ == upper_of(s@),
{
    s.as_str().to_uppercase()
}

} // verus!
