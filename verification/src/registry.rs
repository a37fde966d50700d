//! The fixed registry of supported language codes.

use vstd::prelude::*;

use crate::errors::Error;
use crate::errors::ErrorView;
use crate::strutil::str_eq;
use crate::strutil::views_of;

verus! {

/// The fixed, alphabetically ordered registry of supported language codes.
pub open spec fn spec_language_codes() -> Seq<Seq<char>> {
    seq![
        "de"@, "en"@, "es"@, "et"@, "fi"@, "fr"@, "he"@, "id"@, "it"@, "ja"@, "nl"@, "no"@,
        "pl"@, "pt"@, "ro"@, "ru"@, "sv"@,
    ]
}

/// Whether `c` is one of the supported language codes.
pub open spec fn is_language_code(c: Seq<char>) -> bool {
    spec_language_codes().contains(c)
}

/// Every code in `codes` is supported.
pub open spec fn all_supported(codes: Seq<Seq<char>>) -> bool {
    forall|i: int| 0 <= i < codes.len() ==> is_language_code(#[trigger] codes[i])
}

/// The registry as owned strings, in its fixed alphabetical order.
pub fn language_codes() -> (v: Vec<String>)
    ensures
        views_of(v@) == spec_language_codes(),
{
    let mut v: Vec<String> = Vec::new();
    v.push(String::from_str("de"));
    v.push(String::from_str("en"));
    v.push(String::from_str("es"));
    v.push(String::from_str("et"));
    v.push(String::from_str("fi"));
    v.push(String::from_str("fr"));
    v.push(String::from_str("he"));
    v.push(String::from_str("id"));
    v.push(String::from_str("it"));
    v.push(String::from_str("ja"));
    v.push(String::from_str("nl"));
    v.push(String::from_str("no"));
    v.push(String::from_str("pl"));
    v.push(String::from_str("pt"));
    v.push(String::from_str("ro"));
    v.push(String::from_str("ru"));
    v.push(String::from_str("sv"));
    proof {
        assert(views_of(v@) =~= spec_language_codes());
    }
    v
}

/// Whether the given code stands in the fixed registry.
pub fn is_supported(code: &str) -> (r: bool)
    ensures
        r == is_language_code(code@),
{
    let found = str_eq(code, "de") || str_eq(code, "en") || str_eq(code, "es") || str_eq(
        code,
        "et",
    ) || str_eq(code, "fi") || str_eq(code, "fr") || str_eq(code, "he") || str_eq(code, "id")
        || str_eq(code, "it") || str_eq(code, "ja") || str_eq(code, "nl") || str_eq(code, "no")
        || str_eq(code, "pl") || str_eq(code, "pt") || str_eq(code, "ro") || str_eq(code, "ru")
        || str_eq(code, "sv");
    proof {
        if found {
            assert(is_language_code(code@));
        } else {
            assert forall|i: int| 0 <= i < spec_language_codes().len() implies spec_language_codes()[i]
                != code@ by {
            }
            assert(!is_language_code(code@));
        }
    }
    found
}

/// The position of the first unsupported code in `codes`, if any.
pub open spec fn first_unsupported(codes: Seq<Seq<char>>) -> int
    decreases codes.len(),
{
    if codes.len() == 0 {
        0
    } else if !is_language_code(codes[0]) {
        0
    } else {
        1 + first_unsupported(codes.drop_first())
    }
}

/// Checks every code against the registry. An empty input is valid and
/// means "all supported codes"; otherwise the first unsupported code is
/// reported, in input order.
pub fn validate(codes: &Vec<String>) -> (r: Result<(), Error>)
    ensures
        r is Ok <==> all_supported(views_of(codes@)),
        r matches Err(e) ==> {
            let j = first_unsupported(views_of(codes@));
            &&& 0 <= j < codes@.len()
            &&& !is_language_code(codes@[j]@)
            &&& forall|k: int| 0 <= k < j ==> is_language_code(#[trigger] codes@[k]@)
            &&& e@ == ErrorView::LanguageCodeNotSupported(codes@[j]@)
        },
{
    let ghost cs = views_of(codes@);
    let mut i: usize = 0;
    while i < codes.len()
        invariant
            cs == views_of(codes@),
            i <= codes@.len(),
            forall|k: int| 0 <= k < i ==> is_language_code(#[trigger] codes@[k]@),
        decreases codes@.len() - i,
    {
        if !is_supported(codes[i].as_str()) {
            proof {
                lemma_first_unsupported(cs, i as int);
            }
            return Err(Error::LanguageCodeNotSupported(codes[i].clone()));
        }
        i = i + 1;
    }
    Ok(())
}

/// When every code before `j` is supported and the code at `j` is not,
/// `j` is the first unsupported position.
proof fn lemma_first_unsupported(codes: Seq<Seq<char>>, j: int)
    requires
        0 <= j < codes.len(),
        !is_language_code(codes[j]),
        forall|k: int| 0 <= k < j ==> is_language_code(#[trigger] codes[k]),
    ensures
        first_unsupported(codes) == j,
    decreases j,
{
    if j == 0 {
    } else {
        lemma_first_unsupported(codes.drop_first(), j - 1);
    }
}

} // verus!
