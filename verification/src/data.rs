//! The token source provider: raw serialized token records, keyed by
//! language code.
//!
//! The raw data is compiled-in text; the provider is the pure function
//! from a supported language code to that text.

use vstd::prelude::*;

use crate::errors::Error;
use crate::errors::ErrorView;
use crate::registry::is_language_code;
use crate::strutil::str_eq;

verus! {

/// The raw token records of each supported language, as the text that
/// `import` hands out; the empty sequence for unsupported codes.
pub open spec fn spec_token_data(lc: Seq<char>) -> Seq<char> {
    if lc == "de"@ {
        "[{\"tokens\":[\"Strasse\",\"Str\"],\"full\":\"Str\",\"canonical\":\"Strasse\",\"onlyLayers\":[\"address\"]},{\"tokens\":[\"Platz\",\"Pl\"],\"full\":\"Pl\",\"canonical\":\"Platz\"}]"@
    } else if lc == "en"@ {
        "[{\"tokens\":[\"Street\",\"St\"],\"full\":\"St\",\"canonical\":\"Street\",\"onlyLayers\":[\"address\"]},{\"tokens\":[\"Avenue\",\"Ave\"],\"full\":\"Ave\",\"canonical\":\"Avenue\"},{\"tokens\":[\"Post Office Box\",\"PO Box\"],\"full\":\"PO Box\",\"canonical\":\"PO Box\",\"type\":\"box\"},{\"tokens\":[\"North\",\"N\"],\"full\":\"N\",\"canonical\":\"North\",\"type\":\"cardinal\"}]"@
    } else if lc == "es"@ {
        "[{\"tokens\":[\"Calle\",\"C\"],\"full\":\"C\",\"canonical\":\"Calle\",\"onlyLayers\":[\"address\"]}]"@
    } else if lc == "et"@ {
        "[{\"tokens\":[\"Puiestee\",\"Pst\"],\"full\":\"Pst\",\"canonical\":\"Puiestee\"}]"@
    } else if lc == "fi"@ {
        "[{\"tokens\":[\"Katu\",\"K\"],\"full\":\"K\",\"canonical\":\"Katu\"}]"@
    } else if lc == "fr"@ {
        "[{\"tokens\":[\"Avenue\",\"Av\"],\"full\":\"Av\",\"canonical\":\"Avenue\",\"onlyLayers\":[\"address\"]},{\"tokens\":[\"Boulevard\",\"Bd\"],\"full\":\"Bd\",\"canonical\":\"Boulevard\"}]"@
    } else if lc == "he"@ {
        "[{\"tokens\":[\"Rechov\",\"Rch\"],\"full\":\"Rch\",\"canonical\":\"Rechov\"}]"@
    } else if lc == "id"@ {
        "[{\"tokens\":[\"Jalan\",\"Jl\"],\"full\":\"Jl\",\"canonical\":\"Jalan\"}]"@
    } else if lc == "it"@ {
        "[{\"tokens\":[\"Via\",\"V\"],\"full\":\"V\",\"canonical\":\"Via\",\"onlyLayers\":[\"address\"]}]"@
    } else if lc == "ja"@ {
        "[{\"tokens\":[\"Dori\",\"Dr\"],\"full\":\"Dr\",\"canonical\":\"Dori\"}]"@
    } else if lc == "nl"@ {
        "[{\"tokens\":[\"Straat\",\"Str\"],\"full\":\"Str\",\"canonical\":\"Straat\"}]"@
    } else if lc == "no"@ {
        "[{\"tokens\":[\"Gate\",\"Gt\"],\"full\":\"Gt\",\"canonical\":\"Gate\"}]"@
    } else if lc == "pl"@ {
        "[{\"tokens\":[\"Ulica\",\"Ul\"],\"full\":\"Ul\",\"canonical\":\"Ulica\"}]"@
    } else if lc == "pt"@ {
        "[{\"tokens\":[\"Rua\",\"R\"],\"full\":\"R\",\"canonical\":\"Rua\"}]"@
    } else if lc == "ro"@ {
        "[{\"tokens\":[\"Strada\",\"Str\"],\"full\":\"Str\",\"canonical\":\"Strada\"}]"@
    } else if lc == "ru"@ {
        "[{\"tokens\":[\"Ulitsa\",\"Ul\"],\"full\":\"Ul\",\"canonical\":\"Ulitsa\"}]"@
    } else if lc == "sv"@ {
        "[{\"tokens\":[\"Gatan\",\"G\"],\"full\":\"G\",\"canonical\":\"Gatan\"}]"@
    } else {
        Seq::empty()
    }
}

/// Resolves a language code to its raw serialized token records, failing
/// for any code outside the fixed registry.
pub fn import(lc: &str) -> (r: Result<&'static str, Error>)
    ensures
        r is Ok <==> is_language_code(lc@),
        r matches Ok(d) ==> d@ == spec_token_data(lc@),
        r matches Err(e) ==> e@ == ErrorView::TokenFileImportNotSupported(lc@),
{
    if str_eq(lc, "de") {
        Ok(
            "[{\"tokens\":[\"Strasse\",\"Str\"],\"full\":\"Str\",\"canonical\":\"Strasse\",\"onlyLayers\":[\"address\"]},{\"tokens\":[\"Platz\",\"Pl\"],\"full\":\"Pl\",\"canonical\":\"Platz\"}]",
        )
    } else if str_eq(lc, "en") {
        Ok(
            "[{\"tokens\":[\"Street\",\"St\"],\"full\":\"St\",\"canonical\":\"Street\",\"onlyLayers\":[\"address\"]},{\"tokens\":[\"Avenue\",\"Ave\"],\"full\":\"Ave\",\"canonical\":\"Avenue\"},{\"tokens\":[\"Post Office Box\",\"PO Box\"],\"full\":\"PO Box\",\"canonical\":\"PO Box\",\"type\":\"box\"},{\"tokens\":[\"North\",\"N\"],\"full\":\"N\",\"canonical\":\"North\",\"type\":\"cardinal\"}]",
        )
    } else if str_eq(lc, "es") {
        Ok(
            "[{\"tokens\":[\"Calle\",\"C\"],\"full\":\"C\",\"canonical\":\"Calle\",\"onlyLayers\":[\"address\"]}]",
        )
    } else if str_eq(lc, "et") {
        Ok("[{\"tokens\":[\"Puiestee\",\"Pst\"],\"full\":\"Pst\",\"canonical\":\"Puiestee\"}]")
    } else if str_eq(lc, "fi") {
        Ok("[{\"tokens\":[\"Katu\",\"K\"],\"full\":\"K\",\"canonical\":\"Katu\"}]")
    } else if str_eq(lc, "fr") {
        Ok(
            "[{\"tokens\":[\"Avenue\",\"Av\"],\"full\":\"Av\",\"canonical\":\"Avenue\",\"onlyLayers\":[\"address\"]},{\"tokens\":[\"Boulevard\",\"Bd\"],\"full\":\"Bd\",\"canonical\":\"Boulevard\"}]",
        )
    } else if str_eq(lc, "he") {
        Ok("[{\"tokens\":[\"Rechov\",\"Rch\"],\"full\":\"Rch\",\"canonical\":\"Rechov\"}]")
    } else if str_eq(lc, "id") {
        Ok("[{\"tokens\":[\"Jalan\",\"Jl\"],\"full\":\"Jl\",\"canonical\":\"Jalan\"}]")
    } else if str_eq(lc, "it") {
        Ok(
            "[{\"tokens\":[\"Via\",\"V\"],\"full\":\"V\",\"canonical\":\"Via\",\"onlyLayers\":[\"address\"]}]",
        )
    } else if str_eq(lc, "ja") {
        Ok("[{\"tokens\":[\"Dori\",\"Dr\"],\"full\":\"Dr\",\"canonical\":\"Dori\"}]")
    } else if str_eq(lc, "nl") {
        Ok("[{\"tokens\":[\"Straat\",\"Str\"],\"full\":\"Str\",\"canonical\":\"Straat\"}]")
    } else if str_eq(lc, "no") {
        Ok("[{\"tokens\":[\"Gate\",\"Gt\"],\"full\":\"Gt\",\"canonical\":\"Gate\"}]")
    } else if str_eq(lc, "pl") {
        Ok("[{\"tokens\":[\"Ulica\",\"Ul\"],\"full\":\"Ul\",\"canonical\":\"Ulica\"}]")
    } else if str_eq(lc, "pt") {
        Ok("[{\"tokens\":[\"Rua\",\"R\"],\"full\":\"R\",\"canonical\":\"Rua\"}]")
    } else if str_eq(lc, "ro") {
        Ok("[{\"tokens\":[\"Strada\",\"Str\"],\"full\":\"Str\",\"canonical\":\"Strada\"}]")
    } else if str_eq(lc, "ru") {
        Ok("[{\"tokens\":[\"Ulitsa\",\"Ul\"],\"full\":\"Ul\",\"canonical\":\"Ulitsa\"}]")
    } else if str_eq(lc, "sv") {
        Ok("[{\"tokens\":[\"Gatan\",\"G\"],\"full\":\"G\",\"canonical\":\"Gatan\"}]")
    } else {
        proof {
            assert forall|i: int|
                0 <= i < crate::registry::spec_language_codes().len() implies crate::registry::spec_language_codes()[i]
                != lc@ by {}
            assert(!is_language_code(lc@));
        }
        Err(Error::TokenFileImportNotSupported(lc.to_owned()))
    }
}

} // verus!
