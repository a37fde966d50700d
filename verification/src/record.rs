//! The intermediate token record, and the parser that reads one from raw
//! JSON data.
//!
//! Parsing performs only structural validation: required fields must be
//! present with the right shapes, optional fields keep their raw form.
//! Semantic validation (the `type` mapping, pattern compilation) belongs
//! to the compiler. What the parser returns is stated exactly, as a pure
//! function of the modeled JSON content.

use vstd::prelude::*;

use crate::errors::Error;
use crate::errors::ErrorView;
use crate::jsonmodel::jget;
use crate::jsonmodel::JsonView;
use crate::outside::json_as_array;
use crate::outside::json_as_bool;
use crate::outside::json_as_str;
use crate::outside::json_as_u64;
use crate::outside::json_doc_of;
use crate::outside::json_error_of;
use crate::outside::json_from_str;
use crate::outside::json_get;
use crate::outside::json_is_null;
use crate::outside::json_parses;
use crate::outside::json_view;
use crate::outside::json_views_of;
use crate::strutil::views_of;

verus! {

/// One raw token record, structurally validated, semantically untouched.
pub struct RawRecord {
    /// All surface forms recognized as this token; never empty.
    pub tokens: Vec<String>,
    /// The expanded/canonical-source text this token represents.
    pub full: String,
    /// The preferred normalized form to substitute.
    pub canonical: String,
    /// Free-text annotation, without semantic effect.
    pub note: Option<String>,
    /// Country codes the token is restricted to; absent = unrestricted.
    pub only_countries: Option<Vec<String>>,
    /// Address layers the token is restricted to; absent = unrestricted.
    pub only_layers: Option<Vec<String>>,
    /// Prefer the full form over the canonical one during substitution.
    pub prefer_full: Option<bool>,
    /// Compile `full` as a regular expression.
    pub regex: Option<bool>,
    /// Disable word-boundary enforcement when matching.
    pub skip_boundaries: Option<bool>,
    /// Disable diacritic normalization before matching.
    pub skip_diacritic_stripping: Option<bool>,
    /// Number of adjacent tokens a match may span.
    pub span_boundaries: Option<u8>,
    /// Raw classification string, mapped by the compiler.
    pub token_type: Option<String>,
}

/// The mathematical shape of a [`RawRecord`].
#[verifier::ext_equal]
pub struct RawRecordView {
    pub tokens: Seq<Seq<char>>,
    pub full: Seq<char>,
    pub canonical: Seq<char>,
    pub note: Option<Seq<char>>,
    pub only_countries: Option<Seq<Seq<char>>>,
    pub only_layers: Option<Seq<Seq<char>>>,
    pub prefer_full: Option<bool>,
    pub regex: Option<bool>,
    pub skip_boundaries: Option<bool>,
    pub skip_diacritic_stripping: Option<bool>,
    pub span_boundaries: Option<u8>,
    pub token_type: Option<Seq<char>>,
}

impl View for RawRecord {
    type V = RawRecordView;

    open spec fn view(&self) -> RawRecordView {
        RawRecordView {
            tokens: views_of(self.tokens@),
            full: self.full@,
            canonical: self.canonical@,
            note: crate::strutil::views_of_opt_str(self.note),
            only_countries: crate::strutil::views_of_opt_vec(self.only_countries),
            only_layers: crate::strutil::views_of_opt_vec(self.only_layers),
            prefer_full: self.prefer_full,
            regex: self.regex,
            skip_boundaries: self.skip_boundaries,
            skip_diacritic_stripping: self.skip_diacritic_stripping,
            span_boundaries: self.span_boundaries,
            token_type: crate::strutil::views_of_opt_str(self.token_type),
        }
    }
}

/// A structurally valid record: the surface-form list is never empty.
pub open spec fn wf_record(r: RawRecordView) -> bool {
    r.tokens.len() > 0
}

/// What reading a required string field yields.
pub open spec fn spec_req_string(j: JsonView, key: Seq<char>) -> Result<Seq<char>, Seq<char>> {
    match jget(j, key) {
        None => Err("record is missing a required string field"@),
        Some(f) => match f {
            JsonView::Text(s) => Ok(s),
            _ => Err("record field must be a string"@),
        },
    }
}

/// What reading an optional string field yields; JSON `null` counts as
/// absent.
pub open spec fn spec_opt_string(j: JsonView, key: Seq<char>) -> Result<
    Option<Seq<char>>,
    Seq<char>,
> {
    match jget(j, key) {
        None => Ok(None),
        Some(f) => match f {
            JsonView::Text(s) => Ok(Some(s)),
            JsonView::Null => Ok(None),
            _ => Err("record field must be a string"@),
        },
    }
}

/// What reading an optional boolean field yields; JSON `null` counts as
/// absent.
pub open spec fn spec_opt_bool(j: JsonView, key: Seq<char>) -> Result<Option<bool>, Seq<char>> {
    match jget(j, key) {
        None => Ok(None),
        Some(f) => match f {
            JsonView::Bool(b) => Ok(Some(b)),
            JsonView::Null => Ok(None),
            _ => Err("record field must be a boolean"@),
        },
    }
}

/// What reading an optional small unsigned integer field yields; JSON
/// `null` counts as absent.
pub open spec fn spec_opt_u8(j: JsonView, key: Seq<char>) -> Result<Option<u8>, Seq<char>> {
    match jget(j, key) {
        None => Ok(None),
        Some(f) => match f {
            JsonView::UInt(n) => if n <= 255 {
                Ok(Some(n as u8))
            } else {
                Err("record field is out of range for a small integer"@)
            },
            JsonView::Null => Ok(None),
            _ => Err("record field must be a small unsigned integer"@),
        },
    }
}

/// What reading an array of strings yields.
pub open spec fn spec_string_list(f: JsonView) -> Result<Seq<Seq<char>>, Seq<char>> {
    match f {
        JsonView::Arr(items) => if forall|i: int|
            0 <= i < items.len() ==> (#[trigger] items[i]) is Text {
            Ok(Seq::new(items.len(), |i: int| items[i]->Text_0))
        } else {
            Err("record field must hold only strings"@)
        },
        _ => Err("record field must be an array of strings"@),
    }
}

/// What reading an optional array-of-strings field yields; JSON `null`
/// counts as absent.
pub open spec fn spec_opt_string_list(j: JsonView, key: Seq<char>) -> Result<
    Option<Seq<Seq<char>>>,
    Seq<char>,
> {
    match jget(j, key) {
        None => Ok(None),
        Some(f) => match f {
            JsonView::Null => Ok(None),
            _ => match spec_string_list(f) {
                Ok(items) => Ok(Some(items)),
                Err(m) => Err(m),
            },
        },
    }
}

/// What parsing one record value yields: the structurally validated
/// record, or the message of the first structural fault, reading the
/// fields in a fixed order.
pub open spec fn spec_parse_record(j: JsonView) -> Result<RawRecordView, Seq<char>> {
    match jget(j, "tokens"@) {
        None => Err("record is missing the required field tokens"@),
        Some(f) => match spec_string_list(f) {
            Err(m) => Err(m),
            Ok(tokens) => if tokens.len() == 0 {
                Err("record field tokens must not be empty"@)
            } else {
                match spec_req_string(j, "full"@) {
                    Err(m) => Err(m),
                    Ok(full) => match spec_req_string(j, "canonical"@) {
                        Err(m) => Err(m),
                        Ok(canonical) => match spec_opt_string(j, "note"@) {
                            Err(m) => Err(m),
                            Ok(note) => match spec_opt_string_list(j, "onlyCountries"@) {
                                Err(m) => Err(m),
                                Ok(only_countries) => match spec_opt_string_list(j, "onlyLayers"@) {
                                    Err(m) => Err(m),
                                    Ok(only_layers) => match spec_opt_bool(j, "preferFull"@) {
                                        Err(m) => Err(m),
                                        Ok(prefer_full) => match spec_opt_bool(j, "regex"@) {
                                            Err(m) => Err(m),
                                            Ok(regex) => match spec_opt_bool(
                                                j,
                                                "skipBoundaries"@,
                                            ) {
                                                Err(m) => Err(m),
                                                Ok(skip_boundaries) => match spec_opt_bool(
                                                    j,
                                                    "skipDiacriticStripping"@,
                                                ) {
                                                    Err(m) => Err(m),
                                                    Ok(skip_diacritic_stripping) => match spec_opt_u8(
                                                        j,
                                                        "spanBoundaries"@,
                                                    ) {
                                                        Err(m) => Err(m),
                                                        Ok(span_boundaries) => match spec_opt_string(
                                                            j,
                                                            "type"@,
                                                        ) {
                                                            Err(m) => Err(m),
                                                            Ok(token_type) => Ok(
                                                                RawRecordView {
                                                                    tokens,
                                                                    full,
                                                                    canonical,
                                                                    note,
                                                                    only_countries,
                                                                    only_layers,
                                                                    prefer_full,
                                                                    regex,
                                                                    skip_boundaries,
                                                                    skip_diacritic_stripping,
                                                                    span_boundaries,
                                                                    token_type,
                                                                },
                                                            ),
                                                        },
                                                    },
                                                },
                                            },
                                        },
                                    },
                                },
                            },
                        },
                    },
                }
            },
        },
    }
}

/// What parsing a sequence of record values yields: the records in
/// source order, or the first structural fault.
pub open spec fn spec_parse_items(items: Seq<JsonView>) -> Result<Seq<RawRecordView>, Seq<char>>
    decreases items.len(),
{
    if items.len() == 0 {
        Ok(Seq::empty())
    } else {
        match spec_parse_items(items.drop_last()) {
            Err(m) => Err(m),
            Ok(rs) => match spec_parse_record(items.last()) {
                Err(m) => Err(m),
                Ok(r) => Ok(rs.push(r)),
            },
        }
    }
}

/// What parsing a language's raw text yields: its records, or the message
/// of the first structural fault.
pub open spec fn spec_parse_records(s: Seq<char>) -> Result<Seq<RawRecordView>, Seq<char>> {
    if !json_parses(s) {
        Err("invalid token data: "@ + json_error_of(s))
    } else {
        match json_doc_of(s) {
            JsonView::Arr(items) => spec_parse_items(items),
            _ => Err("token data must be a JSON array of records"@),
        }
    }
}

/// A `ParseError` with a fixed message.
fn parse_error(msg: &str) -> (e: Error)
    ensures
        e@ == ErrorView::ParseError(msg@),
{
    Error::ParseError(msg.to_owned())
}

/// Reads a required string field.
fn req_string(v: &serde_json::Value, key: &str) -> (r: Result<String, Error>)
    ensures
        match spec_req_string(json_view(*v), key@) {
            Ok(s) => r matches Ok(out) && out@ == s,
            Err(m) => r matches Err(e) && e@ == ErrorView::ParseError(m),
        },
{
    match json_get(v, key) {
        None => Err(parse_error("record is missing a required string field")),
        Some(f) => match json_as_str(f) {
            Some(s) => Ok(s.to_owned()),
            None => Err(parse_error("record field must be a string")),
        },
    }
}

/// Reads an optional string field; JSON `null` counts as absent.
fn opt_string(v: &serde_json::Value, key: &str) -> (r: Result<Option<String>, Error>)
    ensures
        match spec_opt_string(json_view(*v), key@) {
            Ok(s) => r matches Ok(out) && crate::strutil::views_of_opt_str(out) == s,
            Err(m) => r matches Err(e) && e@ == ErrorView::ParseError(m),
        },
{
    match json_get(v, key) {
        None => Ok(None),
        Some(f) => match json_as_str(f) {
            Some(s) => Ok(Some(s.to_owned())),
            None => {
                if json_is_null(f) {
                    Ok(None)
                } else {
                    Err(parse_error("record field must be a string"))
                }
            },
        },
    }
}

/// Reads an optional boolean field; JSON `null` counts as absent.
fn opt_bool(v: &serde_json::Value, key: &str) -> (r: Result<Option<bool>, Error>)
    ensures
        match spec_opt_bool(json_view(*v), key@) {
            Ok(b) => r == Ok::<Option<bool>, Error>(b),
            Err(m) => r matches Err(e) && e@ == ErrorView::ParseError(m),
        },
{
    match json_get(v, key) {
        None => Ok(None),
        Some(f) => match json_as_bool(f) {
            Some(b) => Ok(Some(b)),
            None => {
                if json_is_null(f) {
                    Ok(None)
                } else {
                    Err(parse_error("record field must be a boolean"))
                }
            },
        },
    }
}

/// Reads an optional small unsigned integer field; JSON `null` counts as
/// absent.
fn opt_u8(v: &serde_json::Value, key: &str) -> (r: Result<Option<u8>, Error>)
    ensures
        match spec_opt_u8(json_view(*v), key@) {
            Ok(n) => r == Ok::<Option<u8>, Error>(n),
            Err(m) => r matches Err(e) && e@ == ErrorView::ParseError(m),
        },
{
    match json_get(v, key) {
        None => Ok(None),
        Some(f) => match json_as_u64(f) {
            Some(n) => {
                if n <= 255 {
                    Ok(Some(n as u8))
                } else {
                    Err(parse_error("record field is out of range for a small integer"))
                }
            },
            None => {
                if json_is_null(f) {
                    Ok(None)
                } else {
                    Err(parse_error("record field must be a small unsigned integer"))
                }
            },
        },
    }
}

/// Reads an array of strings.
fn string_list(f: &serde_json::Value) -> (r: Result<Vec<String>, Error>)
    ensures
        match spec_string_list(json_view(*f)) {
            Ok(items) => r matches Ok(out) && views_of(out@) == items,
            Err(m) => r matches Err(e) && e@ == ErrorView::ParseError(m),
        },
{
    match json_as_array(f) {
        None => Err(parse_error("record field must be an array of strings")),
        Some(items) => {
            let ghost jitems = json_views_of(items@);
            let mut out: Vec<String> = Vec::new();
            let mut i: usize = 0;
            while i < items.len()
                invariant
                    jitems == json_views_of(items@),
                    json_view(*f) == JsonView::Arr(jitems),
                    i <= items@.len(),
                    out@.len() == i,
                    forall|k: int|
                        0 <= k < i ==> (#[trigger] jitems[k]) is Text && out@[k]@
                            == jitems[k]->Text_0,
                decreases items@.len() - i,
            {
                match json_as_str(&items[i]) {
                    Some(s) => {
                        proof {
                            assert(jitems[i as int] == json_view(items@[i as int]));
                        }
                        out.push(s.to_owned());
                    },
                    None => {
                        proof {
                            assert(jitems[i as int] == json_view(items@[i as int]));
                            assert(!(jitems[i as int] is Text));
                        }
                        return Err(parse_error("record field must hold only strings"));
                    },
                }
                i = i + 1;
            }
            proof {
                assert(views_of(out@) =~= Seq::new(jitems.len(), |k: int| jitems[k]->Text_0));
            }
            Ok(out)
        },
    }
}

/// Reads an optional array-of-strings field; JSON `null` counts as absent.
fn opt_string_list(v: &serde_json::Value, key: &str) -> (r: Result<Option<Vec<String>>, Error>)
    ensures
        match spec_opt_string_list(json_view(*v), key@) {
            Ok(s) => r matches Ok(out) && crate::strutil::views_of_opt_vec(out) == s,
            Err(m) => r matches Err(e) && e@ == ErrorView::ParseError(m),
        },
{
    match json_get(v, key) {
        None => Ok(None),
        Some(f) => {
            if json_is_null(f) {
                Ok(None)
            } else {
                match string_list(f) {
                    Ok(items) => Ok(Some(items)),
                    Err(e) => Err(e),
                }
            }
        },
    }
}

/// Deserializes one raw record, applying structural validation only: the
/// required fields `tokens` (non-empty array of strings), `full` and
/// `canonical` must be present, the optional fields keep their raw form.
/// The result is exactly [`spec_parse_record`] of the value's content.
pub fn parse_record(v: &serde_json::Value) -> (r: Result<RawRecord, Error>)
    ensures
        match spec_parse_record(json_view(*v)) {
            Ok(rv) => r matches Ok(rec) && rec@ == rv,
            Err(m) => r matches Err(e) && e@ == ErrorView::ParseError(m),
        },
        r matches Ok(rec) ==> wf_record(rec@),
{
    let tokens = match json_get(v, "tokens") {
        None => {
            return Err(parse_error("record is missing the required field tokens"));
        },
        Some(f) => match string_list(f) {
            Ok(items) => items,
            Err(e) => {
                return Err(e);
            },
        },
    };
    if tokens.len() == 0 {
        return Err(parse_error("record field tokens must not be empty"));
    }
    let full = match req_string(v, "full") {
        Ok(s) => s,
        Err(e) => {
            return Err(e);
        },
    };
    let canonical = match req_string(v, "canonical") {
        Ok(s) => s,
        Err(e) => {
            return Err(e);
        },
    };
    let note = match opt_string(v, "note") {
        Ok(o) => o,
        Err(e) => {
            return Err(e);
        },
    };
    let only_countries = match opt_string_list(v, "onlyCountries") {
        Ok(o) => o,
        Err(e) => {
            return Err(e);
        },
    };
    let only_layers = match opt_string_list(v, "onlyLayers") {
        Ok(o) => o,
        Err(e) => {
            return Err(e);
        },
    };
    let prefer_full = match opt_bool(v, "preferFull") {
        Ok(o) => o,
        Err(e) => {
            return Err(e);
        },
    };
    let regex = match opt_bool(v, "regex") {
        Ok(o) => o,
        Err(e) => {
            return Err(e);
        },
    };
    let skip_boundaries = match opt_bool(v, "skipBoundaries") {
        Ok(o) => o,
        Err(e) => {
            return Err(e);
        },
    };
    let skip_diacritic_stripping = match opt_bool(v, "skipDiacriticStripping") {
        Ok(o) => o,
        Err(e) => {
            return Err(e);
        },
    };
    let span_boundaries = match opt_u8(v, "spanBoundaries") {
        Ok(o) => o,
        Err(e) => {
            return Err(e);
        },
    };
    let token_type = match opt_string(v, "type") {
        Ok(o) => o,
        Err(e) => {
            return Err(e);
        },
    };
    let rec = RawRecord {
        tokens,
        full,
        canonical,
        note,
        only_countries,
        only_layers,
        prefer_full,
        regex,
        skip_boundaries,
        skip_diacritic_stripping,
        span_boundaries,
        token_type,
    };
    proof {
        assert(rec@ =~= spec_parse_record(json_view(*v))->Ok_0);
    }
    Ok(rec)
}

/// The views of a parsed record vector.
pub open spec fn record_views(s: Seq<RawRecord>) -> Seq<RawRecordView> {
    s.map_values(|r: RawRecord| r@)
}

/// Once a prefix of the record values has a structural fault, the whole
/// sequence reports it.
proof fn lemma_spec_parse_items_err_prefix(items: Seq<JsonView>, j: int)
    requires
        0 <= j <= items.len(),
        spec_parse_items(items.take(j)) is Err,
    ensures
        spec_parse_items(items) == spec_parse_items(items.take(j)),
    decreases items.len() - j,
{
    if j == items.len() {
        assert(items.take(j) =~= items);
    } else {
        assert(items.take(j + 1).drop_last() =~= items.take(j));
        assert(items.take(j + 1).len() != 0);
        lemma_spec_parse_items_err_prefix(items, j + 1);
    }
}

/// Deserializes a language's raw data: a JSON array of records. Any
/// structural mismatch is a hard `ParseError`; nothing is silently
/// skipped. The result is exactly [`spec_parse_records`] of the text.
pub fn parse_records(raw: &str) -> (r: Result<Vec<RawRecord>, Error>)
    ensures
        match spec_parse_records(raw@) {
            Ok(rvs) => r matches Ok(rs) && record_views(rs@) == rvs,
            Err(m) => r matches Err(e) && e@ == ErrorView::ParseError(m),
        },
        r matches Ok(rs) ==> forall|i: int| 0 <= i < rs@.len() ==> wf_record(#[trigger] rs@[i]@),
        !json_parses(raw@) ==> r is Err,
{
    let doc = match json_from_str(raw) {
        Ok(v) => v,
        Err(m) => {
            return Err(
                Error::ParseError(String::from_str("invalid token data: ").concat(m.as_str())),
            );
        },
    };
    let items = match json_as_array(&doc) {
        Some(a) => a,
        None => {
            return Err(parse_error("token data must be a JSON array of records"));
        },
    };
    let ghost jitems = json_views_of(items@);
    let mut out: Vec<RawRecord> = Vec::new();
    let mut i: usize = 0;
    proof {
        assert(jitems.take(0) =~= Seq::<JsonView>::empty());
        assert(record_views(out@) =~= Seq::<RawRecordView>::empty());
    }
    while i < items.len()
        invariant
            jitems == json_views_of(items@),
            json_parses(raw@),
            json_doc_of(raw@) == JsonView::Arr(jitems),
            i <= items@.len(),
            spec_parse_items(jitems.take(i as int)) == Ok::<Seq<RawRecordView>, Seq<char>>(
                record_views(out@),
            ),
            forall|k: int| 0 <= k < out@.len() ==> wf_record(#[trigger] out@[k]@),
        decreases items@.len() - i,
    {
        proof {
            assert(jitems.take(i + 1).drop_last() =~= jitems.take(i as int));
            assert(jitems.take(i + 1).last() == jitems[i as int]);
            assert(jitems[i as int] == json_view(items@[i as int]));
        }
        let ghost old_out = out@;
        match parse_record(&items[i]) {
            Ok(rec) => {
                out.push(rec);
                proof {
                    assert(record_views(out@) =~= record_views(old_out).push(rec@));
                }
            },
            Err(e) => {
                proof {
                    lemma_spec_parse_items_err_prefix(jitems, i + 1);
                }
                return Err(e);
            },
        }
        i = i + 1;
    }
    proof {
        assert(jitems.take(items@.len() as int) =~= jitems);
    }
    Ok(out)
}

} // verus!
