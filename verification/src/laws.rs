//! The library's general laws, stated and proved once and for all.

use vstd::prelude::*;
use vstd::std_specs::cmp::PartialEqSpec;

use crate::catalog::dedup_keys;
use crate::catalog::good_catalog;
use crate::catalog::lemma_spec_prepare_get;
use crate::catalog::spec_language_tokens;
use crate::catalog::spec_prepare;
use crate::errors::ErrorView;
use crate::record::spec_parse_records;
use crate::registry::spec_language_codes;
use crate::record::RawRecordView;
use crate::token::spec_compile_record;
use crate::token::spec_new_token;
use crate::token::tokens_of_records;
use crate::token::RecordOutcome;
use crate::token::Token;
use crate::token::TokenView;
use crate::token_type::TokenType;

verus! {

/// Token equality ignores the compiled pattern's internal representation:
/// two tokens whose views agree — pattern compared as its source text —
/// are equal under the defined equality, whatever `regex::Regex` values
/// they hold.
pub proof fn lemma_token_equality_ignores_compiled(a: Token, b: Token)
    requires
        a@ == b@,
    ensures
        a.eq_spec(&b),
        b.eq_spec(&a),
{
}

/// Two directly constructed tokens over the same inputs are equal, though
/// each construction compiles its own pattern.
pub proof fn lemma_new_tokens_equal(
    full: Seq<char>,
    canonical: Seq<char>,
    token_type: Option<TokenType>,
    regex: bool,
    a: Token,
    b: Token,
)
    requires
        a@ == spec_new_token(full, canonical, token_type, regex),
        b@ == spec_new_token(full, canonical, token_type, regex),
    ensures
        a.eq_spec(&b),
{
}

/// A record that compiles to a token hands its surface forms, scoping
/// fields and texts through unchanged; in particular a layer restriction
/// reaches the token exactly as the data gives it.
pub proof fn lemma_record_fields_carried(r: RawRecordView, t: TokenView)
    requires
        spec_compile_record(r) == RecordOutcome::Tok(t),
    ensures
        t.tokens == r.tokens,
        t.full == r.full,
        t.canonical == r.canonical,
        t.note == r.note,
        t.only_countries == r.only_countries,
        t.only_layers == r.only_layers,
        t.span_boundaries == r.span_boundaries,
{
}

/// Every token of every language list of a built catalog keeps at least
/// one surface form.
pub proof fn lemma_catalog_tokens_nonempty(
    m: Map<Seq<char>, Seq<TokenView>>,
    k: Seq<char>,
    j: int,
)
    requires
        good_catalog(m),
        m.dom().contains(k),
        0 <= j < m[k].len(),
    ensures
        m[k][j].tokens.len() > 0,
{
}

/// Dropping repetitions leaves a sequence without repetitions unchanged.
pub proof fn lemma_dedup_keys_distinct(s: Seq<Seq<char>>)
    requires
        s.no_duplicates(),
    ensures
        dedup_keys(s) == s,
    decreases s.len(),
{
    if s.len() == 0 {
        assert(dedup_keys(s) =~= s);
    } else {
        assert(s.drop_last().no_duplicates());
        assert(!s.drop_last().contains(s.last())) by {
            if s.drop_last().contains(s.last()) {
                let i = choose|i: int|
                    0 <= i < s.drop_last().len() && s.drop_last()[i] == s.last();
                assert(s[i] == s[s.len() - 1]);
            }
        }
        lemma_dedup_keys_distinct(s.drop_last());
        assert(dedup_keys(s) =~= s);
    }
}

/// The fixed registry lists each language code once.
pub proof fn lemma_registry_distinct()
    ensures
        spec_language_codes().no_duplicates(),
{
    reveal_strlit("de");
    reveal_strlit("en");
    reveal_strlit("es");
    reveal_strlit("et");
    reveal_strlit("fi");
    reveal_strlit("fr");
    reveal_strlit("he");
    reveal_strlit("id");
    reveal_strlit("it");
    reveal_strlit("ja");
    reveal_strlit("nl");
    reveal_strlit("no");
    reveal_strlit("pl");
    reveal_strlit("pt");
    reveal_strlit("ro");
    reveal_strlit("ru");
    reveal_strlit("sv");
    assert forall|i: int, j: int|
        0 <= i < j < spec_language_codes().len() implies spec_language_codes()[i]
        != spec_language_codes()[j] by {
        assert(spec_language_codes()[i][0] != spec_language_codes()[j][0]
            || spec_language_codes()[i][1] != spec_language_codes()[j][1]);
    }
}

/// A catalog built for the empty request holds exactly the full registry
/// of seventeen codes, in the registry's fixed alphabetical order.
pub proof fn lemma_full_registry_keys(c: crate::catalog::Catalog)
    requires
        c@.dom() == spec_language_codes().to_set(),
        c.spec_keys() == dedup_keys(spec_language_codes()),
    ensures
        c.spec_keys() == spec_language_codes(),
        c@.dom().len() == spec_language_codes().len(),
{
    lemma_registry_distinct();
    lemma_dedup_keys_distinct(spec_language_codes());
    spec_language_codes().unique_seq_to_set();
}

/// Compiling records is a pure function: the same record views always
/// yield the same token views or the same first error, so two builds over
/// equal parsed data agree in content.
pub proof fn lemma_compile_deterministic(
    rs: Seq<RawRecordView>,
    a: Result<Seq<TokenView>, ErrorView>,
    b: Result<Seq<TokenView>, ErrorView>,
)
    requires
        a == tokens_of_records(rs),
        b == tokens_of_records(rs),
    ensures
        a == b,
{
}

/// Building is a pure function of the requested codes and the embedded
/// data: two builds over the same codes agree — equal mappings on
/// success, equal errors on failure. With the entry points' contracts,
/// which pin each outcome to `spec_prepare`, two equal requests yield
/// equal results.
pub proof fn lemma_build_deterministic(
    codes: Seq<Seq<char>>,
    a: Result<Map<Seq<char>, Seq<TokenView>>, ErrorView>,
    b: Result<Map<Seq<char>, Seq<TokenView>>, ErrorView>,
)
    requires
        a == spec_prepare(codes),
        b == spec_prepare(codes),
    ensures
        a == b,
{
}

/// Every token of a compiled record sequence arises from one of its
/// records.
pub proof fn lemma_tokens_have_source(rs: Seq<RawRecordView>, ts: Seq<TokenView>, j: int)
    requires
        tokens_of_records(rs) == Ok::<Seq<TokenView>, ErrorView>(ts),
        0 <= j < ts.len(),
    ensures
        exists|i: int|
            0 <= i < rs.len() && spec_compile_record(#[trigger] rs[i]) == RecordOutcome::Tok(
                ts[j],
            ),
    decreases rs.len(),
{
    if rs.len() == 0 {
    } else {
        match tokens_of_records(rs.drop_last()) {
            Err(e) => {},
            Ok(ts0) => {
                match spec_compile_record(rs.last()) {
                    RecordOutcome::Fail(e) => {},
                    RecordOutcome::Skip => {
                        lemma_tokens_have_source(rs.drop_last(), ts0, j);
                        let i = choose|i: int|
                            0 <= i < rs.drop_last().len() && spec_compile_record(
                                #[trigger] rs.drop_last()[i],
                            ) == RecordOutcome::Tok(ts[j]);
                        assert(rs[i] == rs.drop_last()[i]);
                    },
                    RecordOutcome::Tok(t) => {
                        if j == ts.len() - 1 {
                            assert(spec_compile_record(rs[rs.len() - 1]) == RecordOutcome::Tok(
                                ts[j],
                            ));
                        } else {
                            lemma_tokens_have_source(rs.drop_last(), ts0, j);
                            let i = choose|i: int|
                                0 <= i < rs.drop_last().len() && spec_compile_record(
                                    #[trigger] rs.drop_last()[i],
                                ) == RecordOutcome::Tok(ts0[j]);
                            assert(rs[i] == rs.drop_last()[i]);
                            assert(ts[j] == ts0[j]);
                        }
                    },
                }
            },
        }
    }
}

/// Every token of a built catalog arises from one record of its own
/// language's parsed data; with [`lemma_record_fields_carried`], its
/// surface forms and scoping fields — the layer restriction among them —
/// stand in the catalog exactly as that record gave them.
pub proof fn lemma_catalog_token_provenance(
    codes: Seq<Seq<char>>,
    m: Map<Seq<char>, Seq<TokenView>>,
    k: Seq<char>,
    j: int,
)
    requires
        spec_prepare(codes) == Ok::<Map<Seq<char>, Seq<TokenView>>, ErrorView>(m),
        m.dom().contains(k),
        0 <= j < m[k].len(),
    ensures
        exists|rv: RawRecordView| #[trigger]
            spec_compile_record(rv) == RecordOutcome::Tok(m[k][j]),
{
    lemma_spec_prepare_get(codes, m);
    assert(spec_language_tokens(k) == Ok::<Seq<TokenView>, ErrorView>(m[k]));
    let rvs = spec_parse_records(crate::data::spec_token_data(k))->Ok_0;
    lemma_tokens_have_source(rvs, m[k], j);
    let i = choose|i: int|
        0 <= i < rvs.len() && spec_compile_record(#[trigger] rvs[i]) == RecordOutcome::Tok(
            m[k][j],
        );
    assert(spec_compile_record(rvs[i]) == RecordOutcome::Tok(m[k][j]));
}

} // verus!
