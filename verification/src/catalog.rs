//! The catalog: a mapping from language code to its ordered token list,
//! and the builder that produces it.

use vstd::prelude::*;

use crate::data::import;
use crate::errors::Error;
use crate::errors::ErrorView;
use crate::data::spec_token_data;
use crate::record::parse_records;
use crate::record::record_views;
use crate::record::spec_parse_records;
use crate::record::wf_record;
use crate::record::RawRecordView;
use crate::registry::all_supported;
use crate::registry::first_unsupported;
use crate::registry::is_language_code;
use crate::registry::language_codes;
use crate::registry::spec_language_codes;
use crate::registry::validate;
use crate::strutil::str_eq;
use crate::strutil::views_of;
use crate::token::compile_all;
use crate::token::pattern_skipped;
use crate::token::skipped_of_records;
use crate::token::token_views;
use crate::token::tokens_of_records;
use crate::token::wf_token;
use crate::token::Token;
use crate::token::TokenView;

verus! {

/// A token list as the builder leaves it: compiled from some sequence of
/// structurally valid records.
pub open spec fn from_wf_records(ts: Seq<TokenView>) -> bool {
    exists|rs: Seq<RawRecordView>|
        (forall|i: int| 0 <= i < rs.len() ==> wf_record(#[trigger] rs[i])) && tokens_of_records(rs)
            == Ok::<Seq<TokenView>, ErrorView>(ts)
}

/// Every token of the list is well-formed.
pub open spec fn wf_token_list(ts: Seq<TokenView>) -> bool {
    forall|j: int| 0 <= j < ts.len() ==> wf_token(#[trigger] ts[j])
}

/// A coarse well-formedness summary of a mapping: every token list is
/// well-formed and compiled from structurally valid records. Which list a
/// built catalog holds under each code is pinned separately, by
/// [`spec_prepare`] in the builders' contracts.
pub open spec fn good_catalog(m: Map<Seq<char>, Seq<TokenView>>) -> bool {
    forall|k: Seq<char>| #[trigger]
        m.dom().contains(k) ==> from_wf_records(m[k]) && wf_token_list(m[k])
}

/// Tokens compiled from well-formed records are well-formed.
pub proof fn lemma_tokens_of_records_wf(rs: Seq<RawRecordView>, ts: Seq<TokenView>)
    requires
        forall|i: int| 0 <= i < rs.len() ==> wf_record(#[trigger] rs[i]),
        tokens_of_records(rs) == Ok::<Seq<TokenView>, ErrorView>(ts),
    ensures
        wf_token_list(ts),
    decreases rs.len(),
{
    if rs.len() == 0 {
    } else {
        match tokens_of_records(rs.drop_last()) {
            Err(e) => {},
            Ok(ts0) => {
                lemma_tokens_of_records_wf(rs.drop_last(), ts0);
                match crate::token::spec_compile_record(rs.last()) {
                    crate::token::RecordOutcome::Fail(e) => {},
                    crate::token::RecordOutcome::Skip => {},
                    crate::token::RecordOutcome::Tok(t) => {
                        assert(wf_record(rs.last()));
                        assert(wf_token(t));
                    },
                }
            },
        }
    }
}

/// A record sequence fails only with a pattern error or an unsupported
/// token type.
pub proof fn lemma_tokens_of_records_err_kind(rs: Seq<RawRecordView>, e: ErrorView)
    requires
        tokens_of_records(rs) == Err::<Seq<TokenView>, ErrorView>(e),
    ensures
        e is RegexError || e is TokenTypeNotSupported,
    decreases rs.len(),
{
    if rs.len() == 0 {
    } else {
        match tokens_of_records(rs.drop_last()) {
            Err(e0) => {
                lemma_tokens_of_records_err_kind(rs.drop_last(), e0);
            },
            Ok(ts0) => {},
        }
    }
}

/// The keys of an entry sequence, in entry order.
spec fn key_views(s: Seq<(String, Vec<Token>)>) -> Seq<Seq<char>> {
    s.map_values(|p: (String, Vec<Token>)| p.0@)
}

/// The mapping an entry sequence stands for.
spec fn entries_map(s: Seq<(String, Vec<Token>)>) -> Map<Seq<char>, Seq<TokenView>>
    decreases s.len(),
{
    if s.len() == 0 {
        Map::empty()
    } else {
        entries_map(s.drop_last()).insert(s.last().0@, token_views(s.last().1@))
    }
}

/// The mapping's domain holds exactly the entry keys.
proof fn lemma_entries_map_dom(s: Seq<(String, Vec<Token>)>)
    ensures
        entries_map(s).dom() == key_views(s).to_set(),
    decreases s.len(),
{
    broadcast use vstd::seq_lib::lemma_seq_contains_after_push;
    broadcast use vstd::set::group_set_axioms;
    broadcast use vstd::map::group_map_axioms;

    if s.len() == 0 {
        assert(entries_map(s).dom() =~= key_views(s).to_set());
    } else {
        lemma_entries_map_dom(s.drop_last());
        assert(key_views(s) =~= key_views(s.drop_last()).push(s.last().0@));
        assert(entries_map(s).dom() =~= key_views(s).to_set());
    }
}

/// A key among the entry keys lies in the key set, and conversely.
proof fn lemma_key_views_membership(s: Seq<(String, Vec<Token>)>, k: Seq<char>)
    ensures
        key_views(s).contains(k) <==> exists|i: int| 0 <= i < s.len() && s[i].0@ == k,
{
    if key_views(s).contains(k) {
        let i = choose|i: int| 0 <= i < key_views(s).len() && key_views(s)[i] == k;
        assert(s[i].0@ == k);
    }
    if exists|i: int| 0 <= i < s.len() && s[i].0@ == k {
        let i = choose|i: int| 0 <= i < s.len() && s[i].0@ == k;
        assert(key_views(s)[i] == k);
    }
}

/// With unique keys, each entry's key maps to that entry's token list.
proof fn lemma_entries_map_get(s: Seq<(String, Vec<Token>)>, i: int)
    requires
        forall|a: int, b: int| 0 <= a < b < s.len() ==> s[a].0@ != s[b].0@,
        0 <= i < s.len(),
    ensures
        entries_map(s).dom().contains(s[i].0@),
        entries_map(s)[s[i].0@] == token_views(s[i].1@),
    decreases s.len(),
{
    if i == s.len() - 1 {
    } else {
        lemma_entries_map_get(s.drop_last(), i);
        assert(s.drop_last()[i] == s[i]);
        assert(s[i].0@ != s.last().0@);
    }
}

/// With unique keys, the mapping has as many keys as there are entries.
proof fn lemma_entries_map_len(s: Seq<(String, Vec<Token>)>)
    requires
        forall|a: int, b: int| 0 <= a < b < s.len() ==> s[a].0@ != s[b].0@,
    ensures
        entries_map(s).dom().finite(),
        entries_map(s).dom().len() == s.len(),
    decreases s.len(),
{
    broadcast use vstd::set::group_set_axioms;
    broadcast use vstd::map::group_map_axioms;

    if s.len() == 0 {
        assert(entries_map(s).dom() =~= Set::<Seq<char>>::empty());
    } else {
        lemma_entries_map_len(s.drop_last());
        lemma_entries_map_dom(s.drop_last());
        assert(!key_views(s.drop_last()).contains(s.last().0@)) by {
            lemma_key_views_membership(s.drop_last(), s.last().0@);
            assert forall|i: int| 0 <= i < s.drop_last().len() implies s.drop_last()[i].0@
                != s.last().0@ by {
                assert(s[i].0@ != s[s.len() - 1].0@);
            }
        }
        assert(!entries_map(s.drop_last()).dom().contains(s.last().0@));
        assert(entries_map(s).dom() =~= entries_map(s.drop_last()).dom().insert(s.last().0@));
    }
}

/// The catalog: an immutable mapping from language code to its ordered
/// token list, built once per request.
pub struct Catalog {
    entries: Vec<(String, Vec<Token>)>,
}

impl View for Catalog {
    type V = Map<Seq<char>, Seq<TokenView>>;

    closed spec fn view(&self) -> Map<Seq<char>, Seq<TokenView>> {
        entries_map(self.entries@)
    }
}

impl Catalog {
    /// Each language code appears at most once.
    #[verifier::type_invariant]
    spec fn inv(self) -> bool {
        forall|a: int, b: int|
            0 <= a < b < self.entries@.len() ==> self.entries@[a].0@ != self.entries@[b].0@
    }

    /// The language codes, in insertion order.
    pub closed spec fn spec_keys(self) -> Seq<Seq<char>> {
        key_views(self.entries@)
    }

    /// The empty catalog.
    pub(crate) fn new() -> (c: Catalog)
        ensures
            c@ == Map::<Seq<char>, Seq<TokenView>>::empty(),
            c.spec_keys() == Seq::<Seq<char>>::empty(),
    {
        let c = Catalog { entries: Vec::new() };
        proof {
            assert(c.spec_keys() =~= Seq::<Seq<char>>::empty());
        }
        c
    }

    /// Wraps a finished entry sequence with unique keys.
    fn from_entries(entries: Vec<(String, Vec<Token>)>) -> (c: Catalog)
        requires
            forall|a: int, b: int|
                0 <= a < b < entries@.len() ==> entries@[a].0@ != entries@[b].0@,
        ensures
            c@ == entries_map(entries@),
            c.spec_keys() == key_views(entries@),
    {
        Catalog { entries }
    }

    /// How many languages the catalog holds.
    pub fn len(&self) -> (n: usize)
        ensures
            n == self@.dom().len(),
    {
        proof {
            use_type_invariant(&*self);
            lemma_entries_map_len(self.entries@);
        }
        self.entries.len()
    }

    /// Whether the catalog holds the given language code.
    pub fn contains_key(&self, code: &str) -> (r: bool)
        ensures
            r == self@.dom().contains(code@),
    {
        let mut i: usize = 0;
        while i < self.entries.len()
            invariant
                i <= self.entries@.len(),
                forall|k: int| 0 <= k < i ==> self.entries@[k].0@ != code@,
            decreases self.entries@.len() - i,
        {
            if str_eq(self.entries[i].0.as_str(), code) {
                proof {
                    broadcast use vstd::set::group_set_axioms;

                    lemma_entries_map_dom(self.entries@);
                    lemma_key_views_membership(self.entries@, code@);
                    assert(self.entries@[i as int].0@ == code@);
                }
                return true;
            }
            i = i + 1;
        }
        proof {
            broadcast use vstd::set::group_set_axioms;

            lemma_entries_map_dom(self.entries@);
            lemma_key_views_membership(self.entries@, code@);
        }
        false
    }

    /// The token list of the given language code, when present.
    pub fn get(&self, code: &str) -> (r: Option<&Vec<Token>>)
        ensures
            match r {
                Some(ts) => self@.dom().contains(code@) && self@[code@] == token_views(ts@),
                None => !self@.dom().contains(code@),
            },
    {
        proof {
            use_type_invariant(&*self);
        }
        let mut i: usize = 0;
        while i < self.entries.len()
            invariant
                i <= self.entries@.len(),
                forall|k: int| 0 <= k < i ==> self.entries@[k].0@ != code@,
                forall|a: int, b: int|
                    0 <= a < b < self.entries@.len() ==> self.entries@[a].0@
                        != self.entries@[b].0@,
            decreases self.entries@.len() - i,
        {
            if str_eq(self.entries[i].0.as_str(), code) {
                proof {
                    lemma_entries_map_get(self.entries@, i as int);
                }
                return Some(&self.entries[i].1);
            }
            i = i + 1;
        }
        proof {
            broadcast use vstd::set::group_set_axioms;

            lemma_entries_map_dom(self.entries@);
            lemma_key_views_membership(self.entries@, code@);
        }
        None
    }

    /// The language codes, in insertion order.
    pub fn keys(&self) -> (r: Vec<String>)
        ensures
            views_of(r@) == self.spec_keys(),
    {
        let mut r: Vec<String> = Vec::new();
        let mut i: usize = 0;
        while i < self.entries.len()
            invariant
                i <= self.entries@.len(),
                r@.len() == i,
                forall|k: int| 0 <= k < i ==> r@[k]@ == self.entries@[k].0@,
            decreases self.entries@.len() - i,
        {
            r.push(self.entries[i].0.clone());
            i = i + 1;
        }
        proof {
            assert(views_of(r@) =~= self.spec_keys());
        }
        r
    }
}

/// Whether the entry list already holds the given code.
fn entries_contain(entries: &Vec<(String, Vec<Token>)>, code: &str) -> (r: bool)
    ensures
        r == key_views(entries@).contains(code@),
{
    let mut i: usize = 0;
    while i < entries.len()
        invariant
            i <= entries@.len(),
            forall|k: int| 0 <= k < i ==> entries@[k].0@ != code@,
        decreases entries@.len() - i,
    {
        if str_eq(entries[i].0.as_str(), code) {
            proof {
                assert(key_views(entries@)[i as int] == code@);
            }
            return true;
        }
        i = i + 1;
    }
    proof {
        lemma_key_views_membership(entries@, code@);
    }
    false
}


/// What building one language yields: the raw data of a supported code is
/// parsed and compiled; an unsupported code is refused at the provider.
pub open spec fn spec_language_tokens(lc: Seq<char>) -> Result<Seq<TokenView>, ErrorView> {
    if !is_language_code(lc) {
        Err(ErrorView::TokenFileImportNotSupported(lc))
    } else {
        match spec_parse_records(spec_token_data(lc)) {
            Err(m) => Err(ErrorView::ParseError(m)),
            Ok(rvs) => tokens_of_records(rvs),
        }
    }
}

/// The patterns the look-around policy drops while building one language.
pub open spec fn spec_language_skips(lc: Seq<char>) -> Seq<Seq<char>> {
    if !is_language_code(lc) {
        Seq::empty()
    } else {
        match spec_parse_records(spec_token_data(lc)) {
            Err(m) => Seq::empty(),
            Ok(rvs) => skipped_of_records(rvs),
        }
    }
}

/// Builds one language's token list: fetches the raw data, parses all
/// records, and compiles each in source order, applying the look-around
/// skip policy per record. The outcome is exactly
/// [`spec_language_tokens`] of the code; beside it come the dropped
/// patterns, so the caller can emit the diagnostic the skip policy owes.
pub fn prepare_language(lc: &str) -> (r: (Result<Vec<Token>, Error>, Vec<String>))
    ensures
        match spec_language_tokens(lc@) {
            Ok(tvs) => r.0 matches Ok(ts) && token_views(ts@) == tvs && from_wf_records(tvs)
                && wf_token_list(tvs),
            Err(ev) => r.0 matches Err(e) && e@ == ev,
        },
        views_of(r.1@) == spec_language_skips(lc@),
        forall|i: int| 0 <= i < r.1@.len() ==> pattern_skipped(#[trigger] r.1@[i]@),
        !is_language_code(lc@) ==> (r.0 matches Err(e) && e@
            == ErrorView::TokenFileImportNotSupported(lc@)),
        r.0 matches Err(e) ==> (e@ is TokenFileImportNotSupported || e@ is ParseError
            || e@ is RegexError || e@ is TokenTypeNotSupported),
        is_language_code(lc@) && r.0 is Err ==> (r.0 matches Err(e) && (e@ is ParseError
            || e@ is RegexError || e@ is TokenTypeNotSupported)),
{
    let raw = match import(lc) {
        Ok(d) => d,
        Err(e) => {
            proof {
                assert(views_of(Seq::<String>::empty()) =~= Seq::<Seq<char>>::empty());
            }
            return (Err(e), Vec::new());
        },
    };
    let records = match parse_records(raw) {
        Ok(rs) => rs,
        Err(e) => {
            proof {
                assert(views_of(Seq::<String>::empty()) =~= Seq::<Seq<char>>::empty());
            }
            return (Err(e), Vec::new());
        },
    };
    let (result, skipped) = compile_all(&records);
    match result {
        Ok(ts) => {
            proof {
                let rvs = record_views(records@);
                assert(forall|i: int|
                    0 <= i < rvs.len() ==> wf_record(#[trigger] rvs[i]) && rvs[i]
                        == records@[i]@);
                lemma_tokens_of_records_wf(rvs, token_views(ts@));
                assert(from_wf_records(token_views(ts@)));
            }
            (Ok(ts), skipped)
        },
        Err(e) => {
            proof {
                lemma_tokens_of_records_err_kind(record_views(records@), e@);
            }
            (Err(e), skipped)
        },
    }
}

/// The code sequence with every later repetition of a code dropped.
pub open spec fn dedup_keys(s: Seq<Seq<char>>) -> Seq<Seq<char>>
    decreases s.len(),
{
    if s.len() == 0 {
        Seq::empty()
    } else if s.drop_last().contains(s.last()) {
        dedup_keys(s.drop_last())
    } else {
        dedup_keys(s.drop_last()).push(s.last())
    }
}

/// The codes a request covers: the full registry for an empty request,
/// the request itself otherwise.
pub open spec fn requested_codes(v: Seq<String>) -> Seq<Seq<char>> {
    if v.len() == 0 {
        spec_language_codes()
    } else {
        views_of(v)
    }
}

/// What building a code sequence yields: each code's language result, in
/// order, stopping at the first hard error; or the finished mapping.
pub open spec fn spec_prepare(codes: Seq<Seq<char>>) -> Result<
    Map<Seq<char>, Seq<TokenView>>,
    ErrorView,
>
    decreases codes.len(),
{
    if codes.len() == 0 {
        Ok(Map::empty())
    } else {
        match spec_prepare(codes.drop_last()) {
            Err(e) => Err(e),
            Ok(m) => match spec_language_tokens(codes.last()) {
                Err(e) => Err(e),
                Ok(ts) => Ok(m.insert(codes.last(), ts)),
            },
        }
    }
}

/// The patterns the look-around policy drops while building a code
/// sequence: each distinct code's skips, in processing order, up to the
/// first hard error.
pub open spec fn spec_prepare_skips(codes: Seq<Seq<char>>) -> Seq<Seq<char>>
    decreases codes.len(),
{
    if codes.len() == 0 {
        Seq::empty()
    } else if spec_prepare(codes.drop_last()) is Err {
        spec_prepare_skips(codes.drop_last())
    } else if codes.drop_last().contains(codes.last()) {
        spec_prepare_skips(codes.drop_last())
    } else {
        spec_prepare_skips(codes.drop_last()) + spec_language_skips(codes.last())
    }
}

/// A finished build holds exactly the requested codes, each mapped to its
/// own language's result.
pub proof fn lemma_spec_prepare_get(codes: Seq<Seq<char>>, m: Map<Seq<char>, Seq<TokenView>>)
    requires
        spec_prepare(codes) == Ok::<Map<Seq<char>, Seq<TokenView>>, ErrorView>(m),
    ensures
        forall|k: Seq<char>| #[trigger] m.dom().contains(k) <==> codes.contains(k),
        forall|k: Seq<char>| #[trigger]
            m.dom().contains(k) ==> spec_language_tokens(k) == Ok::<Seq<TokenView>, ErrorView>(
                m[k],
            ),
    decreases codes.len(),
{
    broadcast use vstd::seq_lib::lemma_seq_contains_after_push;
    broadcast use vstd::set::group_set_axioms;
    broadcast use vstd::map::group_map_axioms;

    if codes.len() == 0 {
    } else {
        match spec_prepare(codes.drop_last()) {
            Err(e) => {},
            Ok(m0) => {
                lemma_spec_prepare_get(codes.drop_last(), m0);
                assert(codes == codes.drop_last().push(codes.last())) by {
                    assert(codes =~= codes.drop_last().push(codes.last()));
                }
                assert forall|k: Seq<char>| #[trigger]
                    m.dom().contains(k) <==> codes.contains(k) by {
                    assert(codes.drop_last().push(codes.last()).contains(k) <==> codes.last() == k
                        || codes.drop_last().contains(k));
                    assert(m.dom().contains(k) <==> k == codes.last() || m0.dom().contains(k));
                }
            },
        }
    }
}

/// Once a prefix of the codes has failed, the whole build fails the same
/// way and no later language contributes skips.
pub proof fn lemma_spec_prepare_err_prefix(codes: Seq<Seq<char>>, j: int)
    requires
        0 <= j <= codes.len(),
        spec_prepare(codes.take(j)) is Err,
    ensures
        spec_prepare(codes) == spec_prepare(codes.take(j)),
        spec_prepare_skips(codes) == spec_prepare_skips(codes.take(j)),
    decreases codes.len() - j,
{
    if j == codes.len() {
        assert(codes.take(j) =~= codes);
    } else {
        assert(codes.take(j + 1).drop_last() =~= codes.take(j));
        assert(codes.take(j + 1).len() != 0);
        lemma_spec_prepare_err_prefix(codes, j + 1);
    }
}

/// A request with an unsupported code never builds.
pub proof fn lemma_spec_prepare_unsupported(codes: Seq<Seq<char>>)
    requires
        !all_supported(codes),
    ensures
        spec_prepare(codes) is Err,
    decreases codes.len(),
{
    if codes.len() == 0 {
        assert(all_supported(codes));
    } else {
        if spec_prepare(codes.drop_last()) is Err {
        } else if !is_language_code(codes.last()) {
        } else {
            assert(!all_supported(codes.drop_last())) by {
                let i = choose|i: int| 0 <= i < codes.len() && !is_language_code(codes[i]);
                assert(codes.drop_last()[i] == codes[i]);
            }
            lemma_spec_prepare_unsupported(codes.drop_last());
        }
    }
}

/// Builds the mapping for the given codes, in input order, one entry per
/// distinct code. The build is atomic: the first hard error in processing
/// order is returned and no partial mapping is observable. Beside the
/// catalog come the patterns the look-around policy dropped.
pub fn prepare_with_skipped(v: Vec<String>) -> (r: (Result<Catalog, Error>, Vec<String>))
    ensures
        match spec_prepare(views_of(v@)) {
            Ok(m) => r.0 matches Ok(c) && c@ == m,
            Err(e) => r.0 matches Err(er) && er@ == e,
        },
        r.0 matches Ok(c) ==> c@.dom() == views_of(v@).to_set() && c.spec_keys() == dedup_keys(
            views_of(v@),
        ) && good_catalog(c@),
        !all_supported(views_of(v@)) ==> r.0 is Err,
        r.0 matches Err(e) ==> ((e@ is TokenFileImportNotSupported && !all_supported(
            views_of(v@),
        )) || e@ is ParseError || e@ is RegexError || e@ is TokenTypeNotSupported),
        spec_prepare(views_of(v@)) is Ok ==> views_of(r.1@) == spec_prepare_skips(views_of(v@)),
        forall|i: int| 0 <= i < r.1@.len() ==> pattern_skipped(#[trigger] r.1@[i]@),
{
    broadcast use vstd::seq_lib::lemma_seq_contains_after_push;

    let ghost cs = views_of(v@);
    let mut entries: Vec<(String, Vec<Token>)> = Vec::new();
    let mut skips: Vec<String> = Vec::new();
    let mut i: usize = 0;
    proof {
        assert(cs.take(0) =~= Seq::<Seq<char>>::empty());
        assert(key_views(entries@) =~= Seq::<Seq<char>>::empty());
        assert(views_of(skips@) =~= Seq::<Seq<char>>::empty());
    }
    while i < v.len()
        invariant
            cs == views_of(v@),
            i <= v@.len(),
            spec_prepare(cs.take(i as int)) == Ok::<Map<Seq<char>, Seq<TokenView>>, ErrorView>(
                entries_map(entries@),
            ),
            key_views(entries@) == dedup_keys(cs.take(i as int)),
            views_of(skips@) == spec_prepare_skips(cs.take(i as int)),
            forall|a: int, b: int|
                0 <= a < b < entries@.len() ==> entries@[a].0@ != entries@[b].0@,
            forall|k: Seq<char>| #[trigger]
                key_views(entries@).contains(k) <==> cs.take(i as int).contains(k),
            forall|j: int|
                0 <= j < entries@.len() ==> from_wf_records(
                    token_views(#[trigger] entries@[j].1@),
                ) && wf_token_list(token_views(entries@[j].1@)),
            forall|k: int| 0 <= k < skips@.len() ==> pattern_skipped(#[trigger] skips@[k]@),
        decreases v@.len() - i,
    {
        broadcast use vstd::seq_lib::lemma_seq_contains_after_push;

        let code = &v[i];
        proof {
            assert(cs.take(i + 1).drop_last() =~= cs.take(i as int));
            assert(cs.take(i + 1) =~= cs.take(i as int).push(cs[i as int]));
            assert(cs[i as int] == code@);
        }
        if !entries_contain(&entries, code.as_str()) {
            let (result, mut lang_skips) = prepare_language(code.as_str());
            let ghost old_skips = skips@;
            let ghost old_lang_skips = lang_skips@;
            skips.append(&mut lang_skips);
            proof {
                assert(views_of(skips@) =~= views_of(old_skips) + views_of(old_lang_skips));
            }
            let tokens = match result {
                Ok(ts) => ts,
                Err(e) => {
                    proof {
                        if e@ is TokenFileImportNotSupported {
                            assert(!is_language_code(cs[i as int]));
                        }
                        lemma_spec_prepare_err_prefix(cs, i + 1);
                    }
                    return (Err(e), skips);
                },
            };
            let ghost olde = entries@;
            entries.push((code.clone(), tokens));
            proof {
                assert(entries@.drop_last() =~= olde);
                assert(key_views(entries@) =~= key_views(olde).push(code@));
                lemma_key_views_membership(olde, code@);
            }
        } else {
            proof {
                broadcast use vstd::map::group_map_axioms;

                let m = entries_map(entries@);
                lemma_spec_prepare_get(cs.take(i as int), m);
                lemma_key_views_membership(entries@, code@);
                lemma_entries_map_dom(entries@);
                broadcast use vstd::set::group_set_axioms;

                assert(m.dom().contains(code@));
                assert(m.insert(code@, m[code@]) =~= m);
            }
        }
        i = i + 1;
    }
    proof {
        assert(cs.take(v@.len() as int) =~= cs);
    }
    let ghost final_entries = entries@;
    let c = Catalog::from_entries(entries);
    proof {
        broadcast use vstd::set::group_set_axioms;

        lemma_entries_map_dom(final_entries);
        assert(c@.dom() =~= cs.to_set());
        assert forall|k: Seq<char>| #[trigger]
            c@.dom().contains(k) implies from_wf_records(c@[k]) && wf_token_list(c@[k]) by {
            lemma_key_views_membership(final_entries, k);
            let j = choose|j: int| 0 <= j < final_entries.len() && final_entries[j].0@ == k;
            lemma_entries_map_get(final_entries, j);
        }
        if !all_supported(cs) {
            lemma_spec_prepare_unsupported(cs);
        }
    }
    (Ok(c), skips)
}

/// Builds the mapping for the given codes; as [`prepare_with_skipped`],
/// with the skipped patterns dropped.
pub fn prepare(v: Vec<String>) -> (r: Result<Catalog, Error>)
    ensures
        match spec_prepare(views_of(v@)) {
            Ok(m) => r matches Ok(c) && c@ == m,
            Err(e) => r matches Err(er) && er@ == e,
        },
        r matches Ok(c) ==> c@.dom() == views_of(v@).to_set() && c.spec_keys() == dedup_keys(
            views_of(v@),
        ) && good_catalog(c@),
        !all_supported(views_of(v@)) ==> r is Err,
        r matches Err(e) ==> ((e@ is TokenFileImportNotSupported && !all_supported(views_of(v@)))
            || e@ is ParseError || e@ is RegexError || e@ is TokenTypeNotSupported),
{
    let r = prepare_with_skipped(v);
    r.0
}

/// The primary entry point with diagnostics: builds the catalog for the
/// requested language codes and returns, beside it, the patterns the
/// look-around policy dropped, so the caller can report each skip. An
/// empty request means every supported language; the first unsupported
/// code is reported before any language is processed.
pub fn config_with_skipped(v: Vec<String>) -> (r: (Result<Catalog, Error>, Vec<String>))
    ensures
        (v@.len() == 0 || all_supported(views_of(v@))) ==> (match spec_prepare(
            requested_codes(v@),
        ) {
            Ok(m) => r.0 matches Ok(c) && c@ == m,
            Err(e) => r.0 matches Err(er) && er@ == e,
        }),
        r.0 matches Ok(c) ==> c@.dom() == requested_codes(v@).to_set() && c.spec_keys()
            == dedup_keys(requested_codes(v@)) && good_catalog(c@),
        v@.len() > 0 && !all_supported(views_of(v@)) ==> (r.0 matches Err(e) && {
            let j = first_unsupported(views_of(v@));
            &&& 0 <= j < v@.len()
            &&& !is_language_code(views_of(v@)[j])
            &&& forall|k: int| 0 <= k < j ==> is_language_code(#[trigger] views_of(v@)[k])
            &&& e@ == ErrorView::LanguageCodeNotSupported(views_of(v@)[j])
        }),
        r.0 matches Err(e) ==> (e@ is LanguageCodeNotSupported || e@ is ParseError
            || e@ is RegexError || e@ is TokenTypeNotSupported),
        (v@.len() == 0 || all_supported(views_of(v@))) && r.0 is Err ==> (r.0 matches Err(e) && (
        e@ is ParseError || e@ is RegexError || e@ is TokenTypeNotSupported)),
        (v@.len() == 0 || all_supported(views_of(v@))) && spec_prepare(requested_codes(v@)) is Ok
            ==> views_of(r.1@) == spec_prepare_skips(requested_codes(v@)),
        forall|i: int| 0 <= i < r.1@.len() ==> pattern_skipped(#[trigger] r.1@[i]@),
{
    if v.len() == 0 {
        let codes = language_codes();
        proof {
            assert forall|i: int|
                0 <= i < views_of(codes@).len() implies is_language_code(
                #[trigger] views_of(codes@)[i],
            ) by {
                assert(spec_language_codes().contains(spec_language_codes()[i]));
            }
        }
        prepare_with_skipped(codes)
    } else {
        match validate(&v) {
            Err(e) => {
                proof {
                    assert(views_of(Seq::<String>::empty()) =~= Seq::<Seq<char>>::empty());
                }
                (Err(e), Vec::new())
            },
            Ok(()) => prepare_with_skipped(v),
        }
    }
}

/// The primary entry point: builds the catalog for the requested language
/// codes; an empty request means every supported language, in the
/// registry's fixed alphabetical order. The first unsupported code is
/// reported before any language is processed. The result is exactly
/// [`spec_prepare`] of the requested codes.
pub fn config(v: Vec<String>) -> (r: Result<Catalog, Error>)
    ensures
        (v@.len() == 0 || all_supported(views_of(v@))) ==> (match spec_prepare(
            requested_codes(v@),
        ) {
            Ok(m) => r matches Ok(c) && c@ == m,
            Err(e) => r matches Err(er) && er@ == e,
        }),
        r matches Ok(c) ==> c@.dom() == requested_codes(v@).to_set() && c.spec_keys()
            == dedup_keys(requested_codes(v@)) && good_catalog(c@),
        v@.len() > 0 && !all_supported(views_of(v@)) ==> (r matches Err(e) && {
            let j = first_unsupported(views_of(v@));
            &&& 0 <= j < v@.len()
            &&& !is_language_code(views_of(v@)[j])
            &&& forall|k: int| 0 <= k < j ==> is_language_code(#[trigger] views_of(v@)[k])
            &&& e@ == ErrorView::LanguageCodeNotSupported(views_of(v@)[j])
        }),
        r matches Err(e) ==> (e@ is LanguageCodeNotSupported || e@ is ParseError
            || e@ is RegexError || e@ is TokenTypeNotSupported),
        (v@.len() == 0 || all_supported(views_of(v@))) && r is Err ==> (r matches Err(e) && (
        e@ is ParseError || e@ is RegexError || e@ is TokenTypeNotSupported)),
{
    let r = config_with_skipped(v);
    r.0
}

} // verus!
