//! The token model and the compiler from raw records to tokens.

use vstd::prelude::*;

use crate::errors::Error;
use crate::errors::ErrorView;
use crate::outside::regex_compiles;
use crate::outside::regex_error_of;
use crate::outside::regex_new;
use crate::record::record_views;
use crate::record::RawRecord;
use crate::record::RawRecordView;
use crate::strutil::clone_opt_string;
use crate::strutil::clone_opt_strings;
use crate::strutil::clone_strings;
use crate::strutil::contains_sub;
use crate::strutil::opt_str_eq;
use crate::strutil::opt_u8_eq;
use crate::strutil::opt_vec_str_eq;
use crate::strutil::str_contains_sub;
use crate::strutil::str_eq;
use crate::strutil::vec_str_eq;
use crate::strutil::views_of;
use crate::token_type::token_type_of;
use crate::token_type::TokenType;

verus! {

/// A compiled pattern together with its source text. Patterns are compared
/// by source text: compiled representations are not comparable.
#[derive(Debug)]
pub struct Pattern {
    source: String,
    compiled: regex::Regex,
}

impl View for Pattern {
    type V = Seq<char>;

    closed spec fn view(&self) -> Seq<char> {
        self.source@
    }
}

impl Pattern {
    /// The source text the pattern was compiled from.
    pub fn source(&self) -> (s: &str)
        ensures
            s@ == self@,
    {
        self.source.as_str()
    }

    /// The compiled pattern, for a consumer that matches text.
    pub fn compiled(&self) -> &regex::Regex {
        &self.compiled
    }
}

/// The canonical unit of normalization knowledge.
#[derive(Debug)]
pub struct Token {
    /// All surface forms recognized as this token; never empty.
    pub tokens: Vec<String>,
    /// The expanded/canonical-source text this token represents.
    pub full: String,
    /// The pattern compiled from `full`, when the record requested regex
    /// matching; `None` otherwise.
    pub regex: Option<Pattern>,
    /// The preferred normalized form to substitute.
    pub canonical: String,
    /// Free-text annotation, without semantic effect.
    pub note: Option<String>,
    /// Country codes the token is restricted to; absent = unrestricted.
    pub only_countries: Option<Vec<String>>,
    /// Address layers the token is restricted to; absent = unrestricted.
    pub only_layers: Option<Vec<String>>,
    /// Prefer the full form over the canonical one during substitution.
    pub prefer_full: bool,
    /// Disable word-boundary enforcement when matching.
    pub skip_boundaries: bool,
    /// Disable diacritic normalization before matching.
    pub skip_diacritic_stripping: bool,
    /// Number of adjacent tokens a match may span.
    pub span_boundaries: Option<u8>,
    /// Classification into the closed token-type set; absent means
    /// unclassified.
    pub token_type: Option<TokenType>,
}

/// The mathematical shape of a [`Token`]. A pattern appears as its source
/// text alone, so the view ignores compiled representations.
#[verifier::ext_equal]
pub struct TokenView {
    pub tokens: Seq<Seq<char>>,
    pub full: Seq<char>,
    pub regex: Option<Seq<char>>,
    pub canonical: Seq<char>,
    pub note: Option<Seq<char>>,
    pub only_countries: Option<Seq<Seq<char>>>,
    pub only_layers: Option<Seq<Seq<char>>>,
    pub prefer_full: bool,
    pub skip_boundaries: bool,
    pub skip_diacritic_stripping: bool,
    pub span_boundaries: Option<u8>,
    pub token_type: Option<TokenType>,
}

/// The view of an optional pattern: its source text.
pub open spec fn view_of_pattern(p: Option<Pattern>) -> Option<Seq<char>> {
    match p {
        None => None,
        Some(q) => Some(q@),
    }
}

impl View for Token {
    type V = TokenView;

    open spec fn view(&self) -> TokenView {
        TokenView {
            tokens: views_of(self.tokens@),
            full: self.full@,
            regex: view_of_pattern(self.regex),
            canonical: self.canonical@,
            note: crate::strutil::views_of_opt_str(self.note),
            only_countries: crate::strutil::views_of_opt_vec(self.only_countries),
            only_layers: crate::strutil::views_of_opt_vec(self.only_layers),
            prefer_full: self.prefer_full,
            skip_boundaries: self.skip_boundaries,
            skip_diacritic_stripping: self.skip_diacritic_stripping,
            span_boundaries: self.span_boundaries,
            token_type: self.token_type,
        }
    }
}

/// A well-formed token: at least one surface form.
pub open spec fn wf_token(t: TokenView) -> bool {
    t.tokens.len() > 0
}

/// Equality of optional patterns, by source text.
fn opt_pattern_eq(a: &Option<Pattern>, b: &Option<Pattern>) -> (r: bool)
    ensures
        r == (view_of_pattern(*a) == view_of_pattern(*b)),
{
    match (a, b) {
        (None, None) => true,
        (Some(x), Some(y)) => str_eq(x.source(), y.source()),
        _ => false,
    }
}

/// Equality of optional token types.
fn opt_token_type_eq(a: &Option<TokenType>, b: &Option<TokenType>) -> (r: bool)
    ensures
        r == (*a == *b),
{
    match (a, b) {
        (None, None) => true,
        (Some(x), Some(y)) => *x == *y,
        _ => false,
    }
}

impl PartialEq for Token {
    /// Tokens are equal when all fields agree, patterns compared by their
    /// source text rather than their compiled representation.
    fn eq(&self, other: &Self) -> (r: bool) {
        let r = opt_pattern_eq(&self.regex, &other.regex) && vec_str_eq(
            &self.tokens,
            &other.tokens,
        ) && str_eq(self.full.as_str(), other.full.as_str()) && str_eq(
            self.canonical.as_str(),
            other.canonical.as_str(),
        ) && opt_str_eq(&self.note, &other.note) && opt_vec_str_eq(
            &self.only_countries,
            &other.only_countries,
        ) && opt_vec_str_eq(&self.only_layers, &other.only_layers) && self.prefer_full
            == other.prefer_full && self.skip_boundaries == other.skip_boundaries
            && self.skip_diacritic_stripping == other.skip_diacritic_stripping && opt_u8_eq(
            &self.span_boundaries,
            &other.span_boundaries,
        ) && opt_token_type_eq(&self.token_type, &other.token_type);
        proof {
            if r {
                assert(self@ =~= other@);
            }
        }
        r
    }
}

impl vstd::std_specs::cmp::PartialEqSpecImpl for Token {
    open spec fn obeys_eq_spec() -> bool {
        true
    }

    open spec fn eq_spec(&self, other: &Self) -> bool {
        self@ == other@
    }
}

/// The message by which the matching engine reports look-around use.
pub open spec fn lookaround_message() -> Seq<char> {
    "look-around, including look-ahead and look-behind, is not supported"@
}

/// The pattern does not compile, and the failure reports look-around use:
/// the record is dropped rather than failing the build.
pub open spec fn pattern_skipped(p: Seq<char>) -> bool {
    &&& !regex_compiles(p)
    &&& contains_sub(regex_error_of(p), lookaround_message())
}

/// The pattern does not compile for any other reason: a hard error.
pub open spec fn pattern_failed(p: Seq<char>) -> bool {
    &&& !regex_compiles(p)
    &&& !contains_sub(regex_error_of(p), lookaround_message())
}

/// The three outcomes of compiling a record's `full` as a pattern.
pub enum PatternOutcome {
    /// The pattern compiled.
    Compiled(Pattern),
    /// Compilation failed over look-around use: drop the record.
    SkippedLookaround,
    /// Compilation failed for any other reason: a hard error.
    Failed(String),
}

/// Compiles `full` as a pattern, classifying a failure as recoverable
/// (look-around use) or hard.
pub fn compile_full(full: &str) -> (r: PatternOutcome)
    ensures
        r matches PatternOutcome::Compiled(p) ==> regex_compiles(full@) && p@ == full@,
        regex_compiles(full@) ==> r is Compiled,
        r is SkippedLookaround <==> pattern_skipped(full@),
        r matches PatternOutcome::Failed(m) ==> pattern_failed(full@) && m@ == regex_error_of(
            full@,
        ),
{
    match regex_new(full) {
        Ok(re) => PatternOutcome::Compiled(Pattern { source: full.to_owned(), compiled: re }),
        Err(m) => {
            if str_contains_sub(
                m.as_str(),
                "look-around, including look-ahead and look-behind, is not supported",
            ) {
                PatternOutcome::SkippedLookaround
            } else {
                PatternOutcome::Failed(m)
            }
        },
    }
}

/// The token that a direct construction yields: `tokens` seeded with the
/// canonical and full forms, all optional fields at their defaults.
pub open spec fn spec_new_token(
    full: Seq<char>,
    canonical: Seq<char>,
    token_type: Option<TokenType>,
    regex: bool,
) -> TokenView {
    TokenView {
        tokens: seq![canonical, full],
        full: full,
        regex: if regex {
            Some(full)
        } else {
            None
        },
        canonical: canonical,
        note: None,
        only_countries: None,
        only_layers: None,
        prefer_full: false,
        skip_boundaries: false,
        skip_diacritic_stripping: false,
        span_boundaries: None,
        token_type: token_type,
    }
}

impl Token {
    /// Directly constructs an ad-hoc token outside the catalog pipeline,
    /// seeding `tokens` with `[canonical, full]`. When `regex` is set, any
    /// compilation failure — look-around use included — is a hard error.
    pub fn new(full: String, canonical: String, token_type: Option<TokenType>, regex: bool) -> (r:
        Result<Token, Error>)
        ensures
            regex && !regex_compiles(full@) ==> (r matches Err(e) && e@ == ErrorView::RegexError(
                regex_error_of(full@),
            )),
            (!regex || regex_compiles(full@)) ==> (r matches Ok(t) && t@ == spec_new_token(
                full@,
                canonical@,
                token_type,
                regex,
            ) && wf_token(t@)),
    {
        let pattern: Option<Pattern> = if regex {
            match regex_new(full.as_str()) {
                Ok(re) => Some(Pattern { source: full.clone(), compiled: re }),
                Err(m) => {
                    return Err(Error::RegexError(m));
                },
            }
        } else {
            None
        };
        let mut tokens: Vec<String> = Vec::new();
        tokens.push(canonical.clone());
        tokens.push(full.clone());
        let t = Token {
            tokens,
            full,
            regex: pattern,
            canonical,
            note: None,
            only_countries: None,
            only_layers: None,
            prefer_full: false,
            skip_boundaries: false,
            skip_diacritic_stripping: false,
            span_boundaries: None,
            token_type,
        };
        proof {
            assert(t@ =~= spec_new_token(t.full@, t.canonical@, token_type, regex));
        }
        Ok(t)
    }
}

/// The default of an optional boolean record field.
pub open spec fn or_false(b: Option<bool>) -> bool {
    b == Some(true)
}

/// The token a record compiles to when nothing goes wrong: all fields
/// carried over unchanged, defaults applied to the absent ones.
pub open spec fn spec_token_of(r: RawRecordView) -> TokenView {
    TokenView {
        tokens: r.tokens,
        full: r.full,
        regex: if r.regex == Some(true) {
            Some(r.full)
        } else {
            None
        },
        canonical: r.canonical,
        note: r.note,
        only_countries: r.only_countries,
        only_layers: r.only_layers,
        prefer_full: or_false(r.prefer_full),
        skip_boundaries: or_false(r.skip_boundaries),
        skip_diacritic_stripping: or_false(r.skip_diacritic_stripping),
        span_boundaries: r.span_boundaries,
        token_type: match r.token_type {
            None => None,
            Some(s) => token_type_of(s),
        },
    }
}

/// The three outcomes of compiling one record.
pub enum RecordOutcome {
    /// The record became a token.
    Tok(TokenView),
    /// The record was dropped over look-around use in its pattern.
    Skip,
    /// The record aborts the build.
    Fail(ErrorView),
}

/// What compiling one record yields. A requested pattern is compiled
/// first: a look-around failure drops the record, any other failure is a
/// hard error. Then the raw `type` string must map into the closed
/// token-type set.
pub open spec fn spec_compile_record(r: RawRecordView) -> RecordOutcome {
    if r.regex == Some(true) && !regex_compiles(r.full) {
        if pattern_skipped(r.full) {
            RecordOutcome::Skip
        } else {
            RecordOutcome::Fail(ErrorView::RegexError(regex_error_of(r.full)))
        }
    } else {
        match r.token_type {
            None => RecordOutcome::Tok(spec_token_of(r)),
            Some(s) => match token_type_of(s) {
                None => RecordOutcome::Fail(ErrorView::TokenTypeNotSupported(s)),
                Some(_) => RecordOutcome::Tok(spec_token_of(r)),
            },
        }
    }
}

/// One compiled record, as executable data.
pub enum CompiledRecord {
    /// The record became a token.
    Tok(Token),
    /// The record was dropped over look-around use in its pattern.
    Skip,
    /// The record aborts the build.
    Fail(Error),
}

/// Compiles one raw record into a token, applying the defaults of the
/// optional fields, the token-type mapping and the look-around skip
/// policy.
pub fn compile_record(rec: &RawRecord) -> (r: CompiledRecord)
    ensures
        r matches CompiledRecord::Tok(t) ==> spec_compile_record(rec@) == RecordOutcome::Tok(t@),
        r is Skip ==> spec_compile_record(rec@) == RecordOutcome::Skip,
        r matches CompiledRecord::Fail(e) ==> spec_compile_record(rec@) == RecordOutcome::Fail(e@),
{
    let want_regex = match rec.regex {
        Some(b) => b,
        None => false,
    };
    let pattern: Option<Pattern> = if want_regex {
        match compile_full(rec.full.as_str()) {
            PatternOutcome::Compiled(p) => Some(p),
            PatternOutcome::SkippedLookaround => {
                return CompiledRecord::Skip;
            },
            PatternOutcome::Failed(m) => {
                return CompiledRecord::Fail(Error::RegexError(m));
            },
        }
    } else {
        None
    };
    let token_type: Option<TokenType> = match &rec.token_type {
        None => None,
        Some(s) => match TokenType::from_str(s.as_str()) {
            Ok(t) => Some(t),
            Err(e) => {
                return CompiledRecord::Fail(e);
            },
        },
    };
    let t = Token {
        tokens: clone_strings(&rec.tokens),
        full: rec.full.clone(),
        regex: pattern,
        canonical: rec.canonical.clone(),
        note: clone_opt_string(&rec.note),
        only_countries: clone_opt_strings(&rec.only_countries),
        only_layers: clone_opt_strings(&rec.only_layers),
        prefer_full: match rec.prefer_full {
            Some(b) => b,
            None => false,
        },
        skip_boundaries: match rec.skip_boundaries {
            Some(b) => b,
            None => false,
        },
        skip_diacritic_stripping: match rec.skip_diacritic_stripping {
            Some(b) => b,
            None => false,
        },
        span_boundaries: rec.span_boundaries,
        token_type,
    };
    proof {
        assert(t@ =~= spec_token_of(rec@));
    }
    CompiledRecord::Tok(t)
}

/// The views of a sequence of tokens.
pub open spec fn token_views(s: Seq<Token>) -> Seq<TokenView> {
    s.map_values(|t: Token| t@)
}

/// What compiling a whole record sequence yields: the surviving tokens in
/// source order, or the first hard error.
pub open spec fn tokens_of_records(rs: Seq<RawRecordView>) -> Result<Seq<TokenView>, ErrorView>
    decreases rs.len(),
{
    if rs.len() == 0 {
        Ok(Seq::empty())
    } else {
        match tokens_of_records(rs.drop_last()) {
            Err(e) => Err(e),
            Ok(ts) => match spec_compile_record(rs.last()) {
                RecordOutcome::Fail(e) => Err(e),
                RecordOutcome::Skip => Ok(ts),
                RecordOutcome::Tok(t) => Ok(ts.push(t)),
            },
        }
    }
}

/// The `full` texts of the records that the look-around policy drops, in
/// source order, up to the first hard error.
pub open spec fn skipped_of_records(rs: Seq<RawRecordView>) -> Seq<Seq<char>>
    decreases rs.len(),
{
    if rs.len() == 0 {
        Seq::empty()
    } else if tokens_of_records(rs.drop_last()) is Err {
        skipped_of_records(rs.drop_last())
    } else if spec_compile_record(rs.last()) is Skip {
        skipped_of_records(rs.drop_last()).push(rs.last().full)
    } else {
        skipped_of_records(rs.drop_last())
    }
}

/// Once a prefix of the records has failed, the whole sequence fails the
/// same way, and no further record is skipped.
pub proof fn lemma_tokens_of_records_err_prefix(rs: Seq<RawRecordView>, j: int)
    requires
        0 <= j <= rs.len(),
        tokens_of_records(rs.take(j)) is Err,
    ensures
        tokens_of_records(rs) == tokens_of_records(rs.take(j)),
        skipped_of_records(rs) == skipped_of_records(rs.take(j)),
    decreases rs.len() - j,
{
    if j == rs.len() {
        assert(rs.take(j) =~= rs);
    } else {
        assert(rs.take(j + 1).drop_last() =~= rs.take(j));
        assert(rs.take(j + 1).len() != 0);
        lemma_tokens_of_records_err_prefix(rs, j + 1);
    }
}

/// Compiles every record of a language, in source order, dropping records
/// whose pattern uses look-around and aborting on the first hard error.
/// Beside the tokens it returns the `full` texts of the dropped records,
/// so that a caller can emit the diagnostic the skip policy owes.
pub fn compile_all(records: &Vec<RawRecord>) -> (r: (Result<Vec<Token>, Error>, Vec<String>))
    ensures
        r.0 matches Ok(ts) ==> tokens_of_records(record_views(records@)) == Ok::<
            Seq<TokenView>,
            ErrorView,
        >(token_views(ts@)),
        r.0 matches Err(e) ==> tokens_of_records(record_views(records@)) == Err::<
            Seq<TokenView>,
            ErrorView,
        >(e@),
        views_of(r.1@) == skipped_of_records(record_views(records@)),
        forall|i: int| 0 <= i < r.1@.len() ==> pattern_skipped(#[trigger] r.1@[i]@),
{
    let ghost rvs = record_views(records@);
    let mut out: Vec<Token> = Vec::new();
    let mut skipped: Vec<String> = Vec::new();
    let mut i: usize = 0;
    proof {
        assert(rvs.take(0) =~= Seq::<RawRecordView>::empty());
        assert(token_views(out@) =~= Seq::<TokenView>::empty());
        assert(views_of(skipped@) =~= Seq::<Seq<char>>::empty());
    }
    while i < records.len()
        invariant
            rvs == record_views(records@),
            i <= records@.len(),
            tokens_of_records(rvs.take(i as int)) == Ok::<Seq<TokenView>, ErrorView>(
                token_views(out@),
            ),
            views_of(skipped@) == skipped_of_records(rvs.take(i as int)),
            forall|k: int| 0 <= k < skipped@.len() ==> pattern_skipped(#[trigger] skipped@[k]@),
        decreases records@.len() - i,
    {
        proof {
            assert(rvs.take(i + 1).drop_last() =~= rvs.take(i as int));
            assert(rvs.take(i + 1).last() == rvs[i as int]);
            assert(rvs[i as int] == records@[i as int]@);
        }
        let ghost old_out = out@;
        let ghost old_skipped = skipped@;
        match compile_record(&records[i]) {
            CompiledRecord::Tok(t) => {
                out.push(t);
                proof {
                    assert(token_views(out@) =~= token_views(old_out).push(t@));
                }
            },
            CompiledRecord::Skip => {
                skipped.push(records[i].full.clone());
                proof {
                    assert(views_of(skipped@) =~= views_of(old_skipped).push(
                        records@[i as int].full@,
                    ));
                }
            },
            CompiledRecord::Fail(e) => {
                proof {
                    assert(tokens_of_records(rvs.take(i + 1)) is Err);
                    lemma_tokens_of_records_err_prefix(rvs, i + 1);
                }
                return (Err(e), skipped);
            },
        }
        i = i + 1;
    }
    proof {
        assert(rvs.take(records@.len() as int) =~= rvs);
    }
    (Ok(out), skipped)
}

} // verus!
