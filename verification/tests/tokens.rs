use address_tokens::compile_all;
use address_tokens::config_with_skipped;
use address_tokens::compile_record;
use address_tokens::config;
use address_tokens::import;
use address_tokens::language_codes;
use address_tokens::parse_records;
use address_tokens::prepare;
use address_tokens::CompiledRecord;
use address_tokens::Error;
use address_tokens::RawRecord;
use address_tokens::Token;
use address_tokens::TokenType;

fn record(full: &str, canonical: &str) -> RawRecord {
    RawRecord {
        tokens: vec![String::from(canonical), String::from(full)],
        full: String::from(full),
        canonical: String::from(canonical),
        note: None,
        only_countries: None,
        only_layers: None,
        prefer_full: None,
        regex: None,
        skip_boundaries: None,
        skip_diacritic_stripping: None,
        span_boundaries: None,
        token_type: None,
    }
}

#[test]
fn test_config() {
    let lcs = config(vec![String::from("de"), String::from("en")]).unwrap();
    assert_eq!(lcs.len(), 2);
    assert!(lcs.contains_key("de"));
    assert!(lcs.contains_key("en"));

    let empty_lc = config(Vec::new()).unwrap();
    let every_lc = prepare(language_codes()).unwrap();
    assert_eq!(empty_lc.len(), every_lc.len());
    for lc in language_codes() {
        assert!(empty_lc.contains_key(lc.as_str()));
    }
}

#[test]
#[should_panic(expected = "LanguageCodeNotSupported(\"zz\")")]
fn fail_config() {
    config(vec![String::from("zz")]).unwrap();
}

#[test]
fn test_prepare() {
    let lcs = prepare(vec![String::from("de"), String::from("en")]).unwrap();
    assert_eq!(lcs.len(), 2);
    assert!(lcs.contains_key("de"));
    assert!(lcs.contains_key("en"));
}

#[test]
#[should_panic(expected = "TokenFileImportNotSupported(\"zz\")")]
fn fail_import() {
    import("zz").unwrap();
}

#[test]
fn test_token_values() {
    let map = config(Vec::new()).unwrap();

    for lc in map.keys() {
        let tokens = map.get(lc.as_str()).unwrap();
        for tk in tokens {
            assert!(tk.tokens.len() > 0);
            match &tk.only_layers {
                Some(l) => {
                    assert_eq!(l[0], "address");
                    assert_eq!(l.len(), 1);
                },
                _ => (),
            }
        }
    }
}

#[test]
fn test_make_token() {
    let t = Token::new(String::from("St"), String::from("Street"), None, false).unwrap();
    assert_eq!(t.tokens, vec![String::from("Street"), String::from("St")]);
    assert_eq!(t.full, "St");
    assert_eq!(t.canonical, "Street");
    assert!(t.regex.is_none());
    assert!(t.note.is_none());
    assert!(t.only_countries.is_none());
    assert!(t.only_layers.is_none());
    assert!(!t.prefer_full);
    assert!(!t.skip_boundaries);
    assert!(!t.skip_diacritic_stripping);
    assert!(t.span_boundaries.is_none());
    assert!(t.token_type.is_none());
}

#[test]
fn test_make_token_with_regex() {
    let t = Token::new(String::from("^St[.]?$"), String::from("Street"), None, true).unwrap();
    let p = t.regex.as_ref().unwrap();
    assert_eq!(p.source(), "^St[.]?$");
    assert!(p.compiled().is_match("St."));
    assert!(!p.compiled().is_match("Av."));
}

#[test]
fn test_token_equality_by_pattern_source() {
    let a = Token::new(String::from("^St$"), String::from("Street"), None, true).unwrap();
    let b = Token::new(String::from("^St$"), String::from("Street"), None, true).unwrap();
    assert!(a == b);

    let c = Token::new(String::from("^Av$"), String::from("Street"), None, true).unwrap();
    assert!(a != c);

    let d = Token::new(String::from("^St$"), String::from("Street"), None, false).unwrap();
    assert!(a != d);
}

#[test]
fn test_token_type_mappings() {
    assert_eq!(TokenType::from_str("box").unwrap(), TokenType::PostalBox);
    assert_eq!(TokenType::from_str("cardinal").unwrap(), TokenType::Cardinal);
    assert_eq!(TokenType::from_str("number").unwrap(), TokenType::Number);
    assert_eq!(TokenType::from_str("ordinal").unwrap(), TokenType::Ordinal);
    assert_eq!(TokenType::from_str("unit").unwrap(), TokenType::Unit);
    assert_eq!(TokenType::from_str("way").unwrap(), TokenType::Way);
    assert_eq!(
        TokenType::from_str("bogus").unwrap_err(),
        Error::TokenTypeNotSupported(String::from("bogus"))
    );
    assert_eq!(
        TokenType::from_str("Box").unwrap_err(),
        Error::TokenTypeNotSupported(String::from("Box"))
    );
}

#[test]
fn test_make_token_regex_failure() {
    let r = Token::new(String::from("((("), String::from("Street"), None, true);
    match r {
        Err(Error::RegexError(m)) => assert!(!m.is_empty()),
        other => panic!("expected a pattern error, got {:?}", other),
    }
}

#[test]
fn test_lookaround_record_skipped() {
    let mut rec = record("(?=St)", "Street");
    rec.regex = Some(true);
    assert!(matches!(compile_record(&rec), CompiledRecord::Skip));

    let records = vec![rec, record("Ave", "Avenue")];
    let (result, skipped) = compile_all(&records);
    let tokens = result.unwrap();
    assert_eq!(tokens.len(), 1);
    assert_eq!(tokens[0].full, "Ave");
    assert_eq!(skipped, vec![String::from("(?=St)")]);
}

#[test]
fn test_hard_regex_error_aborts_compile() {
    let mut rec = record("(((", "Street");
    rec.regex = Some(true);
    let (r, skipped) = compile_all(&vec![record("Ave", "Avenue"), rec]);
    assert!(skipped.is_empty());
    match r {
        Err(Error::RegexError(m)) => assert!(!m.is_empty()),
        other => panic!("expected a pattern error, got {:?}", other),
    }
}

#[test]
fn test_unsupported_token_type_aborts_compile() {
    let mut rec = record("St", "Street");
    rec.token_type = Some(String::from("bogus"));
    let (r, _) = compile_all(&vec![rec]);
    assert_eq!(r.unwrap_err(), Error::TokenTypeNotSupported(String::from("bogus")));
}

#[test]
fn test_compile_applies_defaults() {
    let mut rec = record("St", "Street");
    rec.only_layers = Some(vec![String::from("address")]);
    rec.prefer_full = Some(true);
    rec.token_type = Some(String::from("way"));
    match compile_record(&rec) {
        CompiledRecord::Tok(t) => {
            assert_eq!(t.tokens, vec![String::from("Street"), String::from("St")]);
            assert_eq!(t.only_layers, Some(vec![String::from("address")]));
            assert!(t.prefer_full);
            assert!(!t.skip_boundaries);
            assert!(!t.skip_diacritic_stripping);
            assert!(t.regex.is_none());
            assert_eq!(t.token_type, Some(TokenType::Way));
        },
        _ => panic!("expected a token"),
    }
}

#[test]
fn test_parse_records_reads_fields() {
    let raw = "[{\"tokens\":[\"Street\",\"St\"],\"full\":\"St\",\"canonical\":\"Street\",\
               \"onlyLayers\":[\"address\"],\"preferFull\":true,\"regex\":false,\
               \"spanBoundaries\":2,\"type\":\"way\",\"note\":\"n\"}]";
    let records = parse_records(raw).unwrap();
    assert_eq!(records.len(), 1);
    let r = &records[0];
    assert_eq!(r.tokens, vec![String::from("Street"), String::from("St")]);
    assert_eq!(r.full, "St");
    assert_eq!(r.canonical, "Street");
    assert_eq!(r.only_layers, Some(vec![String::from("address")]));
    assert_eq!(r.only_countries, None);
    assert_eq!(r.prefer_full, Some(true));
    assert_eq!(r.regex, Some(false));
    assert_eq!(r.skip_boundaries, None);
    assert_eq!(r.span_boundaries, Some(2));
    assert_eq!(r.token_type, Some(String::from("way")));
    assert_eq!(r.note, Some(String::from("n")));
}

#[test]
fn test_parse_records_structural_errors() {
    assert!(matches!(parse_records("not json"), Err(Error::ParseError(_))));
    assert!(matches!(parse_records("{}"), Err(Error::ParseError(_))));
    assert!(matches!(parse_records("[1]"), Err(Error::ParseError(_))));
    assert!(matches!(
        parse_records("[{\"full\":\"St\",\"canonical\":\"Street\"}]"),
        Err(Error::ParseError(_))
    ));
    assert!(matches!(
        parse_records("[{\"tokens\":[],\"full\":\"St\",\"canonical\":\"Street\"}]"),
        Err(Error::ParseError(_))
    ));
    assert!(matches!(
        parse_records("[{\"tokens\":[\"St\",3],\"full\":\"St\",\"canonical\":\"Street\"}]"),
        Err(Error::ParseError(_))
    ));
    assert!(matches!(
        parse_records(
            "[{\"tokens\":[\"St\"],\"full\":\"St\",\"canonical\":\"Street\",\"spanBoundaries\":300}]"
        ),
        Err(Error::ParseError(_))
    ));
    assert!(matches!(
        parse_records(
            "[{\"tokens\":[\"St\"],\"full\":\"St\",\"canonical\":\"Street\",\"regex\":\"yes\"}]"
        ),
        Err(Error::ParseError(_))
    ));
}

#[test]
fn test_parse_records_null_is_absent() {
    let raw = "[{\"tokens\":[\"St\"],\"full\":\"St\",\"canonical\":\"Street\",\
               \"note\":null,\"onlyLayers\":null,\"preferFull\":null,\"spanBoundaries\":null}]";
    let records = parse_records(raw).unwrap();
    assert_eq!(records[0].note, None);
    assert_eq!(records[0].only_layers, None);
    assert_eq!(records[0].prefer_full, None);
    assert_eq!(records[0].span_boundaries, None);
}

#[test]
fn test_import_feeds_the_pipeline() {
    let raw = import("en").unwrap();
    let records = parse_records(raw).unwrap();
    assert_eq!(records.len(), 4);
    let (result, skipped) = compile_all(&records);
    let tokens = result.unwrap();
    assert!(skipped.is_empty());
    assert_eq!(tokens.len(), 4);
    assert_eq!(tokens[0].full, "St");
    assert_eq!(tokens[0].canonical, "Street");
    assert_eq!(tokens[2].token_type, Some(TokenType::PostalBox));
    assert_eq!(tokens[3].token_type, Some(TokenType::Cardinal));
}

#[test]
fn test_catalog_keys_are_the_request() {
    let lcs = config(vec![String::from("fr"), String::from("it")]).unwrap();
    assert_eq!(lcs.len(), 2);
    assert!(lcs.contains_key("fr"));
    assert!(lcs.contains_key("it"));
    assert!(!lcs.contains_key("en"));
    assert!(lcs.get("en").is_none());
    assert_eq!(lcs.get("fr").unwrap().len(), 2);
}

#[test]
fn test_duplicate_codes_collapse() {
    let lcs = config(vec![String::from("de"), String::from("de")]).unwrap();
    assert_eq!(lcs.len(), 1);
    assert!(lcs.contains_key("de"));
}

#[test]
fn test_build_twice_identical() {
    let a = config(vec![String::from("de"), String::from("en")]).unwrap();
    let b = config(vec![String::from("de"), String::from("en")]).unwrap();
    assert_eq!(a.len(), b.len());
    let keys_a = a.keys();
    let keys_b = b.keys();
    assert_eq!(keys_a, keys_b);
    for k in keys_a {
        let ta = a.get(k.as_str()).unwrap();
        let tb = b.get(k.as_str()).unwrap();
        assert_eq!(ta.len(), tb.len());
        for i in 0..ta.len() {
            assert!(ta[i] == tb[i]);
        }
    }
}

#[test]
fn test_config_with_skipped_reports_no_drops_for_clean_data() {
    let (result, skipped) = config_with_skipped(vec![String::from("en")]);
    let lcs = result.unwrap();
    assert_eq!(lcs.len(), 1);
    assert!(lcs.contains_key("en"));
    assert!(skipped.is_empty());
}

#[test]
fn test_skipped_patterns_satisfy_the_policy() {
    let mut a = record("(?=St)", "Street");
    a.regex = Some(true);
    let mut b = record("(?<=x)y", "Y");
    b.regex = Some(true);
    let records = vec![a, record("Rd", "Road"), b];
    let (result, skipped) = compile_all(&records);
    assert_eq!(result.unwrap().len(), 1);
    assert_eq!(skipped, vec![String::from("(?=St)"), String::from("(?<=x)y")]);
}

#[test]
fn test_empty_request_matches_full_build() {
    let empty_lc = config(Vec::new()).unwrap();
    let every_lc = prepare(language_codes()).unwrap();
    assert_eq!(empty_lc.len(), every_lc.len());
    for lc in language_codes() {
        let a = empty_lc.get(lc.as_str()).unwrap();
        let b = every_lc.get(lc.as_str()).unwrap();
        assert_eq!(a.len(), b.len());
        for i in 0..a.len() {
            assert!(a[i] == b[i]);
        }
    }
}
