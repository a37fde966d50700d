//! Per-language token dictionaries for address-text normalization.
//!
//! The crate validates language codes against a fixed registry, parses raw
//! JSON token records, compiles records into typed [`Token`] values
//! (optionally compiling a regular expression from the `full` field), and
//! assembles a [`Catalog`] mapping each requested language code to its
//! ordered token list.

mod catalog;
mod data;
mod errors;
mod jsonmodel;
mod laws;
mod outside;
mod record;
mod registry;
mod strutil;
mod token;
mod token_type;

pub use catalog::config;
pub use catalog::config_with_skipped;
pub use catalog::dedup_keys;
pub use catalog::from_wf_records;
pub use catalog::good_catalog;
pub use catalog::lemma_spec_prepare_err_prefix;
pub use catalog::lemma_spec_prepare_get;
pub use catalog::lemma_spec_prepare_unsupported;
pub use catalog::prepare;
pub use catalog::prepare_with_skipped;
pub use catalog::spec_language_skips;
pub use catalog::spec_language_tokens;
pub use catalog::spec_prepare;
pub use catalog::spec_prepare_skips;
pub use catalog::prepare_language;
pub use catalog::requested_codes;
pub use catalog::wf_token_list;
pub use catalog::Catalog;
pub use data::import;
pub use data::spec_token_data;
pub use errors::Error;
pub use errors::ErrorView;
pub use laws::lemma_build_deterministic;
pub use laws::lemma_catalog_token_provenance;
pub use laws::lemma_catalog_tokens_nonempty;
pub use laws::lemma_compile_deterministic;
pub use laws::lemma_dedup_keys_distinct;
pub use laws::lemma_full_registry_keys;
pub use laws::lemma_registry_distinct;
pub use laws::lemma_new_tokens_equal;
pub use laws::lemma_record_fields_carried;
pub use laws::lemma_token_equality_ignores_compiled;
pub use laws::lemma_tokens_have_source;
pub use jsonmodel::jget;
pub use jsonmodel::JsonView;
pub use outside::json_doc_of;
pub use outside::json_error_of;
pub use outside::json_parses;
pub use outside::json_view;
pub use outside::json_views_of;
pub use outside::regex_compiles;
pub use outside::regex_error_of;
pub use record::parse_record;
pub use record::parse_records;
pub use record::spec_opt_bool;
pub use record::spec_opt_string;
pub use record::spec_opt_string_list;
pub use record::spec_opt_u8;
pub use record::spec_parse_items;
pub use record::spec_parse_record;
pub use record::spec_parse_records;
pub use record::spec_req_string;
pub use record::spec_string_list;
pub use record::wf_record;
pub use record::RawRecord;
pub use record::RawRecordView;
pub use registry::all_supported;
pub use registry::first_unsupported;
pub use registry::is_language_code;
pub use registry::is_supported;
pub use registry::language_codes;
pub use registry::spec_language_codes;
pub use registry::validate;
pub use strutil::contains_sub;
pub use strutil::is_sub_at;
pub use strutil::str_contains_sub;
pub use strutil::str_eq;
pub use strutil::views_of;
pub use strutil::views_of_opt_str;
pub use strutil::views_of_opt_vec;
pub use token::compile_all;
pub use token::compile_full;
pub use token::compile_record;
pub use token::lookaround_message;
pub use token::or_false;
pub use token::pattern_failed;
pub use token::pattern_skipped;
pub use record::record_views;
pub use token::skipped_of_records;
pub use token::spec_compile_record;
pub use token::spec_new_token;
pub use token::spec_token_of;
pub use token::token_views;
pub use token::tokens_of_records;
pub use token::view_of_pattern;
pub use token::wf_token;
pub use token::CompiledRecord;
pub use token::Pattern;
pub use token::PatternOutcome;
pub use token::RecordOutcome;
pub use token::Token;
pub use token::TokenView;
pub use token_type::token_type_of;
pub use token_type::TokenType;
