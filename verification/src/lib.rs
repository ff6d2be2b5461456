mod compile;
mod engine;
mod errors;
mod laws;
mod matching;
mod translate;

pub use compile::{
    colon_split_at, contains_char, count_char, domain_of, invalid_reason, localpart_of,
    parse_pattern, parse_patterns, parse_patterns_vector, pattern_body, pattern_compiles,
    translated, valid_pattern, vec_string_to_str_slice,
};
pub use laws::{lemma_compile_idempotent, lemma_match_order_independent};
pub use matching::match_user_id;
pub use engine::{regex_compiles, regex_match, CompiledMatcher};
pub use errors::{
    reason_empty_part, reason_more_than_one_at, reason_not_fully_qualified,
    reason_wrong_part_count, PatternError,
};
pub use translate::{
    escaped_char, is_regex_meta, translate_char, translate_segment, wildcard_fragment,
};
