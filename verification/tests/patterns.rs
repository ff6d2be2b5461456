use idmatch::{match_user_id, parse_pattern, parse_patterns_vector, PatternError};

fn check_case(
    rules: Vec<String>,
    expected_regexes: Vec<String>,
    input: String,
    expected_allowed: bool,
) {
    let regexes = parse_patterns_vector(&rules).unwrap();

    for (i, regex) in regexes.iter().enumerate() {
        assert_eq!(regex.as_str(), expected_regexes[i].as_str());
    }

    let allowed = match_user_id(&input, &regexes);
    assert_eq!(allowed, expected_allowed);
}

#[test]
fn ensure_working() {
    // Simple: direct match
    check_case(
        vec!["@someone:example.com".to_owned()],
        vec![r"^@someone:example\.com$".to_owned()],
        "@someone:example.com".to_owned(),
        true,
    );
    // Simple: no match
    check_case(
        vec!["@someone:example.com".to_owned()],
        vec![r"^@someone:example\.com$".to_owned()],
        "@another:example.com".to_owned(),
        false,
    );
    // Single rule: Username wildcard
    check_case(
        vec!["@bot.*:example.com".to_owned()],
        vec![r"^@bot\.([^:@]*):example\.com$".to_owned()],
        "@bot.one:example.com".to_owned(),
        true,
    );
    check_case(
        vec!["@bot.*:example.com".to_owned()],
        vec![r"^@bot\.([^:@]*):example\.com$".to_owned()],
        "@bot.two:example.com".to_owned(),
        true,
    );
    check_case(
        vec!["@bot.*:example.com".to_owned()],
        vec![r"^@bot\.([^:@]*):example\.com$".to_owned()],
        "@another:example.com".to_owned(),
        false,
    );
    // Single rule: Domain wildcard
    check_case(
        vec!["@bot:*.com".to_owned()],
        vec![r"^@bot:([^:@]*)\.com$".to_owned()],
        "@bot:example.com".to_owned(),
        true,
    );
    check_case(
        vec!["@bot:*.com".to_owned()],
        vec![r"^@bot:([^:@]*)\.com$".to_owned()],
        "@bot:another.com".to_owned(),
        true,
    );
    check_case(
        vec!["@bot:*.com".to_owned()],
        vec![r"^@bot:([^:@]*)\.com$".to_owned()],
        "@bot:another.org".to_owned(),
        false,
    );
    // Multi rule: Domain wildcard
    check_case(
        vec!["@bot.*:*.com".to_owned(), "@someone:example.com".to_owned()],
        vec![
            r"^@bot\.([^:@]*):([^:@]*)\.com$".to_owned(),
            r"^@someone:example\.com$".to_owned(),
        ],
        "@bot.one:example.com".to_owned(),
        true,
    );
    check_case(
        vec!["@bot.*:*.com".to_owned(), "@someone:example.com".to_owned()],
        vec![
            r"^@bot\.([^:@]*):([^:@]*)\.com$".to_owned(),
            r"^@someone:example\.com$".to_owned(),
        ],
        "@someone:example.com".to_owned(),
        true,
    );
    check_case(
        vec!["@bot.*:*.com".to_owned(), "@someone:example.com".to_owned()],
        vec![
            r"^@bot\.([^:@]*):([^:@]*)\.com$".to_owned(),
            r"^@someone:example\.com$".to_owned(),
        ],
        "@bot-dashed:example.com".to_owned(),
        false,
    );
    check_case(
        vec!["@bot.*:*.com".to_owned(), "@someone:example.com".to_owned()],
        vec![
            r"^@bot\.([^:@]*):([^:@]*)\.com$".to_owned(),
            r"^@someone:example\.com$".to_owned(),
        ],
        "@another:example.com".to_owned(),
        false,
    );
}

fn compile_one(pattern: &str) -> Vec<idmatch::CompiledMatcher> {
    parse_patterns_vector(&[pattern.to_owned()]).unwrap()
}

#[test]
fn exact_pattern_accepts_only_the_exact_string() {
    let set = compile_one("@someone:example.com");
    assert!(match_user_id("@someone:example.com", &set));
    // Differing in a single character, at various positions.
    assert!(!match_user_id("@xomeone:example.com", &set));
    assert!(!match_user_id("@someonX:example.com", &set));
    assert!(!match_user_id("@someone:Xxample.com", &set));
    assert!(!match_user_id("@someone:example.coX", &set));
    assert!(!match_user_id("Xsomeone:example.com", &set));
    // Longer, shorter, or empty candidates fail as well.
    assert!(!match_user_id("@someone:example.comm", &set));
    assert!(!match_user_id("@someone:example.co", &set));
    assert!(!match_user_id("", &set));
    // No substring acceptance: the match is anchored on both sides.
    assert!(!match_user_id("x@someone:example.com", &set));
    assert!(!match_user_id("@someone:example.com-and-more", &set));
}

#[test]
fn localpart_wildcard_stays_inside_its_segment() {
    let set = compile_one("@bot.*:example.com");
    assert!(match_user_id("@bot.one:example.com", &set));
    assert!(match_user_id("@bot.two:example.com", &set));
    assert!(match_user_id("@bot.:example.com", &set));
    assert!(!match_user_id("@another:example.com", &set));
    // The wildcard span may not swallow a structural separator.
    assert!(!match_user_id("@bot.a:b:example.com", &set));
    assert!(!match_user_id("@bot.a@b:example.com", &set));
}

#[test]
fn domain_wildcard_stays_inside_its_segment() {
    let set = compile_one("@bot:*.com");
    assert!(match_user_id("@bot:example.com", &set));
    assert!(match_user_id("@bot:another.com", &set));
    assert!(!match_user_id("@bot:another.org", &set));
    assert!(!match_user_id("@bot:a:b.com", &set));
}

fn expect_invalid(pattern: &str, expected_reason: &str) {
    match parse_pattern(pattern) {
        Err(PatternError::InvalidPattern(reason)) => assert_eq!(reason, expected_reason),
        Err(PatternError::RegexError(_)) => panic!("expected InvalidPattern, got RegexError"),
        Ok(_) => panic!("expected InvalidPattern, got a matcher"),
    }
}

#[test]
fn missing_leading_at_is_rejected() {
    expect_invalid(
        "someone:example.com",
        "patterns need to be fully-qualified, starting with a @",
    );
    expect_invalid("", "patterns need to be fully-qualified, starting with a @");
}

#[test]
fn second_at_is_rejected() {
    expect_invalid("@a@b:c", "patterns cannot contain more than one @");
    expect_invalid("@@:c", "patterns cannot contain more than one @");
}

#[test]
fn wrong_part_count_is_rejected() {
    expect_invalid(
        "@onlylocalpart",
        "expected exactly 2 parts in the pattern, separated by :",
    );
    expect_invalid(
        "@a:b:c",
        "expected exactly 2 parts in the pattern, separated by :",
    );
}

#[test]
fn empty_parts_are_rejected() {
    expect_invalid("@:domain", "rejecting empty part");
    expect_invalid("@local:", "rejecting empty part");
    expect_invalid("@:", "rejecting empty part");
}

#[test]
fn batch_compile_fails_fast_on_first_invalid_pattern() {
    let rules = vec![
        "@ok:example.com".to_owned(),
        "@a:b:c".to_owned(),
        "no-at-sign".to_owned(),
    ];
    match parse_patterns_vector(&rules) {
        Err(PatternError::InvalidPattern(reason)) => {
            // The second rule fails first; the third is never reached.
            assert_eq!(reason, "expected exactly 2 parts in the pattern, separated by :");
        },
        _ => panic!("expected InvalidPattern"),
    }
}

#[test]
fn multi_rule_set_is_a_disjunction_in_either_order() {
    let rules = vec!["@bot.*:*.com".to_owned(), "@someone:example.com".to_owned()];
    let reversed = vec!["@someone:example.com".to_owned(), "@bot.*:*.com".to_owned()];
    let set = parse_patterns_vector(&rules).unwrap();
    let set_reversed = parse_patterns_vector(&reversed).unwrap();
    for candidate in [
        "@bot.one:example.com",
        "@someone:example.com",
        "@bot-dashed:example.com",
        "@another:example.com",
        "",
    ] {
        assert_eq!(
            match_user_id(candidate, &set),
            match_user_id(candidate, &set_reversed),
        );
    }
    assert!(match_user_id("@bot.one:example.com", &set));
    assert!(match_user_id("@someone:example.com", &set));
    assert!(!match_user_id("@bot-dashed:example.com", &set));
    assert!(!match_user_id("@another:example.com", &set));
}

#[test]
fn empty_pattern_set_allows_nobody() {
    let set = parse_patterns_vector(&[]).unwrap();
    assert!(!match_user_id("@someone:example.com", &set));
    assert!(!match_user_id("", &set));
}

#[test]
fn compiling_twice_gives_equivalent_matchers() {
    let first = compile_one("@bot.*:*.com");
    let second = compile_one("@bot.*:*.com");
    assert_eq!(first[0].as_str(), second[0].as_str());
    for candidate in [
        "@bot.one:example.com",
        "@bot.:x.com",
        "@bot.one:example.org",
        "@elsewhere:example.com",
        "@bot.a:b:c.com",
        "",
    ] {
        assert_eq!(
            match_user_id(candidate, &first),
            match_user_id(candidate, &second),
        );
    }
}

#[test]
fn engine_metacharacters_are_matched_literally() {
    let set = compile_one("@someone:example.com");
    // `.` is a literal dot, not "any character".
    assert!(!match_user_id("@someone:exampleXcom", &set));

    let plus = compile_one("@a+b:c.com");
    assert!(match_user_id("@a+b:c.com", &plus));
    assert!(!match_user_id("@ab:c.com", &plus));
    assert!(!match_user_id("@aab:c.com", &plus));

    // An unbalanced parenthesis survives compilation and matches itself.
    let paren = compile_one("@a(b:c.com");
    assert_eq!(paren[0].as_str(), r"^@a\(b:c\.com$");
    assert!(match_user_id("@a(b:c.com", &paren));
    assert!(!match_user_id("@ab:c.com", &paren));
}

#[test]
fn wildcard_only_segments_cannot_cross_separators() {
    let set = compile_one("@*:*");
    assert!(match_user_id("@anything:anywhere", &set));
    assert!(match_user_id("@:", &set));
    assert!(!match_user_id("anything:anywhere", &set));
    assert!(!match_user_id("@a:b:c", &set));
    assert!(!match_user_id("@a@b:c", &set));
}

#[test]
fn oversized_assembled_pattern_surfaces_the_engine_error() {
    // Each wildcard becomes a capturing group; enough of them push the
    // compiled program over the engine's default size limit.
    let mut localpart = String::new();
    for _ in 0..200_000 {
        localpart.push('*');
    }
    let pattern = format!("@{}:example.com", localpart);
    match parse_pattern(&pattern) {
        Err(PatternError::RegexError(_)) => {},
        Err(PatternError::InvalidPattern(_)) => panic!("expected RegexError"),
        Ok(_) => panic!("expected the engine to reject the oversized pattern"),
    }
}
