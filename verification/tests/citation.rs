use corvid_runtime::citation::citation_verified;

#[test]
fn citation_verified_accepts_four_word_phrase() {
    assert!(citation_verified(
        "alpha beta gamma delta epsilon",
        "The answer cites beta gamma delta epsilon."
    ));
}

#[test]
fn citation_verified_rejects_unrelated_response() {
    assert!(!citation_verified(
        "alpha beta gamma delta epsilon",
        "unrelated response"
    ));
}

#[test]
fn citation_blank_context_is_never_cited() {
    assert!(!citation_verified("   \t ", "anything at all"));
    assert!(!citation_verified("", ""));
}

#[test]
fn citation_short_context_needs_whole_trimmed_context() {
    assert!(citation_verified("  Alpha Beta ", "we saw ALPHA BETA here"));
    assert!(!citation_verified("alpha beta gamma", "alpha beta only"));
}

#[test]
fn citation_is_case_insensitive_and_collapses_whitespace_in_context() {
    assert!(citation_verified(
        "One\ttwo   THREE\nfour five",
        "quote: one two three four"
    ));
    assert!(!citation_verified(
        "one two three four",
        "one two  three four"
    ));
}
