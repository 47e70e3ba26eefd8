use chat_bridge::sanitizer::truncate_message;

#[test]
fn short_message_is_unchanged() {
    assert_eq!(truncate_message("hello", 10), "hello");
    assert_eq!(truncate_message("", 0), "");
    assert_eq!(truncate_message("", 500), "");
}

#[test]
fn message_of_exactly_the_bound_is_unchanged() {
    assert_eq!(truncate_message("0123456789", 10), "0123456789");
}

#[test]
fn eleven_bytes_cut_to_ten() {
    let out = truncate_message("hello world", 10);
    assert_eq!(out, "hello w...");
    assert_eq!(out.len(), 10);
}

#[test]
fn long_ascii_message_has_exactly_the_bound() {
    let long = "x".repeat(1000);
    let out = truncate_message(&long, 500);
    assert_eq!(out.len(), 500);
    assert_eq!(&out[..497], &long[..497]);
    assert_eq!(&out[497..], "...");
}

#[test]
fn cut_falls_back_to_a_character_boundary() {
    // 'a' 'b' then a three-byte sign: four bytes of room end inside the sign.
    let out = truncate_message("ab\u{20ac}cd\u{20ac}ef", 7);
    assert_eq!(out, "ab...");
    assert!(out.len() <= 7);
}

#[test]
fn cut_on_a_boundary_between_wide_characters() {
    // h, a two-byte letter, l, l, o and a space make up the seven bytes kept.
    let out = truncate_message("h\u{e9}llo w\u{f6}rld", 10);
    assert_eq!(out, "h\u{e9}llo ...");
    assert_eq!(out.len(), 10);
}

#[test]
fn only_wide_characters() {
    // Four-byte characters: with bound 9 six bytes are free, one character fits.
    let out = truncate_message("\u{1f600}\u{1f600}\u{1f600}", 9);
    assert_eq!(out, "\u{1f600}...");
    assert_eq!(out.len(), 7);
}

#[test]
fn bound_of_three_leaves_only_the_marker() {
    assert_eq!(truncate_message("hello", 3), "...");
}

#[test]
fn bound_below_three_shortens_the_marker() {
    assert_eq!(truncate_message("hello", 2), "..");
    assert_eq!(truncate_message("hello", 1), ".");
    assert_eq!(truncate_message("hello", 0), "");
    assert_eq!(truncate_message("h", 0), "");
}

#[test]
fn result_never_exceeds_the_bound() {
    let samples = [
        "",
        "a",
        "hello world",
        "h\u{e9}llo w\u{f6}rld",
        "\u{20ac}\u{20ac}\u{20ac}\u{20ac}",
        "\u{1f600}x\u{1f600}y\u{1f600}",
        "mixed \u{4e2d}\u{6587} text with \u{e9}\u{e8} accents",
    ];
    for s in samples {
        for n in 0..40usize {
            let out = truncate_message(s, n);
            assert!(out.len() <= n, "{:?} cut to {} gave {:?}", s, n, out);
            if s.len() <= n {
                assert_eq!(out, s);
            } else {
                let marker = if n >= 3 { "..." } else { &"..."[..n] };
                assert!(out.ends_with(marker));
                let kept = &out[..out.len() - marker.len()];
                assert!(s.starts_with(kept));
                // The cut is the last boundary that leaves room for the marker.
                let limit = n.saturating_sub(3);
                assert!(kept.len() <= limit);
                for k in kept.len() + 1..=limit {
                    assert!(!s.is_char_boundary(k));
                }
            }
        }
    }
}
