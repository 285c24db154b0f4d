use orange_core::text::measure_size;
use orange_core::text::AvailableSpace;

fn lines_of(r: &(orange_core::text::TextSize, Vec<String>)) -> Vec<&str> {
    r.1.iter().map(|s| s.as_str()).collect()
}

#[test]
fn grapheme_width_is_cluster_based() {
    // 'e' followed by a combining acute accent: two code points, one
    // user-perceived character.
    let r = measure_size("e\u{301}", None, AvailableSpace::MaxContent, true);
    assert_eq!(r.0.width, 1);
    assert_eq!(r.0.height, 1);

    let r = measure_size("e\u{301}e\u{301}", None, AvailableSpace::MaxContent, false);
    assert_eq!(r.0.width, 2);
}

#[test]
fn no_wrap_single_line_every_mode() {
    for avail in [
        AvailableSpace::Definite(1),
        AvailableSpace::MinContent,
        AvailableSpace::MaxContent,
    ] {
        for known in [None, Some(3)] {
            let r = measure_size("foo bar baz", known, avail, false);
            assert_eq!(lines_of(&r), vec!["foo bar baz"]);
            assert_eq!(r.0.width, 11);
            assert_eq!(r.0.height, 1);
        }
    }
}

#[test]
fn max_content_single_line() {
    let r = measure_size("foo bar baz", None, AvailableSpace::MaxContent, true);
    assert_eq!(lines_of(&r), vec!["foo bar baz"]);
    assert_eq!(r.0.width, 11);
    assert_eq!(r.0.height, 1);
}

#[test]
fn known_width_overrides_mode() {
    let expect = vec!["foo ", "bar baz"];
    for avail in [
        AvailableSpace::Definite(2),
        AvailableSpace::MinContent,
        AvailableSpace::MaxContent,
    ] {
        let r = measure_size("foo bar baz", Some(7), avail, true);
        assert_eq!(lines_of(&r), expect);
        assert_eq!(r.0.width, 7);
        assert_eq!(r.0.height, 2);
    }
}

#[test]
fn scenario_known_width_seven() {
    let r = measure_size("foo bar baz", Some(7), AvailableSpace::MaxContent, true);
    assert_eq!(lines_of(&r), vec!["foo ", "bar baz"]);
    assert_eq!(r.0.width, 7);
    assert_eq!(r.0.height, 2);
}

#[test]
fn scenario_min_content() {
    let r = measure_size("hello world", None, AvailableSpace::MinContent, true);
    assert_eq!(lines_of(&r), vec!["hello ", "world"]);
    assert_eq!(r.0.width, 6);
    assert_eq!(r.0.height, 2);
}

#[test]
fn min_content_one_line_per_word() {
    let r = measure_size("a bb ccc dddd", None, AvailableSpace::MinContent, true);
    assert_eq!(lines_of(&r), vec!["a ", "bb ", "ccc ", "dddd"]);
    assert_eq!(r.0.height, 4);

    let r = measure_size("", None, AvailableSpace::MinContent, true);
    assert_eq!(r.1.len(), 0);
    assert_eq!(r.0.height, 0);
    assert_eq!(r.0.width, 0);
}

#[test]
fn scenario_leading_spaces_preserved() {
    let r = measure_size("  foo", Some(5), AvailableSpace::MaxContent, true);
    assert_eq!(lines_of(&r), vec!["  foo"]);

    let r = measure_size("  foo", Some(3), AvailableSpace::MaxContent, true);
    assert_eq!(lines_of(&r), vec!["  ", "foo"]);
    assert!(r.1[0].starts_with("  "));

    let r = measure_size("  foo", None, AvailableSpace::Definite(8), true);
    assert_eq!(lines_of(&r), vec!["  foo"]);
}

#[test]
fn no_empty_lines_pushed() {
    let cases = [
        ("x", Some(0)),
        ("foo bar", Some(1)),
        ("   ", Some(2)),
        ("a  b", Some(0)),
        ("wide word", Some(100)),
    ];
    for (text, known) in cases {
        for avail in [
            AvailableSpace::Definite(1),
            AvailableSpace::MinContent,
            AvailableSpace::MaxContent,
        ] {
            for k in [known, None] {
                let r = measure_size(text, k, avail, true);
                for line in &r.1 {
                    assert!(!line.is_empty());
                }
            }
        }
    }
}

#[test]
fn definite_wraps_at_width() {
    let r = measure_size("one two three", None, AvailableSpace::Definite(8), true);
    assert_eq!(lines_of(&r), vec!["one two ", "three"]);
    assert_eq!(r.0.width, 8);
    assert_eq!(r.0.height, 2);
}

#[test]
fn oversized_word_still_placed() {
    let r = measure_size("extraordinary a", None, AvailableSpace::Definite(3), true);
    assert_eq!(lines_of(&r), vec!["extraordinary ", "a"]);

    let r = measure_size("empty", Some(0), AvailableSpace::MaxContent, true);
    assert_eq!(lines_of(&r), vec!["empty"]);
}

#[test]
fn empty_text_sizes() {
    let r = measure_size("", None, AvailableSpace::MaxContent, true);
    assert_eq!(lines_of(&r), vec![""]);
    assert_eq!(r.0.width, 0);
    assert_eq!(r.0.height, 1);

    let r = measure_size("", Some(4), AvailableSpace::MaxContent, true);
    assert_eq!(r.1.len(), 0);
    assert_eq!(r.0.width, 0);
    assert_eq!(r.0.height, 0);

    let r = measure_size("", None, AvailableSpace::MaxContent, false);
    assert_eq!(lines_of(&r), vec![""]);
    assert_eq!(r.0.height, 1);
}

#[test]
fn whitespace_only_text() {
    let r = measure_size("   ", None, AvailableSpace::Definite(2), true);
    assert_eq!(lines_of(&r), vec!["   "]);
    assert_eq!(r.0.width, 3);
    assert_eq!(r.0.height, 1);
}

#[test]
fn wrapping_preserves_content() {
    let texts = ["foo bar baz", "  foo", "foo ", "a  b   c", "", "   ", "one two three four"];
    let modes = [
        (None, AvailableSpace::Definite(4)),
        (None, AvailableSpace::MinContent),
        (None, AvailableSpace::MaxContent),
        (Some(0), AvailableSpace::MaxContent),
        (Some(7), AvailableSpace::MinContent),
    ];
    for text in texts {
        for (known, avail) in modes {
            for wrap in [true, false] {
                let r = measure_size(text, known, avail, wrap);
                let rebuilt: String = r.1.concat();
                assert_eq!(rebuilt, text);
            }
        }
    }
}

#[test]
fn other_whitespace_becomes_spaces() {
    // Tokenization counts whitespace characters and the wrap puts spaces
    // back in their place, so a tab comes back as a space.
    let r = measure_size("a\tb", Some(10), AvailableSpace::MaxContent, true);
    assert_eq!(lines_of(&r), vec!["a b"]);
}
