use rmf_sandbox::decimal::{fmt_usize, parse_usize_str};
use rmf_sandbox::floor_plan::{parse_vertices, render_vertices, split_on_commas};

#[test]
fn fmt_renders_canonical_decimals() {
    assert_eq!(fmt_usize(0), "0");
    assert_eq!(fmt_usize(7), "7");
    assert_eq!(fmt_usize(10), "10");
    assert_eq!(fmt_usize(90125), "90125");
    assert_eq!(fmt_usize(usize::MAX), usize::MAX.to_string());
}

#[test]
fn parse_accepts_plain_numerals() {
    assert_eq!(parse_usize_str("0"), Some(0));
    assert_eq!(parse_usize_str("42"), Some(42));
    assert_eq!(parse_usize_str("007"), Some(7));
    assert_eq!(parse_usize_str("+5"), Some(5));
    assert_eq!(parse_usize_str("+0"), Some(0));
}

#[test]
fn parse_rejects_malformed_numerals() {
    assert_eq!(parse_usize_str(""), None);
    assert_eq!(parse_usize_str("+"), None);
    assert_eq!(parse_usize_str("4 2"), None);
    assert_eq!(parse_usize_str(" 42"), None);
    assert_eq!(parse_usize_str("42 "), None);
    assert_eq!(parse_usize_str("-1"), None);
    assert_eq!(parse_usize_str("4x"), None);
    assert_eq!(parse_usize_str("++1"), None);
}

#[test]
fn parse_rejects_overflow() {
    assert_eq!(parse_usize_str("18446744073709551615"), Some(usize::MAX));
    assert_eq!(parse_usize_str("18446744073709551616"), None);
    assert_eq!(parse_usize_str("999999999999999999999999"), None);
}

#[test]
fn split_keeps_every_part() {
    assert_eq!(split_on_commas(""), vec!["".to_string()]);
    assert_eq!(split_on_commas("a,b"), vec!["a".to_string(), "b".to_string()]);
    assert_eq!(
        split_on_commas(",1,"),
        vec!["".to_string(), "1".to_string(), "".to_string()]
    );
}

#[test]
fn render_joins_with_commas() {
    assert_eq!(render_vertices(&vec![]), "");
    assert_eq!(render_vertices(&vec![5]), "5");
    assert_eq!(render_vertices(&vec![1, 2, 3]), "1,2,3");
    assert_eq!(render_vertices(&vec![10, 0, 90125]), "10,0,90125");
}

#[test]
fn parse_accepts_full_lists() {
    assert_eq!(parse_vertices("1,2,3"), Some(vec![1, 2, 3]));
    assert_eq!(parse_vertices("0"), Some(vec![0]));
    assert_eq!(parse_vertices("+5,007"), Some(vec![5, 7]));
}

#[test]
fn parse_of_empty_text_is_the_empty_list() {
    assert_eq!(parse_vertices(""), Some(vec![]));
}

#[test]
fn parse_consumes_one_trailing_bad_part() {
    // The parse takes values while parts parse; the failing part is
    // consumed before the leftover check, so a bad *last* part slips
    // through and the values before it are kept.
    assert_eq!(parse_vertices("1,x"), Some(vec![1]));
    assert_eq!(parse_vertices("1,"), Some(vec![1]));
    assert_eq!(parse_vertices("x"), Some(vec![]));
    assert_eq!(parse_vertices("99999999999999999999999"), Some(vec![]));
}

#[test]
fn parse_rejects_a_bad_part_before_the_end() {
    assert_eq!(parse_vertices("1,x,2"), None);
    assert_eq!(parse_vertices(",1"), None);
    assert_eq!(parse_vertices("1,,2"), None);
    assert_eq!(parse_vertices("99999999999999999999999,1"), None);
}

#[test]
fn rendered_lists_read_back_as_themselves() {
    let samples: Vec<Vec<usize>> = vec![
        vec![],
        vec![0],
        vec![1, 2, 3],
        vec![0, 0, 0],
        vec![usize::MAX, 0, 90125],
    ];
    for v in samples {
        let text = render_vertices(&v);
        assert_eq!(parse_vertices(&text), Some(v));
    }
}
