use phira_monitor::text::{contains_marker, remove_marker, tween_text, TextTween};

fn chars(s: &str) -> Vec<char> {
    s.chars().collect()
}

fn text(t: TextTween) -> String {
    match t {
        TextTween::Text(v) => v.into_iter().collect(),
        TextTween::Numeric { .. } => panic!("numeric"),
    }
}

#[test]
fn text_grows_from_empty() {
    assert_eq!(text(tween_text(&chars(""), &chars("hello"), 0, 10)), "");
    assert_eq!(text(tween_text(&chars(""), &chars("hello"), 5, 10)), "hel");
    assert_eq!(text(tween_text(&chars(""), &chars("hello"), 10, 10)), "hello");
    assert_eq!(text(tween_text(&chars("hello"), &chars(""), 5, 10)), "hel");
    assert_eq!(text(tween_text(&chars("hello"), &chars(""), 8, 10)), "h");
    assert_eq!(text(tween_text(&chars("hello"), &chars(""), 10, 10)), "");
}

#[test]
fn text_along_a_common_prefix() {
    assert_eq!(text(tween_text(&chars("ab"), &chars("abcdef"), 1, 2)), "abcd");
    assert_eq!(text(tween_text(&chars("ab"), &chars("abcde"), 1, 2)), "abc");
    assert_eq!(text(tween_text(&chars("abcde"), &chars("ab"), 1, 2)), "abcd");
    assert_eq!(text(tween_text(&chars("abc"), &chars("xyz"), 1, 2)), "abc");
    assert_eq!(text(tween_text(&chars("a%P%c"), &chars("xyz"), 1, 2)), "ac");
    assert_eq!(text(tween_text(&chars(""), &chars(""), 1, 2)), "");
}

#[test]
fn numbers_with_marker() {
    let from = chars("%P%10");
    let to = chars("%P%20");
    assert_eq!(text(tween_text(&from, &to, 0, 100)), "10");
    assert_eq!(text(tween_text(&from, &to, 100, 100)), "20");
    assert_eq!(
        tween_text(&from, &to, 30, 100),
        TextTween::Numeric { from: chars("10"), to: chars("20"), elapsed: 30, span: 100 }
    );
    assert!(contains_marker(&chars("x%P%")));
    assert!(!contains_marker(&chars("%P")));
    assert_eq!(remove_marker(&chars("%P%%P%1%P")), chars("1%P"));
}

#[test]
fn overshooting_progress_is_held_at_the_ends() {
    assert_eq!(text(tween_text(&chars(""), &chars("hello"), -3, 10)), "");
    assert_eq!(text(tween_text(&chars(""), &chars("hello"), 13, 10)), "hello");
    assert_eq!(text(tween_text(&chars("ab"), &chars("abcdef"), -1, 2)), "ab");
    assert_eq!(text(tween_text(&chars("ab"), &chars("abcdef"), 3, 2)), "abcdef");
    assert_eq!(text(tween_text(&chars("abcde"), &chars("ab"), -1, 2)), "abcde");
    assert_eq!(text(tween_text(&chars("hello"), &chars(""), -5, 10)), "hello");
    assert_eq!(text(tween_text(&chars("%P%1"), &chars("%P%2"), -5, 10)), "1");
    assert_eq!(text(tween_text(&chars("%P%1"), &chars("%P%2"), 15, 10)), "2");
}
