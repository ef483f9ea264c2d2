use pasta::{get_path_str, DecorationRequest};

#[test]
fn request_keeps_what_it_was_given() {
    let r = DecorationRequest::new(r"C:\foo", "[", true);
    assert_eq!(r.path(), r"C:\foo");
    assert_eq!(r.wrapper(), "[");
    assert!(r.escape());
    let r = DecorationRequest::new("", "", false);
    assert_eq!(r.path(), "");
    assert_eq!(r.wrapper(), "");
    assert!(!r.escape());
}

#[test]
fn request_decorates_as_asked() {
    assert_eq!(DecorationRequest::new(r"C:\foo\bar.txt", "", false).decorate(), r"C:\foo\bar.txt");
    assert_eq!(DecorationRequest::new(r"C:\foo\bar.txt", "]", false).decorate(), r"[C:\foo\bar.txt]");
    assert_eq!(DecorationRequest::new(r"C:\foo\bar.txt", "`", true).decorate(), r"`C:\\foo\\bar.txt`");
    assert_eq!(
        DecorationRequest::new(r"C:\foo\bar.txt", "abc", true).decorate(),
        r"abcC:\\foo\\bar.txtabc"
    );
}

#[test]
fn request_agrees_with_the_function() {
    for p in ["", r"a\b", "x y"] {
        for w in ["", "(", ">", "ab", "\\"] {
            for e in [false, true] {
                assert_eq!(DecorationRequest::new(p, w, e).decorate(), get_path_str(p, w, e));
            }
        }
    }
}

#[test]
fn request_can_be_decorated_again() {
    let r = DecorationRequest::new("p", "{", false);
    assert_eq!(r.decorate(), "{p}");
    assert_eq!(r.decorate(), "{p}");
}

#[test]
fn missing_token_is_the_empty_token() {
    let r = DecorationRequest::from_arguments(r"C:\foo", None, false);
    assert_eq!(r.path(), r"C:\foo");
    assert_eq!(r.wrapper(), "");
    assert!(!r.escape());
    assert_eq!(r.decorate(), r"C:\foo");
    assert_eq!(DecorationRequest::from_arguments(r"C:\foo", None, true).decorate(), r"C:\\foo");
}

#[test]
fn given_token_is_kept() {
    let r = DecorationRequest::from_arguments("p", Some(">"), true);
    assert_eq!(r.wrapper(), ">");
    assert!(r.escape());
    assert_eq!(r.decorate(), "<p>");
    assert_eq!(DecorationRequest::from_arguments("p", Some(""), false).decorate(), "p");
    assert_eq!(DecorationRequest::from_arguments("p", Some("ab"), false).decorate(), "abpab");
}
