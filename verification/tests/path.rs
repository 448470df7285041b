use corgi::path::{ascii_bytes, is_bare_tilde_exec, push_path, starts_with_tilde_exec, strip_tilde_exec};
use std::path::{Path, PathBuf};

#[test]
fn tilde_prefix_is_a_whole_component() {
    assert!(starts_with_tilde_exec(b"~"));
    assert!(starts_with_tilde_exec(b"~/a"));
    assert!(!starts_with_tilde_exec(b"~a"));
    assert!(!starts_with_tilde_exec(b""));
    assert!(!starts_with_tilde_exec(b"/~"));
    for p in ["~", "~/a", "~a", "", "/~", "./~", "~~", "~/"] {
        assert_eq!(starts_with_tilde_exec(p.as_bytes()), Path::new(p).starts_with("~"), "{:?}", p);
    }
}

#[test]
fn bare_tilde_compares_by_components() {
    for p in ["~", "~/", "~//", "~/.", "~/./.", "~/..", "~/a", "~.", "~/.a"] {
        assert_eq!(is_bare_tilde_exec(p.as_bytes()), Path::new(p) == Path::new("~"), "{:?}", p);
    }
}

#[test]
fn strip_tilde_drops_empty_segments_at_the_ends() {
    assert_eq!(strip_tilde_exec(b"~/Projects"), b"Projects");
    assert_eq!(strip_tilde_exec(b"~//a//b//"), b"a//b");
    assert_eq!(strip_tilde_exec(b"~/./a/./"), b"a");
    for p in ["~/a", "~//a/", "~/./a/.", "~/a/./b", "~/..", "~/.a./", "~/a/././/"] {
        let expected = Path::new(p).strip_prefix("~").unwrap().to_str().unwrap().to_string();
        assert_eq!(strip_tilde_exec(p.as_bytes()), expected.as_bytes(), "{:?}", p);
    }
}

#[test]
fn push_path_adds_a_separator_where_needed() {
    assert_eq!(push_path(b"/home/u", b"x"), b"/home/u/x");
    assert_eq!(push_path(b"/home/u/", b"x"), b"/home/u/x");
    assert_eq!(push_path(b"", b"x"), b"x");
    assert_eq!(push_path(b"/home/u", b"/etc"), b"/etc");
    for (b, r) in [("a", "b"), ("a/", "b"), ("", "b"), ("a", "/b"), ("a", ""), ("/", "b")] {
        let mut expected = PathBuf::from(b);
        expected.push(r);
        assert_eq!(push_path(b.as_bytes(), r.as_bytes()), expected.to_str().unwrap().as_bytes(), "{:?} {:?}", b, r);
    }
}

#[test]
fn ascii_text_gives_its_bytes() {
    assert_eq!(ascii_bytes("words"), b"words".to_vec());
    assert_eq!(ascii_bytes(""), Vec::<u8>::new());
    assert_eq!(ascii_bytes("~/.corgi/data"), b"~/.corgi/data".to_vec());
}
