use corgi::dir_utils::{expand_tilde, expand_tilde_with_home, expanded_file, expanded_file_with_home};
use std::path::{Path, PathBuf};

fn home() -> Vec<u8> {
    dirs::home_dir().unwrap().into_os_string().into_encoded_bytes()
}

fn bytes(s: &str) -> Vec<u8> {
    s.as_bytes().to_vec()
}

/// Expansion of `p` against `home`, on text.
fn expand_text(p: &str, home: Option<&str>) -> Option<String> {
    expand_tilde_with_home(p.as_bytes(), home.map(bytes)).map(|r| String::from_utf8(r).unwrap())
}

/// `~` expansion done with std's own path type, for comparison: the rest
/// of the path is pushed onto the home directory.
fn with_std_paths(p: &str, home: Option<&str>) -> Option<String> {
    let p = Path::new(p);
    if !p.starts_with("~") {
        return Some(p.to_str().unwrap().to_string());
    }
    if p == Path::new("~") {
        return home.map(|h| h.to_string());
    }
    home.map(|h| {
        let mut h = PathBuf::from(h);
        h.push(p.strip_prefix("~/").unwrap());
        h.to_str().unwrap().to_string()
    })
}

#[test]
fn test_expand_tilde() {
    let mut projects = home();
    projects.extend_from_slice(b"/Projects");
    assert_eq!(expand_tilde(b"~/Projects"), Some(projects));
    assert_eq!(expand_tilde(b"/foo/bar"), Some(bytes("/foo/bar")));
    assert_eq!(expand_tilde(b"~alice/projects"), Some(bytes("~alice/projects")));
}

#[test]
fn bare_tilde_is_the_home_directory() {
    assert_eq!(expand_tilde(b"~"), Some(home()));
    assert_eq!(expand_text("~", Some("/home/u")), Some("/home/u".to_string()));
    assert_eq!(expand_text("~/", Some("/home/u")), Some("/home/u".to_string()));
    assert_eq!(expand_text("~/./", Some("/home/u")), Some("/home/u".to_string()));
}

#[test]
fn tilde_path_is_joined_to_home() {
    let h = Some("/home/u");
    assert_eq!(expand_text("~/Projects", h), Some("/home/u/Projects".to_string()));
    assert_eq!(expand_text("~//a//b//", h), Some("/home/u/a//b".to_string()));
    assert_eq!(expand_text("~/./x/.", h), Some("/home/u/x".to_string()));
    assert_eq!(expand_text("~/..", h), Some("/home/u/..".to_string()));
    assert_eq!(expand_text("~/Projects", Some("/home/u/")), Some("/home/u/Projects".to_string()));
}

#[test]
fn root_home_just_drops_the_tilde() {
    assert_eq!(expand_text("~/Projects", Some("/")), Some("/Projects".to_string()));
    assert_eq!(expand_text("~/foo", Some("/")), Some("/foo".to_string()));
    assert_eq!(expand_text("~/a/b", Some("//")), Some("//a/b".to_string()));
    assert_eq!(expand_text("~", Some("/")), Some("/".to_string()));
}

#[test]
fn empty_home_leaves_the_rest() {
    assert_eq!(expand_text("~/foo", Some("")), Some("foo".to_string()));
    assert_eq!(expand_text("~", Some("")), Some(String::new()));
}

#[test]
fn paths_that_are_not_text_are_expanded_too() {
    let home = vec![b'/', b'h', 0xff, 0xfe];
    assert_eq!(
        expand_tilde_with_home(b"~/x", Some(home.clone())),
        Some(vec![b'/', b'h', 0xff, 0xfe, b'/', b'x'])
    );
    assert_eq!(expand_tilde_with_home(&[b'~', b'/', 0x80], Some(home.clone())), Some(vec![b'/', b'h', 0xff, 0xfe, b'/', 0x80]));
    assert_eq!(expand_tilde_with_home(&[0xc3, b'~'], None), Some(vec![0xc3, b'~']));
}

#[test]
fn no_home_gives_nothing_for_tilde_paths() {
    assert_eq!(expand_text("~", None), None);
    assert_eq!(expand_text("~/x", None), None);
    assert_eq!(expand_text("/x", None), Some("/x".to_string()));
}

#[test]
fn other_paths_are_unchanged() {
    for p in ["", "/", "./~", "~alice", "x/~/y", "~.", "relative/path", "/foo/bar"] {
        assert_eq!(expand_tilde(p.as_bytes()), Some(bytes(p)));
        assert_eq!(expand_text(p, None), Some(p.to_string()));
    }
}

#[test]
fn agrees_with_std_paths() {
    let paths = [
        "", "~", "~/", "~//", "~/.", "~/./", "~/..", "~/a", "~/a/", "~/a/.", "~/./a", "~//a//b//",
        "~/a/./b", "~/.a", "~/a.", "~/a/..", "~alice", "/~", "./~/a", "~/ /", "~/a/././/.", "x",
    ];
    let homes = [None, Some("/home/u"), Some("/home/u/"), Some("/"), Some("//"), Some("/."), Some("rel"), Some("/a/..")];
    for p in paths {
        for h in homes {
            assert_eq!(expand_text(p, h), with_std_paths(p, h), "path {:?} home {:?}", p, h);
        }
    }
}

#[test]
fn expanded_file_joins_the_name() {
    assert_eq!(
        expanded_file_with_home(b"~/.corgi", b"cluster.config.json", Some(bytes("/home/u"))),
        Some(bytes("/home/u/.corgi/cluster.config.json"))
    );
    assert_eq!(expanded_file_with_home(b"~/.corgi", b"x", None), None);
    assert_eq!(expanded_file(b"/etc/corgi/", b"words"), Some(bytes("/etc/corgi/words")));
    let mut server = home();
    server.extend_from_slice(b"/bin/corgi-server");
    assert_eq!(expanded_file(b"~/bin", b"corgi-server"), Some(server));
}

#[test]
fn expanding_again_changes_nothing() {
    for home in ["/home/u", "/", "/home/u/"] {
        for p in ["~", "~/a", "~/~/x", "/x", "~alice", "~//a/./"] {
            let once = expand_text(p, Some(home)).unwrap();
            assert_eq!(expand_text(&once, Some(home)), Some(once.clone()));
        }
    }
    assert_eq!(expand_text("~/~/x", Some("/")), Some("/~/x".to_string()));
}
