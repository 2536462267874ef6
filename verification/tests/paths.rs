use path_permission::path::{current, holder, parent, terminate, DOT, SEPARATOR};
use std::path::Path;

fn parent_str(path: &str) -> Option<String> {
    parent(path.as_bytes()).map(|dir| String::from_utf8(dir).unwrap())
}

fn std_parent(path: &str) -> Option<String> {
    match Path::new(path).parent() {
        Some(dir) => {
            let text = dir.to_str().unwrap();
            if text.is_empty() {
                None
            } else {
                Some(text.to_string())
            }
        }
        None => None,
    }
}

#[test]
fn separator_and_dot() {
    assert_eq!(SEPARATOR, b'/');
    assert_eq!(DOT, b'.');
    assert_eq!(current(), b"./".to_vec());
}

#[test]
fn terminate_appends_zero() {
    assert_eq!(terminate(b"/tmp/x"), b"/tmp/x\0".to_vec());
    assert_eq!(terminate(b""), vec![0u8]);
    assert_eq!(terminate(b"a"), vec![b'a', 0]);
}

#[test]
fn terminate_keeps_every_byte() {
    let raw = [0xffu8, 0x00, 0x2f, 0x80];
    assert_eq!(terminate(&raw), vec![0xff, 0x00, 0x2f, 0x80, 0x00]);
    let long: Vec<u8> = (0..1000).map(|i| (i % 251) as u8 + 1).collect();
    let buffer = terminate(&long);
    assert_eq!(buffer.len(), 1001);
    assert_eq!(&buffer[..1000], &long[..]);
    assert_eq!(buffer[1000], 0);
}

#[test]
fn parent_of_absolute_paths() {
    assert_eq!(parent_str("/a/b"), Some("/a".to_string()));
    assert_eq!(parent_str("/a/b/c"), Some("/a/b".to_string()));
    assert_eq!(parent_str("/a"), Some("/".to_string()));
    assert_eq!(parent_str("/usr/local/bin"), Some("/usr/local".to_string()));
}

#[test]
fn parent_of_relative_paths() {
    assert_eq!(parent_str("a/b"), Some("a".to_string()));
    assert_eq!(parent_str("a/b/c"), Some("a/b".to_string()));
    assert_eq!(parent_str("./a"), Some(".".to_string()));
    assert_eq!(parent_str("../a"), Some("..".to_string()));
    assert_eq!(parent_str("a/.."), Some("a".to_string()));
}

#[test]
fn parent_passes_over_trailing_separators_and_dots() {
    assert_eq!(parent_str("a/b/"), Some("a".to_string()));
    assert_eq!(parent_str("a/b//"), Some("a".to_string()));
    assert_eq!(parent_str("a//b"), Some("a".to_string()));
    assert_eq!(parent_str("a/./b"), Some("a".to_string()));
    assert_eq!(parent_str("a/b/."), Some("a".to_string()));
    assert_eq!(parent_str("/a/./"), Some("/".to_string()));
    assert_eq!(parent_str("/./a"), Some("/".to_string()));
    assert_eq!(parent_str("//a"), Some("/".to_string()));
    assert_eq!(parent_str("././a"), Some(".".to_string()));
    assert_eq!(parent_str("/.."), Some("/".to_string()));
}

#[test]
fn no_parent_for_bare_names_roots_and_empty() {
    assert_eq!(parent_str("a"), None);
    assert_eq!(parent_str("file.txt"), None);
    assert_eq!(parent_str(".hidden"), None);
    assert_eq!(parent_str("a/"), None);
    assert_eq!(parent_str("a/."), None);
    assert_eq!(parent_str("."), None);
    assert_eq!(parent_str(".."), None);
    assert_eq!(parent_str("./"), None);
    assert_eq!(parent_str("./."), None);
    assert_eq!(parent_str("/"), None);
    assert_eq!(parent_str("//"), None);
    assert_eq!(parent_str("/."), None);
    assert_eq!(parent_str("/./"), None);
    assert_eq!(parent_str(""), None);
}

#[test]
fn parent_works_on_raw_bytes() {
    let raw = [0xffu8, b'/', 0xfe, 0x00, b'/', 0x80];
    assert_eq!(parent(&raw), Some(vec![0xff, b'/', 0xfe, 0x00]));
    assert_eq!(parent(&[0xffu8, 0xfe]), None);
}

fn check_against_std(path: &str) {
    assert_eq!(parent_str(path), std_parent(path), "path {:?}", path);
}

#[test]
fn parent_agrees_with_std_on_all_short_paths() {
    let alphabet = ['/', '.', 'a', 'b'];
    let mut paths: Vec<String> = vec![String::new()];
    let mut frontier: Vec<String> = vec![String::new()];
    for _ in 0..8 {
        let mut next = Vec::new();
        for stem in &frontier {
            for c in alphabet {
                let mut longer = stem.clone();
                longer.push(c);
                next.push(longer);
            }
        }
        paths.extend(next.iter().cloned());
        frontier = next;
    }
    assert_eq!(paths.len(), 87381);
    for path in &paths {
        check_against_std(path);
    }
}

#[test]
fn parent_agrees_with_std_on_named_paths() {
    for path in [
        "/tmp/new/dir/file",
        "/var/log/../log/syslog",
        "relative/dir/file.txt",
        "./relative/./dir//file.txt/",
        "/",
        "",
        "README.md",
        "../..",
        "/a/b/c/../../d/./e//",
        "a/b/...",
        "a/.../b",
        ".../a",
    ] {
        check_against_std(path);
    }
}

#[test]
fn parent_is_a_shorter_nonempty_prefix() {
    for path in ["/a/b", "a/b/", "./a", "/a", "a//b//c", "/x/./y/."] {
        let dir = parent(path.as_bytes()).unwrap();
        assert!(!dir.is_empty());
        assert!(dir.len() < path.len());
        assert_eq!(&path.as_bytes()[..dir.len()], &dir[..]);
    }
}

#[test]
fn walking_up_ends() {
    let mut path = b"/a/b/c/d/e".to_vec();
    let mut seen = vec![];
    while let Some(dir) = parent(&path) {
        seen.push(String::from_utf8(dir.clone()).unwrap());
        path = dir;
    }
    assert_eq!(seen, vec!["/a/b/c/d", "/a/b/c", "/a/b", "/a", "/"]);
}

#[test]
fn holder_is_parent_or_current_dir() {
    assert_eq!(holder(b"/tmp/file"), b"/tmp".to_vec());
    assert_eq!(holder(b"dir/file"), b"dir".to_vec());
    assert_eq!(holder(b"/file"), b"/".to_vec());
    assert_eq!(holder(b"file"), b"./".to_vec());
    assert_eq!(holder(b"/"), b"./".to_vec());
    assert_eq!(holder(b""), b"./".to_vec());
    assert_eq!(holder(b"./"), b"./".to_vec());
}
