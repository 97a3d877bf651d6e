use guard_and_guide::cli::{expand_tilde, version};

fn expand(path: &str, home: Option<&str>) -> String {
    String::from_utf8(expand_tilde(path.as_bytes(), home.map(|h| h.as_bytes()))).unwrap()
}

#[test]
fn version_prefers_git_hash_of_unversioned_build() {
    assert_eq!(version("0.0.0", "abc123"), "abc123");
    assert_eq!(version("0.0.0", ""), "0.0.0");
    assert_eq!(version("1.2.3", "abc123"), "1.2.3");
}

#[test]
fn expand_tilde_with_home() {
    assert_eq!(
        expand("~/.config/guard-and-guide/rules.toml", Some("/home/u")),
        "/home/u/.config/guard-and-guide/rules.toml"
    );
    assert_eq!(expand("~/x", Some("/home/u/")), "/home/u/x");
    assert_eq!(expand("~/x", Some("")), "x");
    assert_eq!(expand("~//etc/x", Some("/home/u")), "/etc/x");
    assert_eq!(expand("~/", Some("/home/u")), "/home/u/");
}

#[test]
fn expand_tilde_without_prefix_or_home() {
    assert_eq!(expand("~/x", None), "~/x");
    assert_eq!(expand("/etc/rules.toml", Some("/home/u")), "/etc/rules.toml");
    assert_eq!(expand("~x", Some("/home/u")), "~x");
    assert_eq!(expand("~", Some("/home/u")), "~");
    assert_eq!(expand("", Some("/home/u")), "");
}

#[test]
fn expand_tilde_keeps_non_unicode_home() {
    let home: &[u8] = b"/home/\xff\xfe";
    assert_eq!(expand_tilde(b"~/r.toml", Some(home)), b"/home/\xff\xfe/r.toml".to_vec());
}

#[test]
fn expand_tilde_agrees_with_path_join() {
    for (home, rest) in [("/h", "a/b"), ("/h/", "a"), ("", "a"), ("/h", "/abs"), ("/h", "")] {
        let expected = std::path::PathBuf::from(home).join(rest);
        let got = expand(&format!("~/{rest}"), Some(home));
        assert_eq!(std::path::PathBuf::from(got), expected);
    }
}
