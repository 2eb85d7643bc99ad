use mdx::paths::{bash_rc, is_verbatim_like, join_path, join_windows_path, path_file_name};
use mdx::text::{contains_str, str_eq, trim_str};

#[test]
fn join_adds_separator() {
    assert_eq!(join_path("/home/ann", ".bashrc"), "/home/ann/.bashrc");
}

#[test]
fn join_keeps_trailing_separator() {
    assert_eq!(join_path("/home/ann/", ".zshrc"), "/home/ann/.zshrc");
}

#[test]
fn join_onto_empty_base() {
    assert_eq!(join_path("", "mdx"), "mdx");
}

#[test]
fn join_absolute_replaces_base() {
    assert_eq!(join_path("/home/ann", "/etc/profile"), "/etc/profile");
}

#[test]
fn join_empty_relative_adds_separator() {
    assert_eq!(join_path("/home/ann", ""), "/home/ann/");
}

#[test]
fn file_name_of_shell_paths() {
    assert_eq!(path_file_name("/bin/bash").as_deref(), Some("bash"));
    assert_eq!(path_file_name("/usr/local/bin/zsh/").as_deref(), Some("zsh"));
    assert_eq!(path_file_name("fish").as_deref(), Some("fish"));
    assert_eq!(path_file_name("/usr/bin/./").as_deref(), Some("bin"));
    assert_eq!(path_file_name("./").as_deref(), None);
}

#[test]
fn file_name_none_cases() {
    assert_eq!(path_file_name("/"), None);
    assert_eq!(path_file_name(""), None);
    assert_eq!(path_file_name("/usr/bin/.."), None);
    assert_eq!(path_file_name("."), None);
}

#[test]
fn file_name_matches_std_path() {
    for p in ["/bin/bash", "a/b/", "a//b//", "a/./", "..", "a/../b", "/x/.y", "..a", "a/..b/."] {
        let expected = std::path::Path::new(p)
            .file_name()
            .and_then(|n| n.to_str())
            .map(|s| s.to_string());
        assert_eq!(path_file_name(p), expected, "path {:?}", p);
    }
}

#[test]
fn file_name_of_joined_plain_name() {
    let joined = join_path("/home/ann/.config", "mdx.fish");
    assert_eq!(path_file_name(&joined).as_deref(), Some("mdx.fish"));
}

#[test]
fn bash_rc_prefers_existing_bashrc() {
    assert_eq!(bash_rc("/home/ann", true), "/home/ann/.bashrc");
    assert_eq!(bash_rc("/home/ann", false), "/home/ann/.bash_profile");
}

#[test]
fn substring_search() {
    assert!(contains_str("autoload -Uz compinit && compinit", "compinit"));
    assert!(contains_str("abc", ""));
    assert!(!contains_str("compini", "compinit"));
    assert!(contains_str("ééx", "éx"));
}

#[test]
fn string_equality() {
    assert!(str_eq("zsh", "zsh"));
    assert!(!str_eq("zsh", "zs"));
    assert!(!str_eq("zsh", "ZSH"));
}

#[test]
fn trim_both_ends() {
    assert_eq!(trim_str("  C:\\Users\\a\\profile.ps1\r\n"), "C:\\Users\\a\\profile.ps1");
    assert_eq!(trim_str("\u{3000}x y\u{a0}"), "x y");
    assert_eq!(trim_str(" \t\n"), "");
}

#[test]
fn trim_matches_std() {
    for s in ["", " a ", "\u{85}b\u{2029}", "\u{200b}c", "\u{1680}d\u{180e}"] {
        assert_eq!(trim_str(s), s.trim(), "text {:?}", s);
    }
}

#[test]
fn windows_join_adds_backslash() {
    assert_eq!(
        join_windows_path("C:\\Users\\ann\\AppData\\Local", "mdx/completions"),
        "C:\\Users\\ann\\AppData\\Local\\mdx/completions"
    );
}

#[test]
fn windows_join_after_separator_or_bare_drive() {
    assert_eq!(join_windows_path("C:\\data\\", "mdx.ps1"), "C:\\data\\mdx.ps1");
    assert_eq!(join_windows_path("D:/data/", "mdx.ps1"), "D:/data/mdx.ps1");
    assert_eq!(join_windows_path("C:", "mdx.ps1"), "C:mdx.ps1");
    assert_eq!(join_windows_path("", "mdx.ps1"), "mdx.ps1");
    assert_eq!(join_windows_path("\\\\server\\share", "x/y"), "\\\\server\\share\\x/y");
}

#[test]
fn verbatim_prefixes() {
    assert!(is_verbatim_like("\\\\?\\C:\\x"));
    assert!(is_verbatim_like("//?/C:/x"));
    assert!(!is_verbatim_like("C:\\x"));
    assert!(!is_verbatim_like("\\\\?"));
}
