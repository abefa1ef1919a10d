use tauri_release::util::{
    absolutize, current_host_platform, default_cache_dir, host_matches_platform, is_absolute,
    host_style_of, is_shell_safe_char, join_path, now_session_id, path_for_container, shell_quote,
    HostStyle,
};

#[test]
fn shell_quote_empty_word() {
    assert_eq!(shell_quote("", HostStyle::Posix), "''");
}

#[test]
fn shell_quote_keeps_safe_words() {
    assert_eq!(shell_quote("abc-1.2/x:y=z,+@%_", HostStyle::Posix), "abc-1.2/x:y=z,+@%_");
    assert_eq!(shell_quote("aarch64", HostStyle::Posix), "aarch64");
}

#[test]
fn shell_quote_quotes_spaces_and_dollars() {
    assert_eq!(shell_quote("hello world", HostStyle::Posix), "'hello world'");
    assert_eq!(shell_quote("$HOME", HostStyle::Posix), "'$HOME'");
}

#[test]
fn shell_quote_escapes_single_quotes() {
    assert_eq!(shell_quote("it's", HostStyle::Posix), "'it'\\''s'");
    assert_eq!(shell_quote("'", HostStyle::Posix), "''\\'''");
}

#[test]
fn shell_safe_characters() {
    assert!(is_shell_safe_char('a'));
    assert!(is_shell_safe_char('Z'));
    assert!(is_shell_safe_char('7'));
    assert!(is_shell_safe_char('%'));
    assert!(!is_shell_safe_char(' '));
    assert!(!is_shell_safe_char('$'));
    assert!(!is_shell_safe_char('\''));
    assert!(!is_shell_safe_char('é'));
}

#[test]
fn container_paths_use_forward_slashes() {
    assert_eq!(path_for_container("C:\\work\\app"), "C:/work/app");
    assert_eq!(path_for_container("/already/unix"), "/already/unix");
}

#[test]
fn join_path_follows_pathbuf_join() {
    assert_eq!(join_path("a", "b", HostStyle::Posix), "a/b");
    assert_eq!(join_path("a/", "b", HostStyle::Posix), "a/b");
    assert_eq!(join_path("a", "/b", HostStyle::Posix), "/b");
    assert_eq!(join_path("", "b", HostStyle::Posix), "b");
    assert_eq!(join_path("/w", "C:\\x", HostStyle::Posix), "/w/C:\\x");
    assert_eq!(join_path("a\\", "b", HostStyle::Posix), "a\\/b");
}

#[test]
fn windows_join_follows_pathbuf_join() {
    assert_eq!(join_path("C:\\work", "D:\\app", HostStyle::Windows), "D:\\app");
    assert_eq!(join_path("C:\\work", "C:foo", HostStyle::Windows), "C:foo");
    assert_eq!(join_path("C:\\work", "\\\\srv\\share", HostStyle::Windows), "\\\\srv\\share");
    assert_eq!(join_path("C:\\work", "\\app", HostStyle::Windows), "C:\\app");
    assert_eq!(join_path("\\\\srv\\share\\a", "/app", HostStyle::Windows), "\\\\srv\\share/app");
    assert_eq!(join_path("work", "\\app", HostStyle::Windows), "\\app");
    assert_eq!(join_path("C:\\work\\", "app", HostStyle::Windows), "C:\\work\\app");
    assert_eq!(join_path("C:\\work", "app", HostStyle::Windows), "C:\\work\\app");
    assert_eq!(join_path("C:", "app", HostStyle::Windows), "C:app");
    assert_eq!(join_path("", "app", HostStyle::Windows), "app");
    assert_eq!(absolutize("app", "C:\\work", HostStyle::Windows), "C:\\work\\app");
    assert!(!is_absolute("\\\\server", HostStyle::Windows));
    assert!(!is_absolute("\\app", HostStyle::Windows));
    assert!(is_absolute("//srv/share", HostStyle::Windows));
}

#[test]
fn absolute_paths_by_style() {
    assert!(is_absolute("/x", HostStyle::Posix));
    assert!(!is_absolute("x/y", HostStyle::Posix));
    assert!(!is_absolute("C:\\x", HostStyle::Posix));
    assert!(is_absolute("C:\\x", HostStyle::Windows));
    assert!(is_absolute("d:/x", HostStyle::Windows));
    assert!(is_absolute("\\\\server\\share", HostStyle::Windows));
    assert!(!is_absolute("x\\y", HostStyle::Windows));
    assert!(!is_absolute("C:", HostStyle::Windows));
}

#[test]
fn absolutize_joins_relative_paths() {
    assert_eq!(absolutize("out", "/work", HostStyle::Posix), "/work/out");
    assert_eq!(absolutize("/tmp/out", "/work", HostStyle::Posix), "/tmp/out");
}

#[test]
fn default_cache_dir_prefers_variable_then_home_then_profile() {
    assert_eq!(
        default_cache_dir(Some("/tmp/c".to_string()), Some("/home/u".to_string()), None, HostStyle::Posix),
        "/tmp/c"
    );
    assert_eq!(
        default_cache_dir(None, Some("/home/u".to_string()), Some("C:/Users/u".to_string()), HostStyle::Posix),
        "/home/u/.cache/tauri-release"
    );
    assert_eq!(
        default_cache_dir(None, None, Some("C:/Users/u".to_string()), HostStyle::Posix),
        "C:/Users/u/.cache/tauri-release"
    );
    assert_eq!(default_cache_dir(None, None, None, HostStyle::Posix), ".cache/tauri-release");
}

#[test]
fn session_id_has_prefix_pid_and_millis() {
    assert_eq!(now_session_id("tauri-release", 42, 1700000000123), "tauri-release-42-1700000000123");
    assert_eq!(now_session_id("p", 0, 0), "p-0-0");
    assert_eq!(now_session_id("p", 10, 100), "p-10-100");
}

#[test]
fn host_platform_names() {
    assert_eq!(current_host_platform("linux"), "linux");
    assert_eq!(current_host_platform("macos"), "macos");
    assert_eq!(current_host_platform("windows"), "windows");
    assert_eq!(current_host_platform("freebsd"), "unknown");
}

#[test]
fn host_matching_table() {
    assert!(host_matches_platform("linux", "linux"));
    assert!(host_matches_platform("windows", "windows"));
    assert!(host_matches_platform("macos", "macos"));
    assert!(host_matches_platform("macos", "ios"));
    assert!(!host_matches_platform("linux", "ios"));
    assert!(!host_matches_platform("linux", "android"));
    assert!(!host_matches_platform("macos", "android"));
    assert!(!host_matches_platform("windows", "linux"));
}

#[test]
fn windows_quoting() {
    assert_eq!(shell_quote("", HostStyle::Windows), "\"\"");
    assert_eq!(shell_quote("plain-word", HostStyle::Windows), "plain-word");
    assert_eq!(shell_quote("two words", HostStyle::Windows), "\"two words\"");
    assert_eq!(shell_quote("say \"hi\"", HostStyle::Windows), "\"say \"\"hi\"\"\"");
    assert_eq!(shell_quote("it's", HostStyle::Windows), "\"it's\"");
}

#[test]
fn host_styles() {
    assert_eq!(host_style_of("windows"), HostStyle::Windows);
    assert_eq!(host_style_of("linux"), HostStyle::Posix);
    assert_eq!(host_style_of("macos"), HostStyle::Posix);
}
