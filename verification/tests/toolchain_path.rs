use majestic_boundary::toolchain::{path_bytes_are_safe, rustc_path_is_safe};

#[test]
fn accepts_normal_rustc_paths() {
    assert!(rustc_path_is_safe("/usr/bin/rustc"));
    assert!(rustc_path_is_safe("C:/Program Files/Rust/bin/rustc.exe"));
}

#[test]
fn rejects_paths_with_shell_metacharacters() {
    assert!(!rustc_path_is_safe("/usr/bin/rustc;rm -rf /"));
    assert!(!rustc_path_is_safe("rustc|malicious"));
}

#[test]
fn rejects_additional_dangerous_characters() {
    assert!(!rustc_path_is_safe("rustc\0malicious"));
    assert!(!rustc_path_is_safe("rustc\"evil"));
    assert!(!rustc_path_is_safe("rustc'bad'"));
    assert!(!rustc_path_is_safe("rustc\\inject"));
    assert!(!rustc_path_is_safe("rustc*glob"));
    assert!(!rustc_path_is_safe("rustc?wildcard"));
    assert!(!rustc_path_is_safe("rustc[range]"));
    assert!(!rustc_path_is_safe("rustc{expansion}"));
    assert!(!rustc_path_is_safe("rustc(subshell)"));
    assert!(!rustc_path_is_safe("rustc~home"));
    assert!(!rustc_path_is_safe("rustc#fragment"));
    assert!(!rustc_path_is_safe("rustc!history"));
    assert!(!rustc_path_is_safe("rustc%env"));
    assert!(!rustc_path_is_safe("rustc^caret"));
}

#[test]
fn rejects_path_traversal_attempts() {
    assert!(!rustc_path_is_safe("/usr/bin/../../../bin/sh"));
    assert!(!rustc_path_is_safe("../rustc"));
    assert!(!rustc_path_is_safe("rustc/../evil"));
}

#[test]
fn rejects_flag_injection() {
    assert!(!rustc_path_is_safe("-Zprint-link-args"));
    assert!(!rustc_path_is_safe("--help"));
}

#[test]
fn rejects_oversized_paths() {
    let oversized = "a".repeat(4_097);
    assert!(!rustc_path_is_safe(&oversized));
}

#[test]
fn simple_absolute_and_relative_paths_are_told_apart() {
    assert!(rustc_path_is_safe("rustc"));
    assert!(rustc_path_is_safe("/usr/bin/rustc"));
    assert!(rustc_path_is_safe("C:/Program Files/Rust/bin/rustc.exe"));
    assert!(!rustc_path_is_safe("bin/rustc"));
    assert!(!rustc_path_is_safe(".\\rustc.exe"));
    assert!(!rustc_path_is_safe("./rustc"));
}

#[test]
fn backslashes_are_refused_in_every_position() {
    assert!(!rustc_path_is_safe("C:\\Rust\\bin\\rustc.exe"));
    assert!(!rustc_path_is_safe("\\\\server\\share\\rustc.exe"));
    assert!(!rustc_path_is_safe("C\\\\Program Files\\Rust\\bin\\rustc.exe"));
}

#[test]
fn length_limit_is_exclusive() {
    assert!(!rustc_path_is_safe(""));
    assert!(rustc_path_is_safe(&"a".repeat(4_095)));
    assert!(!rustc_path_is_safe(&"a".repeat(4_096)));
}

#[test]
fn bare_name_with_colon_is_refused() {
    assert!(!rustc_path_is_safe("rustc:1"));
    assert!(!rustc_path_is_safe("C:rustc"));
    assert!(rustc_path_is_safe("/opt/rust:1/rustc"));
}

#[test]
fn drive_prefix_needs_a_letter() {
    assert!(rustc_path_is_safe("c:/rust/rustc"));
    assert!(rustc_path_is_safe("Z:/rust/rustc"));
    assert!(!rustc_path_is_safe("1:/rust/rustc"));
    assert!(!rustc_path_is_safe("C:"));
}

#[test]
fn single_dots_and_inner_dashes_are_accepted() {
    assert!(rustc_path_is_safe("/usr/bin/rustc-1.80.0"));
    assert!(rustc_path_is_safe("rustc.exe"));
    assert!(!rustc_path_is_safe("rustc.."));
}

#[test]
fn control_characters_are_refused() {
    assert!(!rustc_path_is_safe("rustc\n"));
    assert!(!rustc_path_is_safe("rustc\r"));
    assert!(!rustc_path_is_safe("rustc\t"));
    assert!(!rustc_path_is_safe("rustc`id`"));
    assert!(!rustc_path_is_safe("rustc$HOME"));
    assert!(!rustc_path_is_safe("rustc>out"));
    assert!(!rustc_path_is_safe("rustc<in"));
    assert!(!rustc_path_is_safe("rustc&"));
}

#[test]
fn non_ascii_names_are_judged_on_their_bytes() {
    assert!(rustc_path_is_safe("/opt/r\u{00FC}st/rustc"));
    assert!(rustc_path_is_safe("r\u{00FC}stc"));
}

#[test]
fn bytes_and_text_agree() {
    assert_eq!(path_bytes_are_safe("/usr/bin/rustc".as_bytes()), rustc_path_is_safe("/usr/bin/rustc"));
    assert_eq!(path_bytes_are_safe("bin/rustc".as_bytes()), rustc_path_is_safe("bin/rustc"));
    assert!(!path_bytes_are_safe(&[]));
}
