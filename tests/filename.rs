use servoshell::filename::{numbered_file_name, sanitize_filename, timestamped_file_name};

#[test]
fn test_sanitize_filename_special_chars() {
    assert_eq!(sanitize_filename("hello/world"), "hello_world");
    assert_eq!(sanitize_filename("file:name"), "file_name");
    assert_eq!(sanitize_filename("a*b?c\"d<e>f|g"), "a_b_c_d_e_f_g");
    assert_eq!(sanitize_filename("back\\slash"), "back_slash");
}

#[test]
fn test_sanitize_filename_control_chars() {
    assert_eq!(sanitize_filename("hello\x00world"), "hello_world");
    assert_eq!(sanitize_filename("tab\there"), "tab_here");
}

#[test]
fn test_sanitize_filename_empty_and_dots() {
    assert_eq!(sanitize_filename(""), "page");
    assert_eq!(sanitize_filename("..."), "page");
    assert_eq!(sanitize_filename("   "), "page");
    assert_eq!(sanitize_filename(". . ."), ". .");
}

#[test]
fn test_sanitize_filename_long_name() {
    let long_name = "a".repeat(300);
    let sanitized = sanitize_filename(&long_name);
    assert_eq!(sanitized.len(), 200);
}

#[test]
fn test_sanitize_filename_normal() {
    assert_eq!(sanitize_filename("My Document"), "My Document");
    assert_eq!(sanitize_filename("report-2026.pdf"), "report-2026.pdf");
}

#[test]
fn test_sanitize_filename_windows_reserved() {
    assert_eq!(sanitize_filename("CON"), "_CON");
    assert_eq!(sanitize_filename("PRN"), "_PRN");
    assert_eq!(sanitize_filename("AUX"), "_AUX");
    assert_eq!(sanitize_filename("NUL"), "_NUL");
    assert_eq!(sanitize_filename("COM1"), "_COM1");
    assert_eq!(sanitize_filename("LPT1"), "_LPT1");
    assert_eq!(sanitize_filename("con"), "_con");
    assert_eq!(sanitize_filename("normal"), "normal");
}

#[test]
fn test_sanitize_filename_multibyte_truncation() {
    let cjk = "\u{4e2d}".repeat(100);
    let sanitized = sanitize_filename(&cjk);
    assert!(sanitized.len() <= 200);
    assert!(sanitized.is_char_boundary(sanitized.len()));
    assert_eq!(sanitized.chars().count(), 66);
}

#[test]
fn sanitize_keeps_reserved_stem_with_extension() {
    assert_eq!(sanitize_filename("com5.txt"), "_com5.txt");
    assert_eq!(sanitize_filename("COM0"), "COM0");
    assert_eq!(sanitize_filename("CONSOLE"), "CONSOLE");
}

#[test]
fn sanitize_trims_outer_space_then_dots() {
    assert_eq!(sanitize_filename("  .name.  "), ".name");
    assert_eq!(sanitize_filename("name. . "), "name.");
    assert_eq!(sanitize_filename("\u{a0}x\u{3000}"), "x");
}

#[test]
fn sanitize_prefix_counts_in_the_length_cut() {
    let name = format!("CON{}", "b".repeat(300));
    assert_eq!(sanitize_filename(&name), format!("CON{}", "b".repeat(197)));
    let reserved = format!("con.{}", "b".repeat(300));
    let out = sanitize_filename(&reserved);
    assert_eq!(out.len(), 200);
    assert!(out.starts_with("_con."));
}

#[test]
fn numbered_copy_names() {
    assert_eq!(numbered_file_name("test", 1, "html"), "test (1).html");
    assert_eq!(numbered_file_name("test", 2, "html"), "test (2).html");
    assert_eq!(numbered_file_name("a b", 999, ""), "a b (999).");
}

#[test]
fn timestamped_name() {
    assert_eq!(timestamped_file_name("test", 1700000000123, "html"), "test_1700000000123.html");
    assert_eq!(timestamped_file_name("x", 0, ""), "x_0.");
}
