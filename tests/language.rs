use tokei::Language;

fn rust_record() -> Language<'static> {
    let mut l = Language::new_c("Rust");
    l.add_file(String::from("a.rs"));
    l.add_file(String::from("b.rs"));
    l.add_lines(100);
    l.add_blanks(10);
    l.add_comments(5);
    l.add_code(85);
    l
}

#[test]
fn new_keeps_given_syntax() {
    let l = Language::new("Lisp", ";", "#|", "|#");
    assert_eq!(l.name, "Lisp");
    assert_eq!(l.line_comment, ";");
    assert_eq!(l.multi_line_start, "#|");
    assert_eq!(l.multi_line_end, "|#");
    assert!(l.files.is_empty());
    assert_eq!((l.code, l.comments, l.blanks, l.lines, l.total), (0, 0, 0, 0, 0));
    assert!(!l.printed);
}

#[test]
fn c_preset_syntax() {
    let l = Language::new_c("C");
    assert_eq!(l.name, "C");
    assert_eq!(l.line_comment, "//");
    assert_eq!(l.multi_line_start, "/*");
    assert_eq!(l.multi_line_end, "*/");
}

#[test]
fn markup_preset_syntax() {
    let l = Language::new_html("HTML");
    assert_eq!(l.line_comment, "<!--");
    assert_eq!(l.multi_line_start, "<!--");
    assert_eq!(l.multi_line_end, "-->");
}

#[test]
fn blank_preset_syntax() {
    let l = Language::new_blank("Text");
    assert_eq!(l.line_comment, "");
    assert_eq!(l.multi_line_start, "");
    assert_eq!(l.multi_line_end, "");
}

#[test]
fn single_line_preset_syntax() {
    let l = Language::new_single("Shell", "#");
    assert_eq!(l.line_comment, "#");
    assert_eq!(l.multi_line_start, "");
    assert_eq!(l.multi_line_end, "");
}

#[test]
fn every_preset_starts_empty() {
    let all = [
        Language::new("A", "a", "b", "c"),
        Language::new_c("B"),
        Language::new_html("C"),
        Language::new_blank("D"),
        Language::new_single("E", "#"),
    ];
    for l in all.iter() {
        assert!(l.is_empty());
        assert!(!l.printed);
        assert_eq!(l.files.len(), 0);
    }
}

#[test]
fn first_nonzero_addition_ends_emptiness() {
    let mut a = Language::new_c("C");
    a.add_code(1);
    assert!(!a.is_empty());
    let mut b = Language::new_c("C");
    b.add_comments(2);
    assert!(!b.is_empty());
    let mut c = Language::new_c("C");
    c.add_blanks(3);
    assert!(!c.is_empty());
    let mut d = Language::new_c("C");
    d.add_lines(4);
    assert!(!d.is_empty());
}

#[test]
fn zero_addition_keeps_emptiness() {
    let mut l = Language::new_c("C");
    l.add_code(0);
    l.add_lines(0);
    assert!(l.is_empty());
}

#[test]
fn total_and_files_do_not_affect_emptiness() {
    let mut l = Language::new_c("C");
    l.add_total(9);
    l.add_file(String::from("main.c"));
    assert!(l.is_empty());
    assert_eq!(l.total, 9);
    assert_eq!(l.files, vec![String::from("main.c")]);
}

#[test]
fn additions_sum_in_any_order() {
    let mut a = Language::new_c("C");
    a.add_code(3);
    a.add_comments(4);
    a.add_code(5);
    a.add_blanks(6);
    a.add_lines(18);
    a.add_total(1);
    let mut b = Language::new_c("C");
    b.add_total(1);
    b.add_lines(18);
    b.add_blanks(6);
    b.add_code(5);
    b.add_comments(4);
    b.add_code(3);
    assert_eq!((a.code, a.comments, a.blanks, a.lines, a.total), (8, 4, 6, 18, 1));
    assert_eq!((b.code, b.comments, b.blanks, b.lines, b.total), (8, 4, 6, 18, 1));
}

#[test]
fn split_code_addition_matches_single() {
    let mut a = Language::new_c("C");
    a.add_code(12);
    a.add_code(30);
    let mut b = Language::new_c("C");
    b.add_code(42);
    assert_eq!(a.code, b.code);
    assert_eq!(a.code, 42);
}

#[test]
fn printed_flag_is_set_and_cleared() {
    let mut l = Language::new_c("C");
    l.printed(true);
    assert!(l.printed);
    l.printed(false);
    assert!(!l.printed);
}

#[test]
fn effective_total_falls_back_to_file_count() {
    let mut l = rust_record();
    assert_eq!(l.effective_total(), 2);
    l.add_total(7);
    assert_eq!(l.effective_total(), 7);
}

#[test]
fn row_uses_file_count_when_total_is_zero() {
    let l = rust_record();
    let expected = format!(
        " {: <15} {: >15} {:>15} {:>15} {:>15} {:>15}",
        "Rust", 2, 100, 10, 5, 85
    );
    assert_eq!(l.to_string(), expected);
    assert_eq!(
        l.to_string(),
        " Rust                          2             100              10               5              85"
    );
}

#[test]
fn row_uses_explicit_total() {
    let mut l = rust_record();
    l.add_total(7);
    let expected = format!(
        " {: <15} {: >15} {:>15} {:>15} {:>15} {:>15}",
        "Rust", 7, 100, 10, 5, 85
    );
    assert_eq!(l.to_string(), expected);
}

#[test]
fn row_of_fresh_record() {
    let l = Language::new_blank("Text");
    let expected = format!(" {: <15} {: >15} {:>15} {:>15} {:>15} {:>15}", "Text", 0, 0, 0, 0, 0);
    assert_eq!(l.to_string(), expected);
    assert_eq!(l.to_string().chars().count(), 1 + 6 * 15 + 5);
}

#[test]
fn row_keeps_long_name_and_wide_numbers() {
    let mut l = Language::new_c("A Very Long Language Name");
    l.add_code(usize::MAX);
    l.add_lines(1234567890123456);
    let expected = format!(
        " {: <15} {: >15} {:>15} {:>15} {:>15} {:>15}",
        "A Very Long Language Name",
        0,
        1234567890123456usize,
        0,
        0,
        usize::MAX
    );
    assert_eq!(l.to_string(), expected);
}

#[test]
fn row_pads_name_by_characters() {
    let l = Language::new_c("Ünïcode");
    let expected = format!(" {: <15} {: >15} {:>15} {:>15} {:>15} {:>15}", "Ünïcode", 0, 0, 0, 0, 0);
    assert_eq!(l.to_string(), expected);
}
