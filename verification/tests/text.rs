use lint_profiles::text::{
    continue_comment, flag_str, quote, write_comment, write_header, write_key,
};

#[test]
fn flags_are_written_as_words() {
    assert_eq!(flag_str(true), "true");
    assert_eq!(flag_str(false), "false");
}

#[test]
fn single_line_is_kept() {
    assert_eq!(continue_comment("Unnecessary code."), "Unnecessary code.");
    assert_eq!(continue_comment(""), "");
}

#[test]
fn every_line_break_gets_a_comment_marker() {
    assert_eq!(continue_comment("a\nb"), "a\n# b");
    assert_eq!(continue_comment("a\n\nb\n"), "a\n# \n# b\n# ");
    assert_eq!(continue_comment("\n"), "\n# ");
}

#[test]
fn characters_outside_ascii_are_kept() {
    assert_eq!(
        continue_comment("from ‘a’ to ‘z’\ndon’t"),
        "from ‘a’ to ‘z’\n# don’t"
    );
}

#[test]
fn continuation_agrees_with_replace() {
    let text = "Many codebases\nhave their own style\n\nwhen it comes to importing.";
    assert_eq!(continue_comment(text), text.replace("\n", "\n# "));
}

#[test]
fn comment_of_one_line() {
    assert_eq!(write_comment("Unnecessary code."), "# Unnecessary code.\n");
    assert_eq!(write_comment(""), "# \n");
}

#[test]
fn comment_of_several_lines() {
    assert_eq!(write_comment("a\nb\n\nc"), "# a\n# b\n# \n# c\n");
    assert_eq!(write_comment("\na"), "# \n# a\n");
}

#[test]
fn header_and_key_lines() {
    assert_eq!(write_header("absolute_paths"), "[absolute_paths]\n");
    assert_eq!(write_key("enabled", "true"), "enabled = true\n");
    assert_eq!(
        write_key("group", &quote("style")),
        "group = \"style\"\n"
    );
    assert_eq!(quote(""), "\"\"");
}
