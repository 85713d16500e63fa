use kodegen_tools_config::display::{
    i64_text, u64_text, allowed_summary, blocked_summary, describe_change, describe_value, join_texts,
    megabytes_text, memory_info,
};
use kodegen_tools_config::ConfigValue;

fn strings(items: &[&str]) -> Vec<String> {
    items.iter().map(|s| s.to_string()).collect()
}

#[test]
fn values_are_shown_by_kind() {
    assert_eq!(describe_value(&ConfigValue::String("/bin/bash".to_string())), "\"/bin/bash\"");
    assert_eq!(describe_value(&ConfigValue::Number(2000)), "2000");
    assert_eq!(describe_value(&ConfigValue::Number(-42)), "-42");
    assert_eq!(describe_value(&ConfigValue::Number(0)), "0");
    assert_eq!(describe_value(&ConfigValue::Boolean(true)), "true");
    assert_eq!(describe_value(&ConfigValue::Boolean(false)), "false");
}

#[test]
fn lists_are_shown_in_full_up_to_three_items() {
    assert_eq!(describe_value(&ConfigValue::Array(Vec::new())), "[] (empty)");
    assert_eq!(describe_value(&ConfigValue::Array(strings(&["rm"]))), "[rm]");
    assert_eq!(
        describe_value(&ConfigValue::Array(strings(&["rm", "sudo", "wget"]))),
        "[rm, sudo, wget]"
    );
    assert_eq!(
        describe_value(&ConfigValue::Array(strings(&["a", "b", "c", "d", "e", "f", "g", "h", "i", "j", "k", "l"]))),
        "[a, ... 12 total]"
    );
}

#[test]
fn change_notes_follow_the_key() {
    assert_eq!(
        describe_change("blocked_commands"),
        "Commands in this list will be rejected by the terminal tool."
    );
    assert_eq!(
        describe_change("file_read_line_limit"),
        "Maximum lines that can be read from a file in a single operation."
    );
    assert_eq!(describe_change("denied_directories"), "Configuration value updated successfully.");
    assert_eq!(describe_change("whatever"), "Configuration value updated successfully.");
}

#[test]
fn summaries_of_lists() {
    assert_eq!(blocked_summary(&Vec::new()), "none");
    assert_eq!(blocked_summary(&strings(&["rm", "dd"])), "rm, dd");
    assert_eq!(allowed_summary(&Vec::new()), "all (unrestricted)");
    assert_eq!(allowed_summary(&strings(&["/a", "/b", "/c"])), "3 paths");
    assert_eq!(join_texts(&strings(&["x", "y", "z"]), "::"), "x::y::z");
    assert_eq!(join_texts(&Vec::new(), ", "), "");
}

#[test]
fn memory_is_shown_in_whole_megabytes() {
    assert_eq!(megabytes_text(2048 * 1024 + 5), "2048 MB");
    assert_eq!(megabytes_text(1023), "0 MB");
    let m = memory_info(16 * 1024 * 1024, 8 * 1024 * 1024, 3 * 1024);
    assert_eq!(m.total_mb, "16384 MB");
    assert_eq!(m.available_mb, "8192 MB");
    assert_eq!(m.used_mb, "3 MB");
}

#[test]
fn numbers_in_decimal_at_the_extremes() {
    assert_eq!(u64_text(0), "0");
    assert_eq!(u64_text(10), "10");
    assert_eq!(u64_text(u64::MAX), "18446744073709551615");
    assert_eq!(i64_text(-7), "-7");
    assert_eq!(i64_text(i64::MIN), "-9223372036854775808");
    assert_eq!(i64_text(i64::MAX), "9223372036854775807");
}
