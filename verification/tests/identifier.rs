use lead_reconciler::identifier::{extract_file_number, file_link, FILE_LINK_PREFIX};

#[test]
fn extracts_the_digits_after_the_hash() {
    assert_eq!(extract_file_number("Invoice #1234 details"), Some("1234".to_string()));
}

#[test]
fn no_hash_no_number() {
    assert_eq!(extract_file_number("No number here"), None);
}

#[test]
fn first_match_wins() {
    assert_eq!(extract_file_number("#12 #34"), Some("12".to_string()));
}

#[test]
fn a_hash_without_digits_is_passed_over() {
    assert_eq!(extract_file_number("# 12"), None);
    assert_eq!(extract_file_number("#"), None);
    assert_eq!(extract_file_number("#a1"), None);
    assert_eq!(extract_file_number("#x #77"), Some("77".to_string()));
    assert_eq!(extract_file_number("##5"), Some("5".to_string()));
}

#[test]
fn the_whole_run_of_digits_is_taken() {
    assert_eq!(extract_file_number("#007x"), Some("007".to_string()));
    assert_eq!(extract_file_number("a#123456789012345678901234567890"),
        Some("123456789012345678901234567890".to_string()));
    assert_eq!(extract_file_number("Case #555 open"), Some("555".to_string()));
    assert_eq!(extract_file_number("#555\topen"), Some("555".to_string()));
}

#[test]
fn empty_text_has_no_number() {
    assert_eq!(extract_file_number(""), None);
}

#[test]
fn digits_of_other_scripts_count() {
    assert_eq!(extract_file_number("#١٢٣"), Some("١٢٣".to_string()));
}

#[test]
fn link_joins_prefix_and_number() {
    assert_eq!(file_link("555"), "https://sarel.mangotopsrv.com/file/555");
    assert_eq!(file_link(""), FILE_LINK_PREFIX);
    assert_eq!(file_link("007"), format!("{}007", FILE_LINK_PREFIX));
}
