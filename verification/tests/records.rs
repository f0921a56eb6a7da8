use lead_reconciler::records::{CanonicalRecord, ContactHookKey, ExportRow, SeenEmails};

#[test]
fn new_key_normalizes_email_and_keeps_link() {
    let key = ContactHookKey::new("  Alice@Example.COM \n", "https://host/file/12");
    assert_eq!(key.email, "alice@example.com");
    assert_eq!(key.file_number, "https://host/file/12");
}

#[test]
fn new_key_does_not_touch_the_file_number() {
    let key = ContactHookKey::new("a@x.com", "  MiXed  ");
    assert_eq!(key.file_number, "  MiXed  ");
}

#[test]
fn new_key_trims_unicode_whitespace() {
    let key = ContactHookKey::new("\u{00A0}\u{2003}A@X.com\u{3000}", "n");
    assert_eq!(key.email, "a@x.com");
}

#[test]
fn new_key_keeps_inner_whitespace() {
    let key = ContactHookKey::new(" A B ", "n");
    assert_eq!(key.email, "a b");
}

#[test]
fn new_key_lowercases_beyond_ascii() {
    let key = ContactHookKey::new("ÄÖÜ@X.COM", "n");
    assert_eq!(key.email, "äöü@x.com");
}

#[test]
fn canonical_record_keeps_its_fields() {
    let record = CanonicalRecord::new("Acme Corp", "A@x.com");
    assert_eq!(record.account_name, "Acme Corp");
    assert_eq!(record.contact_email, "A@x.com");
}

#[test]
fn row_returns_what_was_inserted() {
    let mut row = ExportRow::new();
    assert!(row.get("Agent").is_none());
    row.insert("Agent".to_string(), "Acme".to_string());
    row.insert("File".to_string(), "Case #1".to_string());
    assert_eq!(row.get("Agent").map(|v| v.as_str()), Some("Acme"));
    assert_eq!(row.get("File").map(|v| v.as_str()), Some("Case #1"));
    assert!(row.get("agent").is_none());
}

#[test]
fn row_insert_replaces_a_column() {
    let mut row = ExportRow::new();
    row.insert("Agent".to_string(), "first".to_string());
    row.insert("Agent".to_string(), "second".to_string());
    assert_eq!(row.get("Agent").map(|v| v.as_str()), Some("second"));
}

#[test]
fn seen_emails_remember_exact_text() {
    let mut seen = SeenEmails::new();
    assert!(!seen.contains("a@x.com"));
    seen.insert("a@x.com".to_string());
    assert!(seen.contains("a@x.com"));
    assert!(!seen.contains("A@x.com"));
    assert!(!seen.contains("a@x.com "));
}
