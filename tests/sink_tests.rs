use sleuth_kit::sink::{
    bound_values, csv_row, field_text, join_texts, parameter_text, postgres_upsert_sql, same_text,
    sqlite_insert_sql, table_primary_key, assignment_text, record_columns,
};

fn record() -> Vec<(String, Option<String>)> {
    vec![
        ("address".to_string(), Some("0xabc".to_string())),
        ("type".to_string(), Some("eoa".to_string())),
        ("nonce".to_string(), None),
    ]
}

#[test]
fn primary_keys() {
    assert_eq!(table_primary_key("ethereum_accounts"), "address");
    assert_eq!(table_primary_key("ethereum_transactions"), "transaction_hash");
    assert_eq!(table_primary_key("other"), "transaction_hash");
    assert!(same_text("abc", "abc"));
    assert!(!same_text("abc", "abd"));
    assert!(!same_text("abc", "ab"));
}

#[test]
fn joining() {
    let parts = vec!["a".to_string(), "b".to_string(), "c".to_string()];
    assert_eq!(join_texts(&parts, ", "), "a, b, c");
    assert_eq!(join_texts(&parts[..1], ", "), "a");
    assert_eq!(join_texts(&[], ", "), "");
    assert_eq!(parameter_text(0), "");
    assert_eq!(parameter_text(3), "$1, $2, $3");
    assert_eq!(parameter_text(11).ends_with("$10, $11"), true);
    assert_eq!(assignment_text(&parts), "a = $1, b = $2, c = $3");
}

#[test]
fn postgres_statement() {
    assert_eq!(
        postgres_upsert_sql("ethereum_accounts", &record()),
        "INSERT INTO ethereum_accounts (address, type, nonce) VALUES ($1, $2, $3) \
         ON CONFLICT (address) DO UPDATE SET address = $1, type = $2, nonce = $3"
    );
    let tx = vec![("transaction_hash".to_string(), Some("0x1".to_string()))];
    assert_eq!(
        postgres_upsert_sql("ethereum_transactions", &tx),
        "INSERT INTO ethereum_transactions (transaction_hash) VALUES ($1) \
         ON CONFLICT (transaction_hash) DO UPDATE SET transaction_hash = $1"
    );
}

#[test]
fn sqlite_statement() {
    assert_eq!(
        sqlite_insert_sql("ethereum_accounts", &record()),
        "INSERT OR REPLACE INTO ethereum_accounts (address, type, nonce) VALUES ($1, $2, $3)"
    );
}

#[test]
fn values_and_columns() {
    assert_eq!(bound_values(&record()), vec!["0xabc", "eoa", ""]);
    assert_eq!(record_columns(&record()), vec!["address", "type", "nonce"]);
}

#[test]
fn csv_rows_project_the_named_fields() {
    let r = record();
    assert_eq!(field_text(&r, "type"), "eoa");
    assert_eq!(field_text(&r, "nonce"), "");
    assert_eq!(field_text(&r, "missing"), "");
    assert_eq!(
        csv_row(&r, &["type", "missing", "address", "nonce"]),
        vec!["eoa", "", "0xabc", ""]
    );
    assert!(csv_row(&r, &[]).is_empty());
}
