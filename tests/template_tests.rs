use sleuth_kit::query::{account_query, decimal_string, transactions_page_query};
use sleuth_kit::template::{placeholder_of, render_query, replace_all_exec};

#[test]
fn template_without_matching_placeholders_is_unchanged() {
    let t = "SELECT * FROM accounts WHERE address = '{{address}}'";
    let r = render_query(t, &[("wallet", "0xabc"), ("limit", "100")]);
    assert_eq!(r, t);
}

#[test]
fn template_without_any_placeholder_is_unchanged() {
    let t = "SELECT 1";
    assert_eq!(render_query(t, &[("a", "X")]), "SELECT 1");
    assert_eq!(render_query(t, &[]), "SELECT 1");
}

#[test]
fn every_occurrence_is_replaced() {
    let r = render_query("x {{a}} y {{a}} z", &[("a", "X")]);
    assert_eq!(r, "x X y X z");
}

#[test]
fn unmatched_placeholder_stays_verbatim() {
    let r = render_query("{{a}} and {{b}}", &[("a", "1")]);
    assert_eq!(r, "1 and {{b}}");
}

#[test]
fn parameters_apply_in_order() {
    // the first value introduces a placeholder that the second fills
    let r = render_query("{{a}}", &[("a", "{{b}}"), ("b", "done")]);
    assert_eq!(r, "done");
    let r = render_query("{{b}}", &[("a", "x"), ("b", "{{a}}")]);
    assert_eq!(r, "{{a}}");
}

#[test]
fn value_with_braces_is_not_escaped() {
    let r = render_query("v={{a}}", &[("a", "}}{{")]);
    assert_eq!(r, "v=}}{{");
}

#[test]
fn replacement_scans_left_to_right() {
    assert_eq!(replace_all_exec("aaa", "aa", "b"), "ba");
    assert_eq!(replace_all_exec("abc", "", "x"), "abc");
    assert_eq!(replace_all_exec("", "a", "x"), "");
    assert_eq!(replace_all_exec("héllo wörld", "ö", "o"), "héllo world");
}

#[test]
fn placeholder_text() {
    assert_eq!(placeholder_of("offset"), "{{offset}}");
}

#[test]
fn decimal_notation() {
    assert_eq!(decimal_string(0), "0");
    assert_eq!(decimal_string(7), "7");
    assert_eq!(decimal_string(100), "100");
    assert_eq!(decimal_string(1234567890), "1234567890");
    assert_eq!(decimal_string(u64::MAX), "18446744073709551615");
}

#[test]
fn account_query_fills_address() {
    let r = account_query("SELECT * FROM ethereum.accounts WHERE address = '{{address}}'", "0xAB");
    assert_eq!(r, "SELECT * FROM ethereum.accounts WHERE address = '0xAB'");
}

#[test]
fn page_query_fills_wallet_limit_and_offset() {
    let t = "WHERE from_address = '{{wallet_address}}' LIMIT {{limit}} OFFSET {{offset}}";
    let r = transactions_page_query(t, "0x1", 100, 200);
    assert_eq!(r, "WHERE from_address = '0x1' LIMIT 100 OFFSET 200");
}
