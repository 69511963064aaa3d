use auth0_management::query::decimal_string;
use auth0_management::{Ordering, Page, Sort};

fn pairs(ps: &[(String, String)]) -> Vec<(&str, &str)> {
    ps.iter().map(|(k, v)| (k.as_str(), v.as_str())).collect()
}

#[test]
fn per_page_alone_omits_other_page_fields() {
    let mut p = Page::new();
    p.per_page(100);
    assert_eq!(pairs(&p.to_params()), vec![("per_page", "100")]);
}

#[test]
fn per_page_alone_for_several_sizes() {
    for n in [0u64, 1, 7, 50, 1000] {
        let mut p = Page::new();
        p.per_page(n);
        let expected = n.to_string();
        assert_eq!(pairs(&p.to_params()), vec![("per_page", expected.as_str())]);
    }
}

#[test]
fn empty_page_has_no_params() {
    assert!(Page::new().to_params().is_empty());
    assert!(Page::default().to_params().is_empty());
}

#[test]
fn full_page_params_in_order() {
    let mut p = Page::new();
    p.include_totals(true).per_page(25).page(3);
    assert_eq!(
        pairs(&p.to_params()),
        vec![("page", "3"), ("per_page", "25"), ("include_totals", "true")]
    );
    p.include_totals(false).page(0);
    assert_eq!(
        pairs(&p.to_params()),
        vec![("page", "0"), ("per_page", "25"), ("include_totals", "false")]
    );
}

#[test]
fn decimal_of_edge_values() {
    assert_eq!(decimal_string(0), "0");
    assert_eq!(decimal_string(9), "9");
    assert_eq!(decimal_string(10), "10");
    assert_eq!(decimal_string(100), "100");
    assert_eq!(decimal_string(u64::MAX), "18446744073709551615");
}

#[test]
fn empty_sort_has_no_value() {
    let s = Sort::new();
    assert!(s.is_empty());
    assert_eq!(s.to_value(), None);
    assert!(Sort::default().is_empty());
}

#[test]
fn sort_ascending_and_descending_tokens() {
    let mut s = Sort::new();
    s.sort("date", Ordering::Ascending);
    assert!(!s.is_empty());
    assert_eq!(s.to_value().as_deref(), Some("date:1"));
    s.sort("date", Ordering::Descending);
    assert_eq!(s.to_value().as_deref(), Some("date:-1"));
}
