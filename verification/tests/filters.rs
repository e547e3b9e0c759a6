use sx_metrics::utils::create_filters;

#[test]
fn items_under_the_key_are_collected() {
    let filter = create_filters("code=a,b&table=accounts", "code");
    assert_eq!(filter.len(), 2);
    assert!(filter.contains("a"));
    assert!(filter.contains("b"));
    assert!(!filter.contains("accounts"));
}

#[test]
fn a_key_given_twice_adds_up() {
    let filter = create_filters("code=a,b&scope=x&code=b,c", "code");
    assert_eq!(filter.len(), 3);
    assert!(filter.contains("a"));
    assert!(filter.contains("b"));
    assert!(filter.contains("c"));
    assert!(!filter.contains("x"));
}

#[test]
fn parts_without_exactly_one_equals_sign_are_skipped() {
    let filter = create_filters("code&code=a=b&code=c", "code");
    assert_eq!(filter.len(), 1);
    assert!(filter.contains("c"));
}

#[test]
fn another_key_gives_nothing() {
    let filter = create_filters("code=a,b", "table");
    assert!(filter.is_empty());
    let filter = create_filters("", "code");
    assert!(filter.is_empty());
    let filter = create_filters("Code=a", "code");
    assert!(filter.is_empty());
}

#[test]
fn empty_items_are_items() {
    let filter = create_filters("code=", "code");
    assert_eq!(filter.len(), 1);
    assert!(filter.contains(""));
    let filter = create_filters("code=a,,b", "code");
    assert_eq!(filter.len(), 3);
    assert!(filter.contains(""));
}

#[test]
fn the_empty_key_is_a_key() {
    let filter = create_filters("=x,y&k=z", "");
    assert_eq!(filter.len(), 2);
    assert!(filter.contains("x"));
    assert!(filter.contains("y"));
}
