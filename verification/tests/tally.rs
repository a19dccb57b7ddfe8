use recipe_codegen::tally::tally;

fn ids(items: &[&str]) -> Vec<String> {
    items.iter().map(|s| s.to_string()).collect()
}

fn entries(items: &[(&str, u64)]) -> Vec<(String, u64)> {
    items.iter().map(|(s, n)| (s.to_string(), *n)).collect()
}

#[test]
fn counts_each_item_once_for_each_occurrence() {
    assert_eq!(tally(ids(&["a", "b", "a", "a", "c", "b"])), entries(&[("a", 3), ("b", 2), ("c", 1)]));
}

#[test]
fn keeps_the_order_of_first_occurrence() {
    assert_eq!(tally(ids(&["z", "a", "m", "a", "z"])), entries(&[("z", 2), ("a", 2), ("m", 1)]));
}

#[test]
fn tallies_nothing_as_nothing() {
    assert_eq!(tally(Vec::new()), Vec::new());
}

#[test]
fn tallies_one_item_many_times() {
    let many = vec!["stick".to_string(); 1000];
    assert_eq!(tally(many), entries(&[("stick", 1000)]));
}
