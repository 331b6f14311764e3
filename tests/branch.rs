use gitkit::branch::{temp_branch_name, BRANCH_PREFIX};

fn names(v: &[&str]) -> Vec<String> {
    v.iter().map(|s| s.to_string()).collect()
}

#[test]
fn prefix_when_free() {
    assert_eq!(BRANCH_PREFIX, "temp_split_");
    assert_eq!(temp_branch_name(&names(&[])), "temp_split_");
    assert_eq!(temp_branch_name(&names(&["main", "temp_split"])), "temp_split_");
}

#[test]
fn one_more_underscore_when_taken() {
    assert_eq!(temp_branch_name(&names(&["main", "temp_split_"])), "temp_split__");
}

#[test]
fn probes_until_free() {
    let taken = names(&["temp_split___", "temp_split_", "dev", "temp_split__"]);
    assert_eq!(temp_branch_name(&taken), "temp_split____");
}

#[test]
fn first_gap_wins() {
    let taken = names(&["temp_split_", "temp_split___"]);
    assert_eq!(temp_branch_name(&taken), "temp_split__");
}
