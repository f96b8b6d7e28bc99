use flyer_control::patch::{merge_leaves, ConfigLeaf, MergeError};

fn leaf(path: &str, value: &str) -> ConfigLeaf {
    ConfigLeaf { path: path.to_string(), value: value.to_string() }
}

fn base() -> Vec<ConfigLeaf> {
    vec![
        leaf("mode", "\"Normal\""),
        leaf("params.force_max_kg", "10.0"),
        leaf("params.force_min_kg", "1.0"),
        leaf("winches", "[]"),
    ]
}

#[test]
fn empty_patch_changes_nothing() {
    assert_eq!(merge_leaves(base(), &Vec::new()), Ok(base()));
}

#[test]
fn patch_replaces_the_leaves_that_it_names() {
    let patch = vec![leaf("params.force_max_kg", "12.5"), leaf("mode", "\"Halted\"")];
    assert_eq!(
        merge_leaves(base(), &patch),
        Ok(vec![
            leaf("mode", "\"Halted\""),
            leaf("params.force_max_kg", "12.5"),
            leaf("params.force_min_kg", "1.0"),
            leaf("winches", "[]"),
        ])
    );
}

#[test]
fn the_last_value_for_a_leaf_wins() {
    let patch = vec![
        leaf("params.force_min_kg", "2.0"),
        leaf("mode", "\"Halted\""),
        leaf("params.force_min_kg", "3.0"),
    ];
    let merged = merge_leaves(base(), &patch).unwrap();
    assert_eq!(merged[2], leaf("params.force_min_kg", "3.0"));
    assert_eq!(merged[0], leaf("mode", "\"Halted\""));
}

#[test]
fn unknown_key_refuses_the_patch() {
    let patch = vec![
        leaf("params.force_min_kg", "2.0"),
        leaf("params.no_such", "1"),
        leaf("neither", "2"),
    ];
    assert_eq!(
        merge_leaves(base(), &patch),
        Err(MergeError::UnknownKey("params.no_such".to_string()))
    );
}

#[test]
fn a_table_is_no_leaf() {
    assert_eq!(
        merge_leaves(base(), &vec![leaf("params", "7")]),
        Err(MergeError::UnknownKey("params".to_string()))
    );
}

#[test]
fn every_leaf_of_a_repeated_path_is_replaced() {
    let twice = vec![leaf("a", "1"), leaf("b", "2"), leaf("a", "3")];
    assert_eq!(
        merge_leaves(twice, &vec![leaf("a", "9")]),
        Ok(vec![leaf("a", "9"), leaf("b", "2"), leaf("a", "9")])
    );
}

#[test]
fn nothing_merges_onto_nothing() {
    assert_eq!(merge_leaves(Vec::new(), &Vec::new()), Ok(Vec::new()));
    assert_eq!(
        merge_leaves(Vec::new(), &vec![leaf("a", "1")]),
        Err(MergeError::UnknownKey("a".to_string()))
    );
}
