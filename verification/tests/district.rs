use exercises::district::{
    bfs, count_connected_components, count_groups, count_provinces, try_count_provinces, Graph,
};

fn roads(list: &[(&str, &[&str])]) -> Vec<(String, Vec<String>)> {
    list.iter()
        .map(|(place, others)| {
            (place.to_string(), others.iter().map(|o| o.to_string()).collect())
        })
        .collect()
}

#[test]
fn a_graph_is_made_of_roads() {
    let mut graph = Graph::new();
    assert_eq!(graph.names.len(), 0);
    assert_eq!(graph.data.len(), 0);
    graph.generate_edges(&roads(&[("a", &["b", "c"]), ("d", &[]), ("c", &["a", "c"])]));
    assert_eq!(graph.names, vec!["a", "b", "c", "d"]);
    assert_eq!(graph.data, vec![vec![1, 2, 2], vec![0], vec![0, 0, 2, 2], vec![]]);
    graph.generate_edges(&roads(&[]));
    assert_eq!(graph.names.len(), 0);
    assert_eq!(graph.data.len(), 0);
}

#[test]
fn groups_of_connected_places_are_counted() {
    assert_eq!(count_groups(&roads(&[])), 0);
    assert_eq!(count_groups(&roads(&[("a", &[])])), 1);
    assert_eq!(count_groups(&roads(&[("a", &["a"])])), 1);
    assert_eq!(count_groups(&roads(&[("a", &["b"]), ("c", &["d"])])), 2);
    assert_eq!(count_groups(&roads(&[("a", &["b"]), ("c", &["d"]), ("d", &["a"])])), 1);
    assert_eq!(
        count_groups(&roads(&[("a", &["b", "c"]), ("d", &[]), ("e", &["f"]), ("f", &["e"])])),
        3
    );
    assert_eq!(count_groups(&roads(&[("b", &["a"]), ("c", &[]), ("a", &["c"])])), 1);
}

#[test]
fn a_search_marks_what_a_node_reaches() {
    let graph = Graph {
        names: vec![],
        data: vec![vec![1], vec![0, 2], vec![1], vec![4], vec![3], vec![]],
    };
    let mut visited = vec![false; 6];
    bfs(&graph, 2, &mut visited);
    assert_eq!(visited, vec![true, true, true, false, false, false]);
    bfs(&graph, 4, &mut visited);
    assert_eq!(visited, vec![true, true, true, true, true, false]);
    assert_eq!(count_connected_components(&graph), 3);
}

#[test]
fn roads_that_go_one_way_only_count_by_the_first_node() {
    // Node 1 leads to node 0, but node 0 leads nowhere: both begin a group.
    let graph = Graph { names: vec![], data: vec![vec![], vec![0]] };
    assert_eq!(count_connected_components(&graph), 2);
    // Node 0 leads to node 1: one group.
    let graph = Graph { names: vec![], data: vec![vec![1], vec![]] };
    assert_eq!(count_connected_components(&graph), 1);
}

#[test]
fn districts_are_counted_from_text() {
    let input = r#"{
        "1": {"a": ["b"], "c": ["d"]},
        "2": {"a": ["b", "c"], "d": ["a"]},
        "3": {},
        "5": {"x": [], "y": [], "z": ["z"]}
    }"#;
    assert_eq!(count_provinces(input), "2,1,0,0,3");
}

#[test]
fn of_districts_with_the_same_number_the_last_counts() {
    let input = r#"{"2": {"a": []}, "+2": {"a": [], "b": []}, "02": {}}"#;
    assert_eq!(count_provinces(input), "0,0,0,0,0");
    let input = r#"{"2": {"a": []}, "2": {"a": [], "b": []}}"#;
    assert_eq!(count_provinces(input), "0,2,0,0,0");
}

#[test]
fn values_of_another_shape_count_as_empty() {
    assert_eq!(count_provinces("[1, 2]"), "0,0,0,0,0");
    assert_eq!(count_provinces("null"), "0,0,0,0,0");
    // The place a, the place b and the place without name hang together.
    assert_eq!(count_provinces(r#"{"1": 7, "2": {"a": 7, "b": [7, "a"]}}"#), "0,1,0,0,0");
    assert_eq!(count_provinces(r#"{"2": {"a": 7, "b": [7]}}"#), "0,2,0,0,0");
}

#[test]
fn districts_are_counted_where_they_can_be() {
    assert_eq!(try_count_provinces(r#"{"1": {"a": ["b"]}}"#), Some("1,0,0,0,0".to_string()));
    assert_eq!(try_count_provinces("7"), Some("0,0,0,0,0".to_string()));
    assert_eq!(try_count_provinces(r#"{"0": {}}"#), None);
    assert_eq!(try_count_provinces(r#"{"6": {}}"#), None);
    assert_eq!(try_count_provinces(r#"{"one": {}}"#), None);
    assert_eq!(try_count_provinces(r#"{"": {}}"#), None);
    assert_eq!(try_count_provinces(r#"{"1": {}"#), None);
    assert_eq!(try_count_provinces(""), None);
}

#[test]
fn a_search_passes_no_node_that_is_marked() {
    // A chain 0 - 1 - 2 with the middle node marked: the search from 0
    // marks 0 and stops before 1.
    let graph = Graph { names: vec![], data: vec![vec![1], vec![0, 2], vec![1]] };
    let mut visited = vec![false, true, false];
    bfs(&graph, 0, &mut visited);
    assert_eq!(visited, vec![true, true, false]);
    // A search from a node that is marked goes on from it all the same.
    let mut visited = vec![true, false, false];
    bfs(&graph, 0, &mut visited);
    assert_eq!(visited, vec![true, true, true]);
    // Where everything is marked nothing changes.
    let mut visited = vec![true, true, true];
    bfs(&graph, 1, &mut visited);
    assert_eq!(visited, vec![true, true, true]);
    // A node without neighbours marks itself.
    let graph = Graph { names: vec![], data: vec![vec![], vec![0]] };
    let mut visited = vec![false, false];
    bfs(&graph, 0, &mut visited);
    assert_eq!(visited, vec![true, false]);
}
