use exercises::intervals::merge_intervals;

#[test]
fn test_merge_intervals_1() {
    let intervals = vec![vec![1, 3], vec![2, 6], vec![8, 10], vec![15, 18]];
    let result = merge_intervals(intervals);
    println!("Merged intervals: {:?}", result);
    assert_eq!(result, vec![vec![1, 6], vec![8, 10], vec![15, 18]]);
}

#[test]
fn test_merge_intervals_2() {
    let intervals = vec![vec![1, 4], vec![4, 5]];
    let result = merge_intervals(intervals);
    println!("Merged intervals: {:?}", result);
    assert_eq!(result, vec![vec![1, 5]]);
}

#[test]
fn test_merge_intervals_3() {
    let intervals = vec![vec![1, 4], vec![0, 4]];
    let result = merge_intervals(intervals);
    println!("Merged intervals: {:?}", result);
    assert_eq!(result, vec![vec![0, 4]]);
}

#[test]
fn test_merge_intervals_4() {
    let intervals = vec![vec![1, 10], vec![2, 6], vec![8, 10]];
    let result = merge_intervals(intervals);
    println!("Merged intervals: {:?}", result);
    assert_eq!(result, vec![vec![1, 10]]);
}

#[test]
fn test_merge_intervals_5() {
    let intervals = vec![vec![1, 2], vec![3, 5], vec![4, 7], vec![8, 10]];
    let result = merge_intervals(intervals);
    println!("Merged intervals: {:?}", result);
    assert_eq!(result, vec![vec![1, 2], vec![3, 7], vec![8, 10]]);
}

#[test]
fn a_single_interval_stays() {
    assert_eq!(merge_intervals(vec![vec![5, 9]]), vec![vec![5, 9]]);
    assert_eq!(merge_intervals(vec![vec![5, 9, 100]]), vec![vec![5, 9]]);
}

#[test]
fn of_intervals_with_the_same_start_the_last_counts() {
    assert_eq!(merge_intervals(vec![vec![1, 9], vec![1, 2], vec![5, 6]]), vec![
        vec![1, 2],
        vec![5, 6]
    ]);
    assert_eq!(merge_intervals(vec![vec![1, 2], vec![1, 9], vec![5, 6]]), vec![vec![1, 9]]);
}

#[test]
fn intervals_are_taken_in_the_order_of_their_starts() {
    assert_eq!(
        merge_intervals(vec![vec![15, 18], vec![8, 10], vec![2, 6], vec![1, 3], vec![-5, -4]]),
        vec![vec![-5, -4], vec![1, 6], vec![8, 10], vec![15, 18]]
    );
}

#[test]
fn an_interval_that_ends_before_it_starts_is_joined_as_it_stands() {
    assert_eq!(merge_intervals(vec![vec![5, 1], vec![2, 3]]), vec![vec![2, 3], vec![5, 1]]);
    assert_eq!(merge_intervals(vec![vec![1, 10], vec![3, 2], vec![11, 5]]), vec![
        vec![1, 10],
        vec![11, 5]
    ]);
}
