use exercises::matrix::rotate_matrix_90_degrees;

#[test]
fn test_rotate_matrix_1() {
    let mut matrix = vec![vec![1, 2, 3], vec![4, 5, 6], vec![7, 8, 9]];
    rotate_matrix_90_degrees(&mut matrix);
    println!("Rotated matrix: {:?}", matrix);
    assert_eq!(matrix, vec![vec![7, 4, 1], vec![8, 5, 2], vec![9, 6, 3],]);
}

#[test]
fn test_rotate_matrix_2() {
    let mut matrix = vec![vec![1, 2], vec![3, 4]];
    rotate_matrix_90_degrees(&mut matrix);
    println!("Rotated matrix: {:?}", matrix);
    assert_eq!(matrix, vec![vec![3, 1], vec![4, 2],]);
}

#[test]
fn test_rotate_matrix_3() {
    let mut matrix = vec![vec![1]];
    rotate_matrix_90_degrees(&mut matrix);
    println!("Rotated matrix: {:?}", matrix);
    assert_eq!(matrix, vec![vec![1],]);
}

#[test]
fn test_rotate_matrix_4() {
    let mut matrix = vec![vec![1, 2], vec![3, 4], vec![5, 6]];
    rotate_matrix_90_degrees(&mut matrix);
    println!("Rotated matrix: {:?}", matrix);
    assert_eq!(matrix, vec![vec![5, 3, 1], vec![6, 4, 2],]);
}

#[test]
fn test_rotate_matrix_5() {
    // 1 2 3       4 1
    // 4 5 6  -->  5 2
    //             6 3
    let mut matrix = vec![vec![1, 2, 3], vec![4, 5, 6]];
    rotate_matrix_90_degrees(&mut matrix);
    println!("Rotated matrix: {:?}", matrix);
    assert_eq!(matrix, vec![vec![4, 1], vec![5, 2], vec![6, 3]]);
}

#[test]
fn rotating_a_row_gives_a_column() {
    let mut matrix = vec![vec![1, 2, 3, 4]];
    rotate_matrix_90_degrees(&mut matrix);
    assert_eq!(matrix, vec![vec![1], vec![2], vec![3], vec![4]]);
    rotate_matrix_90_degrees(&mut matrix);
    assert_eq!(matrix, vec![vec![4, 3, 2, 1]]);
}

#[test]
fn rotating_rows_without_entries_leaves_no_row() {
    let mut matrix: Vec<Vec<i32>> = vec![vec![], vec![]];
    rotate_matrix_90_degrees(&mut matrix);
    assert_eq!(matrix, Vec::<Vec<i32>>::new());
}

#[test]
fn four_quarter_turns_give_the_matrix_back() {
    let original = vec![vec![1, -2, 3], vec![4, 5, i32::MIN], vec![7, i32::MAX, 9], vec![0, 0, 1]];
    let mut matrix = original.clone();
    for _ in 0..4 {
        rotate_matrix_90_degrees(&mut matrix);
    }
    assert_eq!(matrix, original);
}
