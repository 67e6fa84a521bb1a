use wifi_qr::render::get_bool_matrix_as_string;

#[test]
fn test_bool_matrix_string_conversion() {
    // The matrix
    //   [true, false]
    //   [false, true]
    // renders as a diagonal of block pairs.
    let test_matrix: Vec<Vec<bool>> = vec![vec![true, false], vec![false, true]];
    let correct_result = "██  \n  ██\n";
    assert_eq!(get_bool_matrix_as_string(test_matrix), correct_result);
}

#[test]
fn empty_matrix_renders_to_empty_text() {
    let empty: Vec<Vec<bool>> = Vec::new();
    assert_eq!(get_bool_matrix_as_string(empty), "");
}

#[test]
fn single_cell_rows() {
    assert_eq!(get_bool_matrix_as_string(vec![vec![true]]), "██\n");
    assert_eq!(get_bool_matrix_as_string(vec![vec![false]]), "  \n");
}

#[test]
fn rendering_is_idempotent_on_a_fixed_input() {
    let matrix: Vec<Vec<bool>> = vec![
        vec![true, true, false, false],
        vec![false, true, false, true],
        vec![true, false, true, true],
    ];
    let first = get_bool_matrix_as_string(matrix.clone());
    let second = get_bool_matrix_as_string(matrix);
    assert_eq!(first, second);
}

#[test]
fn line_count_and_line_lengths_match_the_matrix() {
    let rows: usize = 3;
    let cols: usize = 4;
    let matrix: Vec<Vec<bool>> = vec![
        vec![true, true, false, false],
        vec![false, true, false, true],
        vec![true, false, true, true],
    ];
    let rendered = get_bool_matrix_as_string(matrix);
    assert_eq!(rendered.lines().count(), rows);
    for line in rendered.lines() {
        assert_eq!(line.chars().count(), 2 * cols);
    }
}
