use tesselator::{collect_indices, collect_vertices, tesselation_result, TESS_UNDEF};

#[test]
fn indices_without_sentinels_keep_every_slot() {
    let elements: Vec<i32> = vec![0, 1, 2, 2, 3, 0];
    assert_eq!(collect_indices(&elements), vec![0u32, 1, 2, 2, 3, 0]);
}

#[test]
fn sentinel_slots_are_dropped_in_order() {
    let elements: Vec<i32> = vec![0, 1, 2, 3, 4, TESS_UNDEF];
    let out = collect_indices(&elements);
    assert_eq!(out, vec![0u32, 1, 2, 3, 4]);
    assert_ne!(out.len() % 3, 0);
}

#[test]
fn run_of_sentinels_contributes_nothing() {
    let elements: Vec<i32> = vec![-1, -1, -1, 5, -1, 6];
    assert_eq!(collect_indices(&elements), vec![5u32, 6]);
}

#[test]
fn trailing_partial_run_is_not_read() {
    let elements: Vec<i32> = vec![0, 1, 2, 7];
    assert_eq!(collect_indices(&elements), vec![0u32, 1, 2]);
}

#[test]
fn empty_element_buffer_gives_no_indices() {
    let elements: Vec<i32> = Vec::new();
    assert!(collect_indices(&elements).is_empty());
}

#[test]
fn other_negative_slot_is_cast_like_the_engine_index_type() {
    let elements: Vec<i32> = vec![-2, 0, 1];
    assert_eq!(collect_indices(&elements), vec![4294967294u32, 0, 1]);
}

#[test]
fn vertices_are_paired_in_emission_order() {
    let flat: Vec<f32> = vec![1.0, 2.0, 3.0, 4.0, 5.0, 6.0];
    assert_eq!(collect_vertices(&flat), vec![[1.0f32, 2.0], [3.0, 4.0], [5.0, 6.0]]);
}

#[test]
fn odd_trailing_coordinate_is_not_a_vertex() {
    let flat: Vec<f32> = vec![1.0, 2.0, 3.0];
    assert_eq!(collect_vertices(&flat), vec![[1.0f32, 2.0]]);
}

#[test]
fn empty_vertex_buffer_gives_no_vertices() {
    let flat: Vec<f32> = Vec::new();
    assert!(collect_vertices(&flat).is_empty());
}

#[test]
fn failed_solve_gives_nothing() {
    let flat: Vec<f32> = Vec::new();
    let elements: Vec<i32> = Vec::new();
    assert!(tesselation_result(0, &flat, &elements).is_none());
}

#[test]
fn failed_solve_ignores_any_buffers() {
    let flat: Vec<f32> = vec![0.0, 0.0, 1.0, 0.0, 1.0, 1.0];
    let elements: Vec<i32> = vec![0, 1, 2];
    assert!(tesselation_result(0, &flat, &elements).is_none());
}

#[test]
fn square_solve_gives_four_vertices_and_two_triangles() {
    let flat: Vec<f32> = vec![0.0, 0.0, 1.0, 0.0, 1.0, 1.0, 0.0, 1.0];
    let elements: Vec<i32> = vec![0, 1, 2, 0, 2, 3];
    let (vertices, indices) = tesselation_result(1, &flat, &elements).unwrap();
    assert_eq!(vertices, vec![[0.0f32, 0.0], [1.0, 0.0], [1.0, 1.0], [0.0, 1.0]]);
    assert_eq!(indices, vec![0u32, 1, 2, 0, 2, 3]);
    assert_eq!(indices.len(), 3 * (4 - 2));
}

#[test]
fn every_index_names_a_vertex() {
    let flat: Vec<f32> = vec![0.0, 0.0, 2.0, 0.0, 2.0, 2.0, 0.0, 2.0, 1.0, 1.0];
    let elements: Vec<i32> = vec![0, 1, 4, 1, 2, 4, 2, 3, -1, 3, 0, 4];
    let (vertices, indices) = tesselation_result(1, &flat, &elements).unwrap();
    assert_eq!(indices.len(), 11);
    assert!(indices.iter().all(|i| (*i as usize) < vertices.len()));
}

#[test]
fn repeated_reads_of_the_same_buffers_agree() {
    let flat: Vec<f32> = vec![0.0, 0.0, 1.0, 0.0, 0.0, 1.0];
    let elements: Vec<i32> = vec![0, 1, 2];
    let first = tesselation_result(1, &flat, &elements);
    let second = tesselation_result(1, &flat, &elements);
    assert_eq!(first, second);
}

#[test]
fn any_nonzero_status_counts_as_success() {
    let flat: Vec<f32> = vec![0.0, 0.0, 1.0, 0.0, 0.0, 1.0];
    let elements: Vec<i32> = vec![0, 1, 2];
    let out = tesselation_result(-3, &flat, &elements).unwrap();
    assert_eq!(out.1, vec![0u32, 1, 2]);
}
