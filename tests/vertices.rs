use rengine::graphic_component::assemble_vertices;

#[test]
fn interleaves_positions_normals_and_tex_coords() {
    let positions: Vec<f32> = vec![0.0, 1.0, 2.0, 3.0, 4.0, 5.0];
    let normals: Vec<f32> = vec![0.0, 0.0, 1.0, 0.0, 1.0, 0.0];
    let tex: Vec<f32> = vec![0.25, 0.5, 0.75, 1.0];
    let v = assemble_vertices(&positions, &normals, &tex, 0.0);
    assert_eq!(v.len(), 2);
    assert_eq!(v[0].position, (0.0, 1.0, 2.0));
    assert_eq!(v[0].normal, (0.0, 0.0, 1.0));
    assert_eq!(v[0].tex_coord, (0.25, 0.5));
    assert_eq!(v[1].position, (3.0, 4.0, 5.0));
    assert_eq!(v[1].normal, (0.0, 1.0, 0.0));
    assert_eq!(v[1].tex_coord, (0.75, 1.0));
}

#[test]
fn missing_tex_coords_become_zero() {
    let positions: Vec<f32> = vec![1.0, 2.0, 3.0, 4.0, 5.0, 6.0];
    let normals: Vec<f32> = vec![0.0, 1.0, 0.0, 0.0, 1.0, 0.0];
    let v = assemble_vertices(&positions, &normals, &Vec::new(), 0.0f32);
    assert_eq!(v.len(), 2);
    assert_eq!(v[0].tex_coord, (0.0, 0.0));
    assert_eq!(v[1].tex_coord, (0.0, 0.0));
    assert_eq!(v[1].position, (4.0, 5.0, 6.0));
}

#[test]
fn shortest_attribute_array_decides_the_count() {
    let positions: Vec<i32> = (0..12).collect();
    let normals: Vec<i32> = (100..107).collect();
    let tex: Vec<i32> = (200..210).collect();
    let v = assemble_vertices(&positions, &normals, &tex, 0);
    // seven normal scalars make two whole normals
    assert_eq!(v.len(), 2);
    assert_eq!(v[1].position, (3, 4, 5));
    assert_eq!(v[1].normal, (103, 104, 105));
    assert_eq!(v[1].tex_coord, (202, 203));

    let short_tex: Vec<i32> = vec![7, 8, 9];
    let v = assemble_vertices(&positions, &positions, &short_tex, 0);
    assert_eq!(v.len(), 1);
    assert_eq!(v[0].tex_coord, (7, 8));
}

#[test]
fn empty_mesh_has_no_vertices() {
    let empty: Vec<f32> = Vec::new();
    assert!(assemble_vertices(&empty, &empty, &empty, 0.0).is_empty());
    let two: Vec<f32> = vec![1.0, 2.0];
    assert!(assemble_vertices(&two, &two, &empty, 0.0).is_empty());
}
