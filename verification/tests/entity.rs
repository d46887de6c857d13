use virtual_camera::entity::{entity_path, new_entity_path};

#[test]
fn path_ends_in_the_front_of_the_identifier() {
    assert_eq!(
        entity_path("a1b2c3d4-0000-4000-8000-000000000000"),
        "/virtual_camera_a1b2c3d4"
    );
    assert_ne!(entity_path("a1b2c3d4"), entity_path("a1b2c3d5"));
}

#[test]
fn drawn_paths_have_the_shape_and_differ() {
    let mut seen: Vec<String> = Vec::new();
    for _ in 0..20 {
        let path = new_entity_path();
        let id = path.strip_prefix("/virtual_camera_").unwrap();
        assert_eq!(id.len(), 8);
        assert!(id.chars().all(|c| c.is_ascii_digit() || ('a'..='f').contains(&c)));
        seen.push(path);
    }
    let first = seen[0].clone();
    assert!(seen.iter().any(|path| *path != first));
}
