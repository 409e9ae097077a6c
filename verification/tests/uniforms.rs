use rabbit_hole::uniforms::{texture_bindings, texture_uniform_name, GL_TEXTURE0, SCENE_TEXTURE_SLOTS};

#[test]
fn sampler_names_of_the_scene_shader() {
    assert_eq!(texture_uniform_name(0), b"textures[0]\0".to_vec());
    assert_eq!(texture_uniform_name(9), b"textures[9]\0".to_vec());
    assert_eq!(texture_uniform_name(10), b"textures[10]\0".to_vec());
    assert_eq!(texture_uniform_name(SCENE_TEXTURE_SLOTS - 1), b"textures[15]\0".to_vec());
}

#[test]
fn sampler_name_matches_format() {
    for i in [0u32, 7, 16, 99, 100, 4096, 65535, u32::MAX] {
        assert_eq!(texture_uniform_name(i), format!("textures[{}]\0", i).into_bytes());
    }
}

#[test]
fn texture_units_follow_texture_order() {
    let texs = vec![5u32, 9, 2];
    assert_eq!(
        texture_bindings(&texs),
        vec![(GL_TEXTURE0, 5), (GL_TEXTURE0 + 1, 9), (GL_TEXTURE0 + 2, 2)]
    );
    assert!(texture_bindings(&Vec::new()).is_empty());
}
