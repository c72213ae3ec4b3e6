use learn_opengl::model::{
    build_vertices, obj_base_dir, resolve_texture_path, texture_bindings, Mesh, Model,
    ModelError, TextureLoader, Vec2Bits, Vec3Bits, Vertex,
};
use learn_opengl::texture::{rgba_buffer_size, Texture};

#[test]
fn vertices_are_grouped_from_flat_arrays() {
    let positions = vec![1, 2, 3, 4, 5, 6];
    let normals = vec![7, 8, 9, 10, 11, 12];
    let texture_coords = vec![13, 14, 15, 16];
    let vs = build_vertices(&positions, &normals, &texture_coords).unwrap();
    assert_eq!(
        vs,
        vec![
            Vertex {
                position: Vec3Bits { x: 1, y: 2, z: 3 },
                normal: Vec3Bits { x: 7, y: 8, z: 9 },
                texture_coordinate: Vec2Bits { u: 13, v: 14 },
            },
            Vertex {
                position: Vec3Bits { x: 4, y: 5, z: 6 },
                normal: Vec3Bits { x: 10, y: 11, z: 12 },
                texture_coordinate: Vec2Bits { u: 15, v: 16 },
            },
        ]
    );
}

#[test]
fn missing_texture_coordinates_default_to_zero() {
    let positions = vec![1, 2, 3, 4, 5, 6];
    let normals = vec![7, 8, 9, 10, 11, 12];
    let texture_coords = vec![13, 14];
    let vs = build_vertices(&positions, &normals, &texture_coords).unwrap();
    assert_eq!(vs[0].texture_coordinate, Vec2Bits { u: 13, v: 14 });
    assert_eq!(vs[1].texture_coordinate, Vec2Bits { u: 0, v: 0 });
}

#[test]
fn incomplete_triples_are_dropped() {
    let positions = vec![1, 2, 3, 4, 5];
    let normals = vec![7, 8, 9];
    let vs = build_vertices(&positions, &normals, &Vec::new()).unwrap();
    assert_eq!(vs.len(), 1);
    assert_eq!(vs[0].position, Vec3Bits { x: 1, y: 2, z: 3 });
}

#[test]
fn too_few_normals_are_refused() {
    let positions = vec![1, 2, 3, 4, 5, 6];
    let normals = vec![7, 8, 9];
    let r = build_vertices(&positions, &normals, &Vec::new());
    assert_eq!(r, Err(ModelError::MissingNormals));
}

#[test]
fn no_positions_make_an_empty_mesh() {
    let vs = build_vertices(&Vec::new(), &Vec::new(), &Vec::new()).unwrap();
    assert!(vs.is_empty());
}

#[test]
fn empty_texture_names_mean_no_texture() {
    assert_eq!(resolve_texture_path("models/rock", ""), None);
}

#[test]
fn absolute_texture_names_stand_alone() {
    let r = resolve_texture_path("models/rock", "/tex/rock.png").unwrap();
    assert_eq!(r, "/tex/rock.png");
}

#[test]
fn relative_texture_names_join_the_base_directory() {
    let r = resolve_texture_path("models/rock", "rock.png").unwrap();
    assert_eq!(r, "models/rock/rock.png");
}

#[test]
fn an_empty_base_directory_leaves_the_name_alone() {
    let r = resolve_texture_path("", "rock.png").unwrap();
    assert_eq!(r, "rock.png");
}

#[test]
fn a_root_base_directory_adds_no_second_separator() {
    let r = resolve_texture_path("/", "rock.png").unwrap();
    assert_eq!(r, "/rock.png");
}

#[test]
fn base_dir_is_the_prefix_before_the_last_separator() {
    assert_eq!(obj_base_dir("resources/models/rock/rock.obj"), "resources/models/rock");
}

#[test]
fn base_dir_of_a_bare_file_name_is_empty() {
    assert_eq!(obj_base_dir("rock.obj"), "");
}

#[test]
fn base_dir_of_a_root_file_is_the_root() {
    assert_eq!(obj_base_dir("/rock.obj"), "/");
}

#[test]
fn base_dir_of_the_empty_path_falls_back_to_the_root() {
    assert_eq!(obj_base_dir(""), "/");
}

#[test]
fn the_texture_cache_returns_each_path_once() {
    let mut loader = TextureLoader::new();
    assert_eq!(loader.len(), 0);
    let rock = String::from("models/rock/rock.png");
    assert_eq!(loader.lookup(&rock), None);
    let slot = loader.insert(rock.clone(), Texture::new(7));
    assert_eq!(slot, 0);
    assert_eq!(loader.lookup(&rock), Some(0));
    assert_eq!(loader.texture_at(0).id(), 7);
    let planet = String::from("models/planet/planet.png");
    let slot = loader.insert(planet.clone(), Texture::new(9));
    assert_eq!(slot, 1);
    assert_eq!(loader.len(), 2);
    assert_eq!(loader.lookup(&planet), Some(1));
    assert_eq!(loader.texture_at(1).id(), 9);
    assert_eq!(loader.lookup(&rock), Some(0));
}

#[test]
fn bindings_give_diffuse_maps_the_first_units() {
    let diffuse = vec![Texture::new(4), Texture::new(5)];
    let specular = vec![Texture::new(6)];
    let bindings = texture_bindings(&diffuse, &specular);
    assert_eq!(bindings.len(), 3);
    assert_eq!(bindings[0].name, "material.texture_diffuse[0]");
    assert_eq!(bindings[0].unit, 0);
    assert_eq!(bindings[0].texture.id(), 4);
    assert_eq!(bindings[1].name, "material.texture_diffuse[1]");
    assert_eq!(bindings[1].unit, 1);
    assert_eq!(bindings[1].texture.id(), 5);
    assert_eq!(bindings[2].name, "material.texture_specular[0]");
    assert_eq!(bindings[2].unit, 2);
    assert_eq!(bindings[2].texture.id(), 6);
}

#[test]
fn bindings_of_an_untextured_mesh_are_empty() {
    let bindings = texture_bindings(&Vec::new(), &Vec::new());
    assert!(bindings.is_empty());
}

#[test]
fn meshes_and_models_keep_their_parts() {
    let vertices = vec![Vertex {
        position: Vec3Bits { x: 1, y: 2, z: 3 },
        normal: Vec3Bits { x: 4, y: 5, z: 6 },
        texture_coordinate: Vec2Bits { u: 7, v: 8 },
    }];
    let mesh = Mesh::new(vertices.clone(), vec![0, 0, 0], vec![Texture::new(1)], Vec::new());
    assert_eq!(mesh.vertices, vertices);
    assert_eq!(mesh.indices, vec![0, 0, 0]);
    assert_eq!(mesh.diffuse_textures, vec![Texture::new(1)]);
    assert!(mesh.specular_textures.is_empty());
    let model = Model::new(vec![mesh]);
    assert_eq!(model.meshes.len(), 1);
}

#[test]
fn rgba_buffers_take_four_bytes_per_pixel() {
    assert_eq!(rgba_buffer_size(16, 8), Some(512));
    assert_eq!(rgba_buffer_size(0, 1024), Some(0));
    assert_eq!(rgba_buffer_size(1024, 1024), Some(4 * 1024 * 1024));
}

#[test]
fn oversized_rgba_buffers_are_refused() {
    assert_eq!(rgba_buffer_size(u32::MAX, u32::MAX), None);
}

#[test]
fn texture_handles_remember_their_name() {
    let t = Texture::new(42);
    assert_eq!(t.id(), 42);
    assert_eq!(t, Texture::new(42));
}
