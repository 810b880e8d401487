use glstudy::error::{GLError, ModelError};
use glstudy::mesh::{parse_role, Mesh, MeshTexture, TextureRole};
use glstudy::texture::Texture;

fn texture_record(id: u32, path: &str, role: &str) -> MeshTexture {
    MeshTexture {
        tex: Box::new(Texture::new(id, path.to_owned(), 0, 0, 0, 0)),
        type_: role.to_owned(),
        path: path.to_owned(),
    }
}

#[test]
fn parse_role_fixed_set() {
    assert_eq!(parse_role(&"texture_diffuse".to_owned()), Some(TextureRole::Diffuse));
    assert_eq!(parse_role(&"texture_specular".to_owned()), Some(TextureRole::Specular));
    assert_eq!(parse_role(&"texture_normal".to_owned()), Some(TextureRole::Normal));
    assert_eq!(parse_role(&"texture_height".to_owned()), Some(TextureRole::Height));
    assert_eq!(parse_role(&"texture_gloss".to_owned()), None);
    assert_eq!(parse_role(&"".to_owned()), None);
}

#[test]
fn sampler_bindings_number_roles() {
    let mesh = Mesh::new(
        Vec::new(),
        Vec::new(),
        vec![
            texture_record(5, "a", "texture_diffuse"),
            texture_record(6, "b", "texture_specular"),
            texture_record(7, "c", "texture_diffuse"),
            texture_record(8, "d", "texture_normal"),
            texture_record(9, "e", "texture_diffuse"),
        ],
    );
    let plan = mesh.sampler_bindings().unwrap();
    assert_eq!(plan.len(), 5);
    let got: Vec<(u32, &str, u32)> = plan
        .iter()
        .map(|b| (b.unit, b.name.as_str(), b.texture_id))
        .collect();
    assert_eq!(
        got,
        vec![
            (0, "texture_diffuse1", 5),
            (1, "texture_specular1", 6),
            (2, "texture_diffuse2", 7),
            (3, "texture_normal1", 8),
            (4, "texture_diffuse3", 9),
        ]
    );
}

#[test]
fn sampler_bindings_empty_mesh() {
    let mesh = Mesh::new(Vec::new(), Vec::new(), Vec::new());
    assert!(mesh.sampler_bindings().unwrap().is_empty());
}

#[test]
fn sampler_bindings_unknown_role_fails() {
    let mesh = Mesh::new(
        Vec::new(),
        Vec::new(),
        vec![
            texture_record(1, "a", "texture_diffuse"),
            texture_record(2, "b", "texture_glow"),
        ],
    );
    match mesh.sampler_bindings() {
        Err(GLError::ModelError(ModelError::UnknownTextureType(name))) => {
            assert_eq!(name, "texture_glow")
        },
        other => panic!("expected an unknown texture type, got {:?}", other),
    }
}

#[test]
fn mesh_new_keeps_parts() {
    let mesh = Mesh::new(Vec::new(), vec![2, 1, 0], vec![texture_record(3, "p", "texture_height")]);
    assert_eq!(mesh.indices, vec![2, 1, 0]);
    assert_eq!(mesh.textures.len(), 1);
    assert_eq!(mesh.textures[0].path, "p");
    assert!(mesh.vertices.is_empty());
}
