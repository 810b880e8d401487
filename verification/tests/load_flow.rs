//! The model-load flow end to end, without a graphics context: zip the
//! parsed arrays, resolve channel requests, run the texture cache, add
//! the meshes, and plan the draw bindings.

use glstudy::mesh::{Mesh, MeshTexture};
use glstudy::model::{
    build_vertices, texture_requests, MaterialType, Model, SourceMaterial, TextureRequest,
};
use glstudy::texture::Texture;

/// Loads one requested texture through the cache the way the renderer
/// does: a hit reuses the record, a miss "uploads" (counts) and records.
fn load_through_cache(
    model: &mut Model,
    request: &TextureRequest,
    next_id: &mut u32,
    uploads: &mut u32,
) -> MeshTexture {
    if let Some(i) = model.find_texture(&request.path) {
        let mut record = model.textures_loaded[i].clone();
        record.type_ = request.type_.clone();
        return record;
    }
    *uploads += 1;
    *next_id += 1;
    let record = MeshTexture {
        tex: Box::new(Texture::new(*next_id, request.path.clone(), 0, 0, 0, 0)),
        type_: request.type_.clone(),
        path: request.path.clone(),
    };
    model.record_texture(record.clone());
    record
}

#[test]
fn two_meshes_share_one_upload() {
    let mut model = Model::new("scene".to_owned());
    let mut next_id = 0;
    let mut uploads = 0;

    // two sub-meshes whose materials reference the same diffuse image
    let materials = [
        SourceMaterial {
            diffuse_texture: Some("wall.png".to_owned()),
            specular_texture: Some("wall_s.png".to_owned()),
            normal_texture: None,
        },
        SourceMaterial {
            diffuse_texture: Some("wall.png".to_owned()),
            specular_texture: None,
            normal_texture: None,
        },
    ];
    let field = [MaterialType::Diffuse, MaterialType::Specular];

    for material in &materials {
        let positions: Vec<u32> = vec![1, 2, 3, 4, 5, 6, 7, 8, 9];
        let normals: Vec<u32> = vec![0; 9];
        let texcoords: Vec<u32> = vec![0; 6];
        let vertices = build_vertices(&positions, &normals, &texcoords);
        assert_eq!(vertices.len(), 3);

        let mut textures = Vec::new();
        for request in texture_requests("scene", material, Some(&field)) {
            textures.push(load_through_cache(&mut model, &request, &mut next_id, &mut uploads));
        }
        let mesh = Mesh::new(vertices, vec![0, 1, 2], textures);
        assert!(model.add_mesh(mesh).is_ok());
    }

    // two distinct paths were requested three times, so one was a hit
    assert_eq!(uploads, 2);
    assert_eq!(model.textures_loaded.len(), 2);
    assert_eq!(model.meshes.len(), 2);
    assert_eq!(model.find_texture(&"scene/wall.png".to_owned()), Some(0));
    assert_eq!(model.find_texture(&"scene/wall_s.png".to_owned()), Some(1));

    // both meshes' records of the shared image point at the same upload
    let first = &model.meshes[0].textures[0];
    let second = &model.meshes[1].textures[0];
    assert_eq!(first.path, "scene/wall.png");
    assert_eq!(second.path, "scene/wall.png");
    assert_eq!(first.tex.id(), second.tex.id());

    // the draw plans number the roles per mesh
    let plan = model.meshes[0].sampler_bindings().unwrap();
    assert_eq!(plan.len(), 2);
    assert_eq!(plan[0].name, "texture_diffuse1");
    assert_eq!(plan[1].name, "texture_specular1");
    let plan = model.meshes[1].sampler_bindings().unwrap();
    assert_eq!(plan.len(), 1);
    assert_eq!(plan[0].name, "texture_diffuse1");
}

#[test]
fn default_vertex_is_zeroed() {
    let v = glstudy::mesh::MeshVertex::default();
    assert_eq!((v.position.x, v.position.y, v.position.z), (0, 0, 0));
    assert_eq!((v.normal.x, v.normal.y, v.normal.z), (0, 0, 0));
    assert_eq!((v.tex_coords.x, v.tex_coords.y), (0, 0));
}
