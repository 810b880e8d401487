//! Model assembly: vertex zipping, texture channel requests, and the
//! texture cache.
//!
//! A model is an ordered collection of meshes plus a cache of the
//! textures already loaded for it, keyed by resolved path, so that a path
//! referenced by several meshes is uploaded once.  Parsing the model file
//! and decoding images happen outside; what arrives here are the parsed
//! component arrays, the material's texture file names, and the upload
//! records, and what is decided here is how vertices are zipped, which
//! texture channels are requested under which role, and whether a path is
//! already cached.

use vstd::prelude::*;

use crate::error::ModelError;
use crate::mesh::Mesh;
use crate::mesh::MeshTexture;
use crate::mesh::MeshVertex;
use crate::mesh::Vec2;
use crate::mesh::Vec3;
use crate::mesh::first_unknown_role;
use crate::mesh::role_of;
use crate::text::concat_str;

verus! {

/// Texture channel of a material that a load may request.
#[derive(Debug, PartialEq, Eq, Structural, Clone, Copy)]
pub enum MaterialType {
    /// Base colour channel.
    Diffuse,
    /// Normal map channel.
    Normal,
    /// Specular highlight channel.
    Specular,
}

/// The texture file names a parsed material offers, one per channel.
#[derive(Debug)]
pub struct SourceMaterial {
    /// File name of the base colour map, if the material has one.
    pub diffuse_texture: Option<String>,
    /// File name of the specular map, if the material has one.
    pub specular_texture: Option<String>,
    /// File name of the normal map, if the material has one.
    pub normal_texture: Option<String>,
}

/// One texture to load: the resolved path and the role name to attach
/// it under.
#[derive(Debug)]
pub struct TextureRequest {
    /// Path of the image file, resolved against the model's directory.
    pub path: String,
    /// Role name the loaded texture plays.
    pub type_: String,
}

/// The vertex zipped from position `i` of the parsed component arrays:
/// three position scalars, three normal scalars, two texture
/// coordinates, all index-aligned.
pub open spec fn vertex_at(pos: Seq<u32>, norm: Seq<u32>, tex: Seq<u32>, i: int) -> MeshVertex {
    MeshVertex {
        position: Vec3 { x: pos[3 * i], y: pos[3 * i + 1], z: pos[3 * i + 2] },
        normal: Vec3 { x: norm[3 * i], y: norm[3 * i + 1], z: norm[3 * i + 2] },
        tex_coords: Vec2 { x: tex[2 * i], y: tex[2 * i + 1] },
    }
}

/// Zips the parsed component arrays into packed vertices: every three
/// position scalars make one vertex, taking its normal and texture
/// coordinates from the same position of the other two arrays.
pub fn build_vertices(positions: &Vec<u32>, normals: &Vec<u32>, texcoords: &Vec<u32>) -> (r: Vec<
    MeshVertex,
>)
    requires
        normals@.len() >= 3 * (positions@.len() as int / 3),
        texcoords@.len() >= 2 * (positions@.len() as int / 3),
    ensures
        r@.len() == positions@.len() as int / 3,
        forall|i: int|
            0 <= i < r@.len() ==> #[trigger] r@[i] == vertex_at(
                positions@,
                normals@,
                texcoords@,
                i,
            ),
{
    let count: usize = positions.len() / 3;
    let mut vertices: Vec<MeshVertex> = Vec::new();
    let mut i: usize = 0;
    while i < count
        invariant
            count == positions@.len() as int / 3,
            positions@.len() <= usize::MAX,
            normals@.len() >= 3 * (count as int),
            texcoords@.len() >= 2 * (count as int),
            3 * (count as int) <= positions@.len(),
            i <= count,
            vertices@.len() == i,
            forall|k: int|
                0 <= k < i ==> #[trigger] vertices@[k] == vertex_at(
                    positions@,
                    normals@,
                    texcoords@,
                    k,
                ),
        decreases count - i,
    {
        let vertex = MeshVertex {
            position: Vec3 {
                x: positions[i * 3],
                y: positions[i * 3 + 1],
                z: positions[i * 3 + 2],
            },
            normal: Vec3 { x: normals[i * 3], y: normals[i * 3 + 1], z: normals[i * 3 + 2] },
            tex_coords: Vec2 { x: texcoords[i * 2], y: texcoords[i * 2 + 1] },
        };
        vertices.push(vertex);
        i = i + 1;
    }
    vertices
}

/// Joins a file name onto a directory with the path separator.
pub fn join_path(directory: &str, name: &str) -> (r: String)
    ensures
        r@ == directory@ + "/"@ + name@,
{
    let mut s = concat_str(directory, "/");
    s.push_str(name);
    s
}

/// The channel requests of a material, as path and role-name character
/// sequences: the channels the caller asked for and the material offers,
/// in the fixed order base colour, specular, normal, each path resolved
/// against the directory.
pub open spec fn requests_model(
    directory: Seq<char>,
    material: SourceMaterial,
    field: Seq<MaterialType>,
) -> Seq<(Seq<char>, Seq<char>)> {
    (if field.contains(MaterialType::Diffuse) && material.diffuse_texture is Some {
        seq![(directory + "/"@ + material.diffuse_texture->0@, "texture_diffuse"@)]
    } else {
        Seq::empty()
    }) + (if field.contains(MaterialType::Specular) && material.specular_texture is Some {
        seq![(directory + "/"@ + material.specular_texture->0@, "texture_specular"@)]
    } else {
        Seq::empty()
    }) + (if field.contains(MaterialType::Normal) && material.normal_texture is Some {
        seq![(directory + "/"@ + material.normal_texture->0@, "texture_normal"@)]
    } else {
        Seq::empty()
    })
}

/// Whether the requests `rs` spell out the path and role pairs of
/// `model`, element by element.
pub open spec fn requests_match(rs: Seq<TextureRequest>, model: Seq<(Seq<char>, Seq<char>)>)
    -> bool {
    &&& rs.len() == model.len()
    &&& forall|i: int|
        0 <= i < rs.len() ==> (#[trigger] rs[i]).path@ == model[i].0 && rs[i].type_@
            == model[i].1
}

/// `field@.contains(m)`, decided by a scan.
pub fn contains_material(field: &[MaterialType], m: MaterialType) -> (r: bool)
    ensures
        r == field@.contains(m),
{
    let mut i: usize = 0;
    while i < field.len()
        invariant
            i <= field@.len(),
            forall|k: int| 0 <= k < i ==> field@[k] != m,
        decreases field@.len() - i,
    {
        if field[i] == m {
            return true;
        }
        i = i + 1;
    }
    false
}

/// Resolves the texture channels to load for one material: every channel
/// that the caller requested and the material offers becomes a request
/// with its path resolved against the model's directory and the role
/// name of its channel, in the fixed order base colour, specular,
/// normal.  A caller that requested no channels loads none.
pub fn texture_requests(
    directory: &str,
    material: &SourceMaterial,
    load_field: Option<&[MaterialType]>,
) -> (r: Vec<TextureRequest>)
    ensures
        load_field matches Some(field) ==> requests_match(
            r@,
            requests_model(directory@, *material, field@),
        ),
        load_field is None ==> r@.len() == 0,
{
    let mut requests: Vec<TextureRequest> = Vec::new();
    if let Some(field) = load_field {
        if contains_material(field, MaterialType::Diffuse) {
            if let Some(name) = &material.diffuse_texture {
                requests.push(
                    TextureRequest {
                        path: join_path(directory, name.as_str()),
                        type_: "texture_diffuse".to_owned(),
                    },
                );
            }
        }
        if contains_material(field, MaterialType::Specular) {
            if let Some(name) = &material.specular_texture {
                requests.push(
                    TextureRequest {
                        path: join_path(directory, name.as_str()),
                        type_: "texture_specular".to_owned(),
                    },
                );
            }
        }
        if contains_material(field, MaterialType::Normal) {
            if let Some(name) = &material.normal_texture {
                requests.push(
                    TextureRequest {
                        path: join_path(directory, name.as_str()),
                        type_: "texture_normal".to_owned(),
                    },
                );
            }
        }
    }
    requests
}

/// Whether some cache entry is keyed by `path`.
pub open spec fn cache_has(cache: Seq<MeshTexture>, path: Seq<char>) -> bool {
    exists|i: int| 0 <= i < cache.len() && (#[trigger] cache[i]).path@ == path
}

/// Whether `i` is the first cache entry keyed by `path`.
pub open spec fn first_cached(cache: Seq<MeshTexture>, path: Seq<char>, i: int) -> bool {
    &&& 0 <= i < cache.len()
    &&& cache[i].path@ == path
    &&& forall|j: int| 0 <= j < i ==> (#[trigger] cache[j]).path@ != path
}

/// A model: its meshes and the cache of textures already loaded for it.
#[derive(Debug)]
pub struct Model {
    /// Ordered mesh list.
    pub meshes: Vec<Mesh>,
    /// Cache of loaded textures, keyed by resolved path.
    pub textures_loaded: Vec<MeshTexture>,
    /// Directory of the model file, which texture paths resolve against.
    pub directory: String,
}

impl Model {
    /// An empty model rooted at the given directory.
    pub fn new(directory: String) -> (m: Model)
        ensures
            m.meshes@.len() == 0,
            m.textures_loaded@.len() == 0,
            m.directory == directory,
    {
        Model { meshes: Vec::new(), textures_loaded: Vec::new(), directory }
    }

    /// Looks a resolved path up in the texture cache: the position of the
    /// first entry with that path, or nothing if the path has not been
    /// loaded yet.  A caller uploads an image only on a miss.
    pub fn find_texture(&self, path: &String) -> (r: Option<usize>)
        ensures
            r matches Some(i) ==> first_cached(self.textures_loaded@, path@, i as int),
            r is Some <==> cache_has(self.textures_loaded@, path@),
    {
        let mut i: usize = 0;
        while i < self.textures_loaded.len()
            invariant
                i <= self.textures_loaded@.len(),
                forall|k: int|
                    0 <= k < i ==> (#[trigger] self.textures_loaded@[k]).path@ != path@,
            decreases self.textures_loaded@.len() - i,
        {
            if self.textures_loaded[i].path == *path {
                return Some(i);
            }
            i = i + 1;
        }
        None
    }

    /// Records a freshly loaded texture at the end of the cache.
    pub fn record_texture(&mut self, texture: MeshTexture)
        ensures
            final(self).textures_loaded@ == old(self).textures_loaded@.push(texture),
            final(self).meshes == old(self).meshes,
            final(self).directory == old(self).directory,
    {
        self.textures_loaded.push(texture);
    }

    /// Adds an assembled mesh to the model, provided every texture role
    /// on it belongs to the fixed role set; the first texture with an
    /// unrecognized role name fails the load with that name, and the
    /// model is left as it was.
    pub fn add_mesh(&mut self, mesh: Mesh) -> (r: Result<(), ModelError>)
        ensures
            r is Ok <==> (forall|i: int|
                0 <= i < mesh.textures@.len() ==> role_of(
                    #[trigger] mesh.textures@[i].type_@,
                ) is Some),
            r is Ok ==> final(self).meshes@ == old(self).meshes@.push(mesh),
            r is Err ==> final(self).meshes == old(self).meshes,
            r matches Err(e) ==> exists|i: int|
                {
                    &&& 0 <= i < mesh.textures@.len()
                    &&& role_of(#[trigger] mesh.textures@[i].type_@) is None
                    &&& forall|j: int|
                        0 <= j < i ==> role_of(#[trigger] mesh.textures@[j].type_@) is Some
                    &&& e == ModelError::UnknownTextureType(mesh.textures@[i].type_)
                },
            final(self).textures_loaded == old(self).textures_loaded,
            final(self).directory == old(self).directory,
    {
        match first_unknown_role(&mesh.textures) {
            Some(i) => Err(ModelError::UnknownTextureType(mesh.textures[i].type_.clone())),
            None => {
                self.meshes.push(mesh);
                Ok(())
            },
        }
    }
}

/// Two positions that both claim the first cache entry for a path are
/// the same position: a path is cached under one entry, so loading the
/// same resolved path twice within one model yields the same cached
/// texture.
pub proof fn lemma_first_cached_unique(cache: Seq<MeshTexture>, path: Seq<char>, i: int, j: int)
    requires
        first_cached(cache, path, i),
        first_cached(cache, path, j),
    ensures
        i == j,
{
}

/// Recording further textures does not disturb the cache entry of an
/// already cached path: a lookup after any sequence of records still
/// answers with the same entry, so a path is uploaded at most once.
pub proof fn lemma_first_cached_stable(
    cache: Seq<MeshTexture>,
    more: MeshTexture,
    path: Seq<char>,
    i: int,
)
    requires
        first_cached(cache, path, i),
    ensures
        first_cached(cache.push(more), path, i),
        cache_has(cache.push(more), path),
{
    assert(cache.push(more)[i] == cache[i]);
}

} // verus!
