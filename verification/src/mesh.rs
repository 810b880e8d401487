//! Mesh data and the sampler binding plan.
//!
//! A mesh is an ordered vertex list, an index list, and the textures
//! attached to it by semantic role.  Vertex components are opaque 32-bit
//! scalars exactly as the model parser handed them over; the crate moves
//! them without interpreting them.  Drawing a mesh binds each texture to
//! a numbered unit under a numbered sampler name; the plan for those
//! bindings is computed and specified here, the draw calls themselves
//! happen outside.

use vstd::prelude::*;

use crate::error::GLError;
use crate::error::ModelError;
use crate::text::concat_str;
use crate::text::decimal_digits;
use crate::text::decimal_string;
use crate::texture::Texture;

verus! {

/// Three opaque 32-bit scalar components.
#[derive(Debug, PartialEq, Eq, Structural, Clone, Copy)]
pub struct Vec3 {
    /// First component.
    pub x: u32,
    /// Second component.
    pub y: u32,
    /// Third component.
    pub z: u32,
}

/// Two opaque 32-bit scalar components.
#[derive(Debug, PartialEq, Eq, Structural, Clone, Copy)]
pub struct Vec2 {
    /// First component.
    pub x: u32,
    /// Second component.
    pub y: u32,
}

/// One packed vertex of a mesh: position, normal, and texture
/// coordinates, all carried as opaque scalars.
#[derive(Debug, PartialEq, Eq, Structural, Clone, Copy)]
pub struct MeshVertex {
    /// Position of the vertex.
    pub position: Vec3,
    /// Normal of the surface at the vertex.
    pub normal: Vec3,
    /// Texture coordinates of the vertex.
    pub tex_coords: Vec2,
}

impl Default for MeshVertex {
    /// The all-zero vertex.
    fn default() -> (r: Self)
        ensures
            r.position == (Vec3 { x: 0, y: 0, z: 0 }),
            r.normal == (Vec3 { x: 0, y: 0, z: 0 }),
            r.tex_coords == (Vec2 { x: 0, y: 0 }),
    {
        MeshVertex {
            position: Vec3 { x: 0, y: 0, z: 0 },
            normal: Vec3 { x: 0, y: 0, z: 0 },
            tex_coords: Vec2 { x: 0, y: 0 },
        }
    }
}

/// A texture attached to a mesh: the upload record, the semantic role
/// it plays, and the resolved path it is cached under.
#[derive(Debug, Clone)]
pub struct MeshTexture {
    /// The texture's upload record.
    pub tex: Box<Texture>,
    /// Semantic role of the texture, one of the fixed role names.
    pub type_: String,
    /// Resolved path the texture was loaded from.
    pub path: String,
}

/// Semantic role of a mesh texture.
#[derive(Debug, PartialEq, Eq, Structural, Clone, Copy)]
pub enum TextureRole {
    /// Base colour map.
    Diffuse,
    /// Specular highlight map.
    Specular,
    /// Normal map.
    Normal,
    /// Height map.
    Height,
}

/// The role a role name stands for, if it belongs to the fixed role set.
pub open spec fn role_of(name: Seq<char>) -> Option<TextureRole> {
    if name == "texture_diffuse"@ {
        Some(TextureRole::Diffuse)
    } else if name == "texture_specular"@ {
        Some(TextureRole::Specular)
    } else if name == "texture_normal"@ {
        Some(TextureRole::Normal)
    } else if name == "texture_height"@ {
        Some(TextureRole::Height)
    } else {
        None
    }
}

/// Reads a role name; a name outside the fixed role set has no role.
pub fn parse_role(name: &String) -> (r: Option<TextureRole>)
    ensures
        r == role_of(name@),
{
    let diffuse: String = "texture_diffuse".to_owned();
    let specular: String = "texture_specular".to_owned();
    let normal: String = "texture_normal".to_owned();
    let height: String = "texture_height".to_owned();
    if *name == diffuse {
        Some(TextureRole::Diffuse)
    } else if *name == specular {
        Some(TextureRole::Specular)
    } else if *name == normal {
        Some(TextureRole::Normal)
    } else if *name == height {
        Some(TextureRole::Height)
    } else {
        None
    }
}

/// How many of the first `k` textures play the given role.
pub open spec fn count_role(ts: Seq<MeshTexture>, role: Option<TextureRole>, k: int) -> int
    decreases k,
{
    if k <= 0 {
        0
    } else {
        count_role(ts, role, k - 1) + if role_of(ts[k - 1].type_@) == role {
            1int
        } else {
            0int
        }
    }
}

/// No more of a role can occur among the first `k` textures than `k`.
pub proof fn lemma_count_role_bound(ts: Seq<MeshTexture>, role: Option<TextureRole>, k: int)
    requires
        k >= 0,
    ensures
        0 <= count_role(ts, role, k) <= k,
    decreases k,
{
    if k > 0 {
        lemma_count_role_bound(ts, role, k - 1);
    }
}

/// The sampler name texture `i` is bound under: its role name followed
/// by its occurrence number — how many textures up to and including it
/// play the same role.
pub open spec fn sampler_name_spec(ts: Seq<MeshTexture>, i: int) -> Seq<char> {
    ts[i].type_@ + decimal_digits(count_role(ts, role_of(ts[i].type_@), i + 1))
}

/// One planned binding: which texture goes to which unit under which
/// sampler name.
#[derive(Debug, Clone)]
pub struct SamplerBinding {
    /// The texture unit to bind to, equal to the texture's position.
    pub unit: u32,
    /// The numbered sampler name to set to that unit.
    pub name: String,
    /// The upload handle of the texture to bind.
    pub texture_id: u32,
}

/// The plan `bs` binds the textures `ts`, each to the unit of its
/// position under its numbered sampler name.
pub open spec fn bindings_ok(ts: Seq<MeshTexture>, bs: Seq<SamplerBinding>) -> bool {
    &&& bs.len() == ts.len()
    &&& forall|i: int|
        0 <= i < ts.len() ==> {
            &&& (#[trigger] bs[i]).unit == i
            &&& bs[i].texture_id == ts[i].tex.id
            &&& bs[i].name@ == sampler_name_spec(ts, i)
        }
}

/// A mesh: its vertices, its indices, and its textures.  The graphics
/// buffers the renderer uploads them into are owned outside.
#[derive(Debug)]
pub struct Mesh {
    /// Ordered vertex list.
    pub vertices: Vec<MeshVertex>,
    /// Ordered index list into the vertices.
    pub indices: Vec<u32>,
    /// Textures attached to the mesh.
    pub textures: Vec<MeshTexture>,
}

impl Mesh {
    /// A mesh from its parts.
    pub fn new(vertices: Vec<MeshVertex>, indices: Vec<u32>, textures: Vec<MeshTexture>) -> (m:
        Mesh)
        ensures
            m.vertices == vertices,
            m.indices == indices,
            m.textures == textures,
    {
        Mesh { vertices, indices, textures }
    }

    /// Plans the texture bindings of a draw of this mesh: texture `i`
    /// goes to unit `i` under its role name followed by its occurrence
    /// number.  The first texture whose role name is outside the fixed
    /// role set fails the plan with that name.
    pub fn sampler_bindings(&self) -> (r: Result<Vec<SamplerBinding>, GLError>)
        requires
            self.textures@.len() < u32::MAX,
        ensures
            r is Ok <==> (forall|i: int|
                0 <= i < self.textures@.len() ==> role_of(
                    #[trigger] self.textures@[i].type_@,
                ) is Some),
            r matches Ok(bs) ==> bindings_ok(self.textures@, bs@),
            r matches Err(e) ==> exists|i: int|
                {
                    &&& 0 <= i < self.textures@.len()
                    &&& role_of(#[trigger] self.textures@[i].type_@) is None
                    &&& forall|j: int| 0 <= j < i ==> role_of(#[trigger] self.textures@[j].type_@) is Some
                    &&& e == GLError::ModelError(
                        ModelError::UnknownTextureType(self.textures@[i].type_),
                    )
                },
    {
        let ts = &self.textures;
        let ghost tseq = self.textures@;
        let mut bindings: Vec<SamplerBinding> = Vec::new();
        let mut diffuse_nr: u32 = 0;
        let mut specular_nr: u32 = 0;
        let mut normal_nr: u32 = 0;
        let mut height_nr: u32 = 0;
        let mut i: usize = 0;
        while i < ts.len()
            invariant
                ts@ == tseq,
                self.textures@ == tseq,
                tseq.len() < u32::MAX,
                i <= tseq.len(),
                diffuse_nr == count_role(tseq, Some(TextureRole::Diffuse), i as int),
                specular_nr == count_role(tseq, Some(TextureRole::Specular), i as int),
                normal_nr == count_role(tseq, Some(TextureRole::Normal), i as int),
                height_nr == count_role(tseq, Some(TextureRole::Height), i as int),
                bindings@.len() == i,
                forall|k: int|
                    0 <= k < i ==> role_of(#[trigger] tseq[k].type_@) is Some,
                forall|k: int|
                    0 <= k < i ==> {
                        &&& (#[trigger] bindings@[k]).unit == k
                        &&& bindings@[k].texture_id == tseq[k].tex.id
                        &&& bindings@[k].name@ == sampler_name_spec(tseq, k)
                    },
            decreases tseq.len() - i,
        {
            let texture = &ts[i];
            proof {
                lemma_count_role_bound(tseq, role_of(tseq[i as int].type_@), i as int);
            }
            let number: u32 = match parse_role(&texture.type_) {
                None => {
                    proof {
                        assert(0 <= (i as int) < tseq.len() && role_of(tseq[i as int].type_@)
                            is None && (forall|j: int|
                            0 <= j < i as int ==> role_of(#[trigger] tseq[j].type_@) is Some));
                    }
                    return Err(
                        GLError::ModelError(
                            ModelError::UnknownTextureType(texture.type_.clone()),
                        ),
                    );
                },
                Some(TextureRole::Diffuse) => {
                    diffuse_nr = diffuse_nr + 1;
                    diffuse_nr
                },
                Some(TextureRole::Specular) => {
                    specular_nr = specular_nr + 1;
                    specular_nr
                },
                Some(TextureRole::Normal) => {
                    normal_nr = normal_nr + 1;
                    normal_nr
                },
                Some(TextureRole::Height) => {
                    height_nr = height_nr + 1;
                    height_nr
                },
            };
            let digits = decimal_string(number);
            let name = concat_str(texture.type_.as_str(), digits.as_str());
            let texture_id = texture.tex.id();
            bindings.push(SamplerBinding { unit: i as u32, name, texture_id });
            i = i + 1;
        }
        Ok(bindings)
    }
}

/// The position of the first texture whose role name is outside the
/// fixed role set, if any.
pub fn first_unknown_role(textures: &Vec<MeshTexture>) -> (r: Option<usize>)
    ensures
        r matches Some(i) ==> {
            &&& 0 <= i < textures@.len()
            &&& role_of(#[trigger] textures@[i as int].type_@) is None
            &&& forall|j: int| 0 <= j < i ==> role_of(#[trigger] textures@[j].type_@) is Some
        },
        r is None <==> (forall|i: int|
            0 <= i < textures@.len() ==> role_of(#[trigger] textures@[i].type_@) is Some),
{
    let mut i: usize = 0;
    while i < textures.len()
        invariant
            i <= textures@.len(),
            forall|k: int| 0 <= k < i ==> role_of(#[trigger] textures@[k].type_@) is Some,
        decreases textures@.len() - i,
    {
        if parse_role(&textures[i].type_).is_none() {
            return Some(i);
        }
        i = i + 1;
    }
    None
}

} // verus!
