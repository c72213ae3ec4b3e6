//! Mesh assembly for models imported from triangle-mesh files.
//!
//! A mesh importer hands back flat arrays: vertex positions in groups of
//! three values, optional normals in groups of three, optional texture
//! coordinates in groups of two, plus triangle indices and per-material
//! texture file names.  The functions here turn those arrays into
//! per-vertex records, resolve texture file names against the model's
//! directory, keep a cache so each texture file is created on the GPU
//! only once, and lay out the uniform bindings a mesh draw must issue.
//!
//! Scalar vertex components are carried as raw 32-bit words; the
//! renderer reinterprets them as the API's scalar type when uploading,
//! so nothing here depends on floating-point arithmetic.

use vstd::prelude::*;
use vstd::string::StrSliceExecFns;
use vstd::string::StringExecFns;

use crate::decimal::{dec_digits, decimal_string};
use crate::texture::Texture;

verus! {

/// Three raw 32-bit vertex components.
#[derive(Clone, Copy, Debug, PartialEq, Eq, Structural)]
pub struct Vec3Bits {
    pub x: u32,
    pub y: u32,
    pub z: u32,
}

/// Two raw 32-bit vertex components.
#[derive(Clone, Copy, Debug, PartialEq, Eq, Structural)]
pub struct Vec2Bits {
    pub u: u32,
    pub v: u32,
}

/// One vertex as it is uploaded to the GPU: position, normal, texture
/// coordinate.
#[derive(Clone, Copy, Debug, PartialEq, Eq, Structural)]
pub struct Vertex {
    pub position: Vec3Bits,
    pub normal: Vec3Bits,
    pub texture_coordinate: Vec2Bits,
}

/// Why a mesh could not be assembled.
#[derive(Clone, Copy, Debug, PartialEq, Eq, Structural)]
pub enum ModelError {
    /// The imported mesh supplies fewer normals than vertices; lighting
    /// needs one normal per vertex.
    MissingNormals,
}

/// The vertex that position `i` of the imported arrays describes: its
/// three position components, its three normal components, and its two
/// texture-coordinate components, the latter zero when the mesh gives
/// no coordinate for this vertex.
pub open spec fn spec_vertex(p: Seq<u32>, n: Seq<u32>, t: Seq<u32>, i: int) -> Vertex {
    Vertex {
        position: Vec3Bits { x: p[3 * i], y: p[3 * i + 1], z: p[3 * i + 2] },
        normal: Vec3Bits { x: n[3 * i], y: n[3 * i + 1], z: n[3 * i + 2] },
        texture_coordinate: if i < t.len() / 2 {
            Vec2Bits { u: t[2 * i], v: t[2 * i + 1] }
        } else {
            Vec2Bits { u: 0, v: 0 }
        },
    }
}

/// Combine the imported component arrays into one vertex record per
/// complete position triple.  Positions beyond the last complete triple
/// are dropped; a vertex without a texture coordinate gets coordinate
/// zero; a mesh with fewer normal triples than vertices is refused.
pub fn build_vertices(
    positions: &Vec<u32>,
    normals: &Vec<u32>,
    texture_coords: &Vec<u32>,
) -> (r: Result<Vec<Vertex>, ModelError>)
    ensures
        (match r {
            Ok(vs) => {
                &&& positions@.len() / 3 == 0 || normals@.len() / 3 >= positions@.len() / 3
                &&& vs@.len() == positions@.len() / 3
                &&& forall|i: int|
                    0 <= i < vs@.len() ==> (#[trigger] vs@[i]) == spec_vertex(
                        positions@,
                        normals@,
                        texture_coords@,
                        i,
                    )
            },
            Err(e) => {
                &&& e == ModelError::MissingNormals
                &&& normals@.len() / 3 < positions@.len() / 3
            },
        }),
{
    let n = positions.len() / 3;
    let normal_triples = normals.len() / 3;
    if n > 0 && normal_triples < n {
        return Err(ModelError::MissingNormals);
    }
    let tn = texture_coords.len() / 2;
    let mut vs: Vec<Vertex> = Vec::new();
    let mut i: usize = 0;
    while i < n
        invariant
            n == positions@.len() / 3,
            tn == texture_coords@.len() / 2,
            positions@.len() <= usize::MAX,
            normals@.len() <= usize::MAX,
            texture_coords@.len() <= usize::MAX,
            n > 0 ==> normals@.len() / 3 >= n,
            i <= n,
            vs@.len() == i,
            forall|j: int|
                0 <= j < i ==> (#[trigger] vs@[j]) == spec_vertex(
                    positions@,
                    normals@,
                    texture_coords@,
                    j,
                ),
        decreases n - i,
    {
        proof {
            assert(3 * (positions@.len() / 3) <= positions@.len());
            assert(3 * (normals@.len() / 3) <= normals@.len());
            assert(2 * (texture_coords@.len() / 2) <= texture_coords@.len());
            assert(3 * i + 2 < positions@.len());
            assert(3 * i + 2 < normals@.len());
            assert(i < tn ==> 2 * i + 1 < texture_coords@.len());
        }
        let b = 3 * i;
        let position = Vec3Bits { x: positions[b], y: positions[b + 1], z: positions[b + 2] };
        let normal = Vec3Bits { x: normals[b], y: normals[b + 1], z: normals[b + 2] };
        let texture_coordinate = if i < tn {
            let c = 2 * i;
            Vec2Bits { u: texture_coords[c], v: texture_coords[c + 1] }
        } else {
            Vec2Bits { u: 0, v: 0 }
        };
        vs.push(Vertex { position, normal, texture_coordinate });
        i = i + 1;
    }
    Ok(vs)
}

/// A material's texture file name resolved against a directory: an
/// empty base leaves the name alone, otherwise the two are joined with
/// a path separator unless the base already ends in one.
pub open spec fn spec_joined(base: Seq<char>, name: Seq<char>) -> Seq<char> {
    if base.len() == 0 {
        name
    } else if base.last() == '/' {
        base + name
    } else {
        base + seq!['/'] + name
    }
}

/// Resolve a material's texture file name: no name means no texture, an
/// absolute name (leading separator) stands as it is, and a relative
/// name is joined to the model's directory.
pub fn resolve_texture_path(base_dir: &str, name: &str) -> (r: Option<String>)
    ensures
        (r is Some) == (name@.len() > 0),
        name@.len() > 0 && name@[0] == '/' ==> r->0@ == name@,
        name@.len() > 0 && name@[0] != '/' ==> r->0@ == spec_joined(base_dir@, name@),
{
    proof {
        reveal_strlit("/");
    }
    let name_len = name.unicode_len();
    if name_len == 0 {
        return None;
    }
    if name.get_char(0) == '/' {
        return Some(String::from_str(name));
    }
    let base_len = base_dir.unicode_len();
    if base_len == 0 {
        return Some(String::from_str(name));
    }
    let mut out = String::from_str(base_dir);
    if base_dir.get_char(base_len - 1) != '/' {
        out.append("/");
    }
    out.append(name);
    Some(out)
}

/// The directory part of a model file's path: everything before the
/// last path separator.  A path without a separator lies in the current
/// directory (empty result), except that the empty path falls back to
/// the root; a path whose only separator leads is in the root.
pub open spec fn spec_base_dir(s: Seq<char>) -> Seq<char> {
    match s.index_of_last('/') {
        Option::None => if s.len() == 0 {
            seq!['/']
        } else {
            Seq::empty()
        },
        Option::Some(i) => if i == 0 {
            seq!['/']
        } else {
            s.take(i)
        },
    }
}

/// The directory a model file's relative texture names are resolved
/// against, as [`spec_base_dir`] describes it.
pub fn obj_base_dir(path: &str) -> (r: String)
    ensures
        r@ == spec_base_dir(path@),
{
    proof {
        reveal_strlit("/");
        path@.index_of_last_ensures('/');
    }
    let len = path.unicode_len();
    let mut i = len;
    while i > 0
        invariant
            i <= len,
            len == path@.len(),
            forall|j: int| i <= j < len ==> path@[j] != '/',
        decreases i,
    {
        if path.get_char(i - 1) == '/' {
            proof {
                reveal_strlit("/");
                path@.index_of_last_ensures('/');
                assert(path@.index_of_last('/') == Some((i - 1) as int));
            }
            if i - 1 == 0 {
                return String::from_str("/");
            }
            return String::from_str(path.substring_char(0, i - 1));
        }
        i = i - 1;
    }
    proof {
        reveal_strlit("/");
        path@.index_of_last_ensures('/');
        assert(!path@.contains('/'));
    }
    if len == 0 {
        String::from_str("/")
    } else {
        String::new()
    }
}

/// A cache of the textures already created on the GPU, one slot per
/// distinct file path, so a file shared by several materials is only
/// uploaded once.
pub struct TextureLoader {
    cache: Vec<(String, Texture)>,
}

impl TextureLoader {
    /// The cached file paths, in insertion order.
    pub closed spec fn paths(&self) -> Seq<Seq<char>> {
        Seq::new(self.cache@.len(), |i: int| self.cache@[i].0@)
    }

    /// The cached texture handles, in insertion order.
    pub closed spec fn textures(&self) -> Seq<Texture> {
        Seq::new(self.cache@.len(), |i: int| self.cache@[i].1)
    }

    /// No file path occupies two slots.
    pub open spec fn wf(&self) -> bool {
        forall|i: int, j: int|
            0 <= i < j < self.paths().len() ==> self.paths()[i] != self.paths()[j]
    }

    /// An empty cache.
    pub fn new() -> (r: Self)
        ensures
            r.wf(),
            r.paths().len() == 0,
            r.textures().len() == 0,
    {
        TextureLoader { cache: Vec::new() }
    }

    /// Number of cached textures.
    pub fn len(&self) -> (r: usize)
        ensures
            r == self.paths().len(),
            r == self.textures().len(),
    {
        self.cache.len()
    }

    /// The slot holding `path`, if that file's texture was already
    /// created: the first slot whose path matches.
    pub fn lookup(&self, path: &String) -> (r: Option<usize>)
        ensures
            (match r {
                Some(i) => {
                    &&& i < self.paths().len()
                    &&& self.paths()[i as int] == path@
                    &&& forall|j: int| 0 <= j < i ==> self.paths()[j] != path@
                },
                None => !self.paths().contains(path@),
            }),
    {
        let mut i: usize = 0;
        while i < self.cache.len()
            invariant
                i <= self.cache@.len(),
                forall|j: int| 0 <= j < i ==> self.paths()[j] != path@,
            decreases self.cache@.len() - i,
        {
            if self.cache[i].0 == *path {
                return Some(i);
            }
            i = i + 1;
        }
        None
    }

    /// The texture in slot `i`.
    pub fn texture_at(&self, i: usize) -> (t: Texture)
        requires
            i < self.textures().len(),
        ensures
            t == self.textures()[i as int],
    {
        self.cache[i].1
    }

    /// Record the texture created for a path not yet cached; its slot
    /// is returned.
    pub fn insert(&mut self, path: String, texture: Texture) -> (r: usize)
        requires
            old(self).wf(),
            !old(self).paths().contains(path@),
        ensures
            final(self).wf(),
            r == old(self).paths().len(),
            final(self).paths() == old(self).paths().push(path@),
            final(self).textures() == old(self).textures().push(texture),
    {
        let r = self.cache.len();
        let ghost old_paths = self.paths();
        self.cache.push((path, texture));
        proof {
            assert(self.paths() =~= old_paths.push(path@));
            assert(self.textures() =~= old(self).textures().push(texture));
            assert forall|i: int, j: int|
                0 <= i < j < self.paths().len() implies self.paths()[i] != self.paths()[j] by {
                if j == self.paths().len() - 1 {
                    assert(old_paths.contains(old_paths[i]));
                }
            }
        }
        r
    }
}

/// One mesh of a model: its vertex records, its triangle indices, and
/// the textures its material binds for the diffuse and specular maps.
pub struct Mesh {
    pub vertices: Vec<Vertex>,
    pub indices: Vec<u32>,
    pub diffuse_textures: Vec<Texture>,
    pub specular_textures: Vec<Texture>,
}

impl Mesh {
    /// Bundle the parts of one mesh.
    pub fn new(
        vertices: Vec<Vertex>,
        indices: Vec<u32>,
        diffuse_textures: Vec<Texture>,
        specular_textures: Vec<Texture>,
    ) -> (r: Self)
        ensures
            r.vertices == vertices,
            r.indices == indices,
            r.diffuse_textures == diffuse_textures,
            r.specular_textures == specular_textures,
    {
        Mesh { vertices, indices, diffuse_textures, specular_textures }
    }
}

/// A model: the meshes of one imported file, drawn together.
pub struct Model {
    pub meshes: Vec<Mesh>,
}

impl Model {
    /// A model made of the given meshes.
    pub fn new(meshes: Vec<Mesh>) -> (r: Self)
        ensures
            r.meshes == meshes,
    {
        Model { meshes }
    }
}

/// The uniform name of diffuse map `i`.
pub open spec fn diffuse_uniform_name(i: int) -> Seq<char> {
    "material.texture_diffuse["@ + dec_digits(i as nat) + "]"@
}

/// The uniform name of specular map `i`.
pub open spec fn specular_uniform_name(i: int) -> Seq<char> {
    "material.texture_specular["@ + dec_digits(i as nat) + "]"@
}

/// One texture binding a mesh draw must issue: which texture goes to
/// which texture unit under which sampler uniform.
#[derive(Debug)]
pub struct UniformBinding {
    pub name: String,
    pub unit: u32,
    pub texture: Texture,
}

/// The bindings of one mesh draw: the diffuse maps take the first
/// texture units in order, the specular maps the units after them, and
/// each map's sampler uniform names its index within its own kind.
pub fn texture_bindings(diffuse: &Vec<Texture>, specular: &Vec<Texture>) -> (r: Vec<
    UniformBinding,
>)
    requires
        diffuse@.len() + specular@.len() <= i32::MAX,
    ensures
        r@.len() == diffuse@.len() + specular@.len(),
        forall|i: int|
            0 <= i < diffuse@.len() ==> {
                &&& (#[trigger] r@[i]).name@ == diffuse_uniform_name(i)
                &&& r@[i].unit == i
                &&& r@[i].texture == diffuse@[i]
            },
        forall|i: int|
            diffuse@.len() <= i < r@.len() ==> {
                &&& (#[trigger] r@[i]).name@ == specular_uniform_name(i - diffuse@.len())
                &&& r@[i].unit == i
                &&& r@[i].texture == specular@[i - diffuse@.len()]
            },
{
    let mut r: Vec<UniformBinding> = Vec::new();
    let mut i: usize = 0;
    while i < diffuse.len()
        invariant
            i <= diffuse@.len(),
            diffuse@.len() + specular@.len() <= i32::MAX,
            r@.len() == i,
            forall|j: int|
                0 <= j < i ==> {
                    &&& (#[trigger] r@[j]).name@ == diffuse_uniform_name(j)
                    &&& r@[j].unit == j
                    &&& r@[j].texture == diffuse@[j]
                },
        decreases diffuse@.len() - i,
    {
        let mut name = String::from_str("material.texture_diffuse[");
        let index = decimal_string(i);
        name.append(index.as_str());
        name.append("]");
        r.push(UniformBinding { name, unit: i as u32, texture: diffuse[i] });
        i = i + 1;
    }
    let mut k: usize = 0;
    while k < specular.len()
        invariant
            k <= specular@.len(),
            diffuse@.len() + specular@.len() <= i32::MAX,
            i == diffuse@.len(),
            r@.len() == i + k,
            forall|j: int|
                0 <= j < i ==> {
                    &&& (#[trigger] r@[j]).name@ == diffuse_uniform_name(j)
                    &&& r@[j].unit == j
                    &&& r@[j].texture == diffuse@[j]
                },
            forall|j: int|
                i <= j < i + k ==> {
                    &&& (#[trigger] r@[j]).name@ == specular_uniform_name(j - i)
                    &&& r@[j].unit == j
                    &&& r@[j].texture == specular@[j - i]
                },
        decreases specular@.len() - k,
    {
        let mut name = String::from_str("material.texture_specular[");
        let index = decimal_string(k);
        name.append(index.as_str());
        name.append("]");
        r.push(UniformBinding { name, unit: (i + k) as u32, texture: specular[k] });
        k = k + 1;
    }
    r
}

} // verus!
