//! Models: where their files lie, how the lists of a loaded file become
//! vertices, which textures a material asks for, and the store that keeps one
//! texture per path.

use crate::draw::{commands, lemma_commands_concat, Command, DrawStep};
use crate::mesh::{Mesh, Vertex};
use crate::texture::{Texture2D, TextureType};
use vstd::prelude::*;
use vstd::string::*;

verus! {

/// How many characters stand before the first dot of `path`; all of them
/// where it has none.
pub open spec fn stem_len(path: Seq<char>) -> nat
    decreases path.len(),
{
    if path.len() == 0 || path[0] == '.' {
        0
    } else {
        1 + stem_len(path.drop_first())
    }
}

/// The name of the model that the file `path` holds: what stands before the
/// first dot.
pub open spec fn model_name(path: Seq<char>) -> Seq<char> {
    path.subrange(0, stem_len(path) as int)
}

/// The directory that holds the files of the model in the file `path`.
pub open spec fn model_directory(path: Seq<char>) -> Seq<char> {
    "ressources/models/"@ + model_name(path)
}

/// Where the file `path` of a model lies.
pub open spec fn model_file(path: Seq<char>) -> Seq<char> {
    model_directory(path) + seq!['/'] + path
}

/// `stem_len` is the place of the first dot: no dot stands before it, and a
/// dot stands at it unless the path has none.
pub proof fn lemma_stem_len(path: Seq<char>)
    ensures
        stem_len(path) <= path.len(),
        forall|k: int| 0 <= k < stem_len(path) ==> path[k] != '.',
        stem_len(path) < path.len() ==> path[stem_len(path) as int] == '.',
        stem_len(path) < path.len() <==> path.contains('.'),
    decreases path.len(),
{
    if path.len() > 0 && path[0] != '.' {
        let rest = path.drop_first();
        lemma_stem_len(rest);
        assert forall|k: int| 0 <= k < stem_len(path) implies path[k] != '.' by {
            if k > 0 {
                assert(path[k] == rest[k - 1]);
            }
        }
    }
}

/// Decides whether `path` names a model: whether a dot ends the name.
pub fn has_model_name(path: &str) -> (b: bool)
    ensures
        b == path@.contains('.'),
{
    let n = path.unicode_len();
    let mut i: usize = 0;
    while i < n
        invariant
            n == path@.len(),
            i <= n,
            forall|k: int| 0 <= k < i ==> path@[k] != '.',
        decreases n - i,
    {
        if path.get_char(i) == '.' {
            return true;
        }
        i += 1;
    }
    false
}

fn find_dot(path: &str) -> (i: usize)
    ensures
        i == stem_len(path@),
        i <= path@.len(),
{
    let n = path.unicode_len();
    let mut i: usize = 0;
    assert(path@.subrange(0, n as int) =~= path@);
    while i < n
        invariant
            n == path@.len(),
            i <= n,
            stem_len(path@) == i + stem_len(path@.subrange(i as int, n as int)),
        decreases n - i,
    {
        let ghost rest = path@.subrange(i as int, n as int);
        if path.get_char(i) == '.' {
            return i;
        }
        assert(rest.drop_first() =~= path@.subrange(i + 1, n as int));
        i += 1;
    }
    i
}

/// What a material says of its textures: the paths of its diffuse and of its
/// specular texture, empty where it has none.
#[derive(Debug, PartialEq, Eq)]
pub struct Material {
    pub diffuse_texture: String,
    pub specular_texture: String,
}

/// A texture that a mesh asks for.
#[derive(Debug, PartialEq, Eq)]
pub struct TextureRequest {
    pub path: String,
    pub ty: TextureType,
}

/// The textures that a material asks for, as pairs of path and type: the
/// diffuse texture first, then the specular one, each only where the material
/// names it.
pub open spec fn material_requests(material: Material) -> Seq<(Seq<char>, TextureType)> {
    let diffuse = if material.diffuse_texture@.len() > 0 {
        seq![(material.diffuse_texture@, TextureType::Diffuse)]
    } else {
        Seq::empty()
    };
    let specular = if material.specular_texture@.len() > 0 {
        seq![(material.specular_texture@, TextureType::Specular)]
    } else {
        Seq::empty()
    };
    diffuse + specular
}

/// The textures that a mesh asks for: those of its material, none where it has
/// no material.
pub open spec fn mesh_requests(material_id: Option<usize>, materials: Seq<Material>) -> Seq<
    (Seq<char>, TextureType),
> {
    match material_id {
        Some(id) => material_requests(materials[id as int]),
        None => Seq::empty(),
    }
}

/// The requests of a list as pairs of path and type.
pub open spec fn request_pairs(requests: Seq<TextureRequest>) -> Seq<(Seq<char>, TextureType)> {
    Seq::new(requests.len(), |i: int| (requests[i].path@, requests[i].ty))
}

/// The textures that a mesh with the material `material_id` asks for, in the
/// order in which they are bound.
pub fn mesh_textures(material_id: Option<usize>, materials: &Vec<Material>) -> (requests: Vec<
    TextureRequest,
>)
    requires
        material_id matches Some(id) ==> id < materials.len(),
    ensures
        request_pairs(requests@) == mesh_requests(material_id, materials@),
{
    let mut requests: Vec<TextureRequest> = Vec::new();
    if let Some(id) = material_id {
        let material = &materials[id];
        if !material.diffuse_texture.as_str().is_empty() {
            requests.push(
                TextureRequest {
                    path: material.diffuse_texture.clone(),
                    ty: TextureType::Diffuse,
                },
            );
        }
        if !material.specular_texture.as_str().is_empty() {
            requests.push(
                TextureRequest {
                    path: material.specular_texture.clone(),
                    ty: TextureType::Specular,
                },
            );
        }
    }
    requests
}

/// Whether `v` is vertex `i` of the lists of a loaded file: three positions,
/// three normals and two texture coordinates, each taken from its own list.
pub open spec fn is_vertex_of<T>(
    v: Vertex<T>,
    positions: Seq<T>,
    normals: Seq<T>,
    texcoords: Seq<T>,
    i: int,
) -> bool {
    &&& v.position@ == seq![positions[3 * i], positions[3 * i + 1], positions[3 * i + 2]]
    &&& v.normal@ == seq![normals[3 * i], normals[3 * i + 1], normals[3 * i + 2]]
    &&& v.tex_coords@ == seq![texcoords[2 * i], texcoords[2 * i + 1]]
}

/// Whether lists of these lengths hold a normal and a texture coordinate for
/// every vertex that the positions make up.
pub open spec fn lists_suffice(positions: nat, normals: nat, texcoords: nat) -> bool {
    normals >= 3 * (positions / 3) && texcoords >= 2 * (positions / 3)
}

/// Decides [`lists_suffice`].
pub fn can_build_vertices(positions: usize, normals: usize, texcoords: usize) -> (b: bool)
    ensures
        b == lists_suffice(positions as nat, normals as nat, texcoords as nat),
{
    let n = positions / 3;
    normals / 3 >= n && texcoords / 2 >= n
}

/// The vertices that the lists of a loaded file make up: as many as the
/// positions hold triples, vertex `i` from the `i`-th triple of positions, the
/// `i`-th triple of normals and the `i`-th pair of texture coordinates.
pub fn build_vertices<T: Copy>(positions: &Vec<T>, normals: &Vec<T>, texcoords: &Vec<T>) -> (vertices:
    Vec<Vertex<T>>)
    requires
        lists_suffice(positions.len() as nat, normals.len() as nat, texcoords.len() as nat),
    ensures
        vertices.len() == positions.len() / 3,
        forall|i: int|
            0 <= i < vertices.len() ==> is_vertex_of(
                #[trigger] vertices[i],
                positions@,
                normals@,
                texcoords@,
                i,
            ),
{
    let n = positions.len() / 3;
    let mut vertices: Vec<Vertex<T>> = Vec::new();
    let mut i: usize = 0;
    while i < n
        invariant
            n == positions.len() / 3,
            normals.len() >= 3 * n,
            texcoords.len() >= 2 * n,
            i <= n,
            vertices.len() == i,
            forall|k: int|
                0 <= k < i ==> is_vertex_of(
                    #[trigger] vertices[k],
                    positions@,
                    normals@,
                    texcoords@,
                    k,
                ),
        decreases n - i,
    {
        let v = Vertex {
            position: [positions[i * 3], positions[i * 3 + 1], positions[i * 3 + 2]],
            normal: [normals[i * 3], normals[i * 3 + 1], normals[i * 3 + 2]],
            tex_coords: [texcoords[i * 2], texcoords[i * 2 + 1]],
        };
        vertices.push(v);
        i += 1;
    }
    vertices
}

/// Whether no two textures of the list come from the same path.
pub open spec fn paths_differ(textures: Seq<Texture2D>) -> bool {
    forall|i: int, j: int|
        0 <= i < j < textures.len() ==> (#[trigger] textures[i]).path@ != (
        #[trigger] textures[j]).path@
}

/// Whether `i` is the place of the first texture of the list that comes from
/// `path`.
pub open spec fn is_first_from(textures: Seq<Texture2D>, path: Seq<char>, i: int) -> bool {
    &&& 0 <= i < textures.len()
    &&& textures[i].path@ == path
    &&& forall|k: int| 0 <= k < i ==> (#[trigger] textures[k]).path@ != path
}

/// Whether a texture of the list comes from `path`.
pub open spec fn has_path(textures: Seq<Texture2D>, path: Seq<char>) -> bool {
    exists|i: int| 0 <= i < textures.len() && (#[trigger] textures[i]).path@ == path
}

/// Among textures of which no two come from the same path, a path is found
/// at one place at most.
pub proof fn lemma_one_per_path(textures: Seq<Texture2D>, path: Seq<char>, i: int, j: int)
    requires
        paths_differ(textures),
        0 <= i < textures.len(),
        0 <= j < textures.len(),
        textures[i].path@ == path,
        textures[j].path@ == path,
    ensures
        i == j,
{
}

/// A texture whose path is new can be added to textures of which no two come
/// from the same path, and then it is the one that is found for its path.
pub proof fn lemma_kept_is_found(textures: Seq<Texture2D>, texture: Texture2D)
    requires
        paths_differ(textures),
        !has_path(textures, texture.path@),
    ensures
        paths_differ(textures.push(texture)),
        is_first_from(textures.push(texture), texture.path@, textures.len() as int),
{
}

/// The commands that draw the first `upto` meshes, one mesh after the other.
pub open spec fn meshes_commands<T>(meshes: Seq<Mesh<T>>, upto: int) -> Seq<Command>
    decreases upto,
{
    if upto <= 0 {
        Seq::empty()
    } else {
        meshes_commands(meshes, upto - 1) + meshes[upto - 1].draw_commands()
    }
}

/// A model: the meshes of one file, and the textures that were loaded for
/// them, each path once.
#[derive(Debug)]
pub struct Model<T> {
    meshes: Vec<Mesh<T>>,
    textures_loaded: Vec<Texture2D>,
    directory: String,
    file: String,
}

impl<T> Model<T> {
    /// The meshes, in the order in which they were added.
    pub closed spec fn mesh_seq(&self) -> Seq<Mesh<T>> {
        self.meshes@
    }

    /// The textures that were loaded, in the order in which they were.
    pub closed spec fn loaded(&self) -> Seq<Texture2D> {
        self.textures_loaded@
    }

    /// The directory that holds the files of the model.
    pub closed spec fn directory_view(&self) -> Seq<char> {
        self.directory@
    }

    /// The file that holds the meshes of the model.
    pub closed spec fn file_view(&self) -> Seq<char> {
        self.file@
    }

    /// What holds of every model that this module makes: no two of its
    /// textures come from the same path.
    pub open spec fn wf(&self) -> bool {
        paths_differ(self.loaded())
    }

    /// Whether every mesh of the model can be drawn.
    pub open spec fn is_drawable(&self) -> bool {
        forall|i: int| 0 <= i < self.mesh_seq().len() ==> (#[trigger] self.mesh_seq()[i]).is_drawable()
    }

    /// The commands that draw the model: those of its meshes, in their order.
    pub open spec fn draw_commands(&self) -> Seq<Command> {
        meshes_commands(self.mesh_seq(), self.mesh_seq().len() as int)
    }

    /// The empty model for the file `path`, which lies with the other files
    /// of the model in the directory of models that bears the model's name.
    pub fn new(path: &str) -> (model: Self)
        requires
            path@.contains('.'),
        ensures
            model.wf(),
            model.mesh_seq().len() == 0,
            model.loaded().len() == 0,
            model.directory_view() == model_directory(path@),
            model.file_view() == model_file(path@),
    {
        proof {
            reveal_strlit("/");
        }
        let name = path.substring_char(0, find_dot(path));
        let mut directory = String::from_str("ressources/models/");
        directory.append(name);
        let mut file = directory.clone();
        file.append("/");
        file.append(path);
        Model { meshes: Vec::new(), textures_loaded: Vec::new(), directory, file }
    }

    /// The meshes, in the order in which they were added.
    pub fn meshes(&self) -> (meshes: &Vec<Mesh<T>>)
        ensures
            meshes@ == self.mesh_seq(),
    {
        &self.meshes
    }

    /// The textures that were loaded, in the order in which they were.
    pub fn textures_loaded(&self) -> (textures: &Vec<Texture2D>)
        ensures
            textures@ == self.loaded(),
    {
        &self.textures_loaded
    }

    /// The directory that holds the files of the model.
    pub fn directory(&self) -> (directory: &String)
        ensures
            directory@ == self.directory_view(),
    {
        &self.directory
    }

    /// The file that holds the meshes of the model.
    pub fn file(&self) -> (file: &String)
        ensures
            file@ == self.file_view(),
    {
        &self.file
    }

    /// The texture that was loaded from `path`, if one was.
    pub fn cached_texture(&self, path: &str) -> (found: Option<Texture2D>)
        ensures
            found is Some <==> has_path(self.loaded(), path@),
            found matches Some(texture) ==> exists|i: int|
                is_first_from(self.loaded(), path@, i) && texture == self.loaded()[i],
    {
        let wanted = String::from_str(path);
        let mut i: usize = 0;
        while i < self.textures_loaded.len()
            invariant
                i <= self.textures_loaded.len(),
                wanted@ == path@,
                forall|k: int| 0 <= k < i ==> (#[trigger] self.textures_loaded@[k]).path@ != path@,
            decreases self.textures_loaded.len() - i,
        {
            if self.textures_loaded[i].path == wanted {
                return Some(self.textures_loaded[i].clone());
            }
            i += 1;
        }
        None
    }

    /// Keeps `texture` as the texture of its path, unless one from that path
    /// is kept already: then nothing changes. Tells whether it was kept.
    pub fn remember_texture(&mut self, texture: Texture2D) -> (kept: bool)
        requires
            old(self).wf(),
        ensures
            final(self).wf(),
            kept == !has_path(old(self).loaded(), texture.path@),
            kept ==> final(self).loaded() == old(self).loaded().push(texture),
            !kept ==> final(self).loaded() == old(self).loaded(),
            final(self).mesh_seq() == old(self).mesh_seq(),
            final(self).directory_view() == old(self).directory_view(),
            final(self).file_view() == old(self).file_view(),
    {
        let mut i: usize = 0;
        while i < self.textures_loaded.len()
            invariant
                i <= self.textures_loaded.len(),
                *self == *old(self),
                self.wf(),
                forall|k: int|
                    0 <= k < i ==> (#[trigger] self.textures_loaded@[k]).path@ != texture.path@,
            decreases self.textures_loaded.len() - i,
        {
            if self.textures_loaded[i].path == texture.path {
                return false;
            }
            i += 1;
        }
        self.textures_loaded.push(texture);
        true
    }

    /// Adds `mesh` behind the meshes of the model.
    pub fn push_mesh(&mut self, mesh: Mesh<T>)
        ensures
            old(self).wf() ==> final(self).wf(),
            final(self).mesh_seq() == old(self).mesh_seq().push(mesh),
            final(self).loaded() == old(self).loaded(),
            final(self).directory_view() == old(self).directory_view(),
            final(self).file_view() == old(self).file_view(),
    {
        self.meshes.push(mesh);
    }

    /// Decides [`Model::is_drawable`].
    pub fn can_draw(&self) -> (b: bool)
        ensures
            b == self.is_drawable(),
    {
        let mut i: usize = 0;
        while i < self.meshes.len()
            invariant
                i <= self.meshes.len(),
                forall|k: int| 0 <= k < i ==> (#[trigger] self.meshes@[k]).is_drawable(),
            decreases self.meshes.len() - i,
        {
            if !self.meshes[i].can_draw() {
                assert(!self.mesh_seq()[i as int].is_drawable());
                return false;
            }
            i += 1;
        }
        true
    }

    /// The steps that draw the model: those of its meshes, one mesh after the
    /// other.
    pub fn draw(&self) -> (steps: Vec<DrawStep>)
        requires
            self.is_drawable(),
        ensures
            commands(steps@) == self.draw_commands(),
    {
        let mut steps: Vec<DrawStep> = Vec::new();
        let mut i: usize = 0;
        assert forall|k: int| 0 <= k < self.meshes.len() implies (
        #[trigger] self.meshes@[k]).is_drawable() by {
            assert(self.mesh_seq()[k].is_drawable());
        }
        while i < self.meshes.len()
            invariant
                i <= self.meshes.len(),
                forall|k: int|
                    0 <= k < self.meshes.len() ==> (#[trigger] self.meshes@[k]).is_drawable(),
                commands(steps@) == meshes_commands(self.meshes@, i as int),
            decreases self.meshes.len() - i,
        {
            let mut more = self.meshes[i].draw();
            proof {
                lemma_commands_concat(steps@, more@);
            }
            steps.append(&mut more);
            i += 1;
        }
        steps
    }
}

} // verus!
