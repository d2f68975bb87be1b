//! Indexed triangle meshes: their vertices as the graphics device reads them,
//! and the steps that draw them with their textures bound.

use crate::draw::{commands, lemma_commands_push, Command, DrawStep};
use crate::texture::{uniform_name, uniform_name_spec, Texture2D, TextureType};
use crate::utils::{usize_to_glenum, GlEnum, GL_TEXTURE0, TEXTURE_UNITS};
use crate::vertex_objects::{BufferType, VAOCreationFail, VBOCreationFail, VAO, VBO};
use vstd::prelude::*;

verus! {

/// A corner of a triangle: where it lies, where its surface faces, and which
/// point of a texture belongs to it. `T` is the scalar type of the
/// coordinates, which the library moves and never computes with.
#[derive(Debug, PartialEq)]
pub struct Vertex<T> {
    pub position: [T; 3],
    pub normal: [T; 3],
    pub tex_coords: [T; 2],
}

impl<T: Copy> Clone for Vertex<T> {
    fn clone(&self) -> (v: Self)
        ensures
            v == *self,
    {
        *self
    }
}

impl<T: Copy> Copy for Vertex<T> {}

/// How many scalars one vertex takes in a vertex buffer.
pub const VERTEX_SCALARS: usize = 8;

/// Where the graphics device finds one attribute of a vertex: the attribute's
/// index in the shader, how many scalars it has, and how many scalars lie
/// before it in the vertex.
#[derive(Clone, Copy, Debug, PartialEq, Eq, Structural)]
pub struct VertexAttribute {
    pub index: u32,
    pub components: i32,
    pub offset: usize,
}

/// The `k`-th scalar of a vertex in a vertex buffer: the position first, then
/// the normal, then the texture coordinates.
pub open spec fn scalar_of<T>(v: Vertex<T>, k: int) -> T
    recommends
        0 <= k < VERTEX_SCALARS,
{
    if k < 3 {
        v.position[k]
    } else if k < 6 {
        v.normal[k - 3]
    } else {
        v.tex_coords[k - 6]
    }
}

/// The contents of the vertex buffer for `vertices`: their scalars, vertex
/// after vertex.
pub open spec fn interleaved<T>(vertices: Seq<Vertex<T>>) -> Seq<T> {
    Seq::new(vertices.len() * VERTEX_SCALARS as nat, |k: int| scalar_of(vertices[k / 8], k % 8))
}

/// The three attributes of a vertex, in the order of their shader indices.
pub open spec fn attributes_spec() -> Seq<VertexAttribute> {
    seq![
        VertexAttribute { index: 0, components: 3, offset: 0 },
        VertexAttribute { index: 1, components: 3, offset: 3 },
        VertexAttribute { index: 2, components: 2, offset: 6 },
    ]
}

/// The three attributes of a vertex: the position, the normal and the texture
/// coordinates.
pub fn vertex_attributes() -> (attributes: [VertexAttribute; 3])
    ensures
        attributes@ == attributes_spec(),
{
    let attributes = [
        VertexAttribute { index: 0, components: 3, offset: 0 },
        VertexAttribute { index: 1, components: 3, offset: 3 },
        VertexAttribute { index: 2, components: 2, offset: 6 },
    ];
    attributes
}

/// The attributes tile the vertex: each starts where the one before it ends,
/// and the last one ends with the vertex.
pub proof fn lemma_attributes_tile()
    ensures
        attributes_spec()[0].offset == 0,
        forall|a: int|
            0 <= a < 2 ==> attributes_spec()[a].offset + attributes_spec()[a].components
                == (#[trigger] attributes_spec()[a + 1]).offset,
        attributes_spec()[2].offset + attributes_spec()[2].components == VERTEX_SCALARS,
{
}

/// Reading a vertex buffer by the attributes gives back the vertices: the
/// scalar `c` of an attribute of vertex `i` lies `i` strides plus the
/// attribute's offset plus `c` into the buffer.
pub proof fn lemma_attribute_reads<T>(vertices: Seq<Vertex<T>>, i: int, c: int)
    requires
        0 <= i < vertices.len(),
        0 <= c < 3,
    ensures
        interleaved(vertices).len() == vertices.len() * VERTEX_SCALARS,
        interleaved(vertices)[i * VERTEX_SCALARS + attributes_spec()[0].offset + c]
            == vertices[i].position[c],
        interleaved(vertices)[i * VERTEX_SCALARS + attributes_spec()[1].offset + c]
            == vertices[i].normal[c],
        c < 2 ==> interleaved(vertices)[i * VERTEX_SCALARS + attributes_spec()[2].offset + c]
            == vertices[i].tex_coords[c],
{
}

/// How many of the first `upto` textures have the type `ty`.
pub open spec fn count_of_type(textures: Seq<Texture2D>, ty: TextureType, upto: int) -> nat
    decreases upto,
{
    if upto <= 0 {
        0
    } else {
        count_of_type(textures, ty, upto - 1) + if textures[upto - 1].ty == ty {
            1nat
        } else {
            0nat
        }
    }
}

/// The number that texture `i` has among the textures of its own type,
/// counted from one in the order of the list.
pub open spec fn number_in_type(textures: Seq<Texture2D>, i: int) -> nat {
    count_of_type(textures, textures[i].ty, i + 1)
}

/// The commands that bind texture `i`: its unit becomes the active one, the
/// sampler named by its type and its number in that type is set to the unit's
/// index, and the texture is bound.
pub open spec fn binding(textures: Seq<Texture2D>, i: int) -> Seq<Command> {
    seq![
        Command::ActiveTexture(GlEnum((GL_TEXTURE0 + i) as u32)),
        Command::SetInt {
            name: uniform_name_spec(textures[i].ty, number_in_type(textures, i)),
            value: i as i32,
        },
        Command::BindTexture(textures[i].id),
    ]
}

/// The commands that bind the first `upto` textures, in the order of the
/// list.
pub open spec fn bindings(textures: Seq<Texture2D>, upto: int) -> Seq<Command>
    decreases upto,
{
    if upto <= 0 {
        Seq::empty()
    } else {
        bindings(textures, upto - 1) + binding(textures, upto - 1)
    }
}

/// The commands that draw a mesh: bind every texture, bind the vertex array,
/// draw the indices, and put the active unit and the vertex array binding
/// back.
pub open spec fn mesh_commands(textures: Seq<Texture2D>, vao: u32, indices: nat) -> Seq<Command> {
    bindings(textures, textures.len() as int) + seq![
        Command::BindVertexArray(vao),
        Command::DrawElements { count: indices as i32 },
        Command::ActiveTexture(GlEnum(GL_TEXTURE0)),
        Command::BindVertexArray(0),
    ]
}

/// Texture `i` of a list is bound by the three commands from `3 * i` on, and
/// nothing else stands among the first `3 * upto` commands.
pub proof fn lemma_bindings_at(textures: Seq<Texture2D>, upto: int, i: int)
    requires
        0 <= i < upto,
    ensures
        bindings(textures, upto).len() == 3 * upto,
        bindings(textures, upto).subrange(3 * i, 3 * i + 3) == binding(textures, i),
    decreases upto,
{
    lemma_bindings_len(textures, upto - 1);
    if i < upto - 1 {
        lemma_bindings_at(textures, upto - 1, i);
    }
}

/// Three commands bind each texture.
pub proof fn lemma_bindings_len(textures: Seq<Texture2D>, upto: int)
    requires
        0 <= upto,
    ensures
        bindings(textures, upto).len() == 3 * upto,
    decreases upto,
{
    if upto > 0 {
        lemma_bindings_len(textures, upto - 1);
    }
}

/// The numbers within one type run from one upwards without a gap: a texture
/// has the number one if none of its type stands before it, and else one more
/// than the nearest texture of its type before it.
pub proof fn lemma_numbers_run(textures: Seq<Texture2D>, i: int, j: int)
    requires
        0 <= i < j < textures.len(),
        textures[i].ty == textures[j].ty,
        forall|k: int| i < k < j ==> textures[k].ty != textures[j].ty,
    ensures
        number_in_type(textures, j) == number_in_type(textures, i) + 1,
        number_in_type(textures, i) >= 1,
{
    lemma_count_skips(textures, textures[j].ty, i + 1, j);
}

/// A texture before which none of its type stands has the number one.
pub proof fn lemma_first_of_type(textures: Seq<Texture2D>, j: int)
    requires
        0 <= j < textures.len(),
        forall|k: int| 0 <= k < j ==> textures[k].ty != textures[j].ty,
    ensures
        number_in_type(textures, j) == 1,
{
    lemma_count_skips(textures, textures[j].ty, 0, j);
}

proof fn lemma_count_skips(textures: Seq<Texture2D>, ty: TextureType, from: int, to: int)
    requires
        0 <= from <= to <= textures.len(),
        forall|k: int| from <= k < to ==> textures[k].ty != ty,
    ensures
        count_of_type(textures, ty, to) == count_of_type(textures, ty, from),
    decreases to - from,
{
    if from < to {
        lemma_count_skips(textures, ty, from, to - 1);
    }
}

/// Why a mesh could not be made.
#[derive(Clone, Copy, Debug, PartialEq, Eq, Structural)]
pub enum MeshCreationFail {
    /// The graphics device made no vertex array.
    VAOError,
    /// The graphics device made no buffer for the vertices.
    VBOError,
    /// The graphics device made no buffer for the indices.
    EBOError,
}

impl From<VAOCreationFail> for MeshCreationFail {
    fn from(fail: VAOCreationFail) -> (r: Self) {
        MeshCreationFail::VAOError
    }
}

impl vstd::std_specs::convert::FromSpecImpl<VAOCreationFail> for MeshCreationFail {
    open spec fn obeys_from_spec() -> bool {
        true
    }

    open spec fn from_spec(fail: VAOCreationFail) -> Self {
        MeshCreationFail::VAOError
    }
}

impl From<VBOCreationFail> for MeshCreationFail {
    fn from(fail: VBOCreationFail) -> (r: Self) {
        match fail.0 {
            BufferType::Array => MeshCreationFail::VBOError,
            BufferType::ElementArray => MeshCreationFail::EBOError,
        }
    }
}

impl vstd::std_specs::convert::FromSpecImpl<VBOCreationFail> for MeshCreationFail {
    open spec fn obeys_from_spec() -> bool {
        true
    }

    open spec fn from_spec(fail: VBOCreationFail) -> Self {
        match fail.0 {
            BufferType::Array => MeshCreationFail::VBOError,
            BufferType::ElementArray => MeshCreationFail::EBOError,
        }
    }
}

/// The vertex array and the two buffers of a mesh, made from the handles that
/// the graphics device answered with. The first handle that is zero decides
/// the error: the vertex array before the vertex buffer before the index
/// buffer.
pub fn mesh_objects(vao: u32, vbo: u32, ebo: u32) -> (r: Result<(VAO, VBO, VBO), MeshCreationFail>)
    ensures
        vao == 0 ==> r == Err::<(VAO, VBO, VBO), MeshCreationFail>(MeshCreationFail::VAOError),
        vao != 0 && vbo == 0 ==> r == Err::<(VAO, VBO, VBO), MeshCreationFail>(
            MeshCreationFail::VBOError,
        ),
        vao != 0 && vbo != 0 && ebo == 0 ==> r == Err::<(VAO, VBO, VBO), MeshCreationFail>(
            MeshCreationFail::EBOError,
        ),
        vao != 0 && vbo != 0 && ebo != 0 ==> (r matches Ok(objects) && objects.0.handle() == vao
            && objects.1.handle() == vbo && objects.1.kind() == BufferType::Array
            && objects.2.handle() == ebo && objects.2.kind() == BufferType::ElementArray),
{
    let vao = match VAO::new(vao) {
        Ok(vao) => vao,
        Err(fail) => {
            return Err(MeshCreationFail::from(fail));
        },
    };
    let vbo = match VBO::new(BufferType::Array, vbo) {
        Ok(vbo) => vbo,
        Err(fail) => {
            return Err(MeshCreationFail::from(fail));
        },
    };
    let ebo = match VBO::new(BufferType::ElementArray, ebo) {
        Ok(ebo) => ebo,
        Err(fail) => {
            return Err(MeshCreationFail::from(fail));
        },
    };
    Ok((vao, vbo, ebo))
}

/// An indexed triangle mesh with the textures that it is drawn with.
#[derive(Debug)]
pub struct Mesh<T> {
    vertices: Vec<Vertex<T>>,
    indices: Vec<u32>,
    textures: Vec<Texture2D>,
    vao: VAO,
    vbo: VBO,
    ebo: VBO,
}

impl<T> Mesh<T> {
    /// The vertices of the mesh.
    pub closed spec fn vertex_seq(&self) -> Seq<Vertex<T>> {
        self.vertices@
    }

    /// The indices of the corners of the triangles.
    pub closed spec fn index_seq(&self) -> Seq<u32> {
        self.indices@
    }

    /// The textures, in the order of the units they are bound to.
    pub closed spec fn texture_seq(&self) -> Seq<Texture2D> {
        self.textures@
    }

    /// The vertex array.
    pub closed spec fn vao_view(&self) -> VAO {
        self.vao
    }

    /// The buffer of the vertices.
    pub closed spec fn vbo_view(&self) -> VBO {
        self.vbo
    }

    /// The buffer of the indices.
    pub closed spec fn ebo_view(&self) -> VBO {
        self.ebo
    }

    /// Whether the mesh can be drawn: every texture has a unit and a type
    /// that is numbered, and the number of indices fits the signed count of
    /// the draw call.
    pub open spec fn is_drawable(&self) -> bool {
        &&& self.texture_seq().len() <= TEXTURE_UNITS
        &&& forall|i: int|
            0 <= i < self.texture_seq().len() ==> (#[trigger] self.texture_seq()[i]).ty.is_bindable()
        &&& self.index_seq().len() <= i32::MAX
    }

    /// The commands that draw the mesh.
    pub open spec fn draw_commands(&self) -> Seq<Command> {
        mesh_commands(self.texture_seq(), self.vao_view().handle(), self.index_seq().len())
    }

    /// The mesh of the given vertices, indices and textures, with the vertex
    /// array and the buffers that the graphics device made under the three
    /// handles. A handle of zero says that the device made none.
    pub fn new(
        vertices: Vec<Vertex<T>>,
        indices: Vec<u32>,
        textures: Vec<Texture2D>,
        vao: u32,
        vbo: u32,
        ebo: u32,
    ) -> (r: Result<Self, MeshCreationFail>)
        ensures
            vao == 0 ==> (r matches Err(e) && e == MeshCreationFail::VAOError),
            vao != 0 && vbo == 0 ==> (r matches Err(e) && e == MeshCreationFail::VBOError),
            vao != 0 && vbo != 0 && ebo == 0 ==> (r matches Err(e) && e
                == MeshCreationFail::EBOError),
            vao != 0 && vbo != 0 && ebo != 0 ==> (r matches Ok(mesh) && mesh.vertex_seq()
                == vertices@ && mesh.index_seq() == indices@ && mesh.texture_seq() == textures@
                && mesh.vao_view().handle() == vao && mesh.vbo_view().handle() == vbo
                && mesh.vbo_view().kind() == BufferType::Array && mesh.ebo_view().handle() == ebo
                && mesh.ebo_view().kind() == BufferType::ElementArray),
    {
        match mesh_objects(vao, vbo, ebo) {
            Ok((vao, vbo, ebo)) => Ok(Mesh { vertices, indices, textures, vao, vbo, ebo }),
            Err(fail) => Err(fail),
        }
    }

    /// The vertices of the mesh.
    pub fn vertices(&self) -> (v: &Vec<Vertex<T>>)
        ensures
            v@ == self.vertex_seq(),
    {
        &self.vertices
    }

    /// The indices of the corners of the triangles.
    pub fn indices(&self) -> (v: &Vec<u32>)
        ensures
            v@ == self.index_seq(),
    {
        &self.indices
    }

    /// The textures, in the order of the units they are bound to.
    pub fn textures(&self) -> (v: &Vec<Texture2D>)
        ensures
            v@ == self.texture_seq(),
    {
        &self.textures
    }

    /// The vertex array.
    pub fn vao(&self) -> (vao: &VAO)
        ensures
            *vao == self.vao_view(),
    {
        &self.vao
    }

    /// The buffer of the vertices.
    pub fn vbo(&self) -> (vbo: &VBO)
        ensures
            *vbo == self.vbo_view(),
    {
        &self.vbo
    }

    /// The buffer of the indices.
    pub fn ebo(&self) -> (ebo: &VBO)
        ensures
            *ebo == self.ebo_view(),
    {
        &self.ebo
    }

    /// Decides [`Mesh::is_drawable`].
    pub fn can_draw(&self) -> (b: bool)
        ensures
            b == self.is_drawable(),
    {
        if self.textures.len() > TEXTURE_UNITS || self.indices.len() > i32::MAX as usize {
            return false;
        }
        let mut i: usize = 0;
        while i < self.textures.len()
            invariant
                i <= self.textures.len(),
                forall|k: int| 0 <= k < i ==> (#[trigger] self.textures@[k]).ty.is_bindable(),
            decreases self.textures.len() - i,
        {
            if !self.textures[i].ty.can_bind() {
                return false;
            }
            i += 1;
        }
        true
    }

    /// The steps that draw the mesh. Texture `i` is bound to unit `i`, and the
    /// sampler that is set to `i` is named by the texture's type and by its
    /// number among the textures of that type.
    pub fn draw(&self) -> (steps: Vec<DrawStep>)
        requires
            self.is_drawable(),
        ensures
            commands(steps@) == self.draw_commands(),
    {
        let mut steps: Vec<DrawStep> = Vec::new();
        let mut diffuse_n: usize = 0;
        let mut specular_n: usize = 0;
        let mut i: usize = 0;
        while i < self.textures.len()
            invariant
                i <= self.textures.len() <= TEXTURE_UNITS,
                forall|k: int|
                    0 <= k < self.textures.len() ==> (#[trigger] self.textures@[k]).ty.is_bindable(),
                diffuse_n == count_of_type(self.textures@, TextureType::Diffuse, i as int),
                specular_n == count_of_type(self.textures@, TextureType::Specular, i as int),
                diffuse_n <= i,
                specular_n <= i,
                commands(steps@) == bindings(self.textures@, i as int),
            decreases self.textures.len() - i,
        {
            let texture = &self.textures[i];
            let number = match texture.ty {
                TextureType::Diffuse => {
                    diffuse_n += 1;
                    diffuse_n
                },
                _ => {
                    specular_n += 1;
                    specular_n
                },
            };
            let ghost before = steps@;
            let first = DrawStep::ActiveTexture(usize_to_glenum(GL_TEXTURE0 as usize + i));
            let second = DrawStep::SetInt { name: uniform_name(texture.ty, number), value: i as i32 };
            let third = DrawStep::BindTexture(texture.id);
            proof {
                lemma_commands_push(before, first);
                lemma_commands_push(before.push(first), second);
                lemma_commands_push(before.push(first).push(second), third);
            }
            steps.push(first);
            steps.push(second);
            steps.push(third);
            i += 1;
        }
        let ghost bound = steps@;
        let a = DrawStep::BindVertexArray(self.vao.id());
        let b = DrawStep::DrawElements { count: self.indices.len() as i32 };
        let c = DrawStep::ActiveTexture(GlEnum(GL_TEXTURE0));
        let d = DrawStep::BindVertexArray(0);
        proof {
            lemma_commands_push(bound, a);
            lemma_commands_push(bound.push(a), b);
            lemma_commands_push(bound.push(a).push(b), c);
            lemma_commands_push(bound.push(a).push(b).push(c), d);
        }
        steps.push(a);
        steps.push(b);
        steps.push(c);
        steps.push(d);
        steps
    }
}

impl<T: Copy> Mesh<T> {
    /// The contents of the vertex buffer: the scalars of the vertices, vertex
    /// after vertex, each as [`vertex_attributes`] describes it.
    pub fn vertex_data(&self) -> (data: Vec<T>)
        ensures
            data@ == interleaved(self.vertex_seq()),
    {
        let mut data: Vec<T> = Vec::new();
        let mut i: usize = 0;
        while i < self.vertices.len()
            invariant
                i <= self.vertices.len(),
                data@.len() == i * 8,
                forall|k: int|
                    0 <= k < i * 8 ==> data@[k] == scalar_of(self.vertices@[k / 8], k % 8),
            decreases self.vertices.len() - i,
        {
            let v = &self.vertices[i];
            data.push(v.position[0]);
            data.push(v.position[1]);
            data.push(v.position[2]);
            data.push(v.normal[0]);
            data.push(v.normal[1]);
            data.push(v.normal[2]);
            data.push(v.tex_coords[0]);
            data.push(v.tex_coords[1]);
            i += 1;
        }
        data
    }
}

} // verus!
