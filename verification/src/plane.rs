//! The unit plane: two triangles that fill the square from -1 to 1, drawn with
//! at most one texture.

use crate::draw::{commands, lemma_commands_push, Command, DrawStep};
use crate::mesh::{MeshCreationFail, Vertex};
use crate::texture::{uniform_name, uniform_name_spec, Texture2D, TextureType};
use crate::utils::{GlEnum, GL_TEXTURE0};
use crate::vertex_objects::{BufferType, VAO, VBO};
use vstd::prelude::*;

verus! {

/// How many vertices the unit plane has.
pub const PLANE_VERTICES: i32 = 6;

/// The corner of the unit plane at `(x, y)`, which are -1 or 1 each. The
/// plane lies at depth zero and faces the negative depth. The texture
/// coordinates run from 0 at -1 to 1 at 1.
pub open spec fn is_corner(v: Vertex<i8>, x: int, y: int) -> bool {
    &&& v.position@ == seq![x as i8, y as i8, 0i8]
    &&& v.normal@ == seq![0i8, 0i8, (-1) as i8]
    &&& v.tex_coords@ == seq![((x + 1) / 2) as i8, ((y + 1) / 2) as i8]
}

/// Whether `vertices` are the six vertices of the unit plane: the triangle
/// below the rising diagonal, then the triangle above it.
pub open spec fn is_unit_plane(vertices: Seq<Vertex<i8>>) -> bool {
    &&& vertices.len() == PLANE_VERTICES
    &&& is_corner(vertices[0], 1, 1)
    &&& is_corner(vertices[1], -1, -1)
    &&& is_corner(vertices[2], 1, -1)
    &&& is_corner(vertices[3], -1, 1)
    &&& is_corner(vertices[4], -1, -1)
    &&& is_corner(vertices[5], 1, 1)
}

fn corner(x: i8, y: i8) -> (v: Vertex<i8>)
    requires
        x == 1 || x == -1,
        y == 1 || y == -1,
    ensures
        is_corner(v, x as int, y as int),
{
    let v = Vertex { position: [x, y, 0], normal: [0, 0, -1], tex_coords: [(x + 1) / 2, (y + 1) / 2] };
    v
}

/// The vertices of the unit plane. Their coordinates are whole numbers.
pub fn unit_plane() -> (vertices: Vec<Vertex<i8>>)
    ensures
        is_unit_plane(vertices@),
{
    let mut vertices: Vec<Vertex<i8>> = Vec::new();
    vertices.push(corner(1, 1));
    vertices.push(corner(-1, -1));
    vertices.push(corner(1, -1));
    vertices.push(corner(-1, 1));
    vertices.push(corner(-1, -1));
    vertices.push(corner(1, 1));
    vertices
}

/// The commands that draw a plane: the first texture unit becomes the active
/// one, the first diffuse sampler is set to it, the texture is bound where
/// there is one, and the six vertices are drawn from the vertex array.
pub open spec fn plane_commands(texture: Option<Texture2D>, vao: u32) -> Seq<Command> {
    seq![
        Command::ActiveTexture(GlEnum(GL_TEXTURE0)),
        Command::SetInt { name: uniform_name_spec(TextureType::Diffuse, 1), value: 0 },
    ] + match texture {
        Some(t) => seq![Command::BindTexture(t.id)],
        None => Seq::empty(),
    } + seq![
        Command::BindVertexArray(vao),
        Command::DrawArrays { first: 0, count: PLANE_VERTICES },
        Command::BindVertexArray(0),
    ]
}

/// A unit plane on the graphics device, with the texture it is drawn with.
#[derive(Debug)]
pub struct Plane {
    texture: Option<Texture2D>,
    vao: VAO,
    vbo: VBO,
}

impl Plane {
    /// The texture that the plane is drawn with.
    pub closed spec fn texture_view(&self) -> Option<Texture2D> {
        self.texture
    }

    /// The vertex array.
    pub closed spec fn vao_view(&self) -> VAO {
        self.vao
    }

    /// The buffer of the vertices.
    pub closed spec fn vbo_view(&self) -> VBO {
        self.vbo
    }

    /// The commands that draw the plane.
    pub open spec fn draw_commands(&self) -> Seq<Command> {
        plane_commands(self.texture_view(), self.vao_view().handle())
    }

    /// The plane with the vertex array and the buffer that the graphics
    /// device made under the two handles. A handle of zero says that the
    /// device made none.
    pub fn new(texture: Option<Texture2D>, vao: u32, vbo: u32) -> (r: Result<Self, MeshCreationFail>)
        ensures
            vao == 0 ==> (r matches Err(e) && e == MeshCreationFail::VAOError),
            vao != 0 && vbo == 0 ==> (r matches Err(e) && e == MeshCreationFail::VBOError),
            vao != 0 && vbo != 0 ==> (r matches Ok(plane) && plane.texture_view() == texture
                && plane.vao_view().handle() == vao && plane.vbo_view().handle() == vbo
                && plane.vbo_view().kind() == BufferType::Array),
    {
        let vao = match VAO::new(vao) {
            Ok(vao) => vao,
            Err(fail) => {
                return Err(MeshCreationFail::from(fail));
            },
        };
        let vbo = match VBO::new(BufferType::Array, vbo) {
            Ok(vbo) => vbo,
            Err(fail) => {
                return Err(MeshCreationFail::from(fail));
            },
        };
        Ok(Plane { texture, vao, vbo })
    }

    /// The texture that the plane is drawn with.
    pub fn texture(&self) -> (texture: &Option<Texture2D>)
        ensures
            *texture == self.texture_view(),
    {
        &self.texture
    }

    /// The vertex array.
    pub fn vao(&self) -> (vao: &VAO)
        ensures
            *vao == self.vao_view(),
    {
        &self.vao
    }

    /// The buffer of the vertices.
    pub fn vbo(&self) -> (vbo: &VBO)
        ensures
            *vbo == self.vbo_view(),
    {
        &self.vbo
    }

    /// The steps that draw the plane.
    pub fn draw(&self) -> (steps: Vec<DrawStep>)
        ensures
            commands(steps@) == self.draw_commands(),
    {
        let mut steps: Vec<DrawStep> = Vec::new();
        let a = DrawStep::ActiveTexture(GlEnum(GL_TEXTURE0));
        let b = DrawStep::SetInt { name: uniform_name(TextureType::Diffuse, 1), value: 0 };
        proof {
            lemma_commands_push(steps@, a);
            lemma_commands_push(steps@.push(a), b);
        }
        steps.push(a);
        steps.push(b);
        match &self.texture {
            Some(t) => {
                let c = DrawStep::BindTexture(t.id);
                proof {
                    lemma_commands_push(steps@, c);
                }
                steps.push(c);
            },
            None => {},
        }
        let d = DrawStep::BindVertexArray(self.vao.id());
        let e = DrawStep::DrawArrays { first: 0, count: PLANE_VERTICES };
        let f = DrawStep::BindVertexArray(0);
        proof {
            lemma_commands_push(steps@, d);
            lemma_commands_push(steps@.push(d), e);
            lemma_commands_push(steps@.push(d).push(e), f);
        }
        steps.push(d);
        steps.push(e);
        steps.push(f);
        steps
    }
}

} // verus!
