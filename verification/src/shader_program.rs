//! Handles of the shaders and shader programs that the graphics driver made,
//! and what its answers to compiling and linking mean.

use crate::utils::GlEnum;
use vstd::prelude::*;

verus! {

pub const GL_FRAGMENT_SHADER: u32 = 0x8B30;

pub const GL_VERTEX_SHADER: u32 = 0x8B31;

/// The stage of the pipeline that a shader runs in.
#[derive(Clone, Copy, Debug, PartialEq, Eq, Structural)]
pub enum ShaderType {
    VertexShader,
    FragmentShader,
}

impl ShaderType {
    /// The enumeration value that asks the driver for a shader of this stage.
    pub open spec fn gl_type_spec(self) -> GlEnum {
        match self {
            ShaderType::VertexShader => GlEnum(GL_VERTEX_SHADER),
            ShaderType::FragmentShader => GlEnum(GL_FRAGMENT_SHADER),
        }
    }

    /// The enumeration value that asks the driver for a shader of this stage.
    pub fn gl_type(&self) -> (t: GlEnum)
        ensures
            t == self.gl_type_spec(),
    {
        match self {
            ShaderType::VertexShader => GlEnum(GL_VERTEX_SHADER),
            ShaderType::FragmentShader => GlEnum(GL_FRAGMENT_SHADER),
        }
    }
}

/// A shader of the graphics driver. Its handle is never zero.
#[derive(Debug, PartialEq, Eq)]
pub struct Shader {
    shader_type: ShaderType,
    id: u32,
}

impl Shader {
    #[verifier::type_invariant]
    spec fn is_made(self) -> bool {
        self.id != 0
    }

    /// The handle under which the driver knows the shader.
    pub closed spec fn handle(&self) -> u32 {
        self.id
    }

    /// The stage that the shader runs in.
    pub closed spec fn stage(&self) -> ShaderType {
        self.shader_type
    }

    /// The shader of the stage `shader_type` that the driver made under
    /// `handle`. The driver answers with zero where it made none.
    pub fn new(shader_type: ShaderType, handle: u32) -> (r: Option<Self>)
        ensures
            r is Some <==> handle != 0,
            r matches Some(shader) ==> shader.handle() == handle && shader.stage() == shader_type,
    {
        if handle == 0 {
            None
        } else {
            Some(Shader { shader_type, id: handle })
        }
    }

    /// The handle under which the driver knows the shader.
    pub fn id(&self) -> (id: u32)
        ensures
            id == self.handle(),
            id != 0,
    {
        proof {
            use_type_invariant(self);
        }
        self.id
    }

    /// The stage that the shader runs in.
    pub fn shader_type(&self) -> (t: ShaderType)
        ensures
            t == self.stage(),
    {
        self.shader_type
    }
}

/// A shader program of the graphics driver with its two shaders.
#[derive(Debug, PartialEq, Eq)]
pub struct ShaderProgram {
    id: u32,
    vertex_shader: Shader,
    fragment_shader: Shader,
}

impl ShaderProgram {
    /// The handle under which the driver knows the program.
    pub closed spec fn handle(&self) -> u32 {
        self.id
    }

    /// The vertex shader.
    pub closed spec fn vertex(&self) -> Shader {
        self.vertex_shader
    }

    /// The fragment shader.
    pub closed spec fn fragment(&self) -> Shader {
        self.fragment_shader
    }

    /// The program that the driver made under `id`, with the shaders that it
    /// made under the other two handles for the two stages. A handle of zero
    /// says that the driver made no shader, and then there is no program.
    pub fn from_handles(id: u32, vertex: u32, fragment: u32) -> (r: Option<Self>)
        ensures
            r is Some <==> vertex != 0 && fragment != 0,
            r matches Some(program) ==> program.handle() == id && program.vertex().handle()
                == vertex && program.vertex().stage() == ShaderType::VertexShader
                && program.fragment().handle() == fragment && program.fragment().stage()
                == ShaderType::FragmentShader,
    {
        let vertex_shader = match Shader::new(ShaderType::VertexShader, vertex) {
            Some(shader) => shader,
            None => {
                return None;
            },
        };
        let fragment_shader = match Shader::new(ShaderType::FragmentShader, fragment) {
            Some(shader) => shader,
            None => {
                return None;
            },
        };
        Some(ShaderProgram { id, vertex_shader, fragment_shader })
    }

    /// The handle under which the driver knows the program.
    pub fn id(&self) -> (id: u32)
        ensures
            id == self.handle(),
    {
        self.id
    }

    /// The vertex shader.
    pub fn vertex_shader(&self) -> (shader: &Shader)
        ensures
            *shader == self.vertex(),
    {
        &self.vertex_shader
    }

    /// The fragment shader.
    pub fn fragment_shader(&self) -> (shader: &Shader)
        ensures
            *shader == self.fragment(),
    {
        &self.fragment_shader
    }
}

/// What the driver's answer to the question for the compile or the link
/// status means: zero says that the step failed.
pub fn check_status(success: i32) -> (r: Result<(), ()>)
    ensures
        r is Ok <==> success != 0,
{
    if success == 0 {
        Err(())
    } else {
        Ok(())
    }
}

} // verus!
