//! Handles of the vertex arrays and buffers that the graphics device made.

use crate::utils::{GlEnum, GL_ARRAY_BUFFER, GL_ELEMENT_ARRAY_BUFFER};
use vstd::prelude::*;

verus! {

/// A vertex array of the graphics device. Its handle is never zero.
#[derive(Debug, PartialEq, Eq)]
pub struct VAO {
    vao: u32,
}

/// The graphics device made no vertex array.
#[derive(Debug, PartialEq, Eq)]
pub struct VAOCreationFail {}

/// What a buffer of the graphics device holds.
#[derive(Clone, Copy, Debug, PartialEq, Eq, Structural)]
pub enum BufferType {
    /// Vertex attributes.
    Array,
    /// Indices into the vertices.
    ElementArray,
}

/// A buffer of the graphics device. Its handle is never zero.
#[derive(Debug, PartialEq, Eq)]
pub struct VBO {
    id: u32,
    buffer_type: BufferType,
}

/// The graphics device made no buffer of this type.
#[derive(Debug, PartialEq, Eq)]
pub struct VBOCreationFail(pub BufferType);

impl VAO {
    #[verifier::type_invariant]
    spec fn is_made(self) -> bool {
        self.vao != 0
    }

    /// The handle under which the graphics device knows the vertex array.
    pub closed spec fn handle(&self) -> u32 {
        self.vao
    }

    /// The vertex array that the graphics device made under `handle`. The
    /// device answers with zero where it made none.
    pub fn new(handle: u32) -> (r: Result<Self, VAOCreationFail>)
        ensures
            r is Ok <==> handle != 0,
            r matches Ok(vao) ==> vao.handle() == handle,
    {
        if handle != 0 {
            Ok(VAO { vao: handle })
        } else {
            Err(VAOCreationFail {  })
        }
    }

    /// The handle under which the graphics device knows the vertex array.
    pub fn id(&self) -> (id: u32)
        ensures
            id == self.handle(),
            id != 0,
    {
        proof {
            use_type_invariant(self);
        }
        self.vao
    }
}

impl BufferType {
    /// The binding target of buffers of this type.
    pub open spec fn target_spec(self) -> GlEnum {
        match self {
            BufferType::Array => GlEnum(GL_ARRAY_BUFFER),
            BufferType::ElementArray => GlEnum(GL_ELEMENT_ARRAY_BUFFER),
        }
    }

    /// The binding target of buffers of this type.
    pub fn target(&self) -> (t: GlEnum)
        ensures
            t == self.target_spec(),
    {
        match self {
            BufferType::Array => GlEnum(GL_ARRAY_BUFFER),
            BufferType::ElementArray => GlEnum(GL_ELEMENT_ARRAY_BUFFER),
        }
    }
}

impl VBO {
    #[verifier::type_invariant]
    spec fn is_made(self) -> bool {
        self.id != 0
    }

    /// The handle under which the graphics device knows the buffer.
    pub closed spec fn handle(&self) -> u32 {
        self.id
    }

    /// What the buffer holds.
    pub closed spec fn kind(&self) -> BufferType {
        self.buffer_type
    }

    /// The buffer of type `buffer_type` that the graphics device made under
    /// `handle`. The device answers with zero where it made none.
    pub fn new(buffer_type: BufferType, handle: u32) -> (r: Result<Self, VBOCreationFail>)
        ensures
            r is Ok <==> handle != 0,
            r matches Ok(vbo) ==> vbo.handle() == handle && vbo.kind() == buffer_type,
            r matches Err(fail) ==> fail.0 == buffer_type,
    {
        if handle != 0 {
            Ok(VBO { id: handle, buffer_type })
        } else {
            Err(VBOCreationFail(buffer_type))
        }
    }

    /// The handle under which the graphics device knows the buffer.
    pub fn id(&self) -> (id: u32)
        ensures
            id == self.handle(),
            id != 0,
    {
        proof {
            use_type_invariant(self);
        }
        self.id
    }

    /// What the buffer holds.
    pub fn buffer_type(&self) -> (t: BufferType)
        ensures
            t == self.kind(),
    {
        self.buffer_type
    }
}

} // verus!
