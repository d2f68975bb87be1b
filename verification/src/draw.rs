//! The steps by which a drawable thing is put on the screen.
//!
//! The library does not call the graphics API. A drawable thing answers with
//! the list of steps that draw it, and the caller carries them out in order,
//! each by one call.

use crate::utils::GlEnum;
use vstd::prelude::*;

verus! {

/// One call that the caller makes to the graphics API or to the active shader
/// program.
#[derive(Debug, PartialEq, Eq)]
pub enum DrawStep {
    /// Make the texture unit with this enumeration value the active one.
    ActiveTexture(GlEnum),
    /// Set the integer uniform `name` of the shader program to `value`.
    SetInt { name: String, value: i32 },
    /// Bind the two-dimensional texture with this handle to the active unit.
    BindTexture(u32),
    /// Bind the vertex array with this handle; zero clears the binding.
    BindVertexArray(u32),
    /// Draw `count` indices of the bound element buffer as triangles.
    DrawElements { count: i32 },
    /// Draw `count` vertices of the bound array buffer, from vertex `first`
    /// on, as triangles.
    DrawArrays { first: i32, count: i32 },
}

/// A [`DrawStep`] as a mathematical value.
pub enum Command {
    ActiveTexture(GlEnum),
    SetInt { name: Seq<char>, value: i32 },
    BindTexture(u32),
    BindVertexArray(u32),
    DrawElements { count: i32 },
    DrawArrays { first: i32, count: i32 },
}

impl View for DrawStep {
    type V = Command;

    open spec fn view(&self) -> Command {
        match *self {
            DrawStep::ActiveTexture(unit) => Command::ActiveTexture(unit),
            DrawStep::SetInt { name, value } => Command::SetInt { name: name@, value },
            DrawStep::BindTexture(id) => Command::BindTexture(id),
            DrawStep::BindVertexArray(id) => Command::BindVertexArray(id),
            DrawStep::DrawElements { count } => Command::DrawElements { count },
            DrawStep::DrawArrays { first, count } => Command::DrawArrays { first, count },
        }
    }
}

/// The commands that a list of steps stands for.
pub open spec fn commands(steps: Seq<DrawStep>) -> Seq<Command> {
    Seq::new(steps.len(), |i: int| steps[i]@)
}

/// Adding a step to the list adds its command to the commands.
pub proof fn lemma_commands_push(steps: Seq<DrawStep>, step: DrawStep)
    ensures
        commands(steps.push(step)) == commands(steps).push(step@),
{
}

/// The commands of two lists, one after the other, are the commands of the
/// one list followed by those of the other.
pub proof fn lemma_commands_concat(first: Seq<DrawStep>, second: Seq<DrawStep>)
    ensures
        commands(first + second) == commands(first) + commands(second),
{
}

} // verus!
