//! The order in which a frame with portals is rendered.
//!
//! A portal is a surface that shows what a second camera sees. Portals come
//! in linked pairs: the camera of each looks out from where its partner
//! stands. In every frame the scene is first rendered once for each portal,
//! from that portal's camera into that portal's framebuffer, then once from
//! the primary camera to the screen, and last each portal's surface is drawn
//! with what its framebuffer holds.
//!
//! The module also holds the steps that bind a portal's colours before its
//! surface is drawn.

use crate::draw::{commands, lemma_commands_push, Command, DrawStep};
use crate::texture::{uniform_name, uniform_name_spec, TextureType};
use crate::utils::{GlEnum, GL_COLOR_BUFFER_BIT, GL_DEPTH_BUFFER_BIT, GL_TEXTURE0};
use vstd::prelude::*;

verus! {

/// One thing that the renderer does in a frame.
#[derive(Clone, Copy, Debug, PartialEq, Eq, Structural)]
pub enum FrameStep {
    /// Clear the buffers of this mask in the bound framebuffer.
    Clear(u32),
    /// Put the camera of `portal` where the surface of `linked` stands, as
    /// seen from the primary camera: the surface's position minus the
    /// camera's.
    PlaceCamera { portal: usize, linked: usize },
    /// Render into the framebuffer of this portal from now on.
    BindPortalFramebuffer(usize),
    /// Render to the screen from now on.
    BindDefaultFramebuffer,
    /// Look through the camera of this portal.
    ViewFromPortal(usize),
    /// Look through the primary camera.
    ViewFromCamera,
    /// Draw every object of the scene but the portals.
    DrawScene,
    /// Draw the surface of this portal with the colours that its framebuffer
    /// holds.
    RenderPortal(usize),
}

/// The mask of the colour and the depth buffer.
pub const COLOR_AND_DEPTH: u32 = GL_COLOR_BUFFER_BIT | GL_DEPTH_BUFFER_BIT;

/// The partner of portal `i`: portals `0` and `1` are linked, `2` and `3`,
/// and so on.
pub open spec fn linked_portal(i: int) -> int {
    if i % 2 == 0 {
        i + 1
    } else {
        i - 1
    }
}

/// The placing of the cameras of the first `upto` portals.
pub open spec fn placements(upto: int) -> Seq<FrameStep> {
    Seq::new(
        upto as nat,
        |i: int| FrameStep::PlaceCamera { portal: i as usize, linked: linked_portal(i) as usize },
    )
}

/// The rendering of the scene into the framebuffer of portal `i`.
pub open spec fn portal_pass(i: int) -> Seq<FrameStep> {
    seq![
        FrameStep::BindPortalFramebuffer(i as usize),
        FrameStep::Clear(COLOR_AND_DEPTH),
        FrameStep::ViewFromPortal(i as usize),
        FrameStep::DrawScene,
    ]
}

/// The rendering of the scene into the framebuffers of the first `upto`
/// portals, one portal after the other.
pub open spec fn portal_passes(upto: int) -> Seq<FrameStep>
    decreases upto,
{
    if upto <= 0 {
        Seq::empty()
    } else {
        portal_passes(upto - 1) + portal_pass(upto - 1)
    }
}

/// The rendering of the scene to the screen.
pub open spec fn screen_pass() -> Seq<FrameStep> {
    seq![
        FrameStep::BindDefaultFramebuffer,
        FrameStep::Clear(GL_COLOR_BUFFER_BIT),
        FrameStep::ViewFromCamera,
        FrameStep::DrawScene,
    ]
}

/// The drawing of the surfaces of the first `upto` portals.
pub open spec fn surface_renders(upto: int) -> Seq<FrameStep> {
    Seq::new(upto as nat, |i: int| FrameStep::RenderPortal(i as usize))
}

/// The steps of one frame with `portals` portals: clear the screen, place the
/// camera of every portal, render the scene for every portal, render it to
/// the screen, draw the surface of every portal.
pub open spec fn frame_steps(portals: int) -> Seq<FrameStep> {
    seq![FrameStep::Clear(COLOR_AND_DEPTH)] + placements(portals) + portal_passes(portals)
        + screen_pass() + surface_renders(portals)
}

/// How often the scene is drawn in the first `upto` steps.
pub open spec fn scene_draws(steps: Seq<FrameStep>, upto: int) -> nat
    decreases upto,
{
    if upto <= 0 {
        0
    } else {
        scene_draws(steps, upto - 1) + if steps[upto - 1] == FrameStep::DrawScene {
            1nat
        } else {
            0nat
        }
    }
}

/// Four steps render the scene for each portal.
pub proof fn lemma_portal_passes_len(upto: int)
    requires
        0 <= upto,
    ensures
        portal_passes(upto).len() == 4 * upto,
    decreases upto,
{
    if upto > 0 {
        lemma_portal_passes_len(upto - 1);
    }
}

/// The pass of portal `i` stands at `4 * i` among the passes.
pub proof fn lemma_portal_pass_at(upto: int, i: int)
    requires
        0 <= i < upto,
    ensures
        portal_passes(upto).len() == 4 * upto,
        portal_passes(upto).subrange(4 * i, 4 * i + 4) == portal_pass(i),
    decreases upto,
{
    lemma_portal_passes_len(upto - 1);
    if i < upto - 1 {
        lemma_portal_pass_at(upto - 1, i);
    }
}

/// In a set of linked pairs every portal has a partner in the set, which is
/// another portal, and is the partner of its partner.
pub proof fn lemma_linked_pairs(portals: int, i: int)
    requires
        portals % 2 == 0,
        0 <= i < portals,
    ensures
        0 <= linked_portal(i) < portals,
        linked_portal(i) != i,
        linked_portal(linked_portal(i)) == i,
{
}

/// Where the parts of a frame stand. The camera of portal `i` is placed at
/// step `1 + i`, the scene is rendered for it in the four steps from
/// `1 + portals + 4 * i` on, the screen is rendered in the four steps from
/// `1 + 5 * portals` on, and the surface of portal `i` is drawn at step
/// `5 + 5 * portals + i`. So every portal's view is rendered before the
/// screen is, and every portal's surface is drawn after it.
pub proof fn lemma_frame_layout(portals: int, i: int)
    requires
        0 <= i < portals,
    ensures
        frame_steps(portals).len() == 6 * portals + 5,
        frame_steps(portals)[0] == FrameStep::Clear(COLOR_AND_DEPTH),
        frame_steps(portals)[1 + i] == (FrameStep::PlaceCamera {
            portal: i as usize,
            linked: linked_portal(i) as usize,
        }),
        frame_steps(portals).subrange(1 + portals + 4 * i, 5 + portals + 4 * i) == portal_pass(i),
        frame_steps(portals).subrange(1 + 5 * portals, 5 + 5 * portals) == screen_pass(),
        frame_steps(portals)[5 + 5 * portals + i] == FrameStep::RenderPortal(i as usize),
{
    lemma_portal_pass_at(portals, i);
}

/// The scene is drawn once for every portal and once for the screen.
pub proof fn lemma_scene_draws(portals: int)
    requires
        0 <= portals,
    ensures
        scene_draws(frame_steps(portals), frame_steps(portals).len() as int) == portals + 1,
{
    let steps = frame_steps(portals);
    lemma_portal_passes_len(portals);
    lemma_no_draw_in(steps, 0, 1 + portals);
    lemma_draws_in_passes(steps, portals, portals);
    let screen = 1 + 5 * portals;
    assert(scene_draws(steps, screen + 4) == scene_draws(steps, screen) + 1) by {
        assert(scene_draws(steps, screen + 2) == scene_draws(steps, screen + 1));
        assert(scene_draws(steps, screen + 3) == scene_draws(steps, screen + 2));
    }
    lemma_no_draw_in(steps, screen + 4, steps.len() as int);
}

proof fn lemma_no_draw_in(steps: Seq<FrameStep>, from: int, to: int)
    requires
        0 <= from <= to <= steps.len(),
        forall|k: int| from <= k < to ==> steps[k] != FrameStep::DrawScene,
    ensures
        scene_draws(steps, to) == scene_draws(steps, from),
    decreases to - from,
{
    if from < to {
        lemma_no_draw_in(steps, from, to - 1);
    }
}

proof fn lemma_draws_in_passes(steps: Seq<FrameStep>, portals: int, upto: int)
    requires
        0 <= upto <= portals,
        steps == frame_steps(portals),
    ensures
        scene_draws(steps, 1 + portals + 4 * upto) == scene_draws(steps, 1 + portals) + upto,
    decreases upto,
{
    if upto > 0 {
        lemma_draws_in_passes(steps, portals, upto - 1);
        lemma_frame_layout(portals, upto - 1);
        let at = 1 + portals + 4 * (upto - 1);
        assert(scene_draws(steps, at + 2) == scene_draws(steps, at + 1));
        assert(scene_draws(steps, at + 4) == scene_draws(steps, at + 3) + 1);
    }
}

/// The steps of one frame with `portals` portals, which come in linked pairs.
pub fn frame_plan(portals: usize) -> (steps: Vec<FrameStep>)
    requires
        portals % 2 == 0,
    ensures
        steps@ == frame_steps(portals as int),
{
    let mut steps: Vec<FrameStep> = Vec::new();
    steps.push(FrameStep::Clear(COLOR_AND_DEPTH));
    let mut i: usize = 0;
    while i < portals
        invariant
            portals % 2 == 0,
            i <= portals,
            steps@ == seq![FrameStep::Clear(COLOR_AND_DEPTH)] + placements(i as int),
        decreases portals - i,
    {
        let linked = if i % 2 == 0 {
            i + 1
        } else {
            i - 1
        };
        steps.push(FrameStep::PlaceCamera { portal: i, linked });
        i += 1;
    }
    let ghost head = steps@;
    i = 0;
    while i < portals
        invariant
            i <= portals,
            steps@ == head + portal_passes(i as int),
        decreases portals - i,
    {
        steps.push(FrameStep::BindPortalFramebuffer(i));
        steps.push(FrameStep::Clear(COLOR_AND_DEPTH));
        steps.push(FrameStep::ViewFromPortal(i));
        steps.push(FrameStep::DrawScene);
        i += 1;
    }
    steps.push(FrameStep::BindDefaultFramebuffer);
    steps.push(FrameStep::Clear(GL_COLOR_BUFFER_BIT));
    steps.push(FrameStep::ViewFromCamera);
    steps.push(FrameStep::DrawScene);
    let ghost body = steps@;
    i = 0;
    while i < portals
        invariant
            i <= portals,
            steps@ == body + surface_renders(i as int),
        decreases portals - i,
    {
        steps.push(FrameStep::RenderPortal(i));
        i += 1;
    }
    steps
}

/// The commands that come before the surface of a portal is drawn: the first
/// texture unit becomes the active one, the colours of the portal's
/// framebuffer are bound to it, and the first diffuse sampler is set to it.
pub open spec fn render_commands(texture: u32) -> Seq<Command> {
    seq![
        Command::ActiveTexture(GlEnum(GL_TEXTURE0)),
        Command::BindTexture(texture),
        Command::SetInt { name: uniform_name_spec(TextureType::Diffuse, 1), value: 0 },
    ]
}

/// The steps that come before the surface of a portal is drawn, for the
/// texture `texture` that holds the colours of the portal's framebuffer.
pub fn render_steps(texture: u32) -> (steps: Vec<DrawStep>)
    ensures
        commands(steps@) == render_commands(texture),
{
    let mut steps: Vec<DrawStep> = Vec::new();
    let a = DrawStep::ActiveTexture(GlEnum(GL_TEXTURE0));
    let b = DrawStep::BindTexture(texture);
    let c = DrawStep::SetInt { name: uniform_name(TextureType::Diffuse, 1), value: 0 };
    proof {
        lemma_commands_push(steps@, a);
        lemma_commands_push(steps@.push(a), b);
        lemma_commands_push(steps@.push(a).push(b), c);
    }
    steps.push(a);
    steps.push(b);
    steps.push(c);
    steps
}

} // verus!
