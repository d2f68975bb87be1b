use portal_renderer::draw::DrawStep;
use portal_renderer::portal::{frame_plan, render_steps, FrameStep, COLOR_AND_DEPTH};
use portal_renderer::utils::GlEnum;
use portal_renderer::utils::{GL_COLOR_BUFFER_BIT, GL_DEPTH_BUFFER_BIT};

#[test]
fn frame_with_two_portals() {
    let steps = frame_plan(2);
    assert_eq!(
        steps,
        vec![
            FrameStep::Clear(0x4100),
            FrameStep::PlaceCamera { portal: 0, linked: 1 },
            FrameStep::PlaceCamera { portal: 1, linked: 0 },
            FrameStep::BindPortalFramebuffer(0),
            FrameStep::Clear(0x4100),
            FrameStep::ViewFromPortal(0),
            FrameStep::DrawScene,
            FrameStep::BindPortalFramebuffer(1),
            FrameStep::Clear(0x4100),
            FrameStep::ViewFromPortal(1),
            FrameStep::DrawScene,
            FrameStep::BindDefaultFramebuffer,
            FrameStep::Clear(0x4000),
            FrameStep::ViewFromCamera,
            FrameStep::DrawScene,
            FrameStep::RenderPortal(0),
            FrameStep::RenderPortal(1),
        ]
    );
}

#[test]
fn frame_without_portals_renders_the_screen_only() {
    assert_eq!(
        frame_plan(0),
        vec![
            FrameStep::Clear(0x4100),
            FrameStep::BindDefaultFramebuffer,
            FrameStep::Clear(0x4000),
            FrameStep::ViewFromCamera,
            FrameStep::DrawScene,
        ]
    );
}

#[test]
fn portal_camera_looks_out_from_its_partner() {
    let steps = frame_plan(4);
    assert_eq!(steps[1], FrameStep::PlaceCamera { portal: 0, linked: 1 });
    assert_eq!(steps[2], FrameStep::PlaceCamera { portal: 1, linked: 0 });
    assert_eq!(steps[3], FrameStep::PlaceCamera { portal: 2, linked: 3 });
    assert_eq!(steps[4], FrameStep::PlaceCamera { portal: 3, linked: 2 });
}

#[test]
fn scene_is_drawn_once_per_portal_and_once_for_the_screen() {
    for portals in [0usize, 2, 4, 6] {
        let steps = frame_plan(portals);
        assert_eq!(steps.len(), 6 * portals + 5);
        let draws = steps.iter().filter(|s| **s == FrameStep::DrawScene).count();
        assert_eq!(draws, portals + 1);
    }
}

#[test]
fn every_portal_is_rendered_before_the_screen_and_shown_after_it() {
    let portals = 4;
    let steps = frame_plan(portals);
    let screen = steps.iter().position(|s| *s == FrameStep::BindDefaultFramebuffer).unwrap();
    assert_eq!(screen, 1 + 5 * portals);
    for i in 0..portals {
        let pass = steps.iter().position(|s| *s == FrameStep::BindPortalFramebuffer(i)).unwrap();
        let shown = steps.iter().position(|s| *s == FrameStep::RenderPortal(i)).unwrap();
        assert_eq!(pass, 1 + portals + 4 * i);
        assert_eq!(shown, 5 + 5 * portals + i);
        assert!(pass < screen && screen < shown);
    }
}

#[test]
fn clear_mask_is_colour_and_depth() {
    assert_eq!(COLOR_AND_DEPTH, GL_COLOR_BUFFER_BIT | GL_DEPTH_BUFFER_BIT);
}

#[test]
fn portal_cameras_stand_at_the_partners_surface_seen_from_the_camera() {
    let camera = [0.0f32, 0.0, 0.0];
    let surfaces = [[1.0f32, 1.0, -8.0], [0.0, 0.0, -8.0]];
    let mut portal_cameras = [[0.0f32; 3]; 2];
    for step in frame_plan(2) {
        if let FrameStep::PlaceCamera { portal, linked } = step {
            for k in 0..3 {
                portal_cameras[portal][k] = surfaces[linked][k] - camera[k];
            }
        }
    }
    assert_eq!(portal_cameras[0], [0.0, 0.0, -8.0]);
    assert_eq!(portal_cameras[1], [1.0, 1.0, -8.0]);
}

#[test]
fn portal_binds_its_colours_to_the_first_unit() {
    assert_eq!(
        render_steps(42),
        vec![
            DrawStep::ActiveTexture(GlEnum(0x84C0)),
            DrawStep::BindTexture(42),
            DrawStep::SetInt { name: "texture_diffuse1".to_string(), value: 0 },
        ]
    );
}
