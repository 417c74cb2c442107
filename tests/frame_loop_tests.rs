use frame_loop::controller::{Command, FrameLoop, LoopEvent, Phase};
use frame_loop::frame::{contains_key, release_list, FrameDriver, TextureKey};
use frame_loop::submit::{plan_submission, positions, PassSetup};
use frame_loop::surface::{clamp_dimension, ScreenDescription, SurfaceExtent};

fn screen(w: u32, h: u32) -> ScreenDescription {
    ScreenDescription { width_in_pixels: w, height_in_pixels: h }
}

#[test]
fn clamp_keeps_positive_and_lifts_zero() {
    assert_eq!(clamp_dimension(0), 1);
    assert_eq!(clamp_dimension(1), 1);
    assert_eq!(clamp_dimension(640), 640);
    assert_eq!(clamp_dimension(u32::MAX), u32::MAX);
    assert_eq!(SurfaceExtent::clamped(0, 7), SurfaceExtent { width: 1, height: 7 });
}

#[test]
fn new_loop_clamps_surface_but_keeps_screen() {
    let s = FrameLoop::new(0, 0, false);
    assert_eq!(s.surface, SurfaceExtent { width: 1, height: 1 });
    assert_eq!(s.screen, screen(0, 0));
    assert_eq!(s.phase, Phase::Idle);
    assert!(s.first_resize_happened);
    assert!(!FrameLoop::new(5, 5, true).first_resize_happened);
}

#[test]
fn suppressed_first_resize_then_resize_then_redraw() {
    let mut s = FrameLoop::new(800, 600, true);
    assert_eq!(s.handle(LoopEvent::Resized { width: 800, height: 600 }), Command::Nothing);
    assert_eq!(s.surface, SurfaceExtent { width: 800, height: 600 });
    assert_eq!(s.phase, Phase::Idle);
    let c = s.handle(LoopEvent::Resized { width: 400, height: 300 });
    assert_eq!(
        c,
        Command::Reconfigure { extent: SurfaceExtent { width: 400, height: 300 }, screen: screen(400, 300) }
    );
    assert_eq!(s.phase, Phase::Resizing);
    assert_eq!(s.finish_cycle(), Command::RequestRedraw);
    assert_eq!(s.surface, SurfaceExtent { width: 400, height: 300 });
    assert_eq!(s.handle(LoopEvent::RedrawRequested), Command::RunFrame { screen: screen(400, 300) });
    assert_eq!(s.phase, Phase::Redrawing);
    assert_eq!(s.finish_cycle(), Command::Nothing);
    assert_eq!(s.phase, Phase::Idle);
}

#[test]
fn resize_to_zero_is_clamped() {
    let mut s = FrameLoop::new(300, 200, false);
    let c = s.handle(LoopEvent::Resized { width: 0, height: 0 });
    assert_eq!(c, Command::Reconfigure { extent: SurfaceExtent { width: 1, height: 1 }, screen: screen(0, 0) });
    assert_eq!(s.finish_cycle(), Command::RequestRedraw);
    assert_eq!(s.surface, SurfaceExtent { width: 1, height: 1 });
}

#[test]
fn first_resize_applies_without_spurious_platform() {
    let mut s = FrameLoop::new(800, 600, false);
    let c = s.handle(LoopEvent::Resized { width: 1024, height: 768 });
    assert_eq!(c, Command::Reconfigure { extent: SurfaceExtent { width: 1024, height: 768 }, screen: screen(1024, 768) });
}

#[test]
fn every_resize_sequence_keeps_surface_nonempty() {
    let mut s = FrameLoop::new(0, 9, true);
    let sizes: [(u32, u32); 6] = [(0, 0), (0, 5), (7, 0), (0, 0), (u32::MAX, 0), (3, 4)];
    for (w, h) in sizes {
        s.handle(LoopEvent::Resized { width: w, height: h });
        s.finish_cycle();
        assert!(s.surface.width >= 1 && s.surface.height >= 1);
    }
    assert_eq!(s.surface, SurfaceExtent { width: 3, height: 4 });
}

#[test]
fn input_requests_redraw_only_when_needed() {
    let mut s = FrameLoop::new(10, 10, false);
    assert_eq!(s.handle(LoopEvent::Input { repaint: true }), Command::RequestRedraw);
    assert_eq!(s.handle(LoopEvent::Input { repaint: false }), Command::Nothing);
    assert_eq!(s.phase, Phase::Idle);
}

#[test]
fn close_from_every_state_is_final() {
    for start in 0..3 {
        let mut s = FrameLoop::new(10, 10, false);
        match start {
            1 => {
                s.handle(LoopEvent::RedrawRequested);
            }
            2 => {
                s.handle(LoopEvent::Resized { width: 20, height: 30 });
            }
            _ => {}
        }
        assert_eq!(s.handle(LoopEvent::CloseRequested), Command::Exit { code: 0 });
        assert!(s.is_closing());
        let frozen = s;
        assert_eq!(s.finish_cycle(), Command::Nothing);
        assert_eq!(s.handle(LoopEvent::RedrawRequested), Command::Nothing);
        assert_eq!(s.handle(LoopEvent::Resized { width: 1, height: 2 }), Command::Nothing);
        assert_eq!(s.handle(LoopEvent::Input { repaint: true }), Command::Nothing);
        assert_eq!(s.handle(LoopEvent::CloseRequested), Command::Nothing);
        assert_eq!(s, frozen);
    }
}

#[test]
fn empty_frame_has_no_primitives_and_no_delta() {
    let mut d = FrameDriver::new();
    d.begin_frame();
    let out = d.end_frame();
    assert!(out.primitives.is_empty());
    assert!(out.textures_set.is_empty());
    assert!(out.textures_free.is_empty());
}

#[test]
fn frame_output_keeps_order_and_delta() {
    let mut d = FrameDriver::new();
    d.begin_frame();
    d.push_primitive(2);
    d.push_primitive(0);
    d.push_primitive(1);
    d.add_texture(TextureKey::Managed(0));
    d.add_texture(TextureKey::User(4));
    d.remove_texture(TextureKey::Managed(3));
    d.remove_texture(TextureKey::User(4));
    d.remove_texture(TextureKey::Managed(5));
    let out = d.end_frame();
    assert_eq!(out.primitives, vec![2, 0, 1]);
    assert_eq!(out.textures_set, vec![TextureKey::Managed(0), TextureKey::User(4)]);
    assert_eq!(out.textures_free, vec![TextureKey::Managed(3), TextureKey::Managed(5)]);
    for k in &out.textures_free {
        assert!(!out.textures_set.contains(k));
    }
    d.begin_frame();
    let next = d.end_frame();
    assert!(next.primitives.is_empty() && next.textures_set.is_empty() && next.textures_free.is_empty());
}

#[test]
fn release_list_drops_readded_keys() {
    let removed = vec![TextureKey::User(1), TextureKey::Managed(1), TextureKey::User(2)];
    let added = vec![TextureKey::User(2)];
    assert_eq!(release_list(&removed, &added), vec![TextureKey::User(1), TextureKey::Managed(1)]);
    assert!(contains_key(&added, TextureKey::User(2)));
    assert!(!contains_key(&added, TextureKey::Managed(2)));
    assert!(release_list(&vec![], &added).is_empty());
}

#[test]
fn plan_keeps_paint_order() {
    let mut d = FrameDriver::new();
    d.begin_frame();
    for p in [0usize, 1, 2, 3] {
        d.push_primitive(p);
    }
    d.add_texture(TextureKey::Managed(7));
    d.add_texture(TextureKey::Managed(8));
    d.remove_texture(TextureKey::User(9));
    let out = d.end_frame();
    let plan = plan_submission(&out);
    assert_eq!(plan.uploads, vec![0, 1]);
    assert_eq!(plan.draw_order, vec![0, 1, 2, 3]);
    assert_eq!(plan.releases, vec![TextureKey::User(9)]);
    assert_eq!(plan.pass, PassSetup { clear_to_transparent: true, store: true, depth_stencil: false });
    assert_eq!(positions(0), Vec::<usize>::new());
}
