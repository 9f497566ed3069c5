use mltg::brush::Brush;
use mltg::context::{Context, DrawOp, SwapChain, Target, TextureDesc};
use mltg::d2d::Direct2D;
use mltg::d3d11::Direct3D11;
use mltg::d3d12::Direct3D12;
use mltg::error::{Error, OK_CODE, RECREATE_TARGET_CODE};
use mltg::geometry::{PhysicalSize, Point, Rect, Rgba, Size};
use mltg::shape::Shape;

const E_FAIL: u32 = 0x8000_4005;

#[test]
fn swap_chain_clear_and_present() {
    let mut ctx = Context::new(Direct2D::new().unwrap()).unwrap();
    let mut target = ctx.create_render_target(PhysicalSize::new(640, 480)).unwrap();
    assert_eq!(target.physical_size(), PhysicalSize::new(640, 480));
    let mut cmd = ctx.begin_frame(&mut target);
    cmd.clear(Rgba::new(0, 77, 0, 255));
    assert_eq!(cmd.ops.len(), 1);
    let r = ctx.end_frame(&mut target, OK_CODE, OK_CODE);
    assert!(r.is_ok());
}

#[test]
fn recreate_target_error_propagates() {
    let mut ctx = Context::new(Direct2D::new().unwrap()).unwrap();
    let mut target = ctx.create_render_target(PhysicalSize::new(320, 240)).unwrap();
    let mut cmd = ctx.begin_frame(&mut target);
    cmd.clear(Rgba::new(0, 0, 0, 255));
    drop(cmd);
    let r = ctx.end_frame(&mut target, RECREATE_TARGET_CODE, OK_CODE);
    assert_eq!(r.unwrap_err(), Error::RecreateTarget);
    let fresh = ctx.create_render_target(PhysicalSize::new(320, 240));
    assert!(fresh.is_ok());
}

#[test]
fn present_failure_is_reported() {
    let mut ctx = Context::new(Direct2D::new().unwrap()).unwrap();
    let mut target = ctx.create_render_target(PhysicalSize::new(64, 64)).unwrap();
    let _cmd = ctx.begin_frame(&mut target);
    let r = ctx.end_frame(&mut target, OK_CODE, E_FAIL);
    assert_eq!(r.unwrap_err(), Error::Other(E_FAIL));
}

#[test]
fn frame_error_skips_present_result() {
    let mut ctx = Context::new(Direct2D::new().unwrap()).unwrap();
    let mut target = ctx.create_render_target(PhysicalSize::new(64, 64)).unwrap();
    let _cmd = ctx.begin_frame(&mut target);
    let r = ctx.end_frame(&mut target, E_FAIL, RECREATE_TARGET_CODE);
    assert_eq!(r.unwrap_err(), Error::Other(E_FAIL));
}

#[test]
fn resize_releases_old_bitmap_and_draw_succeeds() {
    let mut ctx = Context::new(Direct2D::new().unwrap()).unwrap();
    let mut target = ctx.create_render_target(PhysicalSize::new(640, 480)).unwrap();
    let old_generation = target.bitmap.unwrap().generation;
    ctx.resize_target(&mut target, PhysicalSize::new(800, 600), OK_CODE).unwrap();
    assert_eq!(target.physical_size(), PhysicalSize::new(800, 600));
    assert!(target.bitmap.unwrap().generation > old_generation);
    let mut cmd = ctx.begin_frame(&mut target);
    cmd.clear(Rgba::new(10, 10, 10, 255));
    let r = ctx.end_frame(&mut target, OK_CODE, OK_CODE);
    assert!(r.is_ok());
    assert_eq!(target.physical_size(), PhysicalSize::new(800, 600));
}

#[test]
fn failed_resize_leaves_no_bitmap() {
    let mut ctx = Context::new(Direct2D::new().unwrap()).unwrap();
    let mut target = ctx.create_render_target(PhysicalSize::new(640, 480)).unwrap();
    let r = ctx.resize_target(&mut target, PhysicalSize::new(800, 600), E_FAIL);
    assert_eq!(r.unwrap_err(), Error::Other(E_FAIL));
    assert!(target.bitmap.is_none());
}

#[test]
fn interop_acquires_match_releases_over_frames() {
    let mut ctx = Context::new(Direct3D12::new().unwrap()).unwrap();
    let chain = SwapChain { size: PhysicalSize::new(256, 256), buffer_count: 2 };
    let targets = ctx.create_render_target_from_swap_chain(&chain, 1).unwrap();
    assert_eq!(targets.len(), 2);
    assert_ne!(targets[0].wrapper.resource, targets[1].wrapper.resource);
    let mut target = targets[0];
    for frame in 1..=10u64 {
        let mut cmd = ctx.begin_frame(&mut target);
        assert!(target.wrapper.acquired);
        assert_eq!(target.wrapper.acquires, target.wrapper.releases + 1);
        cmd.clear(Rgba::new(0, 0, 0, 255));
        let status = if frame % 3 == 0 { E_FAIL } else { OK_CODE };
        let _ = ctx.end_frame(&mut target, status, OK_CODE);
        assert!(!target.wrapper.acquired);
        assert_eq!(target.wrapper.acquires, target.wrapper.releases);
        assert_eq!(target.wrapper.acquires, frame);
    }
}

#[test]
fn interop_texture_target_checks_pass_through() {
    let mut ctx = Context::new(Direct3D12::new().unwrap()).unwrap();
    let texture =
        TextureDesc { size: PhysicalSize::new(128, 64), allows_render_target: true, resource: 7 };
    let mut target = ctx.create_render_target(&texture).unwrap();
    assert_eq!(target.physical_size(), PhysicalSize::new(128, 64));
    assert_eq!(target.size(), Size::new(128, 64));
    let _cmd = ctx.begin_frame(&mut target);
    let r = ctx.end_frame(&mut target, OK_CODE, OK_CODE);
    assert!(r.is_ok());
    assert_eq!(target.wrapper.acquires, 1);
    assert_eq!(target.wrapper.releases, 1);
}

#[test]
fn direct3d11_frame_passes_device_result_through() {
    let mut ctx = Context::new(Direct3D11::new().unwrap()).unwrap();
    let chain = SwapChain { size: PhysicalSize::new(100, 100), buffer_count: 2 };
    let mut target = ctx.create_render_target_from_swap_chain(&chain).unwrap();
    let _cmd = ctx.begin_frame(&mut target);
    let r = ctx.end_frame(&mut target, RECREATE_TARGET_CODE, OK_CODE);
    assert_eq!(r.unwrap_err(), Error::RecreateTarget);
}

#[test]
fn draw_commands_recorded_in_call_order() {
    let mut ctx = Context::new(Direct3D11::new().unwrap()).unwrap();
    let chain = SwapChain { size: PhysicalSize::new(100, 100), buffer_count: 2 };
    let mut target = ctx.create_render_target_from_swap_chain(&chain).unwrap();
    let mut cmd = ctx.begin_frame(&mut target);
    let brush = Brush::solid_color(Rgba::new(9, 9, 9, 255)).unwrap();
    let rect = Rect::new(Point::new(0, 0), Size::new(10, 10));
    cmd.clear(Rgba::new(0, 0, 0, 0));
    cmd.push_clip(rect);
    cmd.fill(&Shape::Rect(rect), &brush);
    cmd.stroke(&Shape::Rect(rect), &brush, 150, None);
    cmd.pop_clip();
    cmd.set_offset(Point::new(3, 4));
    assert_eq!(cmd.ops.len(), 6);
    assert!(matches!(cmd.ops[0], DrawOp::Clear(_)));
    assert!(matches!(cmd.ops[1], DrawOp::PushClip(_)));
    assert!(matches!(cmd.ops[2], DrawOp::Fill(..)));
    assert!(matches!(cmd.ops[3], DrawOp::Stroke(..)));
    assert!(matches!(cmd.ops[4], DrawOp::PopClip));
    assert!(matches!(cmd.ops[5], DrawOp::SetOffset(_)));
    assert_eq!(cmd.clip_depth, 0);
    assert!(!cmd.unbalanced);
    let r = ctx.end_frame(&mut target, OK_CODE, OK_CODE);
    assert!(r.is_ok());
}

#[test]
fn unmatched_pop_is_remembered() {
    let mut ctx = Context::new(Direct3D11::new().unwrap()).unwrap();
    let chain = SwapChain { size: PhysicalSize::new(10, 10), buffer_count: 2 };
    let mut target = ctx.create_render_target_from_swap_chain(&chain).unwrap();
    let mut cmd = ctx.begin_frame(&mut target);
    cmd.pop_clip();
    assert!(cmd.unbalanced);
    let _ = ctx.end_frame(&mut target, OK_CODE, OK_CODE);
}

#[test]
fn error_classification() {
    assert_eq!(Error::from_hresult(RECREATE_TARGET_CODE), Error::RecreateTarget);
    assert_eq!(Error::from_hresult(E_FAIL), Error::Other(E_FAIL));
    assert_eq!(Error::RecreateTarget.code(), RECREATE_TARGET_CODE);
    assert_eq!(Error::Other(E_FAIL).code(), E_FAIL);
    assert!(mltg::error::check_hresult(OK_CODE).is_ok());
    assert!(mltg::error::check_hresult(1).is_ok());
    assert!(mltg::error::check_hresult(E_FAIL).is_err());
}

#[test]
fn factory_creates_resources() {
    let mut ctx = Context::new(Direct2D::new().unwrap()).unwrap();
    let factory = ctx.create_factory();
    let brush = factory.create_solid_color_brush(Rgba::new(1, 1, 1, 255)).unwrap();
    assert!(matches!(brush, Brush::SolidColor(_)));
    let builder = factory.create_filled_path().unwrap();
    assert_eq!(builder.figures.len(), 0);
    ctx.set_dpi(19200);
    assert_eq!(ctx.device_context.dpi, 19200);
}

#[test]
fn set_interval_keeps_surface() {
    let ctx = Context::new(Direct2D::new().unwrap()).unwrap();
    let mut target = ctx.create_render_target(PhysicalSize::new(32, 32)).unwrap();
    target.set_interval(0);
    assert_eq!(target.interval, 0);
    assert_eq!(target.swap_chain.size, PhysicalSize::new(32, 32));
}
