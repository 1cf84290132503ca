use three_d::clear_state::{ClearState, WriteMask};
use three_d::context::{check, new_framebuffer, BlitTarget, Command, Context, CoreError, FRAMEBUFFER_COMPLETE};
use three_d::render_target::{
    fits, CopyDestination, CopyKind, DepthTexture2D, RenderTarget, Screen, Texture2D, Viewport,
};

fn color_texture(id: u32) -> Texture2D {
    Texture2D { id, width: 64, height: 32 }
}

fn depth_texture(id: u32) -> DepthTexture2D {
    DepthTexture2D { id, width: 64, height: 32 }
}

fn viewport(x: i32, y: i32, width: u32, height: u32) -> Viewport {
    Viewport { x, y, width, height }
}

#[test]
fn framebuffers_get_fresh_ids() {
    let mut context = Context::new();
    assert_eq!(new_framebuffer(&mut context).unwrap().id, 1);
    assert_eq!(new_framebuffer(&mut context).unwrap().id, 2);
    let target = RenderTarget::new(&mut context, Some(color_texture(9)), None).unwrap();
    assert_eq!(target.framebuffer.id, 3);
    assert_eq!(target.width(), 64);
    assert_eq!(target.height(), 32);
    assert!(context.commands().is_empty());
}

#[test]
fn check_maps_incomplete_status() {
    assert_eq!(check(FRAMEBUFFER_COMPLETE), Ok(()));
    assert_eq!(check(0x8CD6), Err(CoreError::RenderTargetCreation));
}

#[test]
fn copy_depth_without_depth_attachment_fails_before_any_call() {
    let mut context = Context::new();
    let target = RenderTarget::new(&mut context, Some(color_texture(9)), None).unwrap();
    let destination = depth_texture(4);
    let r = target.copy_to(
        &mut context,
        CopyDestination::DepthTexture(&destination),
        viewport(0, 0, 8, 8),
        CopyKind::Depth,
    );
    assert_eq!(r, Err(CoreError::CopyMismatch));
    assert!(context.commands().is_empty());
}

#[test]
fn copy_color_into_depth_texture_fails() {
    let mut context = Context::new();
    let target = RenderTarget::new(&mut context, Some(color_texture(9)), Some(depth_texture(10))).unwrap();
    let destination = depth_texture(4);
    let r = target.copy_to(
        &mut context,
        CopyDestination::DepthTexture(&destination),
        viewport(0, 0, 8, 8),
        CopyKind::Color,
    );
    assert_eq!(r, Err(CoreError::CopyMismatch));
    assert!(context.commands().is_empty());
}

#[test]
fn copy_outside_viewport_fails() {
    let mut context = Context::new();
    let target = RenderTarget::new(&mut context, Some(color_texture(9)), None).unwrap();
    let r = target.copy_to(
        &mut context,
        CopyDestination::Screen(Screen { width: 800, height: 600 }),
        viewport(60, 0, 8, 8),
        CopyKind::Color,
    );
    assert_eq!(r, Err(CoreError::ViewportOutOfBounds));
    let destination = Texture2D { id: 5, width: 4, height: 4 };
    let r = target.copy_to(
        &mut context,
        CopyDestination::ColorTexture(&destination),
        viewport(0, 0, 8, 8),
        CopyKind::Color,
    );
    assert_eq!(r, Err(CoreError::ViewportOutOfBounds));
    assert!(context.commands().is_empty());
}

#[test]
fn copy_into_other_target_issues_blit() {
    let mut context = Context::new();
    let source = RenderTarget::new(&mut context, Some(color_texture(9)), Some(depth_texture(10))).unwrap();
    let other = RenderTarget::new(&mut context, Some(color_texture(11)), Some(depth_texture(12))).unwrap();
    let r = source.copy_to(
        &mut context,
        CopyDestination::RenderTarget(&other),
        viewport(1, 2, 3, 4),
        CopyKind::ColorAndDepth,
    );
    assert_eq!(r, Ok(()));
    assert_eq!(
        context.commands(),
        &vec![Command::Blit {
            source: 1,
            target: BlitTarget::Framebuffer(2),
            x: 1,
            y: 2,
            width: 3,
            height: 4,
            color: true,
            depth: true,
        }]
    );
}

#[test]
fn copy_depth_into_depth_texture() {
    let mut context = Context::new();
    let source = RenderTarget::new(&mut context, None, Some(depth_texture(10))).unwrap();
    let destination = depth_texture(4);
    let r = source.copy_to(
        &mut context,
        CopyDestination::DepthTexture(&destination),
        viewport(0, 0, 64, 32),
        CopyKind::Depth,
    );
    assert_eq!(r, Ok(()));
    assert_eq!(context.commands().len(), 1);
    assert!(matches!(
        context.commands()[0],
        Command::Blit { target: BlitTarget::DepthTexture(4), color: false, depth: true, .. }
    ));
}

#[test]
fn viewport_fits() {
    assert!(fits(viewport(0, 0, 64, 32), 64, 32));
    assert!(!fits(viewport(-1, 0, 4, 4), 64, 32));
    assert!(!fits(viewport(0, 30, 4, 4), 64, 32));
}

#[test]
fn clear_target_binds_and_restores() {
    let mut context = Context::new();
    let target = RenderTarget::new(&mut context, Some(color_texture(9)), None).unwrap();
    target.clear(&mut context, &ClearState::none());
    assert_eq!(context.bound(), 0);
    assert_eq!(
        context.commands(),
        &vec![
            Command::BindFramebuffer(1),
            Command::SetWriteMask(WriteMask { red: false, green: false, blue: false, alpha: false, depth: false }),
            Command::BindFramebuffer(0),
        ]
    );
}

#[test]
fn write_restores_binding_after_failure() {
    let mut context = Context::new();
    let target = RenderTarget::new(&mut context, Some(color_texture(9)), None).unwrap();
    let r: Result<(), String> = target.write(&mut context, || Err("draw failed".to_string()));
    assert_eq!(r, Err("draw failed".to_string()));
    assert_eq!(context.bound(), 0);
    assert_eq!(context.commands(), &vec![Command::BindFramebuffer(1), Command::BindFramebuffer(0)]);
}

#[test]
fn write_issues_draws_in_scope() {
    let mut context = Context::new();
    let outer = RenderTarget::new(&mut context, Some(color_texture(9)), None).unwrap();
    let inner = RenderTarget::new(&mut context, Some(color_texture(10)), None).unwrap();
    context.issue(Command::BindFramebuffer(outer.framebuffer.id));
    let r: Result<(), ()> = inner.write(&mut context, || Ok(vec![Command::DrawElements(6)]));
    assert_eq!(r, Ok(()));
    assert_eq!(context.bound(), 1);
    assert_eq!(
        context.commands(),
        &vec![
            Command::BindFramebuffer(1),
            Command::BindFramebuffer(2),
            Command::DrawElements(6),
            Command::BindFramebuffer(1),
        ]
    );
}

#[test]
fn screen_write_restores_binding() {
    let mut context = Context::new();
    let target = RenderTarget::new(&mut context, Some(color_texture(9)), None).unwrap();
    context.issue(Command::BindFramebuffer(target.framebuffer.id));
    let screen = Screen { width: 800, height: 600 };
    let r: Result<(), ()> = screen.write(&mut context, || Err(()));
    assert_eq!(r, Err(()));
    assert_eq!(context.bound(), 1);
    screen.clear(&mut context, &ClearState::depth(3));
    assert_eq!(context.bound(), 1);
}
