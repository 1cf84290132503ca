use vstd::prelude::*;
use crate::clear_state::ClearState;
use crate::context::{
    clear, clear_commands, new_framebuffer, BlitTarget, Command, Context, CoreError, Framebuffer,
    SCREEN_FRAMEBUFFER,
};

verus! {

/// A rectangle of pixels: its bottom left corner and its size.
#[derive(Clone, Copy, Debug, PartialEq, Eq, Structural)]
pub struct Viewport {
    pub x: i32,
    pub y: i32,
    pub width: u32,
    pub height: u32,
}

/// A 2D color texture, by id, with its size.
#[derive(Clone, Copy, Debug, PartialEq, Eq, Structural)]
pub struct Texture2D {
    pub id: u32,
    pub width: u32,
    pub height: u32,
}

/// A 2D depth texture, by id, with its size.
#[derive(Clone, Copy, Debug, PartialEq, Eq, Structural)]
pub struct DepthTexture2D {
    pub id: u32,
    pub width: u32,
    pub height: u32,
}

/// The screen: the default framebuffer, with a color and a depth buffer.
#[derive(Clone, Copy, Debug, PartialEq, Eq, Structural)]
pub struct Screen {
    pub width: u32,
    pub height: u32,
}

/// A framebuffer with an optional color and an optional depth attachment.
#[derive(Clone, Copy, Debug, PartialEq, Eq, Structural)]
pub struct RenderTarget {
    pub framebuffer: Framebuffer,
    pub color: Option<Texture2D>,
    pub depth: Option<DepthTexture2D>,
}

/// Which channels a copy transfers.
#[derive(Clone, Copy, Debug, PartialEq, Eq, Structural)]
pub enum CopyKind {
    Color,
    Depth,
    ColorAndDepth,
}

impl CopyKind {
    pub open spec fn copies_color(self) -> bool {
        !(self is Depth)
    }

    pub open spec fn copies_depth(self) -> bool {
        !(self is Color)
    }
}

/// The destination of a copy.
pub enum CopyDestination<'a> {
    /// Copies to the screen.
    Screen(Screen),
    /// Copies to a color texture.
    ColorTexture(&'a Texture2D),
    /// Copies to a depth texture.
    DepthTexture(&'a DepthTexture2D),
    /// Copies to another render target.
    RenderTarget(&'a RenderTarget),
}

/// The viewport lies within a surface of the given size.
pub open spec fn within(v: Viewport, width: u32, height: u32) -> bool {
    &&& v.x >= 0
    &&& v.y >= 0
    &&& v.x + v.width <= width
    &&& v.y + v.height <= height
}

/// The target holds every channel that the copy reads or writes.
pub open spec fn holds_channels(t: RenderTarget, kind: CopyKind) -> bool {
    &&& kind.copies_color() ==> t.color is Some
    &&& kind.copies_depth() ==> t.depth is Some
}

/// The destination can take every channel that the copy writes, and no
/// channel it cannot hold is asked for.
pub open spec fn accepts(d: CopyDestination, kind: CopyKind) -> bool {
    match d {
        CopyDestination::Screen(_) => true,
        CopyDestination::ColorTexture(_) => kind is Color,
        CopyDestination::DepthTexture(_) => kind is Depth,
        CopyDestination::RenderTarget(t) => holds_channels(*t, kind),
    }
}

/// The width of the destination.
pub open spec fn destination_width(d: CopyDestination) -> u32 {
    match d {
        CopyDestination::Screen(s) => s.width,
        CopyDestination::ColorTexture(t) => t.width,
        CopyDestination::DepthTexture(t) => t.width,
        CopyDestination::RenderTarget(t) => t.width_spec(),
    }
}

/// The height of the destination.
pub open spec fn destination_height(d: CopyDestination) -> u32 {
    match d {
        CopyDestination::Screen(s) => s.height,
        CopyDestination::ColorTexture(t) => t.height,
        CopyDestination::DepthTexture(t) => t.height,
        CopyDestination::RenderTarget(t) => t.height_spec(),
    }
}

/// What a blit into the destination writes to.
pub open spec fn blit_target(d: CopyDestination) -> BlitTarget {
    match d {
        CopyDestination::Screen(_) => BlitTarget::Framebuffer(SCREEN_FRAMEBUFFER),
        CopyDestination::ColorTexture(t) => BlitTarget::ColorTexture(t.id),
        CopyDestination::DepthTexture(t) => BlitTarget::DepthTexture(t.id),
        CopyDestination::RenderTarget(t) => BlitTarget::Framebuffer(t.framebuffer.id),
    }
}

/// The outcome of a copy: a channel mismatch is reported first, then a
/// viewport outside the source or the destination.
pub open spec fn copy_result(
    source: RenderTarget,
    destination: CopyDestination,
    viewport: Viewport,
    kind: CopyKind,
) -> Result<(), CoreError> {
    if !holds_channels(source, kind) || !accepts(destination, kind) {
        Err(CoreError::CopyMismatch)
    } else if !within(viewport, source.width_spec(), source.height_spec()) || !within(
        viewport,
        destination_width(destination),
        destination_height(destination),
    ) {
        Err(CoreError::ViewportOutOfBounds)
    } else {
        Ok(())
    }
}

/// The call a successful copy issues.
pub open spec fn blit_command(
    source: RenderTarget,
    destination: CopyDestination,
    viewport: Viewport,
    kind: CopyKind,
) -> Command {
    Command::Blit {
        source: source.framebuffer.id,
        target: blit_target(destination),
        x: viewport.x,
        y: viewport.y,
        width: viewport.width,
        height: viewport.height,
        color: kind.copies_color(),
        depth: kind.copies_depth(),
    }
}

/// Binds `framebuffer`, clears it as `state` asks and binds again what was
/// bound before.
fn clear_framebuffer(context: &mut Context, framebuffer: u32, state: &ClearState)
    ensures
        final(context).commands_spec() == old(context).commands_spec() + seq![
            Command::BindFramebuffer(framebuffer),
        ] + clear_commands(*state) + seq![Command::BindFramebuffer(old(context).bound_spec())],
        final(context).bound_spec() == old(context).bound_spec(),
        final(context).next_framebuffer_spec() == old(context).next_framebuffer_spec(),
{
    let previous = context.bound();
    context.issue(Command::BindFramebuffer(framebuffer));
    clear(context, state);
    context.issue(Command::BindFramebuffer(previous));
    assert(context.commands_spec() =~= old(context).commands_spec() + seq![
        Command::BindFramebuffer(framebuffer),
    ] + clear_commands(*state) + seq![Command::BindFramebuffer(previous)]);
}

/// Binds `framebuffer`, issues what `render` hands back, and binds again what
/// was bound before, also when `render` fails.
fn write_framebuffer<E, F: FnOnce() -> Result<Vec<Command>, E>>(
    context: &mut Context,
    framebuffer: u32,
    render: F,
) -> (r: Result<(), E>)
    requires
        render.requires(()),
    ensures
        final(context).bound_spec() == old(context).bound_spec(),
        final(context).next_framebuffer_spec() == old(context).next_framebuffer_spec(),
        match r {
            Ok(()) => exists|drawn: Vec<Command>|
                render.ensures((), Ok::<Vec<Command>, E>(drawn)) && final(context).commands_spec()
                    == old(context).commands_spec() + seq![Command::BindFramebuffer(framebuffer)]
                    + drawn@ + seq![Command::BindFramebuffer(old(context).bound_spec())],
            Err(e) => render.ensures((), Err::<Vec<Command>, E>(e)) && final(context).commands_spec()
                == old(context).commands_spec() + seq![
                Command::BindFramebuffer(framebuffer),
                Command::BindFramebuffer(old(context).bound_spec()),
            ],
        },
{
    let previous = context.bound();
    context.issue(Command::BindFramebuffer(framebuffer));
    let outcome = render();
    match outcome {
        Ok(drawn) => {
            let ghost start = context.commands_spec();
            let mut i: usize = 0;
            while i < drawn.len()
                invariant
                    0 <= i <= drawn@.len(),
                    context.commands_spec() == start + drawn@.subrange(0, i as int),
                    context.next_framebuffer_spec() == old(context).next_framebuffer_spec(),
                decreases drawn@.len() - i,
            {
                context.issue(drawn[i]);
                assert(drawn@.subrange(0, i + 1) =~= drawn@.subrange(0, i as int).push(drawn@[i as int]));
                i = i + 1;
            }
            context.issue(Command::BindFramebuffer(previous));
            assert(drawn@.subrange(0, drawn@.len() as int) =~= drawn@);
            assert(context.commands_spec() =~= old(context).commands_spec() + seq![
                Command::BindFramebuffer(framebuffer),
            ] + drawn@ + seq![Command::BindFramebuffer(previous)]);
            Ok(())
        },
        Err(e) => {
            context.issue(Command::BindFramebuffer(previous));
            assert(context.commands_spec() =~= old(context).commands_spec() + seq![
                Command::BindFramebuffer(framebuffer),
                Command::BindFramebuffer(previous),
            ]);
            Err(e)
        },
    }
}

impl Screen {
    /// Clears the screen as `state` asks; what was bound stays bound. Returns
    /// the screen, for chaining.
    pub fn clear(&self, context: &mut Context, state: &ClearState) -> (r: &Self)
        ensures
            r == self,
            final(context).commands_spec() == old(context).commands_spec() + seq![
                Command::BindFramebuffer(SCREEN_FRAMEBUFFER),
            ] + clear_commands(*state) + seq![Command::BindFramebuffer(old(context).bound_spec())],
            final(context).bound_spec() == old(context).bound_spec(),
            final(context).next_framebuffer_spec() == old(context).next_framebuffer_spec(),
    {
        clear_framebuffer(context, SCREEN_FRAMEBUFFER, state);
        self
    }

    /// Renders into the screen: issues what `render` hands back with the
    /// screen bound; what was bound before is bound again afterwards, also
    /// when `render` fails.
    pub fn write<E, F: FnOnce() -> Result<Vec<Command>, E>>(&self, context: &mut Context, render: F) -> (r: Result<(), E>)
        requires
            render.requires(()),
        ensures
            final(context).bound_spec() == old(context).bound_spec(),
            final(context).next_framebuffer_spec() == old(context).next_framebuffer_spec(),
            match r {
                Ok(()) => exists|drawn: Vec<Command>|
                    render.ensures((), Ok::<Vec<Command>, E>(drawn)) && final(context).commands_spec()
                        == old(context).commands_spec() + seq![Command::BindFramebuffer(SCREEN_FRAMEBUFFER)]
                        + drawn@ + seq![Command::BindFramebuffer(old(context).bound_spec())],
                Err(e) => render.ensures((), Err::<Vec<Command>, E>(e)) && final(context).commands_spec()
                    == old(context).commands_spec() + seq![
                    Command::BindFramebuffer(SCREEN_FRAMEBUFFER),
                    Command::BindFramebuffer(old(context).bound_spec()),
                ],
            },
    {
        write_framebuffer(context, SCREEN_FRAMEBUFFER, render)
    }
}

impl RenderTarget {
    /// The width: that of the color attachment, else that of the depth
    /// attachment, else 0.
    pub open spec fn width_spec(self) -> u32 {
        match self.color {
            Some(c) => c.width,
            None => match self.depth {
                Some(d) => d.width,
                None => 0,
            },
        }
    }

    /// The height, taken as the width is.
    pub open spec fn height_spec(self) -> u32 {
        match self.color {
            Some(c) => c.height,
            None => match self.depth {
                Some(d) => d.height,
                None => 0,
            },
        }
    }

    /// A render target over the given attachments, with a framebuffer of its
    /// own; fails with `RenderTargetCreation` when none can be allocated.
    pub fn new(context: &mut Context, color: Option<Texture2D>, depth: Option<DepthTexture2D>) -> (r:
        Result<Self, CoreError>)
        ensures
            final(context).bound_spec() == old(context).bound_spec(),
            final(context).commands_spec() == old(context).commands_spec(),
            old(context).next_framebuffer_spec() < u32::MAX ==> r == Ok::<Self, CoreError>(
                RenderTarget {
                    framebuffer: Framebuffer { id: old(context).next_framebuffer_spec() },
                    color,
                    depth,
                },
            ),
            old(context).next_framebuffer_spec() == u32::MAX ==> r == Err::<Self, CoreError>(
                CoreError::RenderTargetCreation,
            ),
    {
        match new_framebuffer(context) {
            Ok(framebuffer) => Ok(RenderTarget { framebuffer, color, depth }),
            Err(e) => Err(e),
        }
    }

    /// The width of the target.
    pub fn width(&self) -> (r: u32)
        ensures
            r == self.width_spec(),
    {
        match self.color {
            Some(c) => c.width,
            None => match self.depth {
                Some(d) => d.width,
                None => 0,
            },
        }
    }

    /// The height of the target.
    pub fn height(&self) -> (r: u32)
        ensures
            r == self.height_spec(),
    {
        match self.color {
            Some(c) => c.height,
            None => match self.depth {
                Some(d) => d.height,
                None => 0,
            },
        }
    }

    /// Clears the target as `state` asks; what was bound stays bound. Returns
    /// the target, for chaining.
    pub fn clear(&self, context: &mut Context, state: &ClearState) -> (r: &Self)
        ensures
            r == self,
            final(context).commands_spec() == old(context).commands_spec() + seq![
                Command::BindFramebuffer(self.framebuffer.id),
            ] + clear_commands(*state) + seq![Command::BindFramebuffer(old(context).bound_spec())],
            final(context).bound_spec() == old(context).bound_spec(),
            final(context).next_framebuffer_spec() == old(context).next_framebuffer_spec(),
    {
        clear_framebuffer(context, self.framebuffer.id, state);
        self
    }

    /// Renders into the target: issues what `render` hands back with the
    /// target bound; what was bound before is bound again afterwards, also
    /// when `render` fails.
    pub fn write<E, F: FnOnce() -> Result<Vec<Command>, E>>(&self, context: &mut Context, render: F) -> (r: Result<(), E>)
        requires
            render.requires(()),
        ensures
            final(context).bound_spec() == old(context).bound_spec(),
            final(context).next_framebuffer_spec() == old(context).next_framebuffer_spec(),
            match r {
                Ok(()) => exists|drawn: Vec<Command>|
                    render.ensures((), Ok::<Vec<Command>, E>(drawn)) && final(context).commands_spec()
                        == old(context).commands_spec() + seq![Command::BindFramebuffer(self.framebuffer.id)]
                        + drawn@ + seq![Command::BindFramebuffer(old(context).bound_spec())],
                Err(e) => render.ensures((), Err::<Vec<Command>, E>(e)) && final(context).commands_spec()
                    == old(context).commands_spec() + seq![
                    Command::BindFramebuffer(self.framebuffer.id),
                    Command::BindFramebuffer(old(context).bound_spec()),
                ],
            },
    {
        write_framebuffer(context, self.framebuffer.id, render)
    }

    /// Copies the `kind` channels inside `viewport` from this target into
    /// `destination`. Fails, issuing nothing, with `CopyMismatch` when this
    /// target or the destination lacks a channel to copy, else with
    /// `ViewportOutOfBounds` when the viewport reaches outside either.
    pub fn copy_to(
        &self,
        context: &mut Context,
        destination: CopyDestination,
        viewport: Viewport,
        kind: CopyKind,
    ) -> (r: Result<(), CoreError>)
        ensures
            r == copy_result(*self, destination, viewport, kind),
            final(context).bound_spec() == old(context).bound_spec(),
            final(context).next_framebuffer_spec() == old(context).next_framebuffer_spec(),
            r is Ok ==> final(context).commands_spec() == old(context).commands_spec().push(
                blit_command(*self, destination, viewport, kind),
            ),
            r is Err ==> final(context).commands_spec() == old(context).commands_spec(),
    {
        let copies_color = match kind {
            CopyKind::Depth => false,
            _ => true,
        };
        let copies_depth = match kind {
            CopyKind::Color => false,
            _ => true,
        };
        let source_ok = (!copies_color || self.color.is_some()) && (!copies_depth
            || self.depth.is_some());
        let (accepted, width, height, target) = match destination {
            CopyDestination::Screen(s) => (
                true,
                s.width,
                s.height,
                BlitTarget::Framebuffer(SCREEN_FRAMEBUFFER),
            ),
            CopyDestination::ColorTexture(t) => (
                copies_color && !copies_depth,
                t.width,
                t.height,
                BlitTarget::ColorTexture(t.id),
            ),
            CopyDestination::DepthTexture(t) => (
                copies_depth && !copies_color,
                t.width,
                t.height,
                BlitTarget::DepthTexture(t.id),
            ),
            CopyDestination::RenderTarget(t) => (
                (!copies_color || t.color.is_some()) && (!copies_depth || t.depth.is_some()),
                t.width(),
                t.height(),
                BlitTarget::Framebuffer(t.framebuffer.id),
            ),
        };
        if !source_ok || !accepted {
            return Err(CoreError::CopyMismatch);
        }
        if !fits(viewport, self.width(), self.height()) || !fits(viewport, width, height) {
            return Err(CoreError::ViewportOutOfBounds);
        }
        context.issue(
            Command::Blit {
                source: self.framebuffer.id,
                target,
                x: viewport.x,
                y: viewport.y,
                width: viewport.width,
                height: viewport.height,
                color: copies_color,
                depth: copies_depth,
            },
        );
        Ok(())
    }
}

/// Whether the viewport lies within a surface of the given size.
pub fn fits(viewport: Viewport, width: u32, height: u32) -> (r: bool)
    ensures
        r == within(viewport, width, height),
{
    viewport.x >= 0 && viewport.y >= 0 && viewport.x as u64 + viewport.width as u64 <= width as u64
        && viewport.y as u64 + viewport.height as u64 <= height as u64
}

/// A copy of depth from a target without a depth attachment into a depth
/// texture fails, whatever the viewport and whichever channels are asked for.
pub proof fn copy_depth_without_depth_attachment_fails(
    source: RenderTarget,
    destination: &DepthTexture2D,
    viewport: Viewport,
    kind: CopyKind,
)
    requires
        source.depth is None,
    ensures
        copy_result(source, CopyDestination::DepthTexture(destination), viewport, kind)
            == Err::<(), CoreError>(CoreError::CopyMismatch),
{
}

} // verus!
