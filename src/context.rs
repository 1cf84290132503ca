use vstd::prelude::*;
use crate::clear_state::{ClearState, WriteMask, ONE};

verus! {

/// The bit that selects the color buffer in a [`Command::Clear`].
pub const COLOR_BUFFER_BIT: u32 = 0x4000;

/// The bit that selects the depth buffer in a [`Command::Clear`].
pub const DEPTH_BUFFER_BIT: u32 = 0x100;

/// The status the graphics API reports for a complete framebuffer.
pub const FRAMEBUFFER_COMPLETE: u32 = 0x8CD5;

/// The framebuffer id of the screen.
pub const SCREEN_FRAMEBUFFER: u32 = 0;

/// The errors of this layer.
#[derive(Clone, Copy, Debug, PartialEq, Eq, Structural)]
pub enum CoreError {
    /// A framebuffer could not be allocated or is not complete.
    RenderTargetCreation,
    /// A copy asks for a channel that the source or the destination lacks.
    CopyMismatch,
    /// A copy viewport reaches outside the source or the destination.
    ViewportOutOfBounds,
}

/// Where a blit writes to.
#[derive(Clone, Copy, Debug, PartialEq, Eq, Structural)]
pub enum BlitTarget {
    /// A framebuffer (0 is the screen).
    Framebuffer(u32),
    /// A 2D color texture, by id.
    ColorTexture(u32),
    /// A 2D depth texture, by id.
    DepthTexture(u32),
}

/// One call into the graphics API.
#[derive(Clone, Copy, Debug, PartialEq, Eq, Structural)]
pub enum Command {
    /// Makes the framebuffer the destination of draws and clears.
    BindFramebuffer(u32),
    /// Restricts writes to the channels set in the mask.
    SetWriteMask(WriteMask),
    /// Sets the value that color clears write (red, green, blue, alpha).
    ClearColor(u32, u32, u32, u32),
    /// Sets the value that depth clears write.
    ClearDepth(u32),
    /// Clears the buffers selected by the bits.
    Clear(u32),
    /// Copies a rectangle (x, y, width, height) of the source framebuffer's
    /// color and/or depth.
    Blit {
        source: u32,
        target: BlitTarget,
        x: i32,
        y: i32,
        width: u32,
        height: u32,
        color: bool,
        depth: bool,
    },
    /// Draws the elements of an index buffer of the given length.
    DrawElements(u32),
}

/// A framebuffer object, by id.
#[derive(Clone, Copy, Debug, PartialEq, Eq, Structural)]
pub struct Framebuffer {
    pub id: u32,
}

/// The graphics context: the framebuffer currently bound, the framebuffer
/// ids handed out so far, and the calls issued so far, in order.
pub struct Context {
    bound: u32,
    next_framebuffer: u32,
    commands: Vec<Command>,
}

impl Context {
    /// The framebuffer currently bound for drawing.
    pub closed spec fn bound_spec(&self) -> u32 {
        self.bound
    }

    /// The next framebuffer id to hand out.
    pub closed spec fn next_framebuffer_spec(&self) -> u32 {
        self.next_framebuffer
    }

    /// The calls issued so far.
    pub closed spec fn commands_spec(&self) -> Seq<Command> {
        self.commands@
    }

    /// A fresh context: the screen is bound and nothing has been issued.
    pub fn new() -> (r: Self)
        ensures
            r.bound_spec() == SCREEN_FRAMEBUFFER,
            r.next_framebuffer_spec() == 1,
            r.commands_spec() == Seq::<Command>::empty(),
    {
        Context { bound: SCREEN_FRAMEBUFFER, next_framebuffer: 1, commands: Vec::new() }
    }

    /// The framebuffer currently bound for drawing.
    pub fn bound(&self) -> (r: u32)
        ensures
            r == self.bound_spec(),
    {
        self.bound
    }

    /// The calls issued so far.
    pub fn commands(&self) -> (r: &Vec<Command>)
        ensures
            r@ == self.commands_spec(),
    {
        &self.commands
    }

    /// Issues one call; binding calls change the bound framebuffer.
    pub fn issue(&mut self, command: Command)
        ensures
            final(self).commands_spec() == old(self).commands_spec().push(command),
            final(self).next_framebuffer_spec() == old(self).next_framebuffer_spec(),
            final(self).bound_spec() == (match command {
                Command::BindFramebuffer(id) => id,
                _ => old(self).bound_spec(),
            }),
    {
        if let Command::BindFramebuffer(id) = command {
            self.bound = id;
        }
        self.commands.push(command);
    }

    /// Allocates a framebuffer id, or `None` when every id is taken.
    pub fn create_framebuffer(&mut self) -> (r: Option<Framebuffer>)
        ensures
            final(self).bound_spec() == old(self).bound_spec(),
            final(self).commands_spec() == old(self).commands_spec(),
            old(self).next_framebuffer_spec() < u32::MAX ==> r == Some(
                Framebuffer { id: old(self).next_framebuffer_spec() },
            ) && final(self).next_framebuffer_spec() == old(self).next_framebuffer_spec() + 1,
            old(self).next_framebuffer_spec() == u32::MAX ==> r is None
                && final(self).next_framebuffer_spec() == old(self).next_framebuffer_spec(),
    {
        if self.next_framebuffer < u32::MAX {
            let id = self.next_framebuffer;
            self.next_framebuffer = id + 1;
            Some(Framebuffer { id })
        } else {
            None
        }
    }
}

/// Creates a framebuffer, failing with `RenderTargetCreation` when the context
/// cannot allocate one.
pub fn new_framebuffer(context: &mut Context) -> (r: Result<Framebuffer, CoreError>)
    ensures
        final(context).bound_spec() == old(context).bound_spec(),
        final(context).commands_spec() == old(context).commands_spec(),
        old(context).next_framebuffer_spec() < u32::MAX ==> r == Ok::<Framebuffer, CoreError>(
            Framebuffer { id: old(context).next_framebuffer_spec() },
        ),
        old(context).next_framebuffer_spec() == u32::MAX ==> r == Err::<Framebuffer, CoreError>(
            CoreError::RenderTargetCreation,
        ),
{
    match context.create_framebuffer() {
        Some(framebuffer) => Ok(framebuffer),
        None => Err(CoreError::RenderTargetCreation),
    }
}

/// Maps the completeness status that the graphics API reports for a
/// framebuffer: complete is `Ok`, any other status is `RenderTargetCreation`.
pub fn check(status: u32) -> (r: Result<(), CoreError>)
    ensures
        status == FRAMEBUFFER_COMPLETE ==> r is Ok,
        status != FRAMEBUFFER_COMPLETE ==> r == Err::<(), CoreError>(CoreError::RenderTargetCreation),
{
    if status == FRAMEBUFFER_COMPLETE {
        Ok(())
    } else {
        Err(CoreError::RenderTargetCreation)
    }
}

/// The calls that clearing with `state` issues: the write mask, then the
/// clear color (unset color channels fall back to 0, alpha to `ONE`) if a
/// color channel is set, the clear depth if depth is set, and one clear of
/// exactly the requested buffers if any is requested.
pub open spec fn clear_commands(state: ClearState) -> Seq<Command> {
    let mask = seq![Command::SetWriteMask(state.write_mask())];
    let color = if state.clears_color() {
        seq![
            Command::ClearColor(
                state.red.unwrap_or(0),
                state.green.unwrap_or(0),
                state.blue.unwrap_or(0),
                state.alpha.unwrap_or(ONE),
            ),
        ]
    } else {
        Seq::empty()
    };
    let depth = match state.depth {
        Some(d) => seq![Command::ClearDepth(d)],
        None => Seq::empty(),
    };
    let bits: u32 = if state.clears_color() && state.clears_depth() {
        COLOR_BUFFER_BIT | DEPTH_BUFFER_BIT
    } else if state.clears_color() {
        COLOR_BUFFER_BIT
    } else {
        DEPTH_BUFFER_BIT
    };
    let clear = if state.clears_color() || state.clears_depth() {
        seq![Command::Clear(bits)]
    } else {
        Seq::empty()
    };
    mask + color + depth + clear
}

/// Clears the currently bound framebuffer as `state` asks.
pub fn clear(context: &mut Context, state: &ClearState)
    ensures
        final(context).commands_spec() == old(context).commands_spec() + clear_commands(*state),
        final(context).bound_spec() == old(context).bound_spec(),
        final(context).next_framebuffer_spec() == old(context).next_framebuffer_spec(),
{
    let mask = WriteMask {
        red: state.red.is_some(),
        green: state.green.is_some(),
        blue: state.blue.is_some(),
        alpha: state.alpha.is_some(),
        depth: state.depth.is_some(),
    };
    context.issue(Command::SetWriteMask(mask));
    let clear_color = state.red.is_some() || state.green.is_some() || state.blue.is_some()
        || state.alpha.is_some();
    if clear_color {
        context.issue(
            Command::ClearColor(
                state.red.unwrap_or(0),
                state.green.unwrap_or(0),
                state.blue.unwrap_or(0),
                state.alpha.unwrap_or(ONE),
            ),
        );
    }
    if let Some(depth) = state.depth {
        context.issue(Command::ClearDepth(depth));
    }
    let clear_depth = state.depth.is_some();
    if clear_color || clear_depth {
        let bits: u32 = if clear_color && clear_depth {
            COLOR_BUFFER_BIT | DEPTH_BUFFER_BIT
        } else if clear_color {
            COLOR_BUFFER_BIT
        } else {
            DEPTH_BUFFER_BIT
        };
        context.issue(Command::Clear(bits));
    }
    assert(context.commands_spec() =~= old(context).commands_spec() + clear_commands(*state));
}


/// `none()` clears nothing, `depth(d)` writes the depth channel alone,
/// `color(r, g, b, a)` the four color channels alone, and
/// `color_and_depth(r, g, b, a, d)` all five; each clear sets exactly those
/// values.
pub proof fn clears_exactly_the_set_channels(red: u32, green: u32, blue: u32, alpha: u32, depth: u32)
    ensures
        clear_commands(ClearState { red: None, green: None, blue: None, alpha: None, depth: None })
            == seq![
            Command::SetWriteMask(
                WriteMask { red: false, green: false, blue: false, alpha: false, depth: false },
            ),
        ],
        clear_commands(
            ClearState { red: None, green: None, blue: None, alpha: None, depth: Some(depth) },
        ) == seq![
            Command::SetWriteMask(
                WriteMask { red: false, green: false, blue: false, alpha: false, depth: true },
            ),
            Command::ClearDepth(depth),
            Command::Clear(DEPTH_BUFFER_BIT),
        ],
        clear_commands(
            ClearState {
                red: Some(red),
                green: Some(green),
                blue: Some(blue),
                alpha: Some(alpha),
                depth: None,
            },
        ) == seq![
            Command::SetWriteMask(
                WriteMask { red: true, green: true, blue: true, alpha: true, depth: false },
            ),
            Command::ClearColor(red, green, blue, alpha),
            Command::Clear(COLOR_BUFFER_BIT),
        ],
        clear_commands(
            ClearState {
                red: Some(red),
                green: Some(green),
                blue: Some(blue),
                alpha: Some(alpha),
                depth: Some(depth),
            },
        ) == seq![
            Command::SetWriteMask(
                WriteMask { red: true, green: true, blue: true, alpha: true, depth: true },
            ),
            Command::ClearColor(red, green, blue, alpha),
            Command::ClearDepth(depth),
            Command::Clear(COLOR_BUFFER_BIT | DEPTH_BUFFER_BIT),
        ],
{
    let n = ClearState { red: None, green: None, blue: None, alpha: None, depth: None };
    assert(clear_commands(n) =~= seq![
        Command::SetWriteMask(
            WriteMask { red: false, green: false, blue: false, alpha: false, depth: false },
        ),
    ]);
    let d = ClearState { red: None, green: None, blue: None, alpha: None, depth: Some(depth) };
    assert(clear_commands(d) =~= seq![
        Command::SetWriteMask(
            WriteMask { red: false, green: false, blue: false, alpha: false, depth: true },
        ),
        Command::ClearDepth(depth),
        Command::Clear(DEPTH_BUFFER_BIT),
    ]);
    let c = ClearState {
        red: Some(red),
        green: Some(green),
        blue: Some(blue),
        alpha: Some(alpha),
        depth: None,
    };
    assert(clear_commands(c) =~= seq![
        Command::SetWriteMask(
            WriteMask { red: true, green: true, blue: true, alpha: true, depth: false },
        ),
        Command::ClearColor(red, green, blue, alpha),
        Command::Clear(COLOR_BUFFER_BIT),
    ]);
    let cd = ClearState {
        red: Some(red),
        green: Some(green),
        blue: Some(blue),
        alpha: Some(alpha),
        depth: Some(depth),
    };
    assert(clear_commands(cd) =~= seq![
        Command::SetWriteMask(
            WriteMask { red: true, green: true, blue: true, alpha: true, depth: true },
        ),
        Command::ClearColor(red, green, blue, alpha),
        Command::ClearDepth(depth),
        Command::Clear(COLOR_BUFFER_BIT | DEPTH_BUFFER_BIT),
    ]);
}

} // verus!
