use crate::cursor::Cursor;
use crate::encoding::{first_nul_position, has_nul, is_first_nul};
use crate::drawing::{
    BlendMode,
    BlendModeCanvas,
    ScissorModeCanvas,
    TextureCanvas,
    WindowCanvas,
    WithCamera,
};
use crate::gamepad::{Gamepad, GamepadButton, MAX_GAMEPADS};
use crate::keyboard::Keyboard;
use crate::monitor::Monitors;
use crate::scope::{
    begin_result,
    end_result,
    end_stack,
    ScopeError,
    ScopeKind,
    ScopeStack,
    ScopeToken,
};
use crate::structs::{Rectangle, Size};
use crate::window::{config_bits, ConfigFlag, Window};
use vstd::prelude::*;

verus! {

/// The width of the window when none is given.
pub const DEFAULT_WINDOW_WIDTH: u32 = 800;

/// The height of the window when none is given.
pub const DEFAULT_WINDOW_HEIGHT: u32 = 600;

/// Why a system could not be built.
#[derive(Debug, Clone, Copy, PartialEq, Eq, Structural)]
#[non_exhaustive]
pub enum SystemBuildError {
    /// A native context is already live in this process.
    AlreadyInitialized,
    /// The title holds a zero byte, the first at byte `position`, which would cut it short.
    MalformedTitle { position: usize },
}

/// Whether `r` is what building gives for a title encoded as `title`, where `was_live`
/// tells whether a context was live before and `window_ready` whether the native library
/// reports a window of its own.
pub open spec fn build_outcome(
    title: Seq<u8>,
    was_live: bool,
    window_ready: bool,
    r: Result<(), SystemBuildError>,
) -> bool {
    if was_live || window_ready {
        r == Err::<(), SystemBuildError>(SystemBuildError::AlreadyInitialized)
    } else if has_nul(title) {
        r matches Err(SystemBuildError::MalformedTitle { position }) && is_first_nul(
            title,
            position as int,
        )
    } else {
        r == Ok::<(), SystemBuildError>(())
    }
}

/// Whether the context is live after building: a title with a zero byte gives the
/// context back, anything else leaves it taken.
pub open spec fn live_after_build(title: Seq<u8>, was_live: bool, window_ready: bool) -> bool {
    was_live || window_ready || !has_nul(title)
}

/// Whether building succeeded, and with which error it failed.
pub open spec fn outcome_of(r: Result<System, SystemBuildError>) -> Result<(), SystemBuildError> {
    match r {
        Ok(_) => Ok(()),
        Err(e) => Err(e),
    }
}

/// The native library's process-wide context: whether one is live. At most one system
/// holds it at a time.
#[derive(Debug)]
pub struct ProcessContext {
    live: bool,
}

impl ProcessContext {
    /// Whether a context is live.
    pub closed spec fn spec_is_live(&self) -> bool {
        self.live
    }

    /// No context live.
    pub fn new() -> (r: ProcessContext)
        ensures
            !r.spec_is_live(),
    {
        ProcessContext { live: false }
    }

    /// The context as a process-wide flag last recorded it.
    pub fn with_flag(live: bool) -> (r: ProcessContext)
        ensures
            r.spec_is_live() == live,
    {
        ProcessContext { live }
    }

    /// Whether a context is live.
    #[verifier::when_used_as_spec(spec_is_live)]
    pub fn is_live(&self) -> (r: bool)
        ensures
            r == self.spec_is_live(),
    {
        self.live
    }
}

/// The settings a system is built with.
#[derive(Debug)]
pub struct SystemBuilder {
    window_size: Size,
    window_title: String,
    config_flags: Vec<ConfigFlag>,
    target_fps: Option<usize>,
}

impl SystemBuilder {
    /// The size of the window.
    pub closed spec fn spec_size(&self) -> Size {
        self.window_size
    }

    /// The title of the window.
    pub closed spec fn spec_title(&self) -> Seq<char> {
        self.window_title@
    }

    /// The options of the window.
    pub closed spec fn spec_flags(&self) -> Seq<ConfigFlag> {
        self.config_flags@
    }

    /// The frame rate to aim at, if one was given.
    pub closed spec fn spec_fps(&self) -> Option<usize> {
        self.target_fps
    }

    /// The title as the bytes handed to the native library.
    pub open spec fn title_bytes(&self) -> Seq<u8> {
        vstd::utf8::encode_utf8(self.spec_title())
    }

    /// The default settings: an 800 by 600 window with an empty title, no option and no
    /// frame rate.
    pub fn new() -> (r: SystemBuilder)
        ensures
            r.spec_size() == (Size { width: DEFAULT_WINDOW_WIDTH, height: DEFAULT_WINDOW_HEIGHT }),
            r.spec_title() == Seq::<char>::empty(),
            r.spec_flags() == Seq::<ConfigFlag>::empty(),
            r.spec_fps() is None,
    {
        SystemBuilder {
            window_size: Size { width: DEFAULT_WINDOW_WIDTH, height: DEFAULT_WINDOW_HEIGHT },
            window_title: String::new(),
            config_flags: Vec::new(),
            target_fps: None,
        }
    }

    /// Sets the size of the window.
    pub fn window_size(&mut self, size: Size) -> (r: &mut SystemBuilder)
        ensures
            r.spec_size() == size,
            r.spec_title() == old(self).spec_title(),
            r.spec_flags() == old(self).spec_flags(),
            r.spec_fps() == old(self).spec_fps(),
            *final(self) == *final(r),
    {
        self.window_size = size;
        self
    }

    /// Sets the title of the window.
    pub fn window_title(&mut self, title: &str) -> (r: &mut SystemBuilder)
        ensures
            r.spec_size() == old(self).spec_size(),
            r.spec_title() == title@,
            r.spec_flags() == old(self).spec_flags(),
            r.spec_fps() == old(self).spec_fps(),
            *final(self) == *final(r),
    {
        self.window_title = title.to_owned();
        self
    }

    /// Sets the options of the window, in place of those set before.
    pub fn config_flags(&mut self, flags: Vec<ConfigFlag>) -> (r: &mut SystemBuilder)
        ensures
            r.spec_size() == old(self).spec_size(),
            r.spec_title() == old(self).spec_title(),
            r.spec_flags() == flags@,
            r.spec_fps() == old(self).spec_fps(),
            *final(self) == *final(r),
    {
        self.config_flags = flags;
        self
    }

    /// Sets the frame rate to aim at.
    pub fn target_fps(&mut self, fps: usize) -> (r: &mut SystemBuilder)
        ensures
            r.spec_size() == old(self).spec_size(),
            r.spec_title() == old(self).spec_title(),
            r.spec_flags() == old(self).spec_flags(),
            r.spec_fps() == Some(fps),
            *final(self) == *final(r),
    {
        self.target_fps = Some(fps);
        self
    }

    /// The size of the window.
    pub fn size(&self) -> (r: Size)
        ensures
            r == self.spec_size(),
    {
        self.window_size
    }

    /// The title of the window.
    pub fn title(&self) -> (r: &str)
        ensures
            r@ == self.spec_title(),
    {
        self.window_title.as_str()
    }

    /// The native bit set of the options of the window.
    pub fn flag_bits(&self) -> (r: u32)
        ensures
            r == config_bits(self.spec_flags()),
    {
        ConfigFlag::flags_to_bits(self.config_flags.as_slice())
    }

    /// The frame rate to aim at, if one was given.
    pub fn fps(&self) -> (r: Option<usize>)
        ensures
            r == self.spec_fps(),
    {
        self.target_fps
    }

    /// Takes the process-wide context and builds the system that owns it.
    ///
    /// Fails with `AlreadyInitialized` where a context is live, or where the native
    /// library reports a window of its own (`window_ready`); the context is then left
    /// taken. Fails with `MalformedTitle` where the title holds a zero byte, and gives the
    /// context back.
    pub fn build(&self, ctx: &mut ProcessContext, window_ready: bool) -> (r: Result<
        System,
        SystemBuildError,
    >)
        ensures
            build_outcome(self.title_bytes(), old(ctx).spec_is_live(), window_ready, outcome_of(r)),
            final(ctx).spec_is_live() == live_after_build(
                self.title_bytes(),
                old(ctx).spec_is_live(),
                window_ready,
            ),
            r matches Ok(s) ==> s.is_fresh(),
    {
        if ctx.live {
            return Err(SystemBuildError::AlreadyInitialized);
        }
        ctx.live = true;
        if window_ready {
            return Err(SystemBuildError::AlreadyInitialized);
        }
        match first_nul_position(self.window_title.as_str().as_bytes()) {
            Some(position) => {
                ctx.live = false;
                Err(SystemBuildError::MalformedTitle { position })
            },
            None => Ok(System::fresh()),
        }
    }
}

impl Default for SystemBuilder {
    fn default() -> (r: SystemBuilder)
        ensures
            r.spec_size() == (Size { width: DEFAULT_WINDOW_WIDTH, height: DEFAULT_WINDOW_HEIGHT }),
            r.spec_title() == Seq::<char>::empty(),
            r.spec_flags() == Seq::<ConfigFlag>::empty(),
            r.spec_fps() is None,
    {
        SystemBuilder::new()
    }
}

/// Whether gamepad slot `g` is reported available in `available`, by slot index.
pub open spec fn is_available(available: Seq<bool>, g: Gamepad) -> bool {
    (g.slot() as int) < available.len() && available[g.slot() as int]
}

/// The system: the window and the input devices of the one live native context, and the
/// brackets open on it.
#[derive(Debug)]
pub struct System {
    window: Window,
    monitors: Monitors,
    cursor: Cursor,
    keyboard: Keyboard,
    gamepads: Vec<Gamepad>,
    scopes: ScopeStack,
}

impl System {
    /// The brackets open, most recently opened last.
    pub closed spec fn open_scopes(&self) -> Seq<ScopeToken> {
        self.scopes@
    }

    /// The serial number the next bracket gets.
    pub closed spec fn next_serial(&self) -> u64 {
        self.scopes.next()
    }

    /// The window.
    pub closed spec fn window_state(&self) -> Window {
        self.window
    }

    /// The monitors.
    pub closed spec fn monitors_state(&self) -> Monitors {
        self.monitors
    }

    /// The cursor.
    pub closed spec fn cursor_state(&self) -> Cursor {
        self.cursor
    }

    /// The keyboard.
    pub closed spec fn keyboard_state(&self) -> Keyboard {
        self.keyboard
    }

    /// The gamepad slots.
    pub closed spec fn slots(&self) -> Seq<Gamepad> {
        self.gamepads@
    }

    /// The system's own consistency: the bracket stack is well formed.
    pub closed spec fn wf(&self) -> bool {
        self.scopes.wf()
    }

    /// Whether the system is as built: consistent, no bracket open and none opened yet,
    /// nothing queued on the keyboard or the window, and one gamepad slot for each index below the
    /// maximum, in order.
    pub open spec fn is_fresh(&self) -> bool {
        &&& self.wf()
        &&& self.open_scopes() == Seq::<ScopeToken>::empty()
        &&& self.next_serial() == 0
        &&& self.window_state().dropped() == Seq::<String>::empty()
        &&& self.keyboard_state().chars() == Seq::<char>::empty()
        &&& self.keyboard_state().keys() == Seq::<crate::keyboard::Key>::empty()
        &&& self.slots().len() == MAX_GAMEPADS
        &&& forall|i: int| 0 <= i < self.slots().len() ==> (#[trigger] self.slots()[i]).slot() == i
    }

    fn fresh() -> (r: System)
        ensures
            r.is_fresh(),
    {
        let mut gamepads: Vec<Gamepad> = Vec::new();
        let mut index: u32 = 0;
        while index < MAX_GAMEPADS
            invariant
                index <= MAX_GAMEPADS,
                gamepads@.len() == index,
                forall|i: int| 0 <= i < gamepads@.len() ==> (#[trigger] gamepads@[i]).slot() == i,
            decreases MAX_GAMEPADS - index,
        {
            gamepads.push(Gamepad::new(index));
            index = index + 1;
        }
        System {
            window: Window::new(),
            monitors: Monitors::new(),
            cursor: Cursor::new(),
            keyboard: Keyboard::new(),
            gamepads,
            scopes: ScopeStack::new(),
        }
    }

    pub fn window(&self) -> (r: &Window)
        ensures
            *r == self.window_state(),
    {
        &self.window
    }

    pub fn window_mut(&mut self) -> (r: &mut Window)
        ensures
            *r == old(self).window_state(),
            final(self).window_state() == *final(r),
            final(self).open_scopes() == old(self).open_scopes(),
            final(self).next_serial() == old(self).next_serial(),
            final(self).wf() == old(self).wf(),
            final(self).keyboard_state() == old(self).keyboard_state(),
            final(self).slots() == old(self).slots(),
    {
        &mut self.window
    }

    pub fn monitors(&self) -> (r: &Monitors)
        ensures
            *r == self.monitors_state(),
    {
        &self.monitors
    }

    pub fn monitors_mut(&mut self) -> (r: &mut Monitors)
        ensures
            *r == old(self).monitors_state(),
            final(self).monitors_state() == *final(r),
            final(self).open_scopes() == old(self).open_scopes(),
            final(self).next_serial() == old(self).next_serial(),
            final(self).wf() == old(self).wf(),
            final(self).keyboard_state() == old(self).keyboard_state(),
            final(self).slots() == old(self).slots(),
    {
        &mut self.monitors
    }

    pub fn cursor(&self) -> (r: &Cursor)
        ensures
            *r == self.cursor_state(),
    {
        &self.cursor
    }

    pub fn cursor_mut(&mut self) -> (r: &mut Cursor)
        ensures
            *r == old(self).cursor_state(),
            final(self).cursor_state() == *final(r),
            final(self).open_scopes() == old(self).open_scopes(),
            final(self).next_serial() == old(self).next_serial(),
            final(self).wf() == old(self).wf(),
            final(self).keyboard_state() == old(self).keyboard_state(),
            final(self).slots() == old(self).slots(),
    {
        &mut self.cursor
    }

    pub fn keyboard(&self) -> (r: &Keyboard)
        ensures
            *r == self.keyboard_state(),
    {
        &self.keyboard
    }

    pub fn keyboard_mut(&mut self) -> (r: &mut Keyboard)
        ensures
            *r == old(self).keyboard_state(),
            final(self).keyboard_state() == *final(r),
            final(self).open_scopes() == old(self).open_scopes(),
            final(self).next_serial() == old(self).next_serial(),
            final(self).wf() == old(self).wf(),
            final(self).slots() == old(self).slots(),
    {
        &mut self.keyboard
    }

    /// The gamepad slots that `available` reports available, by slot index, in order.
    pub fn gamepads(&self, available: &Vec<bool>) -> (r: Vec<Gamepad>)
        ensures
            r@ == self.slots().filter(|g: Gamepad| is_available(available@, g)),
    {
        let mut r: Vec<Gamepad> = Vec::new();
        let mut i: usize = 0;
        while i < self.gamepads.len()
            invariant
                i <= self.gamepads@.len(),
                r@ == self.gamepads@.take(i as int).filter(
                    |g: Gamepad| is_available(available@, g),
                ),
            decreases self.gamepads@.len() - i,
        {
            let g = self.gamepads[i];
            proof {
                assert(self.gamepads@.take(i + 1).drop_last() =~= self.gamepads@.take(i as int));
                reveal(Seq::filter);
            }
            let slot = g.index() as usize;
            if slot < available.len() && available[slot] {
                r.push(g);
            }
            i = i + 1;
        }
        assert(self.gamepads@.take(i as int) =~= self.gamepads@);
        r
    }

    /// The gamepad button that the native library reports as last pressed, by its code
    /// `code`: `-1` means none, and a code that names no known button gives `Unknown`.
    pub fn get_gamepad_button_pressed(&self, code: i32) -> (r: Option<GamepadButton>)
        ensures
            code == -1 ==> r is None,
            1 <= code <= 17 ==> (r matches Some(b) && b.code() == code),
            code != -1 && !(1 <= code <= 17) ==> r == Some(GamepadButton::Unknown),
    {
        GamepadButton::from_pressed_code(code)
    }

    /// Opens a bracket of kind `kind` on the stack.
    fn begin(&mut self, kind: ScopeKind) -> (r: Result<ScopeToken, ScopeError>)
        requires
            old(self).wf(),
        ensures
            final(self).wf(),
            r == begin_result(old(self).open_scopes(), old(self).next_serial(), kind),
            r matches Ok(t) ==> final(self).open_scopes() == old(self).open_scopes().push(t),
            r is Err ==> final(self).open_scopes() == old(self).open_scopes(),
            final(self).next_serial() == if r is Ok {
                old(self).next_serial() + 1
            } else {
                old(self).next_serial() as int
            },
            final(self).keyboard_state() == old(self).keyboard_state(),
            final(self).slots() == old(self).slots(),
    {
        self.scopes.begin(kind)
    }

    /// Begins a frame: drawing goes to the window until the frame is closed.
    pub fn next_frame(&mut self) -> (r: Result<WindowCanvas, ScopeError>)
        requires
            old(self).wf(),
        ensures
            final(self).wf(),
            match r {
                Ok(c) => begin_result(old(self).open_scopes(), old(self).next_serial(), ScopeKind::Frame)
                    == Ok::<ScopeToken, ScopeError>(c.spec_token()) && final(self).open_scopes()
                    == old(self).open_scopes().push(c.spec_token()),
                Err(e) => begin_result(old(self).open_scopes(), old(self).next_serial(), ScopeKind::Frame)
                    == Err::<ScopeToken, ScopeError>(e) && final(self).open_scopes()
                    == old(self).open_scopes(),
            },
            final(self).next_serial() == if r is Ok {
                old(self).next_serial() + 1
            } else {
                old(self).next_serial() as int
            },
            final(self).keyboard_state() == old(self).keyboard_state(),
            final(self).slots() == old(self).slots(),
    {
        match self.begin(ScopeKind::Frame) {
            Ok(token) => Ok(WindowCanvas::new(token)),
            Err(e) => Err(e),
        }
    }

    /// Begins drawing to a render target.
    pub fn create_texture_canvas(&mut self) -> (r: Result<TextureCanvas, ScopeError>)
        requires
            old(self).wf(),
        ensures
            final(self).wf(),
            match r {
                Ok(c) => begin_result(old(self).open_scopes(), old(self).next_serial(), ScopeKind::TextureTarget)
                    == Ok::<ScopeToken, ScopeError>(c.spec_token()) && final(self).open_scopes()
                    == old(self).open_scopes().push(c.spec_token()),
                Err(e) => begin_result(old(self).open_scopes(), old(self).next_serial(), ScopeKind::TextureTarget)
                    == Err::<ScopeToken, ScopeError>(e) && final(self).open_scopes()
                    == old(self).open_scopes(),
            },
            final(self).next_serial() == if r is Ok {
                old(self).next_serial() + 1
            } else {
                old(self).next_serial() as int
            },
            final(self).keyboard_state() == old(self).keyboard_state(),
            final(self).slots() == old(self).slots(),
    {
        match self.begin(ScopeKind::TextureTarget) {
            Ok(token) => Ok(TextureCanvas::new(token)),
            Err(e) => Err(e),
        }
    }

    /// Begins drawing through a 2D camera, on the frame or render target open.
    pub fn with_camera(&mut self) -> (r: Result<WithCamera, ScopeError>)
        requires
            old(self).wf(),
        ensures
            final(self).wf(),
            match r {
                Ok(c) => begin_result(old(self).open_scopes(), old(self).next_serial(), ScopeKind::Camera)
                    == Ok::<ScopeToken, ScopeError>(c.spec_token()) && final(self).open_scopes()
                    == old(self).open_scopes().push(c.spec_token()),
                Err(e) => begin_result(old(self).open_scopes(), old(self).next_serial(), ScopeKind::Camera)
                    == Err::<ScopeToken, ScopeError>(e) && final(self).open_scopes()
                    == old(self).open_scopes(),
            },
            final(self).next_serial() == if r is Ok {
                old(self).next_serial() + 1
            } else {
                old(self).next_serial() as int
            },
            final(self).keyboard_state() == old(self).keyboard_state(),
            final(self).slots() == old(self).slots(),
    {
        match self.begin(ScopeKind::Camera) {
            Ok(token) => Ok(WithCamera::new(token)),
            Err(e) => Err(e),
        }
    }

    /// Begins drawing with blend mode `mode`, on the frame or render target open.
    pub fn begin_blend_mode(&mut self, mode: BlendMode) -> (r: Result<BlendModeCanvas, ScopeError>)
        requires
            old(self).wf(),
        ensures
            final(self).wf(),
            match r {
                Ok(c) => begin_result(old(self).open_scopes(), old(self).next_serial(), ScopeKind::BlendMode)
                    == Ok::<ScopeToken, ScopeError>(c.spec_token()) && final(self).open_scopes()
                    == old(self).open_scopes().push(c.spec_token()) && c.spec_mode() == mode,
                Err(e) => begin_result(old(self).open_scopes(), old(self).next_serial(), ScopeKind::BlendMode)
                    == Err::<ScopeToken, ScopeError>(e) && final(self).open_scopes()
                    == old(self).open_scopes(),
            },
            final(self).next_serial() == if r is Ok {
                old(self).next_serial() + 1
            } else {
                old(self).next_serial() as int
            },
            final(self).keyboard_state() == old(self).keyboard_state(),
            final(self).slots() == old(self).slots(),
    {
        match self.begin(ScopeKind::BlendMode) {
            Ok(token) => Ok(BlendModeCanvas::new(token, mode)),
            Err(e) => Err(e),
        }
    }

    /// Begins drawing clipped to `area`, on the frame or render target open.
    pub fn begin_scissor_mode(&mut self, area: Rectangle) -> (r: Result<ScissorModeCanvas, ScopeError>)
        requires
            old(self).wf(),
        ensures
            final(self).wf(),
            match r {
                Ok(c) => begin_result(old(self).open_scopes(), old(self).next_serial(), ScopeKind::Scissor)
                    == Ok::<ScopeToken, ScopeError>(c.spec_token()) && final(self).open_scopes()
                    == old(self).open_scopes().push(c.spec_token()) && c.spec_area() == area,
                Err(e) => begin_result(old(self).open_scopes(), old(self).next_serial(), ScopeKind::Scissor)
                    == Err::<ScopeToken, ScopeError>(e) && final(self).open_scopes()
                    == old(self).open_scopes(),
            },
            final(self).next_serial() == if r is Ok {
                old(self).next_serial() + 1
            } else {
                old(self).next_serial() as int
            },
            final(self).keyboard_state() == old(self).keyboard_state(),
            final(self).slots() == old(self).slots(),
    {
        match self.begin(ScopeKind::Scissor) {
            Ok(token) => Ok(ScissorModeCanvas::new(token, area)),
            Err(e) => Err(e),
        }
    }

    /// Closes the bracket named by `token`, which must be the most recently opened one
    /// still open. Gives the kind of bracket closed.
    pub fn end_scope(&mut self, token: ScopeToken) -> (r: Result<ScopeKind, ScopeError>)
        requires
            old(self).wf(),
        ensures
            final(self).wf(),
            final(self).next_serial() == old(self).next_serial(),
            r == end_result(old(self).open_scopes(), token.serial),
            final(self).open_scopes() == end_stack(old(self).open_scopes(), token.serial),
            final(self).keyboard_state() == old(self).keyboard_state(),
            final(self).slots() == old(self).slots(),
    {
        self.scopes.end(token)
    }

    /// Shuts the system down and gives the process-wide context back.
    pub fn close(self, ctx: &mut ProcessContext)
        ensures
            !final(ctx).spec_is_live(),
    {
        ctx.live = false;
    }
}

/// A context is created at most once at a time. From no live context, building with a
/// title free of zero bytes succeeds and takes the context; while a context is live every
/// build fails with `AlreadyInitialized` and the context stays taken; once the system is
/// closed no context is live, so the next build succeeds again.
pub proof fn lemma_one_context_at_a_time(title: Seq<u8>, window_ready: bool)
    ensures
        !has_nul(title) ==> build_outcome(title, false, false, Ok(())) && live_after_build(
            title,
            false,
            false,
        ),
        forall|r: Result<(), SystemBuildError>|
            build_outcome(title, true, window_ready, r) <==> r == Err::<(), SystemBuildError>(
                SystemBuildError::AlreadyInitialized,
            ),
        live_after_build(title, true, window_ready),
{
}

} // verus!
