use crate::scope::ScopeToken;
use crate::structs::Rectangle;
use vstd::prelude::*;

verus! {

/// How drawn pixels are combined with those already on the surface.
#[derive(Debug, Clone, Copy, PartialEq, Eq, Hash, PartialOrd, Ord, Structural)]
pub enum BlendMode {
    Alpha,
    Additive,
    Multiplied,
    AddColors,
    SubtractColors,
    Custom,
}

impl BlendMode {
    /// The native code of this blend mode.
    pub open spec fn spec_raw_value(self) -> u32 {
        match self {
            BlendMode::Alpha => 0,
            BlendMode::Additive => 1,
            BlendMode::Multiplied => 2,
            BlendMode::AddColors => 3,
            BlendMode::SubtractColors => 4,
            BlendMode::Custom => 5,
        }
    }

    /// The native code of this blend mode.
    #[verifier::when_used_as_spec(spec_raw_value)]
    pub fn to_raw_value(self) -> (r: u32)
        ensures
            r == self.spec_raw_value(),
    {
        match self {
            BlendMode::Alpha => 0,
            BlendMode::Additive => 1,
            BlendMode::Multiplied => 2,
            BlendMode::AddColors => 3,
            BlendMode::SubtractColors => 4,
            BlendMode::Custom => 5,
        }
    }
}

impl Default for BlendMode {
    fn default() -> (r: BlendMode)
        ensures
            r == BlendMode::Alpha,
    {
        BlendMode::Alpha
    }
}

/// An open frame: drawing goes to the window until it is closed, which presents it.
#[derive(Debug)]
pub struct WindowCanvas {
    token: ScopeToken,
}

/// An open render-target bracket: drawing goes to an off-screen texture.
#[derive(Debug)]
pub struct TextureCanvas {
    token: ScopeToken,
}

/// An open camera bracket: drawing goes through a 2D camera.
#[derive(Debug)]
pub struct WithCamera {
    token: ScopeToken,
}

/// An open blend-mode bracket.
#[derive(Debug)]
pub struct BlendModeCanvas {
    token: ScopeToken,
    mode: BlendMode,
}

/// An open scissor bracket: drawing is clipped to a rectangle.
#[derive(Debug)]
pub struct ScissorModeCanvas {
    token: ScopeToken,
    area: Rectangle,
}

impl WindowCanvas {
    pub(crate) fn new(token: ScopeToken) -> (r: WindowCanvas)
        ensures
            r.spec_token() == token,
    {
        WindowCanvas { token }
    }

    /// The bracket this canvas stands for.
    pub closed spec fn spec_token(&self) -> ScopeToken {
        self.token
    }

    /// The bracket this canvas stands for.
    pub fn token(&self) -> (r: ScopeToken)
        ensures
            r == self.spec_token(),
    {
        self.token
    }
}

impl TextureCanvas {
    pub(crate) fn new(token: ScopeToken) -> (r: TextureCanvas)
        ensures
            r.spec_token() == token,
    {
        TextureCanvas { token }
    }

    /// The bracket this canvas stands for.
    pub closed spec fn spec_token(&self) -> ScopeToken {
        self.token
    }

    /// The bracket this canvas stands for.
    pub fn token(&self) -> (r: ScopeToken)
        ensures
            r == self.spec_token(),
    {
        self.token
    }
}

impl WithCamera {
    pub(crate) fn new(token: ScopeToken) -> (r: WithCamera)
        ensures
            r.spec_token() == token,
    {
        WithCamera { token }
    }

    /// The bracket this canvas stands for.
    pub closed spec fn spec_token(&self) -> ScopeToken {
        self.token
    }

    /// The bracket this canvas stands for.
    pub fn token(&self) -> (r: ScopeToken)
        ensures
            r == self.spec_token(),
    {
        self.token
    }
}

impl BlendModeCanvas {
    pub(crate) fn new(token: ScopeToken, mode: BlendMode) -> (r: BlendModeCanvas)
        ensures
            r.spec_token() == token,
            r.spec_mode() == mode,
    {
        BlendModeCanvas { token, mode }
    }

    /// The bracket this canvas stands for.
    pub closed spec fn spec_token(&self) -> ScopeToken {
        self.token
    }

    /// The bracket this canvas stands for.
    pub fn token(&self) -> (r: ScopeToken)
        ensures
            r == self.spec_token(),
    {
        self.token
    }

    /// The blend mode in force while the bracket is open.
    pub closed spec fn spec_mode(&self) -> BlendMode {
        self.mode
    }

    /// The blend mode in force while the bracket is open.
    pub fn mode(&self) -> (r: BlendMode)
        ensures
            r == self.spec_mode(),
    {
        self.mode
    }
}

impl ScissorModeCanvas {
    pub(crate) fn new(token: ScopeToken, area: Rectangle) -> (r: ScissorModeCanvas)
        ensures
            r.spec_token() == token,
            r.spec_area() == area,
    {
        ScissorModeCanvas { token, area }
    }

    /// The bracket this canvas stands for.
    pub closed spec fn spec_token(&self) -> ScopeToken {
        self.token
    }

    /// The bracket this canvas stands for.
    pub fn token(&self) -> (r: ScopeToken)
        ensures
            r == self.spec_token(),
    {
        self.token
    }

    /// The area that drawing is clipped to.
    pub closed spec fn spec_area(&self) -> Rectangle {
        self.area
    }

    /// The area that drawing is clipped to.
    pub fn area(&self) -> (r: Rectangle)
        ensures
            r == self.spec_area(),
    {
        self.area
    }
}

} // verus!
