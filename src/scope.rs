use vstd::prelude::*;

verus! {

/// The kinds of bracket that the native library opens with a `Begin...` call and closes
/// with the matching `End...` call.
#[derive(Debug, Clone, Copy, PartialEq, Eq, Structural)]
pub enum ScopeKind {
    /// Drawing of one frame to the window.
    Frame,
    /// Drawing to an off-screen render target.
    TextureTarget,
    /// Drawing through a 2D camera.
    Camera,
    /// Drawing with a blend mode.
    BlendMode,
    /// Drawing clipped to a rectangle.
    Scissor,
}

impl ScopeKind {
    /// Whether this bracket gives a surface to draw on.
    pub open spec fn is_surface(self) -> bool {
        self == ScopeKind::Frame || self == ScopeKind::TextureTarget
    }
}

/// Why a bracket could not be opened or closed.
#[derive(Debug, Clone, Copy, PartialEq, Eq, Structural)]
pub enum ScopeError {
    /// A frame was begun while another frame is open.
    FrameNested,
    /// A mode was begun with no frame or render target open to draw on.
    NoSurface,
    /// A bracket was closed while one opened after it is still open.
    OutOfOrder,
    /// A bracket was closed that is not open: it was closed before.
    NotOpen,
    /// Every serial number has been handed out.
    Exhausted,
}

/// Names one opened bracket. Serial numbers are never reused, so a token that was closed
/// once cannot close a later bracket.
#[derive(Debug, Clone, Copy, PartialEq, Eq, Structural)]
pub struct ScopeToken {
    pub serial: u64,
    pub kind: ScopeKind,
}

/// Whether `stack` holds a bracket of kind `kind`.
pub open spec fn holds_kind(stack: Seq<ScopeToken>, kind: ScopeKind) -> bool {
    exists|i: int| 0 <= i < stack.len() && #[trigger] stack[i].kind == kind
}

/// Whether `stack` holds a bracket that gives a surface to draw on.
pub open spec fn holds_surface(stack: Seq<ScopeToken>) -> bool {
    exists|i: int| 0 <= i < stack.len() && (#[trigger] stack[i].kind).is_surface()
}

/// Whether `stack` holds the bracket with serial number `serial`.
pub open spec fn holds_serial(stack: Seq<ScopeToken>, serial: u64) -> bool {
    exists|i: int| 0 <= i < stack.len() && #[trigger] stack[i].serial == serial
}

/// Whether the serial numbers of `stack` rise strictly from bottom to top.
pub open spec fn serials_rise(stack: Seq<ScopeToken>) -> bool {
    forall|i: int, j: int| 0 <= i < j < stack.len() ==> stack[i].serial < stack[j].serial
}

/// What opening a bracket of kind `kind` on `stack` gives, where `next` is the next serial
/// number.
pub open spec fn begin_result(stack: Seq<ScopeToken>, next: u64, kind: ScopeKind) -> Result<
    ScopeToken,
    ScopeError,
> {
    if next == u64::MAX {
        Err(ScopeError::Exhausted)
    } else if kind == ScopeKind::Frame && holds_kind(stack, ScopeKind::Frame) {
        Err(ScopeError::FrameNested)
    } else if !kind.is_surface() && !holds_surface(stack) {
        Err(ScopeError::NoSurface)
    } else {
        Ok(ScopeToken { serial: next, kind })
    }
}

/// What closing the bracket with serial number `serial` on `stack` gives: only the most
/// recently opened bracket may be closed.
pub open spec fn end_result(stack: Seq<ScopeToken>, serial: u64) -> Result<ScopeKind, ScopeError> {
    if stack.len() > 0 && stack.last().serial == serial {
        Ok(stack.last().kind)
    } else if holds_serial(stack, serial) {
        Err(ScopeError::OutOfOrder)
    } else {
        Err(ScopeError::NotOpen)
    }
}

/// The stack left by closing the bracket with serial number `serial` on `stack`.
pub open spec fn end_stack(stack: Seq<ScopeToken>, serial: u64) -> Seq<ScopeToken> {
    if end_result(stack, serial) is Ok {
        stack.drop_last()
    } else {
        stack
    }
}

/// The open brackets, most recently opened last.
#[derive(Debug)]
pub struct ScopeStack {
    open: Vec<ScopeToken>,
    next_serial: u64,
}

impl View for ScopeStack {
    type V = Seq<ScopeToken>;

    closed spec fn view(&self) -> Seq<ScopeToken> {
        self.open@
    }
}

impl ScopeStack {
    /// The serial number that the next bracket gets.
    pub closed spec fn next(&self) -> u64 {
        self.next_serial
    }

    /// Serial numbers rise from bottom to top and stay below the next one.
    pub open spec fn wf(&self) -> bool {
        &&& serials_rise(self@)
        &&& forall|i: int| 0 <= i < self@.len() ==> #[trigger] self@[i].serial < self.next()
    }

    /// A stack with no bracket open.
    pub fn new() -> (r: ScopeStack)
        ensures
            r.wf(),
            r@ == Seq::<ScopeToken>::empty(),
            r.next() == 0,
    {
        ScopeStack { open: Vec::new(), next_serial: 0 }
    }

    /// Opens a bracket of kind `kind`.
    pub fn begin(&mut self, kind: ScopeKind) -> (r: Result<ScopeToken, ScopeError>)
        requires
            old(self).wf(),
        ensures
            final(self).wf(),
            r == begin_result(old(self)@, old(self).next(), kind),
            r matches Ok(t) ==> final(self)@ == old(self)@.push(t),
            r is Err ==> final(self)@ == old(self)@,
            final(self).next() == if r is Ok {
                old(self).next() + 1
            } else {
                old(self).next() as int
            },
    {
        if self.next_serial == u64::MAX {
            return Err(ScopeError::Exhausted);
        }
        let mut has_frame = false;
        let mut has_surface = false;
        let mut i: usize = 0;
        while i < self.open.len()
            invariant
                *self == *old(self),
                i <= self.open@.len(),
                has_frame == holds_kind(self.open@.take(i as int), ScopeKind::Frame),
                has_surface == holds_surface(self.open@.take(i as int)),
            decreases self.open@.len() - i,
        {
            let k = self.open[i].kind;
            proof {
                let before = self.open@.take(i as int);
                let after = self.open@.take(i + 1);
                assert(after[i as int] == self.open@[i as int]);
                assert(forall|j: int| 0 <= j < i ==> before[j] == #[trigger] after[j]);
            }
            if k == ScopeKind::Frame {
                has_frame = true;
            }
            if k == ScopeKind::Frame || k == ScopeKind::TextureTarget {
                has_surface = true;
            }
            i = i + 1;
        }
        assert(self.open@.take(i as int) =~= self.open@);
        if kind == ScopeKind::Frame && has_frame {
            return Err(ScopeError::FrameNested);
        }
        let surface_kind = kind == ScopeKind::Frame || kind == ScopeKind::TextureTarget;
        if !surface_kind && !has_surface {
            return Err(ScopeError::NoSurface);
        }
        let t = ScopeToken { serial: self.next_serial, kind };
        self.open.push(t);
        self.next_serial = self.next_serial + 1;
        Ok(t)
    }

    /// Closes the bracket named by `token`, which must be the most recently opened one
    /// still open.
    pub fn end(&mut self, token: ScopeToken) -> (r: Result<ScopeKind, ScopeError>)
        requires
            old(self).wf(),
        ensures
            final(self).wf(),
            final(self).next() == old(self).next(),
            r == end_result(old(self)@, token.serial),
            final(self)@ == end_stack(old(self)@, token.serial),
    {
        let n = self.open.len();
        if n > 0 && self.open[n - 1].serial == token.serial {
            let top = self.open.pop();
            proof {
                assert(self.open@ =~= old(self)@.drop_last());
            }
            return match top {
                Some(t) => Ok(t.kind),
                None => Err(ScopeError::NotOpen),
            };
        }
        let mut found = false;
        let mut i: usize = 0;
        while i < n
            invariant
                n == self.open@.len(),
                i <= n,
                found == exists|j: int| 0 <= j < i && #[trigger] self.open@[j].serial == token.serial,
            decreases n - i,
        {
            if self.open[i].serial == token.serial {
                found = true;
            }
            i = i + 1;
        }
        if found {
            Err(ScopeError::OutOfOrder)
        } else {
            Err(ScopeError::NotOpen)
        }
    }
}

/// What closing the brackets named by `order`, one after another, leaves of `stack`, or
/// `None` once a close is refused.
pub open spec fn close_all(stack: Seq<ScopeToken>, order: Seq<u64>) -> Option<Seq<ScopeToken>>
    decreases order.len(),
{
    if order.len() == 0 {
        Some(stack)
    } else if end_result(stack, order[0]) is Ok {
        close_all(stack.drop_last(), order.drop_first())
    } else {
        None
    }
}

/// The serial numbers of `stack` from the most recently opened bracket down.
pub open spec fn lifo_order(stack: Seq<ScopeToken>) -> Seq<u64> {
    Seq::new(stack.len(), |i: int| stack[stack.len() - 1 - i].serial)
}

/// Closing a bracket that is open while a later one is still open is refused as out of
/// order, and leaves the stack as it was.
pub proof fn lemma_out_of_order_close_refused(stack: Seq<ScopeToken>, serial: u64)
    requires
        holds_serial(stack, serial),
        stack.last().serial != serial,
    ensures
        end_result(stack, serial) == Err::<ScopeKind, ScopeError>(ScopeError::OutOfOrder),
        end_stack(stack, serial) == stack,
{
}

/// Open brackets close only last-opened-first: closing every open bracket one after
/// another succeeds exactly when the order is the reverse of the opening order; in any
/// other order some close is refused.
pub proof fn lemma_only_lifo_closes_all(stack: Seq<ScopeToken>, order: Seq<u64>)
    requires
        order.len() == stack.len(),
    ensures
        close_all(stack, order) == Some(Seq::<ScopeToken>::empty()) <==> order == lifo_order(
            stack,
        ),
    decreases stack.len(),
{
    if stack.len() == 0 {
        assert(stack =~= Seq::<ScopeToken>::empty());
        assert(order =~= lifo_order(stack));
    } else {
        let rest = stack.drop_last();
        let tail = order.drop_first();
        assert(lifo_order(stack) =~= seq![stack.last().serial] + lifo_order(rest));
        lemma_only_lifo_closes_all(rest, tail);
        if order[0] == stack.last().serial {
            assert(close_all(stack, order) == close_all(rest, tail));
            assert(order =~= seq![order[0]] + tail);
            if tail == lifo_order(rest) {
                assert(order =~= lifo_order(stack));
            }
            if order == lifo_order(stack) {
                assert(tail =~= lifo_order(rest));
            }
        } else {
            assert(end_result(stack, order[0]) is Err);
            assert(close_all(stack, order) is None);
            assert(order[0] != lifo_order(stack)[0]);
        }
    }
}

} // verus!
