use vstd::prelude::*;

verus! {

/// An option of the window, set before it is created or changed while it is open.
#[derive(Debug, Clone, Copy, PartialEq, Eq, Hash, PartialOrd, Ord, Structural)]
#[non_exhaustive]
pub enum ConfigFlag {
    /// Fullscreen.
    FullscreenMode,
    /// Resizable window.
    WindowResizable,
    /// Window without border and buttons.
    WindowUndecorated,
    /// Transparent framebuffer.
    WindowTransparent,
    /// Four-sample anti-aliasing, where available.
    Msaa4xHint,
    /// Frame presentation synchronised to the display.
    VsyncHint,
    /// Hidden window.
    WindowHidden,
    /// Keep running while minimized.
    WindowAlwaysRun,
    /// Minimized window.
    WindowMinimized,
    /// Maximized window.
    WindowMaximized,
    /// Window without input focus.
    WindowUnfocused,
    /// Window kept above the others.
    WindowTopmost,
    /// High-DPI framebuffer, where available.
    WindowHighdpi,
    /// Interlaced video, where available.
    InterlacedHint,
}

impl ConfigFlag {
    /// The native bit of this option.
    pub open spec fn spec_to_int(self) -> u32 {
        match self {
            ConfigFlag::FullscreenMode => 2,
            ConfigFlag::WindowResizable => 4,
            ConfigFlag::WindowUndecorated => 8,
            ConfigFlag::WindowTransparent => 16,
            ConfigFlag::Msaa4xHint => 32,
            ConfigFlag::VsyncHint => 64,
            ConfigFlag::WindowHidden => 128,
            ConfigFlag::WindowAlwaysRun => 256,
            ConfigFlag::WindowMinimized => 512,
            ConfigFlag::WindowMaximized => 1024,
            ConfigFlag::WindowUnfocused => 2048,
            ConfigFlag::WindowTopmost => 4096,
            ConfigFlag::WindowHighdpi => 8192,
            ConfigFlag::InterlacedHint => 65536,
        }
    }

    /// The native bit of this option.
    #[verifier::when_used_as_spec(spec_to_int)]
    pub fn to_int(self) -> (r: u32)
        ensures
            r == self.spec_to_int(),
    {
        match self {
            ConfigFlag::FullscreenMode => 2,
            ConfigFlag::WindowResizable => 4,
            ConfigFlag::WindowUndecorated => 8,
            ConfigFlag::WindowTransparent => 16,
            ConfigFlag::Msaa4xHint => 32,
            ConfigFlag::VsyncHint => 64,
            ConfigFlag::WindowHidden => 128,
            ConfigFlag::WindowAlwaysRun => 256,
            ConfigFlag::WindowMinimized => 512,
            ConfigFlag::WindowMaximized => 1024,
            ConfigFlag::WindowUnfocused => 2048,
            ConfigFlag::WindowTopmost => 4096,
            ConfigFlag::WindowHighdpi => 8192,
            ConfigFlag::InterlacedHint => 65536,
        }
    }

    /// The native bit set of the options in `flags`.
    pub fn flags_to_bits(flags: &[ConfigFlag]) -> (r: u32)
        ensures
            r == config_bits(flags@),
    {
        let mut bits: u32 = 0;
        let mut i: usize = 0;
        while i < flags.len()
            invariant
                i <= flags@.len(),
                bits == config_bits(flags@.take(i as int)),
            decreases flags@.len() - i,
        {
            assert(flags@.take(i + 1).drop_last() =~= flags@.take(i as int));
            bits = bits | flags[i].to_int();
            i = i + 1;
        }
        assert(flags@.take(i as int) =~= flags@);
        bits
    }
}

/// The native bit set of the options in `flags`: the union of their bits.
pub open spec fn config_bits(flags: Seq<ConfigFlag>) -> u32
    decreases flags.len(),
{
    if flags.len() == 0 {
        0
    } else {
        config_bits(flags.drop_last()) | flags.last().to_int()
    }
}

/// Union with a bit set leaves a test against another bit set empty exactly when both
/// parts test empty.
proof fn lemma_union_test(x: u32, a: u32, b: u32)
    ensures
        ((x | a) & b == 0) <==> ((x & b == 0) && (a & b == 0)),
{
    assert(((x | a) & b == 0) <==> ((x & b == 0) && (a & b == 0))) by (bit_vector);
}

/// The bits of two options overlap exactly when they are the same option.
proof fn lemma_option_bits_disjoint(f: ConfigFlag, g: ConfigFlag)
    ensures
        (f.to_int() & g.to_int() == 0) <==> f != g,
{
    assert(2u32 & 2u32 != 0 && 4u32 & 4u32 != 0 && 8u32 & 8u32 != 0 && 16u32 & 16u32 != 0
        && 32u32 & 32u32 != 0 && 64u32 & 64u32 != 0 && 128u32 & 128u32 != 0 && 256u32 & 256u32
        != 0 && 512u32 & 512u32 != 0 && 1024u32 & 1024u32 != 0 && 2048u32 & 2048u32 != 0
        && 4096u32 & 4096u32 != 0 && 8192u32 & 8192u32 != 0 && 65536u32 & 65536u32 != 0)
        by (bit_vector);
    assert(forall|a: u32, b: u32|
        #![trigger a & b]
        (a == 2 || a == 4 || a == 8 || a == 16 || a == 32 || a == 64 || a == 128 || a == 256 || a
            == 512 || a == 1024 || a == 2048 || a == 4096 || a == 8192 || a == 65536) && (b == 2
            || b == 4 || b == 8 || b == 16 || b == 32 || b == 64 || b == 128 || b == 256 || b
            == 512 || b == 1024 || b == 2048 || b == 4096 || b == 8192 || b == 65536) && a != b
            ==> a & b == 0) by (bit_vector);
}

/// The options are independent: an option's bit is set in the bit set of a list exactly
/// when the list names that option.
pub proof fn lemma_config_bits_name_each_option(flags: Seq<ConfigFlag>, f: ConfigFlag)
    ensures
        (config_bits(flags) & f.to_int() != 0) <==> flags.contains(f),
    decreases flags.len(),
{
    if flags.len() == 0 {
        assert(0u32 & f.to_int() == 0) by (bit_vector);
    } else {
        let init = flags.drop_last();
        lemma_config_bits_name_each_option(init, f);
        lemma_union_test(config_bits(init), flags.last().to_int(), f.to_int());
        lemma_option_bits_disjoint(flags.last(), f);
        assert(flags =~= init.push(flags.last()));
        if flags.contains(f) && !init.contains(f) {
            let i = choose|i: int| 0 <= i < flags.len() && flags[i] == f;
            if i < flags.len() - 1 {
                assert(init[i] == f);
            }
        }
        if init.contains(f) {
            let i = choose|i: int| 0 <= i < init.len() && init[i] == f;
            assert(flags[i] == f);
        }
        if flags.last() == f {
            assert(flags[flags.len() - 1] == f);
        }
    }
}

/// `handed` is what one take of the dropped files of `before` hands out, leaving `after`.
pub open spec fn drains_dropped(before: Window, handed: Seq<String>, after: Window) -> bool {
    &&& handed == before.dropped()
    &&& after.dropped() == Seq::<String>::empty()
}

/// Each dropped file is handed out once: taking the dropped files a second time, with no
/// path recorded in between, hands out nothing.
pub proof fn lemma_dropped_files_taken_once(
    before: Window,
    first: Seq<String>,
    middle: Window,
    second: Seq<String>,
    after: Window,
)
    requires
        drains_dropped(before, first, middle),
        drains_dropped(middle, second, after),
    ensures
        first == before.dropped(),
        second == Seq::<String>::empty(),
        after.dropped() == Seq::<String>::empty(),
{
}

/// The window. It stands for the native window and graphics context, which live as
/// long as the system that owns it, and holds the paths of files dropped on it that were
/// not taken yet.
#[derive(Debug)]
pub struct Window {
    dropped: Vec<String>,
}

impl Window {
    /// The paths of the dropped files not taken yet, in the order they were dropped.
    pub closed spec fn dropped(&self) -> Seq<String> {
        self.dropped@
    }

    /// The window of a context that was just created.
    pub(crate) fn new() -> (r: Window)
        ensures
            r.dropped() == Seq::<String>::empty(),
    {
        Window { dropped: Vec::new() }
    }

    /// Records the path of one file read from the native list of dropped files.
    pub fn record_dropped_file(&mut self, path: String)
        ensures
            final(self).dropped() == old(self).dropped().push(path),
    {
        self.dropped.push(path);
    }

    /// Takes the paths of the dropped files; none is handed out again.
    pub fn get_dropped_files(&mut self) -> (r: DroppedFiles)
        ensures
            drains_dropped(*old(self), r@, *final(self)),
    {
        let mut items = Vec::new();
        std::mem::swap(&mut items, &mut self.dropped);
        DroppedFiles { items }
    }
}

/// Paths of dropped files taken from the window, handed out one by one.
#[derive(Debug)]
pub struct DroppedFiles {
    items: Vec<String>,
}

impl View for DroppedFiles {
    type V = Seq<String>;

    /// The paths not handed out yet.
    closed spec fn view(&self) -> Seq<String> {
        self.items@
    }
}

impl DroppedFiles {
    /// The next path, or `None` once all have been handed out.
    pub fn next(&mut self) -> (r: Option<String>)
        ensures
            old(self)@.len() == 0 ==> r is None && final(self)@ == old(self)@,
            old(self)@.len() > 0 ==> r == Some(old(self)@[0]) && final(self)@
                == old(self)@.drop_first(),
    {
        if self.items.len() == 0 {
            return None;
        }
        let path = self.items.remove(0);
        assert(self.items@ =~= old(self)@.drop_first());
        Some(path)
    }
}

} // verus!
