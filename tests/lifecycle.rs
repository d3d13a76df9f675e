use raylib4::drawing::BlendMode;
use raylib4::scope::{ScopeError, ScopeKind};
use raylib4::structs::{Rectangle, Size};
use raylib4::system::{ProcessContext, SystemBuildError, SystemBuilder};
use raylib4::window::ConfigFlag;

fn builder(title: &str) -> SystemBuilder {
    let mut b = SystemBuilder::new();
    b.window_size(Size { width: 800, height: 450 }).window_title(title);
    b
}

#[test]
fn initialize_once_until_the_system_is_closed() {
    let mut ctx = ProcessContext::new();
    let b = builder("t");
    let first = b.build(&mut ctx, false);
    assert!(first.is_ok());
    assert!(ctx.is_live());
    let second = b.build(&mut ctx, false);
    assert_eq!(second.err(), Some(SystemBuildError::AlreadyInitialized));
    assert!(ctx.is_live());
    first.unwrap().close(&mut ctx);
    assert!(!ctx.is_live());
    let third = b.build(&mut ctx, false);
    assert!(third.is_ok());
}

#[test]
fn a_ready_native_window_counts_as_initialized() {
    let mut ctx = ProcessContext::new();
    let r = builder("t").build(&mut ctx, true);
    assert_eq!(r.err(), Some(SystemBuildError::AlreadyInitialized));
}

#[test]
fn a_title_with_a_zero_byte_is_refused_and_frees_the_context() {
    let mut ctx = ProcessContext::new();
    let r = builder("ab\0c").build(&mut ctx, false);
    assert_eq!(r.err(), Some(SystemBuildError::MalformedTitle { position: 2 }));
    assert!(!ctx.is_live());
    assert!(builder("abc").build(&mut ctx, false).is_ok());
}

#[test]
fn builder_defaults_and_settings() {
    let b = SystemBuilder::new();
    assert_eq!(b.size(), Size { width: 800, height: 600 });
    assert_eq!(b.title(), "");
    assert_eq!(b.fps(), None);
    assert_eq!(b.flag_bits(), 0);
    let mut b = SystemBuilder::default();
    b.target_fps(60)
        .config_flags(vec![ConfigFlag::FullscreenMode, ConfigFlag::VsyncHint])
        .window_title("game");
    assert_eq!(b.fps(), Some(60));
    assert_eq!(b.flag_bits(), 66);
    assert_eq!(b.title(), "game");
}

#[test]
fn scopes_close_in_reverse_order_only() {
    let mut ctx = ProcessContext::new();
    let mut sys = builder("t").build(&mut ctx, false).unwrap();
    let frame = sys.next_frame().unwrap();
    let a = sys.with_camera().unwrap();
    let b = sys.begin_blend_mode(BlendMode::Additive).unwrap();
    assert_eq!(b.mode(), BlendMode::Additive);
    assert_eq!(sys.end_scope(a.token()), Err(ScopeError::OutOfOrder));
    assert_eq!(sys.end_scope(b.token()), Ok(ScopeKind::BlendMode));
    assert_eq!(sys.end_scope(a.token()), Ok(ScopeKind::Camera));
    assert_eq!(sys.end_scope(a.token()), Err(ScopeError::NotOpen));
    assert_eq!(sys.end_scope(frame.token()), Ok(ScopeKind::Frame));
}

#[test]
fn frames_do_not_nest_and_modes_need_a_surface() {
    let mut ctx = ProcessContext::new();
    let mut sys = builder("t").build(&mut ctx, false).unwrap();
    assert_eq!(sys.with_camera().err(), Some(ScopeError::NoSurface));
    let area = Rectangle::new(1, 2, 3, 4);
    assert_eq!(sys.begin_scissor_mode(area).err(), Some(ScopeError::NoSurface));
    let frame = sys.next_frame().unwrap();
    assert_eq!(sys.next_frame().err(), Some(ScopeError::FrameNested));
    let scissor = sys.begin_scissor_mode(area).unwrap();
    assert_eq!(scissor.area(), area);
    let target = sys.create_texture_canvas().unwrap();
    assert_eq!(sys.end_scope(target.token()), Ok(ScopeKind::TextureTarget));
    assert_eq!(sys.end_scope(scissor.token()), Ok(ScopeKind::Scissor));
    assert_eq!(sys.end_scope(frame.token()), Ok(ScopeKind::Frame));
    let again = sys.next_frame().unwrap();
    assert_ne!(again.token(), frame.token());
}

#[test]
fn render_targets_give_a_surface_outside_a_frame() {
    let mut ctx = ProcessContext::new();
    let mut sys = builder("t").build(&mut ctx, false).unwrap();
    let target = sys.create_texture_canvas().unwrap();
    let cam = sys.with_camera().unwrap();
    assert_eq!(sys.end_scope(cam.token()), Ok(ScopeKind::Camera));
    assert_eq!(sys.end_scope(target.token()), Ok(ScopeKind::TextureTarget));
}

#[test]
fn available_gamepads_are_listed_by_slot() {
    let mut ctx = ProcessContext::new();
    let sys = builder("t").build(&mut ctx, false).unwrap();
    let pads = sys.gamepads(&vec![false, true, false, true]);
    let indices: Vec<u32> = pads.iter().map(|g| g.index()).collect();
    assert_eq!(indices, vec![1, 3]);
    assert_eq!(sys.gamepads(&vec![true; 12]).len(), 8);
    assert_eq!(sys.gamepads(&vec![]).len(), 0);
    assert_eq!(sys.get_gamepad_button_pressed(-1), None);
}

#[test]
fn keyboard_of_the_system_is_reachable() {
    let mut ctx = ProcessContext::new();
    let mut sys = builder("t").build(&mut ctx, false).unwrap();
    sys.keyboard_mut().record_char_code('q' as i32);
    let mut chars = sys.keyboard_mut().take_pressed_chars();
    assert_eq!(chars.next(), Some('q'));
    assert_eq!(sys.keyboard_mut().take_pressed_chars().next(), None);
}

#[test]
fn the_current_monitor_is_recognised_by_index() {
    let mut ctx = ProcessContext::new();
    let sys = builder("t").build(&mut ctx, false).unwrap();
    let m = raylib4::monitor::MonitorNo::from_index(1).unwrap();
    assert!(sys.monitors().is_current(1, m));
    assert!(!sys.monitors().is_current(0, m));
    assert!(!sys.monitors().is_current(-1, m));
}

#[test]
fn dropped_files_are_handed_out_once() {
    let mut ctx = ProcessContext::new();
    let mut sys = builder("t").build(&mut ctx, false).unwrap();
    sys.window_mut().record_dropped_file("a.png".to_string());
    sys.window_mut().record_dropped_file("b.wav".to_string());
    let mut first = sys.window_mut().get_dropped_files();
    assert_eq!(first.next(), Some("a.png".to_string()));
    assert_eq!(first.next(), Some("b.wav".to_string()));
    assert_eq!(first.next(), None);
    let mut second = sys.window_mut().get_dropped_files();
    assert_eq!(second.next(), None);
}
