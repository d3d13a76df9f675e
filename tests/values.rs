use raylib4::color::Color;
use raylib4::encoding::{check_text, MalformedText};
use raylib4::monitor::MonitorNo;
use raylib4::structs::{Position, Rectangle, Size};
use raylib4::texture::{PixelFormat, RenderTexture, Texture};
use raylib4::trace_log::{route_log, HostFilter, HostLevel, LOG_DEBUG, LOG_ERROR, LOG_INFO, LOG_TRACE, LOG_WARNING};
use raylib4::window::ConfigFlag;

#[test]
fn colors_pack_as_rgba() {
    let red = Color::rgb(230, 41, 55);
    assert_eq!(red, Color { r: 230, g: 41, b: 55, a: 255 });
    assert_eq!(red.to_int(), 0xE62937FF);
    assert_eq!(Color::rgba(0, 0, 0, 0).to_int(), 0);
    assert_eq!(Color::rgba(1, 2, 3, 4).to_int(), 0x01020304);
}

#[test]
fn config_flags_combine_into_bits() {
    assert_eq!(ConfigFlag::flags_to_bits(&[]), 0);
    assert_eq!(ConfigFlag::flags_to_bits(&[ConfigFlag::WindowResizable]), 4);
    assert_eq!(
        ConfigFlag::flags_to_bits(&[ConfigFlag::InterlacedHint, ConfigFlag::Msaa4xHint, ConfigFlag::InterlacedHint]),
        65536 | 32
    );
    assert_eq!(ConfigFlag::WindowHighdpi.to_int(), 8192);
}

#[test]
fn log_levels_route_by_threshold() {
    assert_eq!(route_log(LOG_INFO, HostFilter::Warn), None);
    assert_eq!(route_log(LOG_ERROR, HostFilter::Warn), Some(HostLevel::Error));
    assert_eq!(route_log(LOG_WARNING, HostFilter::Trace), Some(HostLevel::Warn));
    assert_eq!(route_log(LOG_DEBUG, HostFilter::Debug), Some(HostLevel::Debug));
    assert_eq!(route_log(LOG_TRACE, HostFilter::Trace), Some(HostLevel::Trace));
    assert_eq!(route_log(LOG_TRACE, HostFilter::Info), None);
    assert_eq!(route_log(6, HostFilter::Off), None);
    assert_eq!(route_log(6, HostFilter::Error), Some(HostLevel::Error));
}

#[test]
fn text_with_a_zero_byte_is_malformed() {
    assert_eq!(check_text("plain"), Ok(()));
    assert_eq!(check_text(""), Ok(()));
    assert_eq!(check_text("ab\0c\0"), Err(MalformedText { position: 2 }));
    assert_eq!(check_text("é\0"), Err(MalformedText { position: 2 }));
}

#[test]
fn failed_texture_load_gives_none() {
    let missing = Texture { id: 0, width: 0, height: 0, mipmaps: 0, format: 0 };
    assert_eq!(Texture::from_loaded(missing), None);
    let loaded = Texture { id: 3, width: 16, height: 8, mipmaps: 1, format: 7 };
    let t = Texture::from_loaded(loaded).unwrap();
    assert_eq!(t.size(), Size { width: 16, height: 8 });
    let target = RenderTexture {
        id: 0,
        texture: Texture { id: 4, width: 1, height: 1, mipmaps: 1, format: 7 },
        depth: Texture { id: 5, width: 1, height: 1, mipmaps: 1, format: 19 },
    };
    assert!(RenderTexture::from_loaded(target).is_none());
    assert_eq!(PixelFormat::UncompressedR8g8b8a8.code(), 7);
}

#[test]
fn monitors_are_numbered_by_index() {
    assert!(MonitorNo::from_index(-1).is_none());
    let m = MonitorNo::from_index(2).unwrap();
    assert_eq!(m.get(), 2);
}

#[test]
fn positions_and_rectangles() {
    let p = Position { x: 1, y: -2 }.map(|x, y| (x + 10, y * 2));
    assert_eq!(p, Position { x: 11, y: -4 });
    assert_eq!(Position::from((3, 4)), Position { x: 3, y: 4 });
    assert_eq!(Size::from((5, 6)), Size { width: 5, height: 6 });
    let r = Rectangle::new(1, 2, 3, 4).map(|x, y, w, h| (x - 1, y - 2, w * 2, h * 2));
    assert_eq!(r, Rectangle::new(0, 0, 6, 8));
}
