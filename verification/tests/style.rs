use easy_imgui::geom::Vector2;
use easy_imgui::style::{Color, ColorId, Style, StyleMut, StylePtr, COLOR_COUNT};

#[test]
fn a_new_style_is_zeroed() {
    let style = StylePtr::new();
    assert_eq!(style.colors.len(), COLOR_COUNT);
    assert_eq!(
        style.color(ColorId::Text),
        Color { r: 0, g: 0, b: 0, a: 0 }
    );
    assert_eq!(style.frame_padding(), Vector2 { x: 0, y: 0 });
    assert_eq!(style.item_spacing(), Vector2 { x: 0, y: 0 });
    assert_eq!(style.item_inner_spacing(), Vector2 { x: 0, y: 0 });
}

#[test]
fn set_color_changes_only_its_slot() {
    let mut style = StylePtr::new();
    let red = Color { r: 255, g: 0, b: 0, a: 255 };
    style.set_color(ColorId::Button, red);
    assert_eq!(style.color(ColorId::Button), red);
    assert_eq!(
        style.color(ColorId::ButtonHovered),
        Color { r: 0, g: 0, b: 0, a: 0 }
    );
    assert_eq!(
        style.color(ColorId::Text),
        Color { r: 0, g: 0, b: 0, a: 0 }
    );
}

#[test]
fn set_color_overwrites() {
    let mut style = StylePtr::new();
    style.set_color(ColorId::Header, Color { r: 1, g: 2, b: 3, a: 4 });
    style.set_color(ColorId::Header, Color { r: 9, g: 8, b: 7, a: 6 });
    assert_eq!(style.color(ColorId::Header), Color { r: 9, g: 8, b: 7, a: 6 });
}

#[test]
fn metrics_read_back() {
    let style = StylePtr {
        colors: StylePtr::new().colors,
        frame_padding: Vector2 { x: 4, y: 3 },
        item_spacing: Vector2 { x: 8, y: 4 },
        item_inner_spacing: Vector2 { x: 4, y: 4 },
    };
    assert_eq!(style.frame_padding(), Vector2 { x: 4, y: 3 });
    assert_eq!(style.item_spacing(), Vector2 { x: 8, y: 4 });
    assert_eq!(style.item_inner_spacing(), Vector2 { x: 4, y: 4 });
}

#[test]
fn style_hands_the_block_out_read_only() {
    let mut inner = StylePtr::new();
    inner.set_color(ColorId::WindowBg, Color { r: 10, g: 20, b: 30, a: 40 });
    let style = Style::new(inner);
    assert_eq!(
        style.get().color(ColorId::WindowBg),
        Color { r: 10, g: 20, b: 30, a: 40 }
    );
}

#[test]
fn style_mut_writes_through() {
    let mut style = StyleMut::new(StylePtr::new());
    style
        .get_mut()
        .set_color(ColorId::CheckMark, Color { r: 66, g: 150, b: 250, a: 255 });
    assert_eq!(
        style.get().color(ColorId::CheckMark),
        Color { r: 66, g: 150, b: 250, a: 255 }
    );
}

#[test]
fn every_color_slot_is_distinct() {
    let ids = [
        ColorId::Text,
        ColorId::TextDisabled,
        ColorId::WindowBg,
        ColorId::ChildBg,
        ColorId::PopupBg,
        ColorId::Border,
        ColorId::BorderShadow,
        ColorId::FrameBg,
        ColorId::FrameBgHovered,
        ColorId::FrameBgActive,
        ColorId::TitleBg,
        ColorId::TitleBgActive,
        ColorId::TitleBgCollapsed,
        ColorId::MenuBarBg,
        ColorId::ScrollbarBg,
        ColorId::CheckMark,
        ColorId::SliderGrab,
        ColorId::Button,
        ColorId::ButtonHovered,
        ColorId::ButtonActive,
        ColorId::Header,
    ];
    assert_eq!(ids.len(), COLOR_COUNT);
    for (expected, id) in ids.iter().enumerate() {
        assert_eq!(id.index(), expected);
    }
}
