use easy_imgui::conv::{
    from_imgui_cursor, key_mod_of, mouse_cursor_from_bits, to_imgui_button, to_imgui_key,
    CursorIcon, ImGuiKey, Key, MouseButton, MouseCursor,
};
use easy_imgui::geom::{LogicalPosition, LogicalSize, PhysicalPosition, PhysicalSize};
use easy_imgui::window::MainWindow;

#[test]
fn keys_map_to_engine_keys() {
    assert_eq!(to_imgui_key(Key::LControl), Some(ImGuiKey::LeftCtrl));
    assert_eq!(to_imgui_key(Key::RWin), Some(ImGuiKey::RightSuper));
    assert_eq!(to_imgui_key(Key::Return), Some(ImGuiKey::Enter));
    assert_eq!(to_imgui_key(Key::Back), Some(ImGuiKey::Backspace));
    assert_eq!(to_imgui_key(Key::Unknown), None);
}

#[test]
fn modifier_keys_carry_their_flag() {
    assert_eq!(key_mod_of(Key::LControl), Some(ImGuiKey::ModCtrl));
    assert_eq!(key_mod_of(Key::RControl), Some(ImGuiKey::ModCtrl));
    assert_eq!(key_mod_of(Key::LShift), Some(ImGuiKey::ModShift));
    assert_eq!(key_mod_of(Key::RAlt), Some(ImGuiKey::ModAlt));
    assert_eq!(key_mod_of(Key::LWin), Some(ImGuiKey::ModSuper));
    assert_eq!(key_mod_of(Key::Space), None);
    assert_eq!(key_mod_of(Key::Unknown), None);
}

#[test]
fn buttons_map_to_engine_indices() {
    assert_eq!(to_imgui_button(MouseButton::Left), Some(0));
    assert_eq!(to_imgui_button(MouseButton::Right), Some(1));
    assert_eq!(to_imgui_button(MouseButton::Middle), Some(2));
    assert_eq!(to_imgui_button(MouseButton::Other), None);
}

#[test]
fn cursor_bits_decode_in_order() {
    assert_eq!(mouse_cursor_from_bits(-1), Some(MouseCursor::Hidden));
    assert_eq!(mouse_cursor_from_bits(0), Some(MouseCursor::Arrow));
    assert_eq!(mouse_cursor_from_bits(7), Some(MouseCursor::Hand));
    assert_eq!(mouse_cursor_from_bits(8), Some(MouseCursor::NotAllowed));
    assert_eq!(mouse_cursor_from_bits(9), None);
    assert_eq!(mouse_cursor_from_bits(-2), None);
}

#[test]
fn engine_cursors_map_to_icons() {
    assert_eq!(from_imgui_cursor(MouseCursor::Hidden), None);
    assert_eq!(from_imgui_cursor(MouseCursor::Arrow), Some(CursorIcon::Default));
    assert_eq!(from_imgui_cursor(MouseCursor::TextInput), Some(CursorIcon::Text));
    assert_eq!(from_imgui_cursor(MouseCursor::ResizeAll), Some(CursorIcon::Move));
    assert_eq!(from_imgui_cursor(MouseCursor::ResizeNESW), Some(CursorIcon::NeswResize));
    assert_eq!(from_imgui_cursor(MouseCursor::NotAllowed), Some(CursorIcon::NotAllowed));
}

#[test]
fn logical_size_rounds_to_nearest() {
    let w = MainWindow::new(150);
    assert_eq!(
        w.to_logical_size(PhysicalSize { width: 1200, height: 899 }),
        // (1200 * 100 + 75) / 150 = 800; (899 * 100 + 75) / 150 = 599.8... -> 599.
        LogicalSize { width: 800, height: 599 }
    );
}

#[test]
fn physical_size_inverts_a_whole_scale() {
    let w = MainWindow::new(200);
    assert_eq!(
        w.to_physical_size(LogicalSize { width: 400, height: 300 }),
        PhysicalSize { width: 800, height: 600 }
    );
}

#[test]
fn logical_pos_keeps_the_sign() {
    let w = MainWindow::new(200);
    assert_eq!(
        w.to_logical_pos(PhysicalPosition { x: 301, y: -301 }),
        LogicalPosition { x: 151, y: -151 }
    );
}

#[test]
fn physical_pos_scales_up() {
    let w = MainWindow::new(150);
    assert_eq!(
        w.to_physical_pos(LogicalPosition { x: 10, y: -10 }),
        // (10 * 150 + 50) / 100 = 15.5 -> 15, sign kept.
        PhysicalPosition { x: 15, y: -15 }
    );
}

#[test]
fn unit_scale_changes_nothing() {
    let w = MainWindow::new(100);
    assert_eq!(
        w.to_logical_size(PhysicalSize { width: 640, height: 480 }),
        LogicalSize { width: 640, height: 480 }
    );
    assert_eq!(
        w.to_physical_pos(LogicalPosition { x: -7, y: 9 }),
        PhysicalPosition { x: -7, y: 9 }
    );
}
