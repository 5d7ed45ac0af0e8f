//! The windowing integration itself: DPI-aware conversions on the main
//! window, selection of a GL configuration, the redraw schedule, and the
//! translation of each incoming event into engine input and window-system
//! side effects.

use vstd::prelude::*;
use crate::conv::{
    CursorIcon, ImGuiKey, MouseCursor, from_imgui_cursor, key_mod_of, mouse_cursor_from_bits,
    spec_from_imgui_cursor, spec_key_mod_of, spec_mouse_cursor_from_bits, spec_to_imgui_button,
    spec_to_imgui_key, to_imgui_button, to_imgui_key,
};
use crate::event::{Command, ControlFlow, Event, WindowEventKind};
use crate::geom::{
    LogicalPosition, LogicalSize, PhysicalPosition, PhysicalSize, scale_coord_i64, scale_len,
    scaled_coord, scaled_len, valid_scale_pct,
};

verus! {

/// After the last user input the loop keeps rendering for this many
/// milliseconds ...
pub const INPUT_GRACE_MS: u64 = 1000;

/// ... or for this many frames, whichever lasts longer. The frames matter
/// when one input triggers a slow operation: its result still gets a
/// render.
pub const INPUT_GRACE_FRAMES: u32 = 60;

/// The capabilities of one GL configuration the display offers, as read
/// from the config itself.
#[derive(Clone, Copy, Debug, PartialEq, Eq, Structural)]
pub struct GlConfigCaps {
    pub num_samples: u8,
    pub depth_size: u8,
    pub stencil_size: u8,
}

/// Strict lexicographic order on a configuration's capabilities: fewer
/// samples first, then a smaller depth buffer, then a smaller stencil
/// buffer. The integration wants the leanest configuration.
pub open spec fn caps_lt(a: GlConfigCaps, b: GlConfigCaps) -> bool {
    a.num_samples < b.num_samples
    || (a.num_samples == b.num_samples && a.depth_size < b.depth_size)
    || (a.num_samples == b.num_samples && a.depth_size == b.depth_size
        && a.stencil_size < b.stencil_size)
}

fn caps_less(a: &GlConfigCaps, b: &GlConfigCaps) -> (r: bool)
    ensures
        r == caps_lt(*a, *b),
{
    a.num_samples < b.num_samples
    || (a.num_samples == b.num_samples && a.depth_size < b.depth_size)
    || (a.num_samples == b.num_samples && a.depth_size == b.depth_size
        && a.stencil_size < b.stencil_size)
}

/// Picks the GL configuration the integration prefers: the first one, in
/// the order offered, whose capabilities no other configuration strictly
/// undercuts. `None` only when nothing is offered.
pub fn best_config(caps: &Vec<GlConfigCaps>) -> (r: Option<usize>)
    ensures
        (r is None) <==> caps@.len() == 0,
        r matches Some(i) ==> i < caps@.len()
            && (forall|j: int| 0 <= j < caps@.len() ==> !caps_lt(caps@[j], caps@[i as int]))
            && (forall|j: int| 0 <= j < i ==> caps_lt(caps@[i as int], caps@[j])),
{
    if caps.len() == 0 {
        return None;
    }
    let mut best: usize = 0;
    let mut i: usize = 1;
    while i < caps.len()
        invariant
            1 <= i <= caps@.len(),
            best < i,
            forall|j: int| 0 <= j < i ==> !caps_lt(caps@[j], caps@[best as int]),
            forall|j: int| 0 <= j < best ==> caps_lt(caps@[best as int], caps@[j]),
        decreases caps@.len() - i,
    {
        if caps_less(&caps[i], &caps[best]) {
            best = i;
        }
        i = i + 1;
    }
    Some(best)
}

/// The redraw bookkeeping the integration keeps between events: when the
/// last burst began, when the user last gave input, how many frames were
/// rendered since then, and which cursor the window currently shows
/// (`None` when it is hidden). Times are in milliseconds.
#[derive(Clone, Copy, Debug, PartialEq, Eq)]
pub struct MainWindowStatus {
    pub last_frame: u64,
    pub last_input_time: u64,
    pub last_input_frame: u32,
    pub current_cursor: Option<CursorIcon>,
}

impl MainWindowStatus {
    /// The bookkeeping at start of life: everything dates from `now_ms`
    /// and the window shows the default arrow.
    pub open spec fn spec_new(now_ms: u64) -> MainWindowStatus {
        MainWindowStatus {
            last_frame: now_ms,
            last_input_time: now_ms,
            last_input_frame: 0,
            current_cursor: Some(CursorIcon::Default),
        }
    }

    pub fn new(now_ms: u64) -> (r: MainWindowStatus)
        ensures
            r == MainWindowStatus::spec_new(now_ms),
    {
        MainWindowStatus {
            last_frame: now_ms,
            last_input_time: now_ms,
            last_input_frame: 0,
            current_cursor: Some(CursorIcon::Default),
        }
    }
}

impl Default for MainWindowStatus {
    fn default() -> (r: MainWindowStatus)
        ensures
            r == MainWindowStatus::spec_new(0),
    {
        MainWindowStatus::new(0)
    }
}

/// What the integration knows of the main window: its DPI scale, as a
/// percentage. The window, its GL surface and its GL context live outside;
/// every conversion the integration makes reads only this.
#[derive(Clone, Copy, Debug, PartialEq, Eq)]
pub struct MainWindow {
    pub scale_pct: u32,
}

/// The logical size a physical size maps to under a scale.
pub open spec fn spec_logical_size(size: PhysicalSize, pct: u32) -> LogicalSize {
    LogicalSize {
        width: scaled_len(size.width as int, 100, pct as int) as u64,
        height: scaled_len(size.height as int, 100, pct as int) as u64,
    }
}

/// The physical size a logical size maps to under a scale.
pub open spec fn spec_physical_size(size: LogicalSize, pct: u32) -> PhysicalSize {
    PhysicalSize {
        width: scaled_len(size.width as int, pct as int, 100) as u32,
        height: scaled_len(size.height as int, pct as int, 100) as u32,
    }
}

/// The logical position a physical position maps to under a scale.
pub open spec fn spec_logical_pos(pos: PhysicalPosition, pct: u32) -> LogicalPosition {
    LogicalPosition {
        x: scaled_coord(pos.x as int, 100, pct as int) as i64,
        y: scaled_coord(pos.y as int, 100, pct as int) as i64,
    }
}

/// The physical position a logical position maps to under a scale.
pub open spec fn spec_physical_pos(pos: LogicalPosition, pct: u32) -> PhysicalPosition {
    PhysicalPosition {
        x: scaled_coord(pos.x as int, pct as int, 100) as i32,
        y: scaled_coord(pos.y as int, pct as int, 100) as i32,
    }
}

impl MainWindow {
    /// The window's scale lies within the scales the model admits.
    pub open spec fn wf(self) -> bool {
        valid_scale_pct(self.scale_pct)
    }

    pub fn new(scale_pct: u32) -> (r: MainWindow)
        requires
            valid_scale_pct(scale_pct),
        ensures
            r.scale_pct == scale_pct,
            r.wf(),
    {
        MainWindow { scale_pct }
    }

    /// Converts a physical size to the logical size the engine works in.
    pub fn to_logical_size(&self, size: PhysicalSize) -> (r: LogicalSize)
        requires
            self.wf(),
        ensures
            r == spec_logical_size(size, self.scale_pct),
    {
        LogicalSize {
            width: scale_len(size.width as u64, 100, self.scale_pct),
            height: scale_len(size.height as u64, 100, self.scale_pct),
        }
    }

    /// Converts a logical size back to physical pixels. The bounds keep
    /// the products within the machine's integers.
    pub fn to_physical_size(&self, size: LogicalSize) -> (r: PhysicalSize)
        requires
            self.wf(),
            size.width <= 0x2_0000_0000u64,
            size.height <= 0x2_0000_0000u64,
            scaled_len(size.width as int, self.scale_pct as int, 100) <= u32::MAX,
            scaled_len(size.height as int, self.scale_pct as int, 100) <= u32::MAX,
        ensures
            r == spec_physical_size(size, self.scale_pct),
    {
        PhysicalSize {
            width: scale_len(size.width, self.scale_pct, 100) as u32,
            height: scale_len(size.height, self.scale_pct, 100) as u32,
        }
    }

    /// Converts a physical position to the logical position the engine
    /// works in.
    pub fn to_logical_pos(&self, pos: PhysicalPosition) -> (r: LogicalPosition)
        requires
            self.wf(),
        ensures
            r == spec_logical_pos(pos, self.scale_pct),
    {
        LogicalPosition {
            x: scale_coord_i64(pos.x as i64, 100, self.scale_pct),
            y: scale_coord_i64(pos.y as i64, 100, self.scale_pct),
        }
    }

    /// Converts a logical position back to physical pixels. The bounds
    /// keep the products within the machine's integers.
    pub fn to_physical_pos(&self, pos: LogicalPosition) -> (r: PhysicalPosition)
        requires
            self.wf(),
            -0x2_0000_0000i64 <= pos.x <= 0x2_0000_0000i64,
            -0x2_0000_0000i64 <= pos.y <= 0x2_0000_0000i64,
            i32::MIN <= scaled_coord(pos.x as int, self.scale_pct as int, 100) <= i32::MAX,
            i32::MIN <= scaled_coord(pos.y as int, self.scale_pct as int, 100) <= i32::MAX,
        ensures
            r == spec_physical_pos(pos, self.scale_pct),
    {
        PhysicalPosition {
            x: scale_coord_i64(pos.x, self.scale_pct, 100) as i32,
            y: scale_coord_i64(pos.y, self.scale_pct, 100) as i32,
        }
    }
}

/// Milliseconds from `earlier` to `now`; zero when the clock reads
/// earlier than the mark.
pub open spec fn millis_since(now: u64, earlier: u64) -> int {
    if now >= earlier {
        now - earlier
    } else {
        0
    }
}

fn millis_between(now: u64, earlier: u64) -> (r: u64)
    ensures
        r == millis_since(now, earlier),
{
    if now >= earlier {
        now - earlier
    } else {
        0
    }
}

/// One more rendered frame, stopping at the counter's ceiling.
pub open spec fn saturating_inc(v: u32) -> u32 {
    if v < 0xffff_ffffu32 {
        (v + 1) as u32
    } else {
        v
    }
}

/// The redraw policy: keep polling while a mouse button is held (a drag
/// may be in progress), while the last input is fresher than
/// [`INPUT_GRACE_MS`], or while fewer than [`INPUT_GRACE_FRAMES`] frames
/// were rendered since it; otherwise block until the next event.
pub open spec fn wants_poll(any_mouse_down: bool, now_ms: u64, status: MainWindowStatus) -> bool {
    any_mouse_down
    || millis_since(now_ms, status.last_input_time) < INPUT_GRACE_MS
    || status.last_input_frame < INPUT_GRACE_FRAMES
}

/// The cursor the window should show after a redraw: none while the
/// engine draws the cursor itself, otherwise the icon for the engine's
/// current cursor, an arrow standing in for any unknown value.
pub open spec fn spec_desired_cursor(draw_cursor: bool, cursor_bits: i32) -> Option<CursorIcon> {
    if draw_cursor {
        None
    } else {
        let engine = match spec_mouse_cursor_from_bits(cursor_bits) {
            Some(c) => c,
            None => MouseCursor::Arrow,
        };
        spec_from_imgui_cursor(engine)
    }
}

/// The cursor commands a redraw emits: nothing while the engine suppresses
/// cursor changes or the desired cursor is already shown; otherwise hide
/// the cursor, or set the icon and show it.
pub open spec fn cursor_commands(
    current: Option<CursorIcon>,
    disabled: bool,
    draw_cursor: bool,
    cursor_bits: i32,
) -> Seq<Command> {
    if disabled {
        seq![]
    } else {
        let desired = spec_desired_cursor(draw_cursor, cursor_bits);
        if desired == current {
            seq![]
        } else {
            match desired {
                None => seq![Command::SetCursorVisible(false)],
                Some(c) => seq![Command::SetCursorIcon(c), Command::SetCursorVisible(true)],
            }
        }
    }
}

/// The commands an event aimed at the main window emits.
pub open spec fn window_event_commands(w: MainWindow, kind: WindowEventKind) -> Seq<Command> {
    match kind {
        WindowEventKind::CloseRequested => seq![],
        WindowEventKind::Resized(size) => {
            let display = Command::SetDisplaySize(spec_logical_size(size, w.scale_pct));
            if size.width > 0 && size.height > 0 {
                seq![Command::ResizeSurface(size), display]
            } else {
                seq![display]
            }
        },
        WindowEventKind::ScaleFactorChanged { scale_pct, new_inner_size } => seq![
            Command::RescaleMousePos { scale_pct },
            Command::SetRendererSize {
                size: spec_logical_size(new_inner_size, scale_pct),
                scale_pct,
            },
        ],
        WindowEventKind::ModifiersChanged { ctrl, shift, alt, logo } => seq![
            Command::AddKeyEvent { key: ImGuiKey::ModCtrl, pressed: ctrl },
            Command::AddKeyEvent { key: ImGuiKey::ModShift, pressed: shift },
            Command::AddKeyEvent { key: ImGuiKey::ModAlt, pressed: alt },
            Command::AddKeyEvent { key: ImGuiKey::ModSuper, pressed: logo },
        ],
        WindowEventKind::KeyboardInput { key, pressed } => match spec_to_imgui_key(key) {
            None => seq![],
            Some(k) => match spec_key_mod_of(key) {
                None => seq![Command::AddKeyEvent { key: k, pressed }],
                Some(m) => seq![
                    Command::AddKeyEvent { key: k, pressed },
                    Command::AddKeyEvent { key: m, pressed },
                ],
            },
        },
        WindowEventKind::ReceivedCharacter(c) => seq![Command::AddInputCharacter(c)],
        WindowEventKind::CursorMoved(pos) => seq![
            Command::AddMousePosEvent(spec_logical_pos(pos, w.scale_pct)),
        ],
        WindowEventKind::MouseWheel { horizontal, vertical, moved } => if moved {
            seq![Command::AddMouseWheelEvent { horizontal, vertical }]
        } else {
            seq![]
        },
        WindowEventKind::MouseInput { button, pressed } => match spec_to_imgui_button(button) {
            None => seq![],
            Some(b) => seq![Command::AddMouseButtonEvent { button: b, pressed }],
        },
        WindowEventKind::CursorLeft => seq![Command::ClearMousePos],
        WindowEventKind::Focused(f) => seq![Command::AddFocusEvent(f)],
        WindowEventKind::Other => seq![],
    }
}

/// The main window together with the integration's bookkeeping. The
/// renderer and the application it drives live outside; the integration
/// addresses them through [`Command`] values.
#[derive(Clone, Copy, Debug, PartialEq, Eq)]
pub struct MainWindowWithRenderer {
    pub main_window: MainWindow,
    pub status: MainWindowStatus,
}

/// The state after one event.
pub open spec fn event_next(s: MainWindowWithRenderer, ev: Event) -> MainWindowWithRenderer {
    match ev {
        Event::NewEvents { now_ms } => MainWindowWithRenderer {
            main_window: s.main_window,
            status: MainWindowStatus {
                last_frame: now_ms,
                last_input_time: s.status.last_input_time,
                last_input_frame: s.status.last_input_frame,
                current_cursor: s.status.current_cursor,
            },
        },
        Event::MainEventsCleared { .. } => s,
        Event::RedrawEventsCleared { .. } => MainWindowWithRenderer {
            main_window: s.main_window,
            status: MainWindowStatus {
                last_frame: s.status.last_frame,
                last_input_time: s.status.last_input_time,
                last_input_frame: saturating_inc(s.status.last_input_frame),
                current_cursor: s.status.current_cursor,
            },
        },
        Event::RedrawRequested { cursor_change_disabled, draw_cursor, cursor_bits } => {
            if cursor_change_disabled {
                s
            } else {
                MainWindowWithRenderer {
                    main_window: s.main_window,
                    status: MainWindowStatus {
                        last_frame: s.status.last_frame,
                        last_input_time: s.status.last_input_time,
                        last_input_frame: s.status.last_input_frame,
                        current_cursor: spec_desired_cursor(draw_cursor, cursor_bits),
                    },
                }
            }
        },
        Event::WindowEvent { is_main_window, now_ms, kind } => {
            if !is_main_window {
                s
            } else {
                let pinged = MainWindowStatus {
                    last_frame: s.status.last_frame,
                    last_input_time: now_ms,
                    last_input_frame: 0,
                    current_cursor: s.status.current_cursor,
                };
                match kind {
                    WindowEventKind::ScaleFactorChanged { scale_pct, new_inner_size: _ } =>
                        MainWindowWithRenderer {
                            main_window: MainWindow { scale_pct },
                            status: pinged,
                        },
                    _ => MainWindowWithRenderer { main_window: s.main_window, status: pinged },
                }
            }
        },
        Event::Other => s,
    }
}

/// The commands one event emits.
pub open spec fn event_commands(s: MainWindowWithRenderer, ev: Event) -> Seq<Command> {
    match ev {
        Event::NewEvents { now_ms } => seq![
            Command::SetDeltaTime { millis: millis_since(now_ms, s.status.last_frame) as u64 },
        ],
        Event::MainEventsCleared { want_set_mouse_pos, mouse_pos } => {
            if want_set_mouse_pos {
                seq![Command::SetMousePos(mouse_pos), Command::RequestRedraw]
            } else {
                seq![Command::RequestRedraw]
            }
        },
        Event::RedrawEventsCleared { .. } => seq![],
        Event::RedrawRequested { cursor_change_disabled, draw_cursor, cursor_bits } =>
            cursor_commands(s.status.current_cursor, cursor_change_disabled, draw_cursor, cursor_bits)
            + seq![Command::RenderFrame, Command::SwapBuffers],
        Event::WindowEvent { is_main_window, now_ms: _, kind } => {
            if is_main_window {
                window_event_commands(s.main_window, kind)
            } else {
                seq![]
            }
        },
        Event::Other => seq![],
    }
}

/// The control flow after one event: the redraw policy decides after the
/// frame's redraws, closing the window exits, and everything else keeps
/// the flow as it was.
pub open spec fn event_flow(s: MainWindowWithRenderer, ev: Event, flow: ControlFlow) -> ControlFlow {
    match ev {
        Event::RedrawEventsCleared { now_ms, any_mouse_down } => {
            if wants_poll(any_mouse_down, now_ms, event_next(s, ev).status) {
                ControlFlow::Poll
            } else {
                ControlFlow::Wait
            }
        },
        Event::WindowEvent { is_main_window, now_ms: _, kind: WindowEventKind::CloseRequested } => {
            if is_main_window {
                ControlFlow::Exit
            } else {
                flow
            }
        },
        _ => flow,
    }
}

impl MainWindowWithRenderer {
    /// The window's scale lies within the scales the model admits.
    pub open spec fn wf(self) -> bool {
        self.main_window.wf()
    }

    /// Couples a window to the integration. The returned command sizes
    /// the renderer to the window's current inner size and scale.
    pub fn new(main_window: MainWindow, inner_size: PhysicalSize, now_ms: u64) -> (r: (
        MainWindowWithRenderer,
        Command,
    ))
        requires
            main_window.wf(),
        ensures
            r.0.wf(),
            r.0.main_window == main_window,
            r.0.status == MainWindowStatus::spec_new(now_ms),
            r.1 == (Command::SetRendererSize {
                size: spec_logical_size(inner_size, main_window.scale_pct),
                scale_pct: main_window.scale_pct,
            }),
    {
        let logical = main_window.to_logical_size(inner_size);
        let cmd = Command::SetRendererSize { size: logical, scale_pct: main_window.scale_pct };
        (MainWindowWithRenderer { main_window, status: MainWindowStatus::new(now_ms) }, cmd)
    }

    /// Marks `now_ms` as the moment of the latest user input, restarting
    /// the redraw grace period.
    pub fn ping_user_input(&mut self, now_ms: u64)
        ensures
            final(self).main_window == old(self).main_window,
            final(self).status.last_frame == old(self).status.last_frame,
            final(self).status.last_input_time == now_ms,
            final(self).status.last_input_frame == 0,
            final(self).status.current_cursor == old(self).status.current_cursor,
    {
        self.status.last_input_time = now_ms;
        self.status.last_input_frame = 0;
    }

    /// Handles one event: updates the bookkeeping, decides the control
    /// flow, and returns the side effects to perform, in order.
    pub fn do_event(&mut self, event: &Event, control_flow: &mut ControlFlow) -> (commands: Vec<
        Command,
    >)
        requires
            old(self).wf(),
            event.wf(),
        ensures
            final(self).wf(),
            *final(self) == event_next(*old(self), *event),
            commands@ == event_commands(*old(self), *event),
            *final(control_flow) == event_flow(*old(self), *event, *old(control_flow)),
    {
        let ghost s0 = *self;
        let ghost flow0 = *control_flow;
        let mut commands: Vec<Command> = Vec::new();
        match event {
            Event::NewEvents { now_ms } => {
                let millis = millis_between(*now_ms, self.status.last_frame);
                commands.push(Command::SetDeltaTime { millis });
                self.status.last_frame = *now_ms;
                proof {
                    assert(commands@ =~= event_commands(s0, *event));
                }
            },
            Event::MainEventsCleared { want_set_mouse_pos, mouse_pos } => {
                if *want_set_mouse_pos {
                    commands.push(Command::SetMousePos(*mouse_pos));
                }
                commands.push(Command::RequestRedraw);
                proof {
                    assert(commands@ =~= event_commands(s0, *event));
                }
            },
            Event::RedrawEventsCleared { now_ms, any_mouse_down } => {
                if self.status.last_input_frame < 0xffff_ffffu32 {
                    self.status.last_input_frame = self.status.last_input_frame + 1;
                }
                let recent = millis_between(*now_ms, self.status.last_input_time) < INPUT_GRACE_MS;
                let poll = *any_mouse_down || recent
                    || self.status.last_input_frame < INPUT_GRACE_FRAMES;
                *control_flow = if poll {
                    ControlFlow::Poll
                } else {
                    ControlFlow::Wait
                };
                proof {
                    assert(commands@ =~= event_commands(s0, *event));
                }
            },
            Event::RedrawRequested { cursor_change_disabled, draw_cursor, cursor_bits } => {
                if !*cursor_change_disabled {
                    let desired: Option<CursorIcon> = if *draw_cursor {
                        None
                    } else {
                        let engine = match mouse_cursor_from_bits(*cursor_bits) {
                            Some(c) => c,
                            None => MouseCursor::Arrow,
                        };
                        from_imgui_cursor(engine)
                    };
                    let changed = match (desired, self.status.current_cursor) {
                        (None, None) => false,
                        (Some(a), Some(b)) => a != b,
                        _ => true,
                    };
                    if changed {
                        match desired {
                            None => {
                                commands.push(Command::SetCursorVisible(false));
                            },
                            Some(c) => {
                                commands.push(Command::SetCursorIcon(c));
                                commands.push(Command::SetCursorVisible(true));
                            },
                        }
                    }
                    self.status.current_cursor = desired;
                }
                commands.push(Command::RenderFrame);
                commands.push(Command::SwapBuffers);
                proof {
                    assert(commands@ =~= event_commands(s0, *event));
                }
            },
            Event::WindowEvent { is_main_window, now_ms, kind } => {
                if *is_main_window {
                    self.ping_user_input(*now_ms);
                    match kind {
                        WindowEventKind::CloseRequested => {
                            *control_flow = ControlFlow::Exit;
                        },
                        WindowEventKind::Resized(size) => {
                            if size.width > 0 && size.height > 0 {
                                commands.push(Command::ResizeSurface(*size));
                            }
                            let logical = self.main_window.to_logical_size(*size);
                            commands.push(Command::SetDisplaySize(logical));
                        },
                        WindowEventKind::ScaleFactorChanged { scale_pct, new_inner_size } => {
                            self.main_window.scale_pct = *scale_pct;
                            commands.push(Command::RescaleMousePos { scale_pct: *scale_pct });
                            let logical = self.main_window.to_logical_size(*new_inner_size);
                            commands.push(Command::SetRendererSize {
                                size: logical,
                                scale_pct: *scale_pct,
                            });
                        },
                        WindowEventKind::ModifiersChanged { ctrl, shift, alt, logo } => {
                            commands.push(Command::AddKeyEvent {
                                key: ImGuiKey::ModCtrl,
                                pressed: *ctrl,
                            });
                            commands.push(Command::AddKeyEvent {
                                key: ImGuiKey::ModShift,
                                pressed: *shift,
                            });
                            commands.push(Command::AddKeyEvent {
                                key: ImGuiKey::ModAlt,
                                pressed: *alt,
                            });
                            commands.push(Command::AddKeyEvent {
                                key: ImGuiKey::ModSuper,
                                pressed: *logo,
                            });
                        },
                        WindowEventKind::KeyboardInput { key, pressed } => {
                            if let Some(k) = to_imgui_key(*key) {
                                commands.push(Command::AddKeyEvent { key: k, pressed: *pressed });
                                if let Some(m) = key_mod_of(*key) {
                                    commands.push(Command::AddKeyEvent {
                                        key: m,
                                        pressed: *pressed,
                                    });
                                }
                            }
                        },
                        WindowEventKind::ReceivedCharacter(c) => {
                            commands.push(Command::AddInputCharacter(*c));
                        },
                        WindowEventKind::CursorMoved(pos) => {
                            let logical = self.main_window.to_logical_pos(*pos);
                            commands.push(Command::AddMousePosEvent(logical));
                        },
                        WindowEventKind::MouseWheel { horizontal, vertical, moved } => {
                            if *moved {
                                commands.push(Command::AddMouseWheelEvent {
                                    horizontal: *horizontal,
                                    vertical: *vertical,
                                });
                            }
                        },
                        WindowEventKind::MouseInput { button, pressed } => {
                            if let Some(b) = to_imgui_button(*button) {
                                commands.push(Command::AddMouseButtonEvent {
                                    button: b,
                                    pressed: *pressed,
                                });
                            }
                        },
                        WindowEventKind::CursorLeft => {
                            commands.push(Command::ClearMousePos);
                        },
                        WindowEventKind::Focused(f) => {
                            commands.push(Command::AddFocusEvent(*f));
                        },
                        WindowEventKind::Other => {},
                    }
                }
                proof {
                    assert(commands@ =~= event_commands(s0, *event));
                }
            },
            Event::Other => {
                proof {
                    assert(commands@ =~= event_commands(s0, *event));
                }
            },
        }
        commands
    }
}

} // verus!

