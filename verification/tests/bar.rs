use tao_softbuffer_bar::app::{
    start, update_hover, App, AppAction, AppEvent, ControlFlow, RedrawPlan, TRANSPORT_RETRY_INTERVAL,
};
use tao_softbuffer_bar::back_buffer::CairoBackBuffer;
use tao_softbuffer_bar::effects::{
    apply_monitor_geometry, handle_platform_effect, BarEffect, Placement, PlatformAction, Program,
    RuntimeUpdate, UpdateAction,
};
use tao_softbuffer_bar::geometry::{
    frame_stride, resize_soft_surface, screen_size, surface_size, LogicalSize, MonitorGeometry,
    OutOfRange, PhysicalSize, Point, SurfaceSize,
};
use tao_softbuffer_bar::pointer::{button_action, wheel_action, MouseButton, PointerAction};
use tao_softbuffer_bar::startup::{exit_outcome, font_description, shared_path, wants_transport};

const START: u128 = 5_000_000_000;

fn size(width: u32, height: u32) -> PhysicalSize {
    PhysicalSize { width, height }
}

fn logical(width: f64, height: f64) -> LogicalSize {
    LogicalSize {
        width: width.to_bits(),
        height: height.to_bits(),
    }
}

fn point(x: f32, y: f32) -> Point {
    Point {
        x: x.to_bits(),
        y: y.to_bits(),
    }
}

fn bar(path: &str) -> App {
    let (app, image) = App::new(
        size(1920, 38),
        logical(1920.0, 38.0),
        1.0f64.to_bits(),
        path.to_string(),
        START,
    )
    .unwrap();
    assert_eq!(
        image,
        SurfaceSize {
            width: 1920,
            height: 38
        }
    );
    app
}

#[test]
fn new_bar_knows_its_window_and_nothing_else() {
    let app = bar("/run/wm");
    assert_eq!(
        app.back,
        CairoBackBuffer {
            width: 1920,
            height: 38
        }
    );
    assert_eq!(app.last_physical_size, size(1920, 38));
    assert_eq!(app.logical_size, app.default_logical_size);
    assert_eq!(app.last_cursor_pos, None);
    assert_eq!(app.shared_path, "/run/wm");
    assert_eq!(app.last_transport_attempt, START);
    let refused = App::new(
        size(1 << 31, 38),
        logical(1.0, 1.0),
        0,
        String::new(),
        START,
    );
    assert_eq!(refused, Err(OutOfRange));
}

#[test]
fn bar_starts_with_a_tick_a_poll_and_a_redraw() {
    assert_eq!(
        start(),
        vec![
            AppAction::Tick,
            AppAction::PollTransport,
            AppAction::RequestRedraw
        ]
    );
}

#[test]
fn attempts_keep_their_distance() {
    let mut app = bar("/run/wm");
    let both = vec![AppAction::OpenTransport, AppAction::TickAndPoll];
    let early = START + TRANSPORT_RETRY_INTERVAL - 1;
    assert_eq!(app.tick_and_poll(false, early), vec![AppAction::TickAndPoll]);
    assert_eq!(app.tick_and_poll(false, early + 1), both);
    assert_eq!(app.last_transport_attempt, early + 1);
    assert_eq!(
        app.tick_and_poll(false, early + TRANSPORT_RETRY_INTERVAL),
        vec![AppAction::TickAndPoll]
    );
    assert_eq!(
        app.tick_and_poll(false, early + 1 + TRANSPORT_RETRY_INTERVAL),
        both
    );
    assert_eq!(app.tick_and_poll(false, 0), vec![AppAction::TickAndPoll]);
}

#[test]
fn no_attempt_without_a_path_or_with_a_connection() {
    let mut app = bar("");
    assert_eq!(app.tick_and_poll(false, u128::MAX), vec![AppAction::TickAndPoll]);
    let mut app = bar("/run/wm");
    assert_eq!(app.tick_and_poll(true, u128::MAX), vec![AppAction::TickAndPoll]);
    assert_eq!(app, bar("/run/wm"));
}

#[test]
fn tick_event_is_a_tick() {
    let mut app = bar("/run/wm");
    let response = app.handle_event(AppEvent::Tick {
        connected: false,
        now: START + 3_000_000_000,
    });
    assert_eq!(response.control_flow, ControlFlow::Wait);
    assert_eq!(
        response.actions,
        vec![AppAction::OpenTransport, AppAction::TickAndPoll]
    );
}

#[test]
fn news_is_read_before_the_flag_falls() {
    let response = bar("").handle_event(AppEvent::SharedUpdated);
    assert_eq!(
        response.actions,
        vec![AppAction::PollTransport, AppAction::LowerPending]
    );
}

#[test]
fn closing_ends_the_loop() {
    for event in [AppEvent::CloseRequested, AppEvent::Destroyed] {
        let response = bar("").handle_event(event);
        assert_eq!(response.control_flow, ControlFlow::Exit);
        assert!(response.actions.is_empty());
    }
    let response = bar("").handle_event(AppEvent::Other);
    assert_eq!(response.control_flow, ControlFlow::Wait);
    assert!(response.actions.is_empty());
}

#[test]
fn resizing_redraws_and_spares_an_empty_surface() {
    let mut app = bar("");
    let response = app.handle_event(AppEvent::Resized {
        size: size(800, 40),
        logical_size: logical(400.0, 20.0),
    });
    assert_eq!(
        response.actions,
        vec![
            AppAction::ResizeSurface(size(800, 40)),
            AppAction::RequestRedraw
        ]
    );
    assert_eq!(app.last_physical_size, size(800, 40));
    assert_eq!(app.logical_size, logical(400.0, 20.0));
    assert_eq!(app.default_logical_size, logical(1920.0, 38.0));
    let actions = app.resize(size(0, 40), logical(0.0, 20.0));
    assert_eq!(actions, vec![AppAction::RequestRedraw]);
    assert_eq!(app.last_physical_size, size(0, 40));
}

#[test]
fn new_scale_resizes_and_then_places_the_window() {
    let mut app = bar("");
    let geometry = MonitorGeometry {
        x: -1920,
        y: 7,
        width: 2560,
    };
    let mut event = AppEvent::ScaleFactorChanged {
        scale_factor: 2.0f64.to_bits(),
        size: size(3840, 76),
        logical_size: logical(1920.0, 38.0),
        geometry: Some(geometry),
        bar_height: 76,
    };
    let response = app.handle_event(event);
    assert_eq!(
        response.actions,
        vec![
            AppAction::ResizeSurface(size(3840, 76)),
            AppAction::RequestRedraw,
            AppAction::Place(Placement {
                x: -1920,
                y: 7,
                size: size(2560, 76)
            }),
        ]
    );
    assert_eq!(app.scale_factor, 2.0f64.to_bits());
    assert_eq!(app.last_physical_size, size(3840, 76));
    if let AppEvent::ScaleFactorChanged { geometry, .. } = &mut event {
        *geometry = None;
    }
    assert_eq!(app.handle_event(event).actions.len(), 2);
}

#[test]
fn image_follows_the_window() {
    let mut app = bar("");
    assert_eq!(app.redraw(), Ok(RedrawPlan::Draw));
    app.resize(size(640, 38), logical(640.0, 38.0));
    let anew = RedrawPlan::DrawAnew(SurfaceSize {
        width: 640,
        height: 38,
    });
    assert_eq!(app.redraw(), Ok(anew));
    assert_eq!(app.redraw(), Ok(anew));
    app.image_replaced();
    assert_eq!(app.redraw(), Ok(RedrawPlan::Draw));
    app.resize(size(640, 0), logical(640.0, 0.0));
    assert_eq!(app.redraw(), Ok(RedrawPlan::Nothing));
    app.resize(size(u32::MAX, 1), logical(1.0, 1.0));
    assert_eq!(app.redraw(), Err(OutOfRange));
}

#[test]
fn redraw_is_drawn_when_asked_for() {
    assert_eq!(
        bar("").handle_event(AppEvent::RedrawRequested).actions,
        vec![AppAction::Redraw]
    );
}

#[test]
fn pointer_acts_where_it_moved_until_it_leaves() {
    let mut app = bar("");
    let press = AppEvent::MouseInput {
        pressed: true,
        button: MouseButton::Left,
    };
    let release = AppEvent::MouseInput {
        pressed: false,
        button: MouseButton::Left,
    };
    let wheel = AppEvent::MouseWheel((-0.5f64).to_bits());
    assert!(app.handle_event(press).actions.is_empty());
    assert!(app.handle_event(wheel).actions.is_empty());
    let here = point(12.5, 3.0);
    assert_eq!(
        app.handle_event(AppEvent::CursorMoved(here)).actions,
        vec![AppAction::PointerMotion(here)]
    );
    assert_eq!(app.last_cursor_pos, Some(here));
    assert_eq!(
        app.handle_event(press).actions,
        vec![AppAction::PointerAction(here, PointerAction::Primary)]
    );
    assert!(app.handle_event(release).actions.is_empty());
    assert_eq!(
        app.handle_event(wheel).actions,
        vec![AppAction::PointerAction(here, PointerAction::ScrollDown)]
    );
    assert_eq!(
        app.handle_event(AppEvent::MouseInput {
            pressed: true,
            button: MouseButton::Right
        })
        .actions,
        vec![AppAction::PointerAction(here, PointerAction::Secondary)]
    );
    assert_eq!(
        app.handle_event(AppEvent::CursorLeft).actions,
        vec![AppAction::PointerLeave]
    );
    assert!(app.handle_event(press).actions.is_empty());
    assert!(app.handle_event(wheel).actions.is_empty());
}

#[test]
fn hovering_redraws_where_it_changed_something() {
    assert_eq!(update_hover(true), Some(AppAction::RequestRedraw));
    assert_eq!(update_hover(false), None);
}

#[test]
fn buttons_have_their_actions() {
    assert_eq!(button_action(MouseButton::Left), Some(PointerAction::Primary));
    assert_eq!(
        button_action(MouseButton::Right),
        Some(PointerAction::Secondary)
    );
    assert_eq!(button_action(MouseButton::Middle), None);
    assert_eq!(button_action(MouseButton::Other(8)), None);
}

#[test]
fn wheel_goes_by_the_sign_of_the_turn() {
    let turns = [
        0.0,
        -0.0,
        1.0,
        -1.0,
        f64::MIN_POSITIVE,
        -f64::MIN_POSITIVE,
        f64::from_bits(1),
        -f64::from_bits(1),
        f64::MAX,
        f64::MIN,
        f64::INFINITY,
        f64::NEG_INFINITY,
        f64::NAN,
        -f64::NAN,
        f64::from_bits(0x7ff0_0000_0000_0001),
        f64::from_bits(0xfff0_0000_0000_0001),
    ];
    for turn in turns {
        let expected = if turn > 0.0 {
            Some(PointerAction::ScrollUp)
        } else if turn < 0.0 {
            Some(PointerAction::ScrollDown)
        } else {
            None
        };
        assert_eq!(wheel_action(turn.to_bits()), expected, "{turn}");
    }
}

#[test]
fn opposite_turns_oppose() {
    assert_eq!(
        wheel_action(2.5f64.to_bits()),
        Some(PointerAction::ScrollUp)
    );
    assert_eq!(
        wheel_action((-2.5f64).to_bits()),
        Some(PointerAction::ScrollDown)
    );
}

#[test]
fn update_is_handled_complaints_first_and_redraw_last() {
    let app = bar("");
    let update = RuntimeUpdate {
        changed: true,
        platform_effects: vec![
            BarEffect::Screenshot,
            BarEffect::AdjustVolume(3),
            BarEffect::ClearMonitorGeometry,
        ],
        issues: vec!["late", "lost"],
    };
    assert_eq!(
        app.handle_runtime_update(update, 38),
        vec![
            UpdateAction::WarnIssue("late"),
            UpdateAction::WarnIssue("lost"),
            UpdateAction::Platform(PlatformAction::Spawn(Program::Screenshot)),
            UpdateAction::Platform(PlatformAction::WarnUnhandled(BarEffect::AdjustVolume(3))),
            UpdateAction::Platform(PlatformAction::Restore(logical(1920.0, 38.0))),
            UpdateAction::RequestRedraw,
        ]
    );
    let nothing: RuntimeUpdate<u8, u8> = RuntimeUpdate {
        changed: false,
        platform_effects: vec![],
        issues: vec![],
    };
    assert!(app.handle_runtime_update(nothing, 38).is_empty());
}

#[test]
fn effects_have_their_actions() {
    let app = bar("");
    let geometry = MonitorGeometry {
        x: 3,
        y: -4,
        width: 1280,
    };
    let place = Placement {
        x: 3,
        y: -4,
        size: size(1280, 57),
    };
    assert_eq!(apply_monitor_geometry(geometry, 57), place);
    let effect: BarEffect<u8> = BarEffect::ApplyMonitorGeometry(geometry);
    assert_eq!(
        app.handle_platform_effect(effect, 57),
        PlatformAction::Place(place)
    );
    let effect: BarEffect<u8> = BarEffect::OpenAudioControl;
    assert_eq!(
        handle_platform_effect(effect, 57, logical(1.0, 2.0)),
        PlatformAction::Spawn(Program::AudioControl)
    );
    let effect: BarEffect<u8> = BarEffect::ToggleMute;
    assert_eq!(
        app.handle_platform_effect(effect, 57),
        PlatformAction::WarnUnhandled(BarEffect::ToggleMute)
    );
    let effect: BarEffect<u8> = BarEffect::RefreshBattery;
    assert_eq!(
        app.handle_platform_effect(effect, 57),
        PlatformAction::WarnUnhandled(BarEffect::RefreshBattery)
    );
    let effect: BarEffect<u8> = BarEffect::WindowManager(9);
    assert_eq!(
        app.handle_platform_effect(effect, 57),
        PlatformAction::WarnUnhandled(BarEffect::WindowManager(9))
    );
    let effect: BarEffect<u8> = BarEffect::AdjustBrightness(1);
    assert_eq!(
        app.handle_platform_effect(effect, 57),
        PlatformAction::WarnUnhandled(BarEffect::AdjustBrightness(1))
    );
}

#[test]
fn programs_have_their_command_lines() {
    let command = Program::Screenshot.command_line();
    assert_eq!(command.program, "flameshot");
    assert_eq!(command.args, vec!["gui".to_string()]);
    let command = Program::AudioControl.command_line();
    assert_eq!(command.program, "pavucontrol");
    assert!(command.args.is_empty());
}

#[test]
fn back_buffer_is_made_and_kept_and_replaced() {
    let (mut back, image) = CairoBackBuffer::new(5, 7).unwrap();
    assert_eq!(
        image,
        SurfaceSize {
            width: 5,
            height: 7
        }
    );
    assert_eq!(back.ensure_size(5, 7), Ok(None));
    assert_eq!(
        back.ensure_size(7, 5),
        Ok(Some(SurfaceSize {
            width: 7,
            height: 5
        }))
    );
    assert_eq!(back.ensure_size(5, 1 << 31), Err(OutOfRange));
    assert_eq!(back.ensure_size(5, 7), Ok(None));
    back.replaced(7, 5);
    assert_eq!(back.ensure_size(7, 5), Ok(None));
    assert_eq!(CairoBackBuffer::new(1 << 31, 1), Err(OutOfRange));
    assert_eq!(CairoBackBuffer::new(1, u32::MAX), Err(OutOfRange));
}

#[test]
fn surfaces_take_signed_sides() {
    assert_eq!(
        surface_size(size(0x7fff_ffff, 0)),
        Ok(SurfaceSize {
            width: i32::MAX,
            height: 0
        })
    );
    assert_eq!(surface_size(size(0x8000_0000, 0)), Err(OutOfRange));
    assert_eq!(surface_size(size(0, 0x8000_0000)), Err(OutOfRange));
    assert_eq!(resize_soft_surface(size(1, 2)), Some(size(1, 2)));
    assert_eq!(resize_soft_surface(size(0, 2)), None);
    assert_eq!(resize_soft_surface(size(1, 0)), None);
    assert_eq!(frame_stride(7680), Ok(7680));
    assert_eq!(frame_stride(0), Ok(0));
    assert_eq!(frame_stride(-1), Err(OutOfRange));
}

#[test]
fn screen_is_the_monitor_or_an_assumed_one() {
    assert_eq!(screen_size(Some(size(2560, 1440))), size(2560, 1440));
    assert_eq!(screen_size(None), size(1920, 1080));
}

#[test]
fn path_is_the_last_argument() {
    let args = |list: &[&str]| list.iter().map(|arg| arg.to_string()).collect::<Vec<_>>();
    assert_eq!(shared_path(args(&["bar", "/a", "/b"])), "/b");
    assert_eq!(shared_path(args(&["bar", "/a"])), "/a");
    assert_eq!(shared_path(args(&["bar"])), "");
    assert_eq!(shared_path(args(&[])), "");
    assert!(wants_transport(&"/a".to_string()));
    assert!(!wants_transport(&String::new()));
}

#[test]
fn font_is_the_configured_or_a_plain_one() {
    assert_eq!(font_description(Some("Sans 9".to_string())), "Sans 9");
    assert_eq!(font_description(Some(String::new())), "");
    assert_eq!(font_description(None), "monospace 11");
}

#[test]
fn status_other_than_zero_is_an_error() {
    assert_eq!(exit_outcome(0), Ok(()));
    assert_eq!(exit_outcome(3), Err(3));
    assert_eq!(exit_outcome(-1), Err(-1));
}

#[test]
fn recorded_size_is_that_of_the_last_image() {
    let (mut back, mut image) = CairoBackBuffer::new(4, 3).unwrap();
    let drawings = [
        (4, 3, true),
        (8, 3, false),
        (8, 3, true),
        (u32::MAX, 3, true),
        (8, 3, true),
        (2, 2, true),
    ];
    let mut made = 0;
    for (width, height, image_can_be_made) in drawings {
        if let Ok(Some(new_image)) = back.ensure_size(width, height) {
            if image_can_be_made {
                image = new_image;
                back.replaced(width, height);
                made += 1;
            }
        }
        assert_eq!(image.width as u32, back.width);
        assert_eq!(image.height as u32, back.height);
    }
    assert_eq!(made, 2);
    assert_eq!(
        image,
        SurfaceSize {
            width: 2,
            height: 2
        }
    );
}

#[test]
fn first_attempt_keeps_its_distance_from_the_start() {
    let mut app = bar("/run/wm");
    for now in [START, START + 1_000_000_000, START + 1_999_999_999] {
        assert_eq!(app.tick_and_poll(false, now), vec![AppAction::TickAndPoll]);
    }
    assert_eq!(app.tick_and_poll(false, START + 2_000_000_000).len(), 2);
}
