//! The state of the running bar and what it does about each event.

use crate::back_buffer::CairoBackBuffer;
use crate::effects::{
    apply_monitor_geometry, handle_platform_effect, handle_runtime_update, BarEffect, Placement,
    PlatformAction, RuntimeUpdate, UpdateAction,
};
use crate::geometry::{
    resize_soft_surface, LogicalSize, MonitorGeometry, OutOfRange, PhysicalSize, Point, SurfaceSize,
};
use crate::pointer::{button_action, wheel_action, MouseButton, PointerAction};
use vstd::prelude::*;

verus! {

/// How long to wait at least between two attempts to reach the window manager,
/// in nanoseconds.
pub const TRANSPORT_RETRY_INTERVAL: u128 = 2_000_000_000;

/// What happened to the bar.
#[derive(Clone, Copy, Debug, PartialEq, Eq, Structural)]
pub enum AppEvent {
    /// A second began. `connected` tells whether the window manager is reached;
    /// `now` is the time in nanoseconds on a clock that never runs backwards.
    Tick { connected: bool, now: u128 },
    /// The window manager has news.
    SharedUpdated,
    /// The window is to be closed.
    CloseRequested,
    /// The window is gone.
    Destroyed,
    /// The window has a new size, here with its counterpart before scaling.
    Resized { size: PhysicalSize, logical_size: LogicalSize },
    /// The window has a new scale factor (the bits of an `f64`) and a new size.
    /// `geometry` is the place that the window manager gave to the bar, and
    /// `bar_height` the height of the bar in pixels of the screen at the new
    /// scale.
    ScaleFactorChanged {
        scale_factor: u64,
        size: PhysicalSize,
        logical_size: LogicalSize,
        geometry: Option<MonitorGeometry>,
        bar_height: u32,
    },
    /// The pointer moved over the window.
    CursorMoved(Point),
    /// The pointer left the window.
    CursorLeft,
    /// A button went down or up.
    MouseInput { pressed: bool, button: MouseButton },
    /// The wheel turned, by the `f64` with these bits.
    MouseWheel(u64),
    /// The window is to be drawn.
    RedrawRequested,
    /// Anything else.
    Other,
}

/// Something to do, in the order in which it is listed. An action that reports
/// back is done with, report and all, before the next one begins.
#[derive(Clone, Copy, Debug, PartialEq, Eq, Structural)]
pub enum AppAction {
    /// Try to reach the window manager; if that succeeds, use the connection.
    OpenTransport,
    /// Let the bar's clock advance, and handle the update.
    Tick,
    /// Read all news from the window manager, and handle the update.
    PollTransport,
    /// Let the bar's clock advance, read all news from the window manager, and
    /// handle the two updates as one.
    TickAndPoll,
    /// Lower the flag of the update that is being handled.
    LowerPending,
    /// Give the window's pixel buffer this size; a failure is only reported.
    ResizeSurface(PhysicalSize),
    /// Ask for the window to be drawn anew.
    RequestRedraw,
    /// Draw the window.
    Redraw,
    /// Tell the bar where the pointer is, and handle what it says about hovering.
    PointerMotion(Point),
    /// Tell the bar that the pointer left, and handle what it says about hovering.
    PointerLeave,
    /// Let the pointer act on the bar, and handle the update.
    PointerAction(Point, PointerAction),
    /// Move and resize the window.
    Place(Placement),
}

/// Whether the event loop goes on.
#[derive(Clone, Copy, Debug, PartialEq, Eq, Structural)]
pub enum ControlFlow {
    Wait,
    Exit,
}

/// What to do about an event.
#[derive(Debug, PartialEq, Eq)]
pub struct Response {
    pub control_flow: ControlFlow,
    pub actions: Vec<AppAction>,
}

/// What it takes to draw the window.
#[derive(Clone, Copy, Debug, PartialEq, Eq, Structural)]
pub enum RedrawPlan {
    /// There is nothing to draw on.
    Nothing,
    /// Draw into the image that is there.
    Draw,
    /// Make an image of this size, then draw into it.
    DrawAnew(SurfaceSize),
}

/// The state of the running bar.
#[derive(Debug, PartialEq, Eq)]
pub struct App {
    pub back: CairoBackBuffer,
    /// The bits of an `f64`.
    pub scale_factor: u64,
    pub logical_size: LogicalSize,
    pub default_logical_size: LogicalSize,
    pub last_physical_size: PhysicalSize,
    pub last_cursor_pos: Option<Point>,
    pub shared_path: String,
    /// The time of the last attempt to reach the window manager.
    pub last_transport_attempt: u128,
}

/// The actions of giving the window a new size.
pub open spec fn resize_actions(size: PhysicalSize) -> Seq<AppAction> {
    if size.is_degenerate() {
        seq![AppAction::RequestRedraw]
    } else {
        seq![AppAction::ResizeSurface(size), AppAction::RequestRedraw]
    }
}

/// Whether the event loop goes on after an event.
pub open spec fn control_flow(event: AppEvent) -> ControlFlow {
    if event == AppEvent::CloseRequested || event == AppEvent::Destroyed {
        ControlFlow::Exit
    } else {
        ControlFlow::Wait
    }
}

/// The actions of taking in news from the window manager.
pub open spec fn shared_update_actions() -> Seq<AppAction> {
    seq![AppAction::PollTransport, AppAction::LowerPending]
}

/// A redraw where the bar says that what the pointer hovers over has changed.
pub fn update_hover(changed: bool) -> (r: Option<AppAction>)
    ensures
        r == (if changed {
            Some(AppAction::RequestRedraw)
        } else {
            None
        }),
{
    if changed {
        Some(AppAction::RequestRedraw)
    } else {
        None
    }
}

/// The actions that bring the bar to the screen when it starts.
pub fn start() -> (r: Vec<AppAction>)
    ensures
        r@ == seq![AppAction::Tick, AppAction::PollTransport, AppAction::RequestRedraw],
{
    let actions: Vec<AppAction> = vec![
        AppAction::Tick,
        AppAction::PollTransport,
        AppAction::RequestRedraw,
    ];
    assert(actions@ =~= seq![AppAction::Tick, AppAction::PollTransport, AppAction::RequestRedraw]);
    actions
}

impl App {
    /// Whether an attempt to reach the window manager is due.
    pub open spec fn retry_due(self, connected: bool, now: u128) -> bool {
        &&& self.shared_path@.len() > 0
        &&& !connected
        &&& now - self.last_transport_attempt >= TRANSPORT_RETRY_INTERVAL
    }

    /// The actions of a tick.
    pub open spec fn tick_actions(self, connected: bool, now: u128) -> Seq<AppAction> {
        if self.retry_due(connected, now) {
            seq![AppAction::OpenTransport, AppAction::TickAndPoll]
        } else {
            seq![AppAction::TickAndPoll]
        }
    }

    /// The state after a tick.
    pub open spec fn after_tick(self, connected: bool, now: u128) -> App {
        if self.retry_due(connected, now) {
            App { last_transport_attempt: now, ..self }
        } else {
            self
        }
    }

    /// What the pointer does where it is last known to be: nothing where it is
    /// not over the window.
    pub open spec fn pointer_actions(self, action: Option<PointerAction>) -> Seq<AppAction> {
        match (self.last_cursor_pos, action) {
            (Some(point), Some(action)) => seq![AppAction::PointerAction(point, action)],
            _ => seq![],
        }
    }

    /// The state after an event.
    pub open spec fn after(self, event: AppEvent) -> App {
        match event {
            AppEvent::Tick { connected, now } => self.after_tick(connected, now),
            AppEvent::Resized { size, logical_size } => App {
                last_physical_size: size,
                logical_size,
                ..self
            },
            AppEvent::ScaleFactorChanged { scale_factor, size, logical_size, .. } => App {
                scale_factor,
                last_physical_size: size,
                logical_size,
                ..self
            },
            AppEvent::CursorMoved(point) => App { last_cursor_pos: Some(point), ..self },
            AppEvent::CursorLeft => App { last_cursor_pos: None, ..self },
            _ => self,
        }
    }

    /// The actions that an event calls for.
    pub open spec fn actions(self, event: AppEvent) -> Seq<AppAction> {
        match event {
            AppEvent::Tick { connected, now } => self.tick_actions(connected, now),
            AppEvent::SharedUpdated => shared_update_actions(),
            AppEvent::Resized { size, .. } => resize_actions(size),
            AppEvent::ScaleFactorChanged { size, geometry, bar_height, .. } => match geometry {
                Some(geometry) => resize_actions(size).push(
                    AppAction::Place(crate::effects::placement(geometry, bar_height)),
                ),
                None => resize_actions(size),
            },
            AppEvent::CursorMoved(point) => seq![AppAction::PointerMotion(point)],
            AppEvent::CursorLeft => seq![AppAction::PointerLeave],
            AppEvent::MouseInput { pressed, button } => match (pressed, button) {
                (true, MouseButton::Left) => self.pointer_actions(Some(PointerAction::Primary)),
                (true, MouseButton::Right) => self.pointer_actions(Some(PointerAction::Secondary)),
                _ => seq![],
            },
            AppEvent::MouseWheel(turn) => self.pointer_actions(
                crate::pointer::wheel_meaning(turn),
            ),
            AppEvent::RedrawRequested => seq![AppAction::Redraw],
            AppEvent::CloseRequested | AppEvent::Destroyed | AppEvent::Other => seq![],
        }
    }

    /// What it takes to draw the window.
    pub open spec fn redraw_plan(self) -> Result<RedrawPlan, OutOfRange> {
        let size = self.last_physical_size;
        if size.is_degenerate() {
            Ok(RedrawPlan::Nothing)
        } else {
            match crate::back_buffer::size_plan(self.back@, size) {
                Ok(None) => Ok(RedrawPlan::Draw),
                Ok(Some(image)) => Ok(RedrawPlan::DrawAnew(image)),
                Err(error) => Err(error),
            }
        }
    }

    /// The state of a bar that starts in a window of the given size, together
    /// with the size of the image to make for it. There is none for a side
    /// beyond the signed range.
    pub fn new(
        physical_size: PhysicalSize,
        logical_size: LogicalSize,
        scale_factor: u64,
        shared_path: String,
        now: u128,
    ) -> (r: Result<(Self, SurfaceSize), OutOfRange>)
        ensures
            match r {
                Ok((app, image)) => {
                    &&& physical_size.fits_surface()
                    &&& image.is(physical_size)
                    &&& app.back@ == physical_size
                    &&& app.scale_factor == scale_factor
                    &&& app.logical_size == logical_size
                    &&& app.default_logical_size == logical_size
                    &&& app.last_physical_size == physical_size
                    &&& app.last_cursor_pos is None
                    &&& app.shared_path == shared_path
                    &&& app.last_transport_attempt == now
                },
                Err(_) => !physical_size.fits_surface(),
            },
    {
        match CairoBackBuffer::new(physical_size.width, physical_size.height) {
            Ok((back, image)) => {
                let app: App = App {
                    back,
                    scale_factor,
                    logical_size,
                    default_logical_size: logical_size,
                    last_physical_size: physical_size,
                    last_cursor_pos: None,
                    shared_path,
                    last_transport_attempt: now,
                };
                Ok((app, image))
            },
            Err(error) => Err(error),
        }
    }

    /// Says what it takes to draw the window at its present size.
    pub fn redraw(&self) -> (r: Result<RedrawPlan, OutOfRange>)
        ensures
            r == self.redraw_plan(),
    {
        let PhysicalSize { width, height } = self.last_physical_size;
        if width == 0 || height == 0 {
            return Ok(RedrawPlan::Nothing);
        }
        match self.back.ensure_size(width, height) {
            Ok(Some(image)) => Ok(RedrawPlan::DrawAnew(image)),
            Ok(None) => Ok(RedrawPlan::Draw),
            Err(error) => Err(error),
        }
    }

    /// Takes note that the image has been made anew at the size of the window, as
    /// the plan for drawing it asked.
    pub fn image_replaced(&mut self)
        requires
            old(self).redraw_plan() matches Ok(RedrawPlan::DrawAnew(_)),
        ensures
            *final(self) == (App { back: final(self).back, ..*old(self) }),
            final(self).back@ == old(self).last_physical_size,
    {
        let PhysicalSize { width, height } = self.last_physical_size;
        self.back.replaced(width, height);
    }

    /// Takes in a new size of the window.
    pub fn resize(&mut self, size: PhysicalSize, logical_size: LogicalSize) -> (r: Vec<AppAction>)
        ensures
            *final(self) == (App { last_physical_size: size, logical_size, ..*old(self) }),
            r@ == resize_actions(size),
    {
        self.last_physical_size = size;
        self.logical_size = logical_size;
        let mut actions: Vec<AppAction> = Vec::new();
        match resize_soft_surface(size) {
            Some(surface) => {
                actions.push(AppAction::ResizeSurface(surface));
            },
            None => {},
        }
        actions.push(AppAction::RequestRedraw);
        assert(actions@ =~= resize_actions(size));
        actions
    }

    /// Takes in a tick: an attempt to reach the window manager comes first,
    /// where one is due.
    pub fn tick_and_poll(&mut self, connected: bool, now: u128) -> (r: Vec<AppAction>)
        ensures
            *final(self) == old(self).after_tick(connected, now),
            r@ == old(self).tick_actions(connected, now),
    {
        let mut actions: Vec<AppAction> = Vec::new();
        if !self.shared_path.as_str().is_empty() && !connected && now.saturating_sub(
            self.last_transport_attempt,
        ) >= TRANSPORT_RETRY_INTERVAL {
            self.last_transport_attempt = now;
            actions.push(AppAction::OpenTransport);
        }
        actions.push(AppAction::TickAndPoll);
        assert(actions@ =~= old(self).tick_actions(connected, now));
        actions
    }

    /// Lets the pointer act where it is last known to be.
    pub fn handle_pointer_action(&self, action: Option<PointerAction>) -> (r: Vec<AppAction>)
        ensures
            r@ == self.pointer_actions(action),
    {
        let mut actions: Vec<AppAction> = Vec::new();
        match (self.last_cursor_pos, action) {
            (Some(point), Some(action)) => {
                actions.push(AppAction::PointerAction(point, action));
            },
            _ => {},
        }
        assert(actions@ =~= self.pointer_actions(action));
        actions
    }

    /// Says what to do about one effect of the runtime. `bar_height` is the
    /// height of the bar in pixels of the screen.
    pub fn handle_platform_effect<D>(&self, effect: BarEffect<D>, bar_height: u32) -> (r:
        PlatformAction<D>)
        ensures
            r == effect.handling(bar_height, self.default_logical_size),
    {
        handle_platform_effect(effect, bar_height, self.default_logical_size)
    }

    /// Says how to handle an update of the runtime, step by step. `bar_height`
    /// is the height of the bar in pixels of the screen.
    pub fn handle_runtime_update<D, I>(&self, update: RuntimeUpdate<D, I>, bar_height: u32) -> (r:
        Vec<UpdateAction<D, I>>)
        ensures
            r@ == update.handling(bar_height, self.default_logical_size),
    {
        handle_runtime_update(update, bar_height, self.default_logical_size)
    }

    /// Takes in an event and says what to do about it.
    pub fn handle_event(&mut self, event: AppEvent) -> (r: Response)
        ensures
            *final(self) == old(self).after(event),
            r.actions@ == old(self).actions(event),
            r.control_flow == (if event == AppEvent::CloseRequested || event
                == AppEvent::Destroyed {
                ControlFlow::Exit
            } else {
                ControlFlow::Wait
            }),
            r.control_flow == control_flow(event),
    {
        let mut control_flow: ControlFlow = ControlFlow::Wait;
        let mut actions: Vec<AppAction> = Vec::new();
        match event {
            AppEvent::Tick { connected, now } => {
                actions = self.tick_and_poll(connected, now);
            },
            AppEvent::SharedUpdated => {
                actions.push(AppAction::PollTransport);
                actions.push(AppAction::LowerPending);
            },
            AppEvent::CloseRequested | AppEvent::Destroyed => {
                control_flow = ControlFlow::Exit;
            },
            AppEvent::Resized { size, logical_size } => {
                actions = self.resize(size, logical_size);
            },
            AppEvent::ScaleFactorChanged {
                scale_factor,
                size,
                logical_size,
                geometry,
                bar_height,
            } => {
                self.scale_factor = scale_factor;
                actions = self.resize(size, logical_size);
                match geometry {
                    Some(geometry) => {
                        actions.push(
                            AppAction::Place(apply_monitor_geometry(geometry, bar_height)),
                        );
                    },
                    None => {},
                }
            },
            AppEvent::CursorMoved(point) => {
                self.last_cursor_pos = Some(point);
                actions.push(AppAction::PointerMotion(point));
            },
            AppEvent::CursorLeft => {
                self.last_cursor_pos = None;
                actions.push(AppAction::PointerLeave);
            },
            AppEvent::MouseInput { pressed, button } => {
                if pressed {
                    actions = self.handle_pointer_action(button_action(button));
                }
            },
            AppEvent::MouseWheel(turn) => {
                actions = self.handle_pointer_action(wheel_action(turn));
            },
            AppEvent::RedrawRequested => {
                actions.push(AppAction::Redraw);
            },
            AppEvent::Other => {},
        }
        assert(actions@ =~= old(self).actions(event));
        Response { control_flow, actions }
    }
}

/// The state before event number `at` of a bar that began as `app`.
pub open spec fn state_at(app: App, events: Seq<AppEvent>, at: int) -> App
    decreases at,
{
    if at <= 0 {
        app
    } else {
        state_at(app, events, at - 1).after(events[at - 1])
    }
}

/// Whether event number `at` makes the bar try to reach the window manager, at
/// the time `now`.
pub open spec fn attempts_at(app: App, events: Seq<AppEvent>, at: int, now: u128) -> bool {
    events[at] matches AppEvent::Tick { connected, now: time } && time == now && state_at(
        app,
        events,
        at,
    ).retry_due(connected, now)
}

/// Whether the actions let the pointer act on the bar.
pub open spec fn lets_pointer_act(actions: Seq<AppAction>) -> bool {
    exists|i: int| 0 <= i < actions.len() && #[trigger] actions[i] is PointerAction
}

/// A tick tries to reach the window manager exactly where an attempt is due,
/// and before anything else.
pub proof fn law_attempt_comes_first(app: App, connected: bool, now: u128)
    ensures
        app.actions(AppEvent::Tick { connected, now }).contains(AppAction::OpenTransport)
            <==> app.retry_due(connected, now),
        app.retry_due(connected, now) ==> app.actions(AppEvent::Tick { connected, now }).first()
            == AppAction::OpenTransport,
{
    let actions = app.actions(AppEvent::Tick { connected, now });
    if app.retry_due(connected, now) {
        assert(actions[0] == AppAction::OpenTransport);
    }
}

/// The time of the last attempt never runs backwards.
proof fn lemma_last_attempt_grows(app: App, events: Seq<AppEvent>, from: int, to: int)
    requires
        0 <= from <= to,
    ensures
        state_at(app, events, from).last_transport_attempt <= state_at(
            app,
            events,
            to,
        ).last_transport_attempt,
    decreases to,
{
    if from < to {
        lemma_last_attempt_grows(app, events, from, to - 1);
    }
}

/// No attempt to reach the window manager is closer to the start of the bar than
/// the retry interval.
pub proof fn law_first_attempt_keeps_its_distance(
    app: App,
    events: Seq<AppEvent>,
    at: int,
    now: u128,
)
    requires
        0 <= at < events.len(),
        attempts_at(app, events, at, now),
    ensures
        now - app.last_transport_attempt >= TRANSPORT_RETRY_INTERVAL,
{
    lemma_last_attempt_grows(app, events, 0, at);
}

/// Two attempts to reach the window manager are never closer together than the
/// retry interval, whatever happens in between.
pub proof fn law_attempts_keep_their_distance(
    app: App,
    events: Seq<AppEvent>,
    first: int,
    second: int,
    first_now: u128,
    second_now: u128,
)
    requires
        0 <= first < second < events.len(),
        attempts_at(app, events, first, first_now),
        attempts_at(app, events, second, second_now),
    ensures
        second_now - first_now >= TRANSPORT_RETRY_INTERVAL,
{
    lemma_last_attempt_grows(app, events, first + 1, second);
    assert(state_at(app, events, first + 1).last_transport_attempt == first_now);
}

/// A bar that was given no path, or that is connected, never tries to reach the
/// window manager.
pub proof fn law_no_needless_attempt(app: App, connected: bool, now: u128)
    requires
        app.shared_path@.len() == 0 || connected,
    ensures
        app.actions(AppEvent::Tick { connected, now }) == seq![AppAction::TickAndPoll],
        app.after(AppEvent::Tick { connected, now }) == app,
{
}

/// No event changes the path of the connection, the size that the window began
/// with, or the size that the image is known to have.
pub proof fn law_givens_never_change(app: App, events: Seq<AppEvent>, at: int)
    requires
        0 <= at <= events.len(),
    ensures
        state_at(app, events, at).shared_path == app.shared_path,
        state_at(app, events, at).default_logical_size == app.default_logical_size,
        state_at(app, events, at).back == app.back,
    decreases at,
{
    if at > 0 {
        law_givens_never_change(app, events, at - 1);
    }
}

/// The bar knows the pointer where it last moved to, as long as it did not
/// leave since.
pub proof fn law_pointer_stays_where_it_moved(
    app: App,
    events: Seq<AppEvent>,
    moved: int,
    at: int,
    point: Point,
)
    requires
        0 <= moved < at <= events.len(),
        events[moved] == AppEvent::CursorMoved(point),
        forall|i: int|
            moved < i < at ==> !(#[trigger] events[i] is CursorMoved) && !(events[i] is CursorLeft),
    ensures
        state_at(app, events, at).last_cursor_pos == Some(point),
    decreases at,
{
    if moved < at - 1 {
        law_pointer_stays_where_it_moved(app, events, moved, at - 1, point);
    }
}

/// Once the pointer has left the window, it does nothing until it moves over
/// the window again.
pub proof fn law_absent_pointer_does_nothing(
    app: App,
    events: Seq<AppEvent>,
    left: int,
    at: int,
)
    requires
        0 <= left < at < events.len(),
        events[left] == AppEvent::CursorLeft,
        forall|i: int| left < i < at ==> !(#[trigger] events[i] is CursorMoved),
    ensures
        state_at(app, events, at).last_cursor_pos is None,
        !lets_pointer_act(state_at(app, events, at).actions(events[at])),
    decreases at,
{
    if left < at - 1 {
        law_absent_pointer_does_nothing(app, events, left, at - 1);
    }
    let here = state_at(app, events, at);
    let actions = here.actions(events[at]);
    assert(here == state_at(app, events, at - 1).after(events[at - 1]));
    assert forall|i: int| 0 <= i < actions.len() implies !(#[trigger] actions[i] is PointerAction) by {}
}

/// The pointer acts where it is: every action of a button or the wheel is at
/// the point that the bar last knew.
pub proof fn law_pointer_acts_where_it_is(app: App, event: AppEvent, i: int)
    requires
        0 <= i < app.actions(event).len(),
        app.actions(event)[i] is PointerAction,
    ensures
        app.last_cursor_pos == Some(app.actions(event)[i]->PointerAction_0),
        event is MouseInput || event is MouseWheel,
{
}

/// A button that goes up does nothing.
pub proof fn law_released_button_does_nothing(app: App, button: MouseButton)
    ensures
        app.actions(AppEvent::MouseInput { pressed: false, button }) == Seq::<AppAction>::empty(),
        app.after(AppEvent::MouseInput { pressed: false, button }) == app,
{
}

/// News is read before the flag of the update is lowered, and the flag is
/// lowered for every update.
pub proof fn law_update_lowers_flag_last(app: App)
    ensures
        app.actions(AppEvent::SharedUpdated).first() == AppAction::PollTransport,
        app.actions(AppEvent::SharedUpdated).last() == AppAction::LowerPending,
        app.actions(AppEvent::SharedUpdated).len() == 2,
{
}

/// A change of the window's size is always followed by a redraw, and the pixel
/// buffer is never given a side of zero.
pub proof fn law_resize_redraws(size: PhysicalSize)
    ensures
        resize_actions(size).last() == AppAction::RequestRedraw,
        forall|i: int|
            0 <= i < resize_actions(size).len() && #[trigger] resize_actions(size)[i]
                is ResizeSurface ==> resize_actions(size)[i] == AppAction::ResizeSurface(size)
                && !size.is_degenerate(),
{
}

/// Once the image has been made anew it is not made again before the window
/// has another size.
pub proof fn law_image_is_made_once(app: App)
    requires
        app.back@ == app.last_physical_size,
    ensures
        app.redraw_plan() == Ok::<RedrawPlan, OutOfRange>(
            if app.last_physical_size.is_degenerate() {
                RedrawPlan::Nothing
            } else {
                RedrawPlan::Draw
            },
        ),
{
}

/// An image that is made anew has the size of the window, and once it is noted
/// the bar draws into it.
pub proof fn law_new_image_has_size_of_window(app: App, image: SurfaceSize, next: App)
    requires
        app.redraw_plan() == Ok::<RedrawPlan, OutOfRange>(RedrawPlan::DrawAnew(image)),
        next == (App { back: next.back, ..app }),
        next.back@ == app.last_physical_size,
    ensures
        image.is(app.last_physical_size),
        image.is(next.back@),
        next.redraw_plan() == Ok::<RedrawPlan, OutOfRange>(RedrawPlan::Draw),
{
}

/// The image that is drawn into always has the width and the height of the
/// window: the one that is there is used exactly where it has both, and a new one
/// is made at exactly that size where either differs. There is nothing to draw
/// exactly where a side of the window is zero, and no image exactly where one is
/// needed and cannot be that large.
pub proof fn law_image_drawn_into_has_size_of_window(
    app: App,
    plan: Result<RedrawPlan, OutOfRange>,
)
    requires
        call_ensures(App::redraw, (&app,), plan),
    ensures
        ({
            let (width, height) = (app.last_physical_size.width, app.last_physical_size.height);
            let empty = width == 0 || height == 0;
            let same = app.back.width == width && app.back.height == height;
            let possible = width < 0x8000_0000 && height < 0x8000_0000;
            &&& plan == Ok::<RedrawPlan, OutOfRange>(RedrawPlan::Nothing) <==> empty
            &&& plan == Ok::<RedrawPlan, OutOfRange>(RedrawPlan::Draw) <==> !empty && same
            &&& (plan matches Ok(RedrawPlan::DrawAnew(_))) <==> !empty && !same && possible
            &&& plan is Err <==> !empty && !same && !possible
            &&& plan matches Ok(RedrawPlan::DrawAnew(image)) ==> image.width as int == width as int
                && image.height as int == height as int
        }),
        plan == app.redraw_plan(),
{
}

/// A window that changes either side is drawn into a new image of its new size,
/// wherever there is something to draw and an image can be that large.
pub proof fn law_resized_window_gets_new_image(
    app: App,
    size: PhysicalSize,
    logical_size: LogicalSize,
)
    requires
        app.back.width == app.last_physical_size.width,
        app.back.height == app.last_physical_size.height,
        size.width != app.last_physical_size.width || size.height != app.last_physical_size.height,
        0 < size.width < 0x8000_0000,
        0 < size.height < 0x8000_0000,
    ensures
        app.after(AppEvent::Resized { size, logical_size }).redraw_plan() matches Ok(
            RedrawPlan::DrawAnew(image),
        ) && image.width as int == size.width as int && image.height as int == size.height as int,
{
}

/// A bar starts only in a window that an image can be made for, with an image of
/// the size of the window, and knows what it was given and nothing of the pointer.
pub proof fn law_new_bar_is_as_given(
    physical_size: PhysicalSize,
    logical_size: LogicalSize,
    scale_factor: u64,
    shared_path: String,
    now: u128,
    r: Result<(App, SurfaceSize), OutOfRange>,
)
    requires
        call_ensures(App::new, (physical_size, logical_size, scale_factor, shared_path, now), r),
    ensures
        r is Ok <==> physical_size.width < 0x8000_0000 && physical_size.height < 0x8000_0000,
        r matches Ok((app, image)) ==> {
            &&& image.width as int == physical_size.width as int
            &&& image.height as int == physical_size.height as int
            &&& app.back.width == physical_size.width
            &&& app.back.height == physical_size.height
            &&& app.last_physical_size == physical_size
            &&& app.logical_size == logical_size
            &&& app.default_logical_size == logical_size
            &&& app.scale_factor == scale_factor
            &&& app.last_cursor_pos == None::<Point>
            &&& app.shared_path@ == shared_path@
            &&& app.last_transport_attempt == now
        },
{
}

/// A new size of the window is taken in whole, with its counterpart before
/// scaling, and a new scale factor with both.
pub proof fn law_new_size_is_taken_in(
    app: App,
    scale_factor: u64,
    size: PhysicalSize,
    logical_size: LogicalSize,
    geometry: Option<MonitorGeometry>,
    bar_height: u32,
)
    ensures
        ({
            let resized = app.after(AppEvent::Resized { size, logical_size });
            let scaled = app.after(
                AppEvent::ScaleFactorChanged {
                    scale_factor,
                    size,
                    logical_size,
                    geometry,
                    bar_height,
                },
            );
            &&& resized.last_physical_size == size
            &&& resized.logical_size == logical_size
            &&& resized.scale_factor == app.scale_factor
            &&& scaled.last_physical_size == size
            &&& scaled.logical_size == logical_size
            &&& scaled.scale_factor == scale_factor
        }),
{
}

/// Nothing but a report of the window changes what the bar knows of its size and
/// scale, nothing but the pointer what it knows of the pointer, and nothing but a
/// tick the time of the last attempt.
pub proof fn law_events_change_only_what_they_report(app: App, event: AppEvent)
    ensures
        ({
            let next = app.after(event);
            &&& !(event is Resized) && !(event is ScaleFactorChanged) ==> {
                &&& next.last_physical_size == app.last_physical_size
                &&& next.logical_size == app.logical_size
            }
            &&& !(event is ScaleFactorChanged) ==> next.scale_factor == app.scale_factor
            &&& !(event is CursorMoved) && !(event is CursorLeft) ==> next.last_cursor_pos
                == app.last_cursor_pos
            &&& !(event is Tick) ==> next.last_transport_attempt == app.last_transport_attempt
            &&& next.back == app.back
            &&& next.default_logical_size == app.default_logical_size
            &&& next.shared_path == app.shared_path
        }),
{
}

/// Whether an event reports this size and this counterpart of it.
pub open spec fn reports_size(event: AppEvent, size: PhysicalSize, logical_size: LogicalSize) -> bool {
    ||| event == (AppEvent::Resized { size, logical_size })
    ||| event matches AppEvent::ScaleFactorChanged { size: s, logical_size: l, .. } && s == size
        && l == logical_size
}

/// After any course of events the sizes that the bar knows are those of the last
/// report of the window.
pub proof fn law_sizes_are_those_last_reported(
    app: App,
    events: Seq<AppEvent>,
    last: int,
    at: int,
    size: PhysicalSize,
    logical_size: LogicalSize,
)
    requires
        0 <= last < at <= events.len(),
        reports_size(events[last], size, logical_size),
        forall|i: int|
            last < i < at ==> !(#[trigger] events[i] is Resized) && !(events[i]
                is ScaleFactorChanged),
    ensures
        state_at(app, events, at).last_physical_size == size,
        state_at(app, events, at).logical_size == logical_size,
    decreases at,
{
    if last < at - 1 {
        law_sizes_are_those_last_reported(app, events, last, at - 1, size, logical_size);
    }
}

/// After any course of events the scale factor is that of the last change of it.
pub proof fn law_scale_is_that_last_reported(
    app: App,
    events: Seq<AppEvent>,
    last: int,
    at: int,
    scale_factor: u64,
)
    requires
        0 <= last < at <= events.len(),
        events[last] matches AppEvent::ScaleFactorChanged { scale_factor: s, .. } && s
            == scale_factor,
        forall|i: int| last < i < at ==> !(#[trigger] events[i] is ScaleFactorChanged),
    ensures
        state_at(app, events, at).scale_factor == scale_factor,
    decreases at,
{
    if last < at - 1 {
        law_scale_is_that_last_reported(app, events, last, at - 1, scale_factor);
    }
}

/// A new size redraws the window, after the pixel buffer was given that size
/// wherever neither side is zero; a zero side leaves the pixel buffer alone.
pub proof fn law_new_size_reaches_pixel_buffer(
    app: App,
    size: PhysicalSize,
    logical_size: LogicalSize,
)
    ensures
        ({
            let actions = app.actions(AppEvent::Resized { size, logical_size });
            &&& size.width > 0 && size.height > 0 ==> {
                &&& actions.len() == 2
                &&& actions[0] == AppAction::ResizeSurface(size)
                &&& actions[1] == AppAction::RequestRedraw
            }
            &&& size.width == 0 || size.height == 0 ==> {
                &&& actions.len() == 1
                &&& actions[0] == AppAction::RequestRedraw
            }
        }),
{
}

/// A new scale does what a new size does, and then puts the bar where the window
/// manager wanted it, at its new height, where there is such a place.
pub proof fn law_new_scale_resizes_and_places(
    app: App,
    scale_factor: u64,
    size: PhysicalSize,
    logical_size: LogicalSize,
    geometry: Option<MonitorGeometry>,
    bar_height: u32,
)
    ensures
        ({
            let resized = app.actions(AppEvent::Resized { size, logical_size });
            let actions = app.actions(
                AppEvent::ScaleFactorChanged {
                    scale_factor,
                    size,
                    logical_size,
                    geometry,
                    bar_height,
                },
            );
            match geometry {
                None => actions == resized,
                Some(geometry) => {
                    &&& actions.len() == resized.len() + 1
                    &&& actions.drop_last() == resized
                    &&& actions.last() matches AppAction::Place(place) && place.x == geometry.x
                        && place.y == geometry.y && place.size.width == geometry.width
                        && place.size.height == bar_height
                },
            }
        }),
{
    let resized = app.actions(AppEvent::Resized { size, logical_size });
    let actions = app.actions(
        AppEvent::ScaleFactorChanged { scale_factor, size, logical_size, geometry, bar_height },
    );
    if geometry is Some {
        assert(actions.drop_last() =~= resized);
    }
}

/// The wheel scrolls where the pointer is, up for a turn by a number above zero
/// and down for one below: the sign is the top bit of the turn, and what lies
/// below it is a number other than zero up to infinity. No other turn does
/// anything, and none does while the pointer is away.
pub proof fn law_wheel_scrolls_where_pointer_is(app: App, turn: u64)
    ensures
        ({
            let actions = app.actions(AppEvent::MouseWheel(turn));
            let negative = turn / 0x8000_0000_0000_0000 == 1;
            let magnitude = turn % 0x8000_0000_0000_0000;
            let turned = 0 < magnitude <= 0x7ff0_0000_0000_0000;
            match app.last_cursor_pos {
                Some(point) => {
                    &&& turned && !negative ==> actions == seq![
                        AppAction::PointerAction(point, PointerAction::ScrollUp),
                    ]
                    &&& turned && negative ==> actions == seq![
                        AppAction::PointerAction(point, PointerAction::ScrollDown),
                    ]
                    &&& !turned ==> actions.len() == 0
                },
                None => actions.len() == 0,
            }
        }),
{
}

/// A button that goes down acts where the pointer is: the left one as the primary
/// button, the right one as the secondary, no other at all, and none while the
/// pointer is away.
pub proof fn law_button_acts_where_pointer_is(app: App, button: MouseButton)
    ensures
        ({
            let actions = app.actions(AppEvent::MouseInput { pressed: true, button });
            match app.last_cursor_pos {
                Some(point) => {
                    &&& button == MouseButton::Left ==> actions == seq![
                        AppAction::PointerAction(point, PointerAction::Primary),
                    ]
                    &&& button == MouseButton::Right ==> actions == seq![
                        AppAction::PointerAction(point, PointerAction::Secondary),
                    ]
                    &&& button != MouseButton::Left && button != MouseButton::Right
                        ==> actions.len() == 0
                },
                None => actions.len() == 0,
            }
        }),
{
}

/// The bar is told of every move of the pointer, where it went, and of its
/// leaving; each is remembered as it was told.
pub proof fn law_moves_of_pointer_are_passed_on(app: App, point: Point)
    ensures
        app.actions(AppEvent::CursorMoved(point)) == seq![AppAction::PointerMotion(point)],
        app.after(AppEvent::CursorMoved(point)).last_cursor_pos == Some(point),
        app.actions(AppEvent::CursorLeft) == seq![AppAction::PointerLeave],
        app.after(AppEvent::CursorLeft).last_cursor_pos == None::<Point>,
{
}

/// Moving and pressing: a press after a move acts at the point of the move,
/// wherever the pointer was before.
pub proof fn law_press_acts_at_last_move(app: App, point: Point)
    ensures
        app.after(AppEvent::CursorMoved(point)).actions(
            AppEvent::MouseInput { pressed: true, button: MouseButton::Left },
        ) == seq![AppAction::PointerAction(point, PointerAction::Primary)],
        app.after(AppEvent::CursorMoved(point)).after(AppEvent::CursorLeft).actions(
            AppEvent::MouseInput { pressed: true, button: MouseButton::Left },
        ).len() == 0,
{
}

/// Every tick lets the bar's clock advance and reads the news, last of all. An
/// attempt to reach the window manager precedes it exactly where there is a path,
/// no connection, and two seconds went by since the last attempt; then, and only
/// then, this tick becomes the last attempt.
pub proof fn law_tick_always_polls_and_retries_when_due(app: App, connected: bool, now: u128)
    ensures
        ({
            let event = AppEvent::Tick { connected, now };
            let actions = app.actions(event);
            let due = app.shared_path@.len() > 0 && !connected && now
                >= app.last_transport_attempt + 2_000_000_000;
            &&& actions.last() == AppAction::TickAndPoll
            &&& actions.len() == (if due {
                2nat
            } else {
                1nat
            })
            &&& due ==> actions[0] == AppAction::OpenTransport
            &&& app.after(event).last_transport_attempt == (if due {
                now
            } else {
                app.last_transport_attempt
            })
        }),
{
}

/// The window is drawn where that is asked for, and nothing is done about events
/// that do not concern the bar or that end it.
pub proof fn law_draw_on_request_and_ignore_the_rest(app: App)
    ensures
        app.actions(AppEvent::RedrawRequested) == seq![AppAction::Redraw],
        app.after(AppEvent::RedrawRequested) == app,
        app.actions(AppEvent::Other).len() == 0,
        app.after(AppEvent::Other) == app,
        app.actions(AppEvent::CloseRequested).len() == 0,
        app.actions(AppEvent::Destroyed).len() == 0,
{
}

/// The event loop ends with the window and with nothing else.
pub proof fn law_loop_ends_with_window(event: AppEvent)
    ensures
        control_flow(event) == ControlFlow::Exit <==> event == AppEvent::CloseRequested || event
            == AppEvent::Destroyed,
        control_flow(event) == ControlFlow::Wait <==> event != AppEvent::CloseRequested && event
            != AppEvent::Destroyed,
{
}

/// A change under the pointer redraws the window, and no change does not.
pub proof fn law_hover_redraws_on_change(changed: bool, action: Option<AppAction>)
    requires
        call_ensures(update_hover, (changed,), action),
    ensures
        action == Some(AppAction::RequestRedraw) <==> changed,
        action is None <==> !changed,
{
}

/// A bar that starts lets its clock advance, then reads the news, and is drawn
/// when it knows both.
pub proof fn law_start_ends_with_redraw(actions: Vec<AppAction>)
    requires
        call_ensures(start, (), actions),
    ensures
        actions@.len() == 3,
        actions@[0] == AppAction::Tick,
        actions@[1] == AppAction::PollTransport,
        actions@[2] == AppAction::RequestRedraw,
{
}

/// The bar answers an effect as the desktop would, with the size that its window
/// began with, whatever size it has now.
pub proof fn law_bar_restores_first_size<D>(app: App, bar_height: u32, answer: PlatformAction<D>)
    requires
        call_ensures(
            App::handle_platform_effect::<D>,
            (&app, BarEffect::<D>::ClearMonitorGeometry, bar_height),
            answer,
        ),
    ensures
        answer == PlatformAction::<D>::Restore(app.default_logical_size),
{
}

/// The bar handles an update in order: complaints, effects, and a redraw exactly
/// where something changed.
pub proof fn law_bar_handles_update_in_order<D, I>(
    app: App,
    update: RuntimeUpdate<D, I>,
    bar_height: u32,
    actions: Vec<UpdateAction<D, I>>,
    i: int,
)
    requires
        call_ensures(App::handle_runtime_update::<D, I>, (&app, update, bar_height), actions),
    ensures
        0 <= i < update.issues@.len() ==> actions@[i] == UpdateAction::<D, I>::WarnIssue(
            update.issues@[i],
        ),
        update.issues@.len() <= i < update.issues@.len() + update.platform_effects@.len()
            ==> actions@[i] is Platform,
        update.changed ==> actions@.last() is RequestRedraw,
        actions@.len() == update.issues@.len() + update.platform_effects@.len() + (
        if update.changed {
            1nat
        } else {
            0nat
        }),
{
}

/// The bar goes to the state that follows from an event and asks for the actions
/// that the event calls for; the loop ends with the window alone.
pub proof fn law_bar_follows_events(app: &mut App, event: AppEvent, response: Response)
    requires
        call_ensures(App::handle_event, (app, event), response),
    ensures
        *final(app) == old(app).after(event),
        response.actions@ == old(app).actions(event),
        response.control_flow == ControlFlow::Exit <==> event == AppEvent::CloseRequested || event
            == AppEvent::Destroyed,
{
}

/// Resizing the bar and an event that reports the new size are one and the same.
pub proof fn law_resize_is_the_event(
    app: &mut App,
    size: PhysicalSize,
    logical_size: LogicalSize,
    actions: Vec<AppAction>,
)
    requires
        call_ensures(App::resize, (app, size, logical_size), actions),
    ensures
        *final(app) == old(app).after(AppEvent::Resized { size, logical_size }),
        actions@ == old(app).actions(AppEvent::Resized { size, logical_size }),
{
}

/// A tick of the bar and the event of a tick are one and the same.
pub proof fn law_tick_is_the_event(
    app: &mut App,
    connected: bool,
    now: u128,
    actions: Vec<AppAction>,
)
    requires
        call_ensures(App::tick_and_poll, (app, connected, now), actions),
    ensures
        *final(app) == old(app).after(AppEvent::Tick { connected, now }),
        actions@ == old(app).actions(AppEvent::Tick { connected, now }),
{
}

/// An action of the pointer is carried out at the point where it is, exactly
/// where there is both an action and a point.
pub proof fn law_pointer_action_needs_point_and_action(
    app: App,
    action: Option<PointerAction>,
    actions: Vec<AppAction>,
)
    requires
        call_ensures(App::handle_pointer_action, (&app, action), actions),
    ensures
        actions@.len() == (if app.last_cursor_pos is Some && action is Some {
            1nat
        } else {
            0nat
        }),
        app.last_cursor_pos matches Some(point) ==> action matches Some(act) ==> actions@[0]
            == AppAction::PointerAction(point, act),
{
}

/// Noting a new image records the size of the window, and nothing else changes.
pub proof fn law_noted_image_has_size_of_window(app: &mut App)
    requires
        call_ensures(App::image_replaced, (app,), ()),
    ensures
        final(app).back.width == old(app).last_physical_size.width,
        final(app).back.height == old(app).last_physical_size.height,
        *final(app) == (App { back: final(app).back, ..*old(app) }),
{
}

} // verus!
