//! What an update of the bar's runtime asks of the desktop.

use crate::geometry::{LogicalSize, MonitorGeometry, PhysicalSize};
use vstd::prelude::*;

verus! {

/// Something that the runtime wants done outside the bar. `D` is what some of
/// the effects carry.
#[derive(Debug, PartialEq, Eq)]
pub enum BarEffect<D> {
    ApplyMonitorGeometry(MonitorGeometry),
    ClearMonitorGeometry,
    Screenshot,
    OpenAudioControl,
    WindowManager(D),
    ToggleMute,
    AdjustVolume(D),
    AdjustBrightness(D),
    RefreshBattery,
}

/// A place for the window: its top left corner and its size, in pixels of the
/// screen.
#[derive(Clone, Copy, Debug, PartialEq, Eq, Structural)]
pub struct Placement {
    pub x: i32,
    pub y: i32,
    pub size: PhysicalSize,
}

/// A program that the bar starts.
#[derive(Clone, Copy, Debug, PartialEq, Eq, Structural)]
pub enum Program {
    Screenshot,
    AudioControl,
}

/// The name of a program and its arguments.
#[derive(Debug, PartialEq, Eq)]
pub struct CommandLine {
    pub program: String,
    pub args: Vec<String>,
}

/// What to do about one effect.
#[derive(Debug, PartialEq, Eq)]
pub enum PlatformAction<D> {
    /// Move and resize the window.
    Place(Placement),
    /// Move the window to the origin of the desktop and give it this size.
    Restore(LogicalSize),
    /// Start a program.
    Spawn(Program),
    /// Warn that nothing handles this effect.
    WarnUnhandled(BarEffect<D>),
}

/// What the runtime reports. `I` is the type of its complaints.
#[derive(Debug, PartialEq, Eq)]
pub struct RuntimeUpdate<D, I> {
    /// Whether anything that is shown has changed.
    pub changed: bool,
    pub platform_effects: Vec<BarEffect<D>>,
    pub issues: Vec<I>,
}

/// One step of handling an update.
#[derive(Debug, PartialEq, Eq)]
pub enum UpdateAction<D, I> {
    /// Warn about a complaint.
    WarnIssue(I),
    /// Do something about an effect.
    Platform(PlatformAction<D>),
    /// Ask for the window to be drawn anew.
    RequestRedraw,
}

impl Program {
    /// The name of the program.
    pub open spec fn name(self) -> Seq<char> {
        match self {
            Program::Screenshot => "flameshot"@,
            Program::AudioControl => "pavucontrol"@,
        }
    }

    /// The arguments of the program.
    pub open spec fn arguments(self) -> Seq<Seq<char>> {
        match self {
            Program::Screenshot => seq!["gui"@],
            Program::AudioControl => seq![],
        }
    }

    /// The command line that starts the program.
    pub fn command_line(self) -> (r: CommandLine)
        ensures
            r.program@ == self.name(),
            r.args@.len() == self.arguments().len(),
            forall|i: int|
                0 <= i < r.args@.len() ==> (#[trigger] r.args@[i])@ == self.arguments()[i],
    {
        let mut args: Vec<String> = Vec::new();
        let program: String = match self {
            Program::Screenshot => {
                args.push("gui".to_owned());
                "flameshot".to_owned()
            },
            Program::AudioControl => "pavucontrol".to_owned(),
        };
        CommandLine { program, args }
    }
}

/// The place of a bar of the given height on a monitor.
pub open spec fn placement(geometry: MonitorGeometry, bar_height: u32) -> Placement {
    Placement {
        x: geometry.x,
        y: geometry.y,
        size: PhysicalSize { width: geometry.width, height: bar_height },
    }
}

/// Finds the place of the bar on a monitor: at its corner and across its width,
/// as high as the bar is in pixels of the screen.
pub fn apply_monitor_geometry(geometry: MonitorGeometry, bar_height: u32) -> (r: Placement)
    ensures
        r == placement(geometry, bar_height),
{
    Placement {
        x: geometry.x,
        y: geometry.y,
        size: PhysicalSize { width: geometry.width, height: bar_height },
    }
}

impl<D> BarEffect<D> {
    /// What to do about this effect, given the height of the bar in pixels of
    /// the screen and the size that the window began with.
    pub open spec fn handling(
        self,
        bar_height: u32,
        default_size: LogicalSize,
    ) -> PlatformAction<D> {
        match self {
            BarEffect::ApplyMonitorGeometry(geometry) => PlatformAction::Place(
                placement(geometry, bar_height),
            ),
            BarEffect::ClearMonitorGeometry => PlatformAction::Restore(default_size),
            BarEffect::Screenshot => PlatformAction::Spawn(Program::Screenshot),
            BarEffect::OpenAudioControl => PlatformAction::Spawn(Program::AudioControl),
            _ => PlatformAction::WarnUnhandled(self),
        }
    }
}

/// Says what to do about one effect.
pub fn handle_platform_effect<D>(
    effect: BarEffect<D>,
    bar_height: u32,
    default_size: LogicalSize,
) -> (r: PlatformAction<D>)
    ensures
        r == effect.handling(bar_height, default_size),
{
    match effect {
        BarEffect::ApplyMonitorGeometry(geometry) => PlatformAction::Place(
            apply_monitor_geometry(geometry, bar_height),
        ),
        BarEffect::ClearMonitorGeometry => PlatformAction::Restore(default_size),
        BarEffect::Screenshot => PlatformAction::Spawn(Program::Screenshot),
        BarEffect::OpenAudioControl => PlatformAction::Spawn(Program::AudioControl),
        unhandled => PlatformAction::WarnUnhandled(unhandled),
    }
}

impl<D, I> RuntimeUpdate<D, I> {
    /// The steps of handling this update: first every complaint, then every
    /// effect, each in the order in which they came, and last a redraw where
    /// something changed.
    pub open spec fn handling(
        self,
        bar_height: u32,
        default_size: LogicalSize,
    ) -> Seq<UpdateAction<D, I>> {
        let warnings = self.issues@.map_values(|issue: I| UpdateAction::<D, I>::WarnIssue(issue));
        let effects = self.platform_effects@.map_values(
            |effect: BarEffect<D>|
                UpdateAction::<D, I>::Platform(effect.handling(bar_height, default_size)),
        );
        let redraw = if self.changed {
            seq![UpdateAction::<D, I>::RequestRedraw]
        } else {
            seq![]
        };
        warnings + effects + redraw
    }
}

/// Says how to handle an update, step by step.
pub fn handle_runtime_update<D, I>(
    update: RuntimeUpdate<D, I>,
    bar_height: u32,
    default_size: LogicalSize,
) -> (r: Vec<UpdateAction<D, I>>)
    ensures
        r@ == update.handling(bar_height, default_size),
{
    let ghost all = update.handling(bar_height, default_size);
    let RuntimeUpdate { changed, platform_effects, issues } = update;
    let ghost (warnings, effects) = (issues@.len() as int, platform_effects@.len() as int);
    let mut actions: Vec<UpdateAction<D, I>> = Vec::new();
    for issue in it: issues
        invariant
            it.seq() == update.issues@,
            warnings == update.issues@.len(),
            all == update.handling(bar_height, default_size),
            actions@ =~= all.take(it.index()),
    {
        actions.push(UpdateAction::WarnIssue(issue));
    }
    for effect in it: platform_effects
        invariant
            it.seq() == update.platform_effects@,
            warnings == update.issues@.len(),
            effects == update.platform_effects@.len(),
            all == update.handling(bar_height, default_size),
            actions@ =~= all.take(warnings + it.index()),
    {
        actions.push(
            UpdateAction::Platform(handle_platform_effect(effect, bar_height, default_size)),
        );
    }
    if changed {
        actions.push(UpdateAction::RequestRedraw);
    }
    assert(actions@ =~= all);
    actions
}

/// Handling an update asks for one redraw where something changed, after
/// everything else, and for none otherwise.
pub proof fn law_redraw_comes_last<D, I>(
    update: RuntimeUpdate<D, I>,
    bar_height: u32,
    default_size: LogicalSize,
    i: int,
)
    requires
        0 <= i < update.handling(bar_height, default_size).len(),
    ensures
        update.handling(bar_height, default_size)[i] is RequestRedraw <==> update.changed && i
            == update.handling(bar_height, default_size).len() - 1,
{
}

/// Every complaint is passed on, and every effect is answered, once and in
/// order.
pub proof fn law_nothing_is_dropped<D, I>(
    update: RuntimeUpdate<D, I>,
    bar_height: u32,
    default_size: LogicalSize,
    i: int,
)
    ensures
        0 <= i < update.issues@.len() ==> update.handling(bar_height, default_size)[i]
            == UpdateAction::<D, I>::WarnIssue(update.issues@[i]),
        0 <= i < update.platform_effects@.len() ==> update.handling(
            bar_height,
            default_size,
        )[update.issues@.len() + i] == UpdateAction::<D, I>::Platform(
            update.platform_effects@[i].handling(bar_height, default_size),
        ),
        update.handling(bar_height, default_size).len() == update.issues@.len()
            + update.platform_effects@.len() + (if update.changed {
            1int
        } else {
            0int
        }),
{
}

/// The bar stands at the corner of the monitor, is as wide as the monitor, and as
/// high as it was measured.
pub proof fn law_bar_spans_the_monitor(geometry: MonitorGeometry, bar_height: u32, r: Placement)
    requires
        call_ensures(apply_monitor_geometry, (geometry, bar_height), r),
    ensures
        r.x == geometry.x,
        r.y == geometry.y,
        r.size.width == geometry.width,
        r.size.height == bar_height,
{
}

/// A place that the window manager gives is where the window goes.
pub proof fn law_given_place_is_taken<D>(
    geometry: MonitorGeometry,
    bar_height: u32,
    default_size: LogicalSize,
)
    ensures
        BarEffect::<D>::ApplyMonitorGeometry(geometry).handling(bar_height, default_size)
            matches PlatformAction::Place(place) && place.x == geometry.x && place.y == geometry.y
            && place.size.width == geometry.width && place.size.height == bar_height,
{
}

/// A place that is taken back gives the window the size that it began with,
/// whatever the height of the bar is now.
pub proof fn law_cleared_place_restores_window<D>(bar_height: u32, default_size: LogicalSize)
    ensures
        BarEffect::<D>::ClearMonitorGeometry.handling(bar_height, default_size)
            == PlatformAction::<D>::Restore(default_size),
{
}

/// Two effects start a program, each its own, and no other effect does.
pub proof fn law_two_effects_start_programs<D>(
    effect: BarEffect<D>,
    bar_height: u32,
    default_size: LogicalSize,
)
    ensures
        effect.handling(bar_height, default_size) == PlatformAction::<D>::Spawn(Program::Screenshot)
            <==> effect is Screenshot,
        effect.handling(bar_height, default_size) == PlatformAction::<D>::Spawn(
            Program::AudioControl,
        ) <==> effect is OpenAudioControl,
        effect.handling(bar_height, default_size) is Place <==> effect is ApplyMonitorGeometry,
        effect.handling(bar_height, default_size) is Restore <==> effect is ClearMonitorGeometry,
{
}

/// An effect that nothing handles is reported whole, with all that it carries.
pub proof fn law_unhandled_effect_is_reported<D>(
    effect: BarEffect<D>,
    bar_height: u32,
    default_size: LogicalSize,
)
    requires
        effect is WindowManager || effect is ToggleMute || effect is AdjustVolume
            || effect is AdjustBrightness || effect is RefreshBattery,
    ensures
        effect.handling(bar_height, default_size) == PlatformAction::<D>::WarnUnhandled(effect),
{
}

/// A single answer and a whole update agree: each effect of an update is answered
/// as it would be alone.
pub proof fn law_update_answers_each_effect_as_alone<D, I>(
    update: RuntimeUpdate<D, I>,
    bar_height: u32,
    default_size: LogicalSize,
    i: int,
    answer: PlatformAction<D>,
)
    requires
        0 <= i < update.platform_effects@.len(),
        call_ensures(
            handle_platform_effect::<D>,
            (update.platform_effects@[i], bar_height, default_size),
            answer,
        ),
    ensures
        update.handling(bar_height, default_size)[update.issues@.len() + i] == UpdateAction::<
            D,
            I,
        >::Platform(answer),
{
}

/// Screenshots are taken with `flameshot gui`, and the audio control is
/// `pavucontrol` without arguments.
pub proof fn law_programs_are_named()
    ensures
        Program::Screenshot.name() == "flameshot"@,
        Program::Screenshot.arguments().len() == 1,
        Program::Screenshot.arguments()[0] == "gui"@,
        Program::AudioControl.name() == "pavucontrol"@,
        Program::AudioControl.arguments().len() == 0,
{
}

/// The command line of a program holds its name and its arguments, in order.
pub proof fn law_command_line_is_that_of_program(program: Program, command: CommandLine)
    requires
        call_ensures(Program::command_line, (program,), command),
    ensures
        match program {
            Program::Screenshot => command.program@ == "flameshot"@ && command.args@.len() == 1
                && command.args@[0]@ == "gui"@,
            Program::AudioControl => command.program@ == "pavucontrol"@ && command.args@.len() == 0,
        },
{
}

} // verus!
