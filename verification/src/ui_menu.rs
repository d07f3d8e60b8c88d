//! The escape menu and the settings menu: which of them is open, what each
//! key press and click does, and what has to happen outside the library as a
//! result.
//!
//! The engine integration draws the menus from [`UiVisibility`] and reports
//! every key press and click as a [`UiEvent`]. The library changes the state
//! it is handed and returns what is left to do as a [`UiEffect`].

use crate::input::{Action, ActionState};
use crate::menu_focus::CursorLockState;
use crate::settings::{
    clamp_fov, clamp_mouse_sensitivity, clamped_fov, clamped_mouse_sensitivity, ControlSettings,
    GraphicsSettings,
};
use crate::settings_io::{
    lemma_write_then_read, stored_control, stored_graphics, written, PersistReadError,
    SettingsRecord, Store,
};
use crate::spectator_camera::{projections_with_fov, update_fov, Projection};
use crate::window::{cursor_for, present_mode_for, CursorGrabMode, PresentMode, Window, WindowMode};
use vstd::prelude::*;

verus! {

/// The tabs of the settings menu.
#[derive(Clone, Copy, Debug, PartialEq, Eq, Hash, Structural)]
pub enum SettingsTabOption {
    General,
    Audio,
    Graphics,
    Controls,
    Debug,
}

/// Which menus are open, and the tab that the settings menu shows.
///
/// At most one menu is open at a time. The fields are public, so a value in
/// which both are open can be written down; it is read as the settings menu,
/// and every event handled by this module leaves a value that satisfies
/// [`UiVisibility::wf`].
#[derive(Clone, Copy, Debug, PartialEq, Eq, Structural)]
pub struct UiVisibility {
    pub escape_menu: bool,
    pub settings_menu: bool,
    pub settings_tab_option: SettingsTabOption,
}

/// The menu that owns the pointer, if any.
#[derive(Clone, Copy, Debug, PartialEq, Eq, Structural)]
pub enum MenuState {
    /// No menu is open: the player steers the camera.
    Closed,
    /// The escape menu is open.
    Escape,
    /// The settings menu is open.
    Settings,
}

/// A key press or click that concerns the menus.
#[derive(Clone, Copy, Debug, PartialEq, Eq, Structural)]
pub enum UiEvent {
    /// The menu key went down.
    MenuToggle,
    /// The escape menu's "Settings" button was clicked.
    OpenSettings,
    /// A menu's "Exit" button was clicked.
    Exit,
    /// A tab of the settings menu was clicked.
    SelectTab(SettingsTabOption),
    /// The window-mode button of the graphics tab was clicked.
    CycleWindowMode,
    /// The vsync button of the graphics tab was clicked.
    ToggleVsync,
    /// A field-of-view control of the graphics tab was moved to a value in
    /// degrees.
    SetFov(i8),
    /// A sensitivity control of the controls tab was moved to a value in
    /// thousandths.
    SetMouseSensitivity(u32),
}

/// What is left to do outside the library once an event has been handled.
#[derive(Clone, Copy, Debug, PartialEq, Eq, Structural)]
pub enum UiEffect {
    /// Write the record to the persistent store under its key.
    Export(SettingsRecord),
    /// Shut the application down.
    Exit,
}

/// Everything that the menus read and write, as one value.
#[verifier::ext_equal]
pub struct UiWorld {
    pub window: Window,
    pub ui_visibility: UiVisibility,
    pub cursor_lock_state: CursorLockState,
    pub control_settings: ControlSettings,
    pub graphics_settings: GraphicsSettings,
    pub projections: Seq<Projection>,
}

impl SettingsTabOption {
    /// The tab's caption.
    pub open spec fn spec_name(&self) -> Seq<char> {
        match self {
            SettingsTabOption::General => "General"@,
            SettingsTabOption::Audio => "Audio"@,
            SettingsTabOption::Graphics => "Graphics"@,
            SettingsTabOption::Controls => "Controls"@,
            SettingsTabOption::Debug => "Debug"@,
        }
    }

    /// The tabs from left to right.
    pub open spec fn spec_all() -> Seq<SettingsTabOption> {
        seq![
            SettingsTabOption::General,
            SettingsTabOption::Audio,
            SettingsTabOption::Graphics,
            SettingsTabOption::Controls,
            SettingsTabOption::Debug,
        ]
    }

    /// The tab's caption.
    pub fn name(&self) -> (name: &'static str)
        ensures
            name@ == self.spec_name(),
    {
        match self {
            SettingsTabOption::General => "General",
            SettingsTabOption::Audio => "Audio",
            SettingsTabOption::Graphics => "Graphics",
            SettingsTabOption::Controls => "Controls",
            SettingsTabOption::Debug => "Debug",
        }
    }

    /// Every tab once, in the order of the tab bar.
    pub fn all() -> (tabs: Vec<SettingsTabOption>)
        ensures
            tabs@ == SettingsTabOption::spec_all(),
    {
        let mut tabs: Vec<SettingsTabOption> = Vec::new();
        tabs.push(SettingsTabOption::General);
        tabs.push(SettingsTabOption::Audio);
        tabs.push(SettingsTabOption::Graphics);
        tabs.push(SettingsTabOption::Controls);
        tabs.push(SettingsTabOption::Debug);
        tabs
    }
}

impl Default for SettingsTabOption {
    fn default() -> (tab: Self)
        ensures
            tab == SettingsTabOption::General,
    {
        SettingsTabOption::General
    }
}

impl MenuState {
    /// The state that follows `self` on `event`.
    ///
    /// The menu key opens the escape menu, closes it again, and backs out of
    /// the settings menu to the escape menu. The settings menu is reached
    /// from the escape menu only. Leaving the application closes whatever
    /// is open. No other event changes which menu is open.
    pub open spec fn spec_after(self, event: UiEvent) -> MenuState {
        match event {
            UiEvent::MenuToggle => match self {
                MenuState::Closed => MenuState::Escape,
                MenuState::Escape => MenuState::Closed,
                MenuState::Settings => MenuState::Escape,
            },
            UiEvent::OpenSettings => match self {
                MenuState::Escape => MenuState::Settings,
                _ => self,
            },
            UiEvent::Exit => MenuState::Closed,
            _ => self,
        }
    }

    /// The state that follows `self` on `event`.
    #[verifier::when_used_as_spec(spec_after)]
    pub fn after(self, event: UiEvent) -> (next: MenuState)
        ensures
            next == self.spec_after(event),
    {
        match event {
            UiEvent::MenuToggle => match self {
                MenuState::Closed => MenuState::Escape,
                MenuState::Escape => MenuState::Closed,
                MenuState::Settings => MenuState::Escape,
            },
            UiEvent::OpenSettings => match self {
                MenuState::Escape => MenuState::Settings,
                _ => self,
            },
            UiEvent::Exit => MenuState::Closed,
            _ => self,
        }
    }
}

impl UiVisibility {
    /// At most one menu is open.
    pub open spec fn wf(self) -> bool {
        !(self.escape_menu && self.settings_menu)
    }

    /// A menu is open and owns the pointer.
    pub open spec fn any_open(self) -> bool {
        self.escape_menu || self.settings_menu
    }

    pub open spec fn spec_menu_state(&self) -> MenuState {
        if self.settings_menu {
            MenuState::Settings
        } else if self.escape_menu {
            MenuState::Escape
        } else {
            MenuState::Closed
        }
    }

    /// The state at startup: no menu open, the first tab selected.
    pub open spec fn spec_default() -> UiVisibility {
        UiVisibility {
            escape_menu: false,
            settings_menu: false,
            settings_tab_option: SettingsTabOption::General,
        }
    }

    /// Whether the key or widget behind `event` is live in this state. The
    /// menu key always is. A button, tab or slider is live while the menu
    /// and tab that hold it are shown.
    pub open spec fn spec_accepts(&self, event: UiEvent) -> bool {
        let state = self.menu_state();
        let tab = self.settings_tab_option;
        match event {
            UiEvent::MenuToggle => true,
            UiEvent::OpenSettings => state is Escape,
            UiEvent::Exit => !(state is Closed),
            UiEvent::SelectTab(_) => state is Settings,
            UiEvent::CycleWindowMode => state is Settings && tab is Graphics,
            UiEvent::ToggleVsync => state is Settings && tab is Graphics,
            UiEvent::SetFov(_) => state is Settings && tab is Graphics,
            UiEvent::SetMouseSensitivity(_) => state is Settings && tab is Controls,
        }
    }

    /// The menus after `event`: the menu that follows, and the clicked tab
    /// where a tab was clicked while the tab bar was shown.
    pub open spec fn after(self, event: UiEvent) -> UiVisibility {
        let next = self.menu_state().after(event);
        UiVisibility {
            escape_menu: next is Escape,
            settings_menu: next is Settings,
            settings_tab_option: match event {
                UiEvent::SelectTab(tab) => if self.accepts(event) {
                    tab
                } else {
                    self.settings_tab_option
                },
                _ => self.settings_tab_option,
            },
        }
    }

    /// The menu that is open. Should both flags be set, the settings menu
    /// counts.
    #[verifier::when_used_as_spec(spec_menu_state)]
    pub fn menu_state(&self) -> (state: MenuState)
        ensures
            state == self.spec_menu_state(),
    {
        if self.settings_menu {
            MenuState::Settings
        } else if self.escape_menu {
            MenuState::Escape
        } else {
            MenuState::Closed
        }
    }

    /// Whether the key or widget behind `event` is live in this state.
    #[verifier::when_used_as_spec(spec_accepts)]
    pub fn accepts(&self, event: UiEvent) -> (live: bool)
        ensures
            live == self.spec_accepts(event),
    {
        let state = self.menu_state();
        let settings = match state {
            MenuState::Settings => true,
            _ => false,
        };
        match event {
            UiEvent::MenuToggle => true,
            UiEvent::OpenSettings => match state {
                MenuState::Escape => true,
                _ => false,
            },
            UiEvent::Exit => match state {
                MenuState::Closed => false,
                _ => true,
            },
            UiEvent::SelectTab(_) => settings,
            UiEvent::CycleWindowMode | UiEvent::ToggleVsync | UiEvent::SetFov(_) => {
                match self.settings_tab_option {
                    SettingsTabOption::Graphics => settings,
                    _ => false,
                }
            },
            UiEvent::SetMouseSensitivity(_) => match self.settings_tab_option {
                SettingsTabOption::Controls => settings,
                _ => false,
            },
        }
    }
}

impl Default for UiVisibility {
    fn default() -> (ui_visibility: Self)
        ensures
            ui_visibility == UiVisibility::spec_default(),
            ui_visibility.wf(),
            ui_visibility.menu_state() is Closed,
    {
        UiVisibility {
            escape_menu: false,
            settings_menu: false,
            settings_tab_option: SettingsTabOption::General,
        }
    }
}

/// The window mode that a click on the window-mode button moves to.
pub open spec fn spec_next_window_mode(mode: WindowMode) -> WindowMode {
    match mode {
        WindowMode::Windowed => WindowMode::BorderlessFullscreen,
        WindowMode::BorderlessFullscreen => WindowMode::Fullscreen,
        WindowMode::Fullscreen => WindowMode::Windowed,
        WindowMode::SizedFullscreen => WindowMode::Windowed,
    }
}

/// The caption of the window-mode button.
pub open spec fn spec_window_mode_label(mode: WindowMode) -> Seq<char> {
    match mode {
        WindowMode::Windowed => "Windowed"@,
        WindowMode::BorderlessFullscreen => "Borderless Fullscreen"@,
        WindowMode::Fullscreen => "Fullscreen"@,
        WindowMode::SizedFullscreen => "Other?"@,
    }
}

/// The caption of the vsync button.
pub open spec fn spec_vsync_label(vsync: bool) -> Seq<char> {
    if vsync {
        "Vsync"@
    } else {
        "No Vsync"@
    }
}

/// The graphics settings after an event whose widget was live.
pub open spec fn graphics_after(graphics_settings: GraphicsSettings, event: UiEvent)
    -> GraphicsSettings {
    match event {
        UiEvent::CycleWindowMode => GraphicsSettings {
            mode: next_window_mode(graphics_settings.mode),
            ..graphics_settings
        },
        UiEvent::ToggleVsync => GraphicsSettings {
            vsync: !graphics_settings.vsync,
            ..graphics_settings
        },
        UiEvent::SetFov(fov) => GraphicsSettings { fov: clamped_fov(fov), ..graphics_settings },
        _ => graphics_settings,
    }
}

/// The control settings after an event whose widget was live.
pub open spec fn control_after(control_settings: ControlSettings, event: UiEvent)
    -> ControlSettings {
    match event {
        UiEvent::SetMouseSensitivity(value) => ControlSettings {
            mouse_sensitivity: clamped_mouse_sensitivity(value),
        },
        _ => control_settings,
    }
}

/// The state that the engine integration holds for the menus, as one value.
pub open spec fn world(
    window: Window,
    ui_visibility: UiVisibility,
    cursor_lock_state: CursorLockState,
    control_settings: ControlSettings,
    graphics_settings: GraphicsSettings,
    projections: Seq<Projection>,
) -> UiWorld {
    UiWorld {
        window,
        ui_visibility,
        cursor_lock_state,
        control_settings,
        graphics_settings,
        projections,
    }
}

impl UiWorld {
    /// The pointer is captured exactly while no menu is open, at most one
    /// menu is open, and the window shows the pointer accordingly.
    pub open spec fn consistent(self) -> bool {
        &&& self.ui_visibility.wf()
        &&& self.cursor_lock_state.0 == !self.ui_visibility.any_open()
        &&& self.window.cursor == cursor_for(self.cursor_lock_state.0)
    }

    /// The world after one event.
    ///
    /// An event whose widget is not live changes no setting, and no menu
    /// either, but that a state with both menus open is set right. Every
    /// event ends with the pointer capture derived anew from the menus and
    /// applied to the window.
    pub open spec fn step(self, event: UiEvent) -> UiWorld {
        let live = self.ui_visibility.accepts(event);
        let ui_visibility = self.ui_visibility.after(event);
        let graphics_settings = if live {
            graphics_after(self.graphics_settings, event)
        } else {
            self.graphics_settings
        };
        let control_settings = if live {
            control_after(self.control_settings, event)
        } else {
            self.control_settings
        };
        let locked = !ui_visibility.any_open();
        UiWorld {
            window: Window {
                cursor: cursor_for(locked),
                present_mode: if live && event is ToggleVsync {
                    present_mode_for(graphics_settings.vsync)
                } else {
                    self.window.present_mode
                },
                mode: if live && event is CycleWindowMode {
                    graphics_settings.mode
                } else {
                    self.window.mode
                },
                title: self.window.title,
            },
            ui_visibility,
            cursor_lock_state: CursorLockState(locked),
            control_settings,
            graphics_settings,
            projections: if live && event is SetFov {
                projections_with_fov(self.projections, graphics_settings.fov)
            } else {
                self.projections
            },
        }
    }

    /// What one event leaves to do: every accepted edit of a record is
    /// written to the store on its own, with the record as the edit left it,
    /// and an accepted exit shuts the application down.
    pub open spec fn effect(self, event: UiEvent) -> Option<UiEffect> {
        if !self.ui_visibility.accepts(event) {
            None
        } else {
            match event {
                UiEvent::Exit => Some(UiEffect::Exit),
                UiEvent::CycleWindowMode | UiEvent::ToggleVsync | UiEvent::SetFov(_) => Some(
                    UiEffect::Export(
                        SettingsRecord::Graphics(graphics_after(self.graphics_settings, event)),
                    ),
                ),
                UiEvent::SetMouseSensitivity(_) => Some(
                    UiEffect::Export(
                        SettingsRecord::Control(control_after(self.control_settings, event)),
                    ),
                ),
                _ => None,
            }
        }
    }

    /// The world after a sequence of events, handled in order.
    pub open spec fn run(self, events: Seq<UiEvent>) -> UiWorld
        decreases events.len(),
    {
        if events.len() == 0 {
            self
        } else {
            self.run(events.drop_last()).step(events.last())
        }
    }

    /// What a sequence of events leaves to do, in order.
    pub open spec fn effects(self, events: Seq<UiEvent>) -> Seq<UiEffect>
        decreases events.len(),
    {
        if events.len() == 0 {
            Seq::empty()
        } else {
            let earlier = self.effects(events.drop_last());
            match self.run(events.drop_last()).effect(events.last()) {
                Some(effect) => earlier.push(effect),
                None => earlier,
            }
        }
    }
}

/// The menu event that the keys of a tick ask for. The menu key acts on its
/// edge: it toggles in the tick in which it goes down, and not again while
/// it is held.
pub fn key_event(action_state: &ActionState) -> (event: Option<UiEvent>)
    ensures
        event == if action_state.just_pressed(Action::Exit) {
            Some(UiEvent::MenuToggle)
        } else {
            None
        },
{
    if action_state.just_pressed(Action::Exit) {
        Some(UiEvent::MenuToggle)
    } else {
        None
    }
}

/// The window mode that follows `mode` when the window-mode button is
/// clicked: windowed, borderless, fullscreen, and round again. Any other
/// mode is followed by windowed.
#[verifier::when_used_as_spec(spec_next_window_mode)]
pub fn next_window_mode(mode: WindowMode) -> (next: WindowMode)
    ensures
        next == spec_next_window_mode(mode),
{
    match mode {
        WindowMode::Windowed => WindowMode::BorderlessFullscreen,
        WindowMode::BorderlessFullscreen => WindowMode::Fullscreen,
        WindowMode::Fullscreen => WindowMode::Windowed,
        _ => WindowMode::Windowed,
    }
}

/// The caption of the window-mode button while the window is in `mode`.
pub fn window_mode_label(mode: WindowMode) -> (label: &'static str)
    ensures
        label@ == spec_window_mode_label(mode),
{
    match mode {
        WindowMode::Windowed => "Windowed",
        WindowMode::BorderlessFullscreen => "Borderless Fullscreen",
        WindowMode::Fullscreen => "Fullscreen",
        _ => "Other?",
    }
}

/// The caption of the vsync button.
pub fn vsync_label(vsync: bool) -> (label: &'static str)
    ensures
        label@ == spec_vsync_label(vsync),
{
    match vsync {
        true => "Vsync",
        false => "No Vsync",
    }
}

/// Shows or frees the pointer on the window, as the capture state says:
/// hidden and locked while captured, visible and free otherwise.
pub fn set_cursor_lock(window: &mut Window, cursor_lock_state: &CursorLockState)
    ensures
        final(window).cursor == cursor_for(cursor_lock_state.0),
        final(window).present_mode == old(window).present_mode,
        final(window).mode == old(window).mode,
        final(window).title == old(window).title,
{
    if cursor_lock_state.0 {
        window.cursor.visible = false;
        window.cursor.grab_mode = CursorGrabMode::Locked;
    } else {
        window.cursor.visible = true;
        window.cursor.grab_mode = CursorGrabMode::Free;
    }
}

/// Handles one key press or click.
///
/// The state behind the six references moves as [`UiWorld::step`] says, and
/// the result is what [`UiWorld::effect`] leaves to do. Whatever the event
/// and the state it meets, afterwards at most one menu is open, the pointer
/// is captured exactly while none is, and the window shows it so.
pub fn handle_event(
    window: &mut Window,
    ui_visibility: &mut UiVisibility,
    cursor_lock_state: &mut CursorLockState,
    control_settings: &mut ControlSettings,
    graphics_settings: &mut GraphicsSettings,
    projections: &mut Vec<Projection>,
    event: UiEvent,
) -> (effect: Option<UiEffect>)
    ensures
        world(
            *final(window),
            *final(ui_visibility),
            *final(cursor_lock_state),
            *final(control_settings),
            *final(graphics_settings),
            final(projections)@,
        ) == world(
            *old(window),
            *old(ui_visibility),
            *old(cursor_lock_state),
            *old(control_settings),
            *old(graphics_settings),
            old(projections)@,
        ).step(event),
        effect == world(
            *old(window),
            *old(ui_visibility),
            *old(cursor_lock_state),
            *old(control_settings),
            *old(graphics_settings),
            old(projections)@,
        ).effect(event),
        final(ui_visibility).wf(),
        final(cursor_lock_state).0 == !final(ui_visibility).any_open(),
        final(window).cursor == cursor_for(final(cursor_lock_state).0),
        old(control_settings).wf() ==> final(control_settings).wf(),
        old(graphics_settings).wf() ==> final(graphics_settings).wf(),
{
    let live = ui_visibility.accepts(event);
    let next = ui_visibility.menu_state().after(event);
    let mut effect: Option<UiEffect> = None;

    if live {
        match event {
            UiEvent::Exit => {
                effect = Some(UiEffect::Exit);
            },
            UiEvent::SelectTab(tab) => {
                ui_visibility.settings_tab_option = tab;
            },
            UiEvent::CycleWindowMode => {
                graphics_settings.mode = next_window_mode(graphics_settings.mode);
                window.mode = graphics_settings.mode;
                effect = Some(UiEffect::Export(SettingsRecord::Graphics(*graphics_settings)));
            },
            UiEvent::ToggleVsync => {
                match graphics_settings.vsync {
                    true => {
                        window.present_mode = PresentMode::AutoNoVsync;
                        graphics_settings.vsync = false;
                    },
                    false => {
                        window.present_mode = PresentMode::AutoVsync;
                        graphics_settings.vsync = true;
                    },
                }
                effect = Some(UiEffect::Export(SettingsRecord::Graphics(*graphics_settings)));
            },
            UiEvent::SetFov(fov) => {
                graphics_settings.fov = clamp_fov(fov);
                update_fov(projections, graphics_settings);
                effect = Some(UiEffect::Export(SettingsRecord::Graphics(*graphics_settings)));
            },
            UiEvent::SetMouseSensitivity(value) => {
                control_settings.mouse_sensitivity = clamp_mouse_sensitivity(value);
                effect = Some(UiEffect::Export(SettingsRecord::Control(*control_settings)));
            },
            _ => {},
        }
    }

    match next {
        MenuState::Closed => {
            ui_visibility.escape_menu = false;
            ui_visibility.settings_menu = false;
        },
        MenuState::Escape => {
            ui_visibility.escape_menu = true;
            ui_visibility.settings_menu = false;
        },
        MenuState::Settings => {
            ui_visibility.escape_menu = false;
            ui_visibility.settings_menu = true;
        },
    }

    let ui_window_open = ui_visibility.escape_menu || ui_visibility.settings_menu;
    cursor_lock_state.0 = !ui_window_open;
    set_cursor_lock(window, cursor_lock_state);

    effect
}

/// Handles the key presses and clicks of one tick, in the order given, and
/// returns what they leave to do, in that order.
pub fn ui_menu(
    window: &mut Window,
    ui_visibility: &mut UiVisibility,
    cursor_lock_state: &mut CursorLockState,
    control_settings: &mut ControlSettings,
    graphics_settings: &mut GraphicsSettings,
    projections: &mut Vec<Projection>,
    events: &Vec<UiEvent>,
) -> (effects: Vec<UiEffect>)
    ensures
        world(
            *final(window),
            *final(ui_visibility),
            *final(cursor_lock_state),
            *final(control_settings),
            *final(graphics_settings),
            final(projections)@,
        ) == world(
            *old(window),
            *old(ui_visibility),
            *old(cursor_lock_state),
            *old(control_settings),
            *old(graphics_settings),
            old(projections)@,
        ).run(events@),
        effects@ == world(
            *old(window),
            *old(ui_visibility),
            *old(cursor_lock_state),
            *old(control_settings),
            *old(graphics_settings),
            old(projections)@,
        ).effects(events@),
        events@.len() > 0 ==> final(ui_visibility).wf() && final(cursor_lock_state).0
            == !final(ui_visibility).any_open() && final(window).cursor == cursor_for(
            final(cursor_lock_state).0,
        ),
{
    let ghost start = world(
        *old(window),
        *old(ui_visibility),
        *old(cursor_lock_state),
        *old(control_settings),
        *old(graphics_settings),
        old(projections)@,
    );
    let mut effects: Vec<UiEffect> = Vec::new();
    let mut i: usize = 0;
    while i < events.len()
        invariant
            i <= events.len(),
            world(
                *window,
                *ui_visibility,
                *cursor_lock_state,
                *control_settings,
                *graphics_settings,
                projections@,
            ) == start.run(events@.take(i as int)),
            effects@ == start.effects(events@.take(i as int)),
            i > 0 ==> ui_visibility.wf() && cursor_lock_state.0 == !ui_visibility.any_open()
                && window.cursor == cursor_for(cursor_lock_state.0),
        decreases events.len() - i,
    {
        let event = events[i];
        proof {
            let handled = events@.take(i as int + 1);
            assert(handled.drop_last() == events@.take(i as int));
        }
        match handle_event(
            window,
            ui_visibility,
            cursor_lock_state,
            control_settings,
            graphics_settings,
            projections,
            event,
        ) {
            Some(effect) => {
                effects.push(effect);
            },
            None => {},
        }
        i += 1;
    }
    proof {
        assert(events@.take(events@.len() as int) == events@);
    }
    effects
}

/// The game starts in step: with no menu open, the pointer captured, and
/// the window showing it so once the capture has been applied to it.
pub proof fn lemma_startup_is_consistent(start: UiWorld)
    requires
        start.ui_visibility == UiVisibility::spec_default(),
        start.cursor_lock_state == CursorLockState(true),
        start.window.cursor == cursor_for(true),
    ensures
        start.consistent(),
        start.ui_visibility.menu_state() is Closed,
{
}

/// Every event leaves the menus and the pointer in step: at most one menu is
/// open, the pointer is captured exactly while none is, and the window shows
/// it so. This holds whatever state the event meets.
pub proof fn lemma_step_is_consistent(before: UiWorld, event: UiEvent)
    ensures
        before.step(event).consistent(),
{
}

/// However many events are handled and in whatever order, the escape menu
/// and the settings menu are never open together, provided they were not at
/// the start.
pub proof fn lemma_menus_never_both_open(start: UiWorld, events: Seq<UiEvent>)
    requires
        start.ui_visibility.wf(),
    ensures
        start.run(events).ui_visibility.wf(),
    decreases events.len(),
{
    if events.len() > 0 {
        lemma_step_is_consistent(start.run(events.drop_last()), events.last());
    }
}

/// After each event of a sequence, the pointer is captured exactly while no
/// menu is open, and the window shows it so.
pub proof fn lemma_cursor_follows_menus(start: UiWorld, events: Seq<UiEvent>)
    ensures
        forall|n: int|
            0 < n <= events.len() ==> (#[trigger] start.run(events.take(n))).consistent(),
{
    assert forall|n: int| 0 < n <= events.len() implies (#[trigger] start.run(
        events.take(n),
    )).consistent() by {
        let handled = events.take(n);
        lemma_step_is_consistent(start.run(handled.drop_last()), handled.last());
    }
}

/// Where one tick ends and the next begins makes no difference: handling
/// events in two batches leaves the same state and the same things to do as
/// handling them in one.
pub proof fn lemma_run_in_two_batches(start: UiWorld, first: Seq<UiEvent>, second: Seq<UiEvent>)
    ensures
        start.run(first + second) == start.run(first).run(second),
        start.effects(first + second) == start.effects(first) + start.run(first).effects(second),
    decreases second.len(),
{
    if second.len() == 0 {
        assert(first + second =~= first);
    } else {
        lemma_run_in_two_batches(start, first, second.drop_last());
        assert((first + second).drop_last() =~= first + second.drop_last());
        assert((first + second).last() == second.last());
    }
}

/// Usable settings stay usable, whatever is clicked or dragged: the sliders
/// keep the field of view and the sensitivity within their bounds.
pub proof fn lemma_settings_stay_usable(start: UiWorld, events: Seq<UiEvent>)
    requires
        start.control_settings.wf(),
        start.graphics_settings.wf(),
    ensures
        start.run(events).control_settings.wf(),
        start.run(events).graphics_settings.wf(),
    decreases events.len(),
{
    if events.len() > 0 {
        lemma_settings_stay_usable(start, events.drop_last());
    }
}

/// Every edit of a setting is persisted on its own. An accepted click or
/// drag on a settings widget changes the record in memory and leaves that
/// record, as changed, to be written; once written, a read of the record's
/// key yields the settings in memory.
pub proof fn lemma_edit_is_persisted(before: UiWorld, event: UiEvent, store: Store)
    requires
        before.ui_visibility.accepts(event),
    ensures
        event is SetMouseSensitivity ==> {
            let record = SettingsRecord::Control(before.step(event).control_settings);
            &&& before.effect(event) == Some(UiEffect::Export(record))
            &&& stored_control(written(store, record)) == Ok::<
                ControlSettings,
                PersistReadError,
            >(before.step(event).control_settings)
        },
        event is CycleWindowMode || event is ToggleVsync || event is SetFov ==> {
            let record = SettingsRecord::Graphics(before.step(event).graphics_settings);
            &&& before.effect(event) == Some(UiEffect::Export(record))
            &&& stored_graphics(written(store, record)) == Ok::<
                GraphicsSettings,
                PersistReadError,
            >(before.step(event).graphics_settings)
        },
        event matches UiEvent::SetMouseSensitivity(value) ==> before.step(
            event,
        ).control_settings.mouse_sensitivity == clamped_mouse_sensitivity(value),
        event matches UiEvent::SetFov(fov) ==> before.step(event).graphics_settings.fov
            == clamped_fov(fov),
{
    if event is SetMouseSensitivity {
        lemma_write_then_read(store, SettingsRecord::Control(before.step(event).control_settings));
    } else if event is CycleWindowMode || event is ToggleVsync || event is SetFov {
        lemma_write_then_read(
            store,
            SettingsRecord::Graphics(before.step(event).graphics_settings),
        );
    }
}

/// An event whose key or widget is not live changes neither the menus nor
/// the settings, the projections or the window but for its pointer, and
/// leaves nothing to do.
pub proof fn lemma_dead_event_changes_nothing(before: UiWorld, event: UiEvent)
    requires
        before.consistent(),
        !before.ui_visibility.accepts(event),
    ensures
        before.step(event) == before,
        before.effect(event) is None,
{
}

} // verus!
