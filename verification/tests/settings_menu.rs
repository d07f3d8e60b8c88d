use aetherion::menu_focus::CursorLockState;
use aetherion::settings::{
    clamp_fov, clamp_mouse_sensitivity, default_fov, default_mouse_sensitivity, default_vsync,
    default_window_mode, ControlSettings, GraphicsSettings, DEFAULT_FOV,
    DEFAULT_MOUSE_SENSITIVITY, MAX_FOV, MAX_MOUSE_SENSITIVITY, MIN_FOV, MIN_MOUSE_SENSITIVITY,
};
use aetherion::settings_io::SettingsRecord;
use aetherion::spectator_camera::{PerspectiveProjection, Projection};
use aetherion::ui_menu::{
    handle_event, next_window_mode, ui_menu, vsync_label, window_mode_label, SettingsTabOption,
    UiEffect, UiEvent, UiVisibility,
};
use aetherion::window::{Cursor, CursorGrabMode, PresentMode, Window, WindowMode};

struct Session {
    window: Window,
    ui_visibility: UiVisibility,
    cursor_lock_state: CursorLockState,
    control_settings: ControlSettings,
    graphics_settings: GraphicsSettings,
    projections: Vec<Projection>,
}

impl Session {
    fn on_tab(tab: SettingsTabOption) -> Session {
        Session {
            window: Window {
                cursor: Cursor { visible: true, grab_mode: CursorGrabMode::Free },
                present_mode: PresentMode::AutoVsync,
                mode: WindowMode::Windowed,
                title: String::from("Aetherion"),
            },
            ui_visibility: UiVisibility {
                escape_menu: false,
                settings_menu: true,
                settings_tab_option: tab,
            },
            cursor_lock_state: CursorLockState(false),
            control_settings: ControlSettings::default(),
            graphics_settings: GraphicsSettings::default(),
            projections: vec![
                Projection::Perspective(PerspectiveProjection { fov: 60 }),
                Projection::Orthographic,
                Projection::Perspective(PerspectiveProjection { fov: 33 }),
            ],
        }
    }

    fn send(&mut self, event: UiEvent) -> Option<UiEffect> {
        handle_event(
            &mut self.window,
            &mut self.ui_visibility,
            &mut self.cursor_lock_state,
            &mut self.control_settings,
            &mut self.graphics_settings,
            &mut self.projections,
            event,
        )
    }
}

#[test]
fn default_control_settings() {
    let settings = ControlSettings::default();
    assert_eq!(settings.mouse_sensitivity, 2000);
    assert_eq!(default_mouse_sensitivity(), 2000);
    assert_eq!(DEFAULT_MOUSE_SENSITIVITY, 2000);
    assert_eq!(settings.mouse_sensitivity as f32 / 1000.0, 2.0);
}

#[test]
fn default_graphics_settings() {
    let settings = GraphicsSettings::default();
    assert_eq!(settings.fov, 60);
    assert!(settings.vsync);
    assert_eq!(settings.mode, WindowMode::Windowed);
    assert_eq!(default_fov(), 60);
    assert_eq!(DEFAULT_FOV, 60);
    assert!(default_vsync());
    assert_eq!(default_window_mode(), WindowMode::Windowed);
}

#[test]
fn slider_bounds() {
    assert_eq!(MIN_FOV, 30);
    assert_eq!(MAX_FOV, 100);
    assert_eq!(MIN_MOUSE_SENSITIVITY, 100);
    assert_eq!(MAX_MOUSE_SENSITIVITY, 10000);
    assert_eq!(MIN_MOUSE_SENSITIVITY as f32 / 1000.0, 0.1);
    assert_eq!(MAX_MOUSE_SENSITIVITY as f32 / 1000.0, 10.0);
}

#[test]
fn fov_is_clamped_to_slider_range() {
    assert_eq!(clamp_fov(i8::MIN), 30);
    assert_eq!(clamp_fov(-1), 30);
    assert_eq!(clamp_fov(0), 30);
    assert_eq!(clamp_fov(29), 30);
    assert_eq!(clamp_fov(30), 30);
    assert_eq!(clamp_fov(31), 31);
    assert_eq!(clamp_fov(60), 60);
    assert_eq!(clamp_fov(99), 99);
    assert_eq!(clamp_fov(100), 100);
    assert_eq!(clamp_fov(101), 100);
    assert_eq!(clamp_fov(i8::MAX), 100);
}

#[test]
fn mouse_sensitivity_is_clamped_to_slider_range() {
    assert_eq!(clamp_mouse_sensitivity(0), 100);
    assert_eq!(clamp_mouse_sensitivity(99), 100);
    assert_eq!(clamp_mouse_sensitivity(100), 100);
    assert_eq!(clamp_mouse_sensitivity(101), 101);
    assert_eq!(clamp_mouse_sensitivity(2000), 2000);
    assert_eq!(clamp_mouse_sensitivity(9999), 9999);
    assert_eq!(clamp_mouse_sensitivity(10000), 10000);
    assert_eq!(clamp_mouse_sensitivity(10001), 10000);
    assert_eq!(clamp_mouse_sensitivity(u32::MAX), 10000);
}

#[test]
fn dragging_sensitivity_from_two_to_five_updates_and_persists() {
    let mut session = Session::on_tab(SettingsTabOption::Controls);
    assert_eq!(session.control_settings.mouse_sensitivity, 2000);
    let effect = session.send(UiEvent::SetMouseSensitivity(5000));
    assert_eq!(session.control_settings.mouse_sensitivity, 5000);
    assert_eq!(session.control_settings.mouse_sensitivity as f32 / 1000.0, 5.0);
    let written = SettingsRecord::Control(ControlSettings { mouse_sensitivity: 5000 });
    assert_eq!(effect, Some(UiEffect::Export(written)));
    assert_eq!(written.key(), "settings.control");
    assert_eq!(session.graphics_settings, GraphicsSettings::default());
}

#[test]
fn sensitivity_beyond_slider_is_clamped_before_it_is_persisted() {
    let mut session = Session::on_tab(SettingsTabOption::Controls);
    let effect = session.send(UiEvent::SetMouseSensitivity(20000));
    assert_eq!(session.control_settings.mouse_sensitivity, 10000);
    assert_eq!(
        effect,
        Some(UiEffect::Export(SettingsRecord::Control(ControlSettings {
            mouse_sensitivity: 10000
        })))
    );
    let effect = session.send(UiEvent::SetMouseSensitivity(0));
    assert_eq!(session.control_settings.mouse_sensitivity, 100);
    assert_eq!(
        effect,
        Some(UiEffect::Export(SettingsRecord::Control(ControlSettings { mouse_sensitivity: 100 })))
    );
}

#[test]
fn sensitivity_slider_is_dead_on_other_tabs() {
    for tab in [
        SettingsTabOption::General,
        SettingsTabOption::Audio,
        SettingsTabOption::Graphics,
        SettingsTabOption::Debug,
    ] {
        let mut session = Session::on_tab(tab);
        let effect = session.send(UiEvent::SetMouseSensitivity(5000));
        assert_eq!(effect, None);
        assert_eq!(session.control_settings, ControlSettings::default());
    }
}

#[test]
fn vsync_button_toggles_present_mode_and_persists() {
    let mut session = Session::on_tab(SettingsTabOption::Graphics);
    let effect = session.send(UiEvent::ToggleVsync);
    assert!(!session.graphics_settings.vsync);
    assert_eq!(session.window.present_mode, PresentMode::AutoNoVsync);
    assert_eq!(
        effect,
        Some(UiEffect::Export(SettingsRecord::Graphics(GraphicsSettings {
            mode: WindowMode::Windowed,
            vsync: false,
            fov: 60,
        })))
    );
    let effect = session.send(UiEvent::ToggleVsync);
    assert!(session.graphics_settings.vsync);
    assert_eq!(session.window.present_mode, PresentMode::AutoVsync);
    assert_eq!(
        effect,
        Some(UiEffect::Export(SettingsRecord::Graphics(GraphicsSettings::default())))
    );
    assert_eq!(session.window.mode, WindowMode::Windowed);
}

#[test]
fn window_mode_button_cycles_through_the_modes_and_persists() {
    let mut session = Session::on_tab(SettingsTabOption::Graphics);
    let expected = [
        WindowMode::BorderlessFullscreen,
        WindowMode::Fullscreen,
        WindowMode::Windowed,
        WindowMode::BorderlessFullscreen,
    ];
    for mode in expected {
        let effect = session.send(UiEvent::CycleWindowMode);
        assert_eq!(session.graphics_settings.mode, mode);
        assert_eq!(session.window.mode, mode);
        assert_eq!(
            effect,
            Some(UiEffect::Export(SettingsRecord::Graphics(GraphicsSettings {
                mode,
                vsync: true,
                fov: 60,
            })))
        );
    }
    assert_eq!(session.window.present_mode, PresentMode::AutoVsync);
}

#[test]
fn window_mode_cycle_and_captions() {
    assert_eq!(next_window_mode(WindowMode::Windowed), WindowMode::BorderlessFullscreen);
    assert_eq!(next_window_mode(WindowMode::BorderlessFullscreen), WindowMode::Fullscreen);
    assert_eq!(next_window_mode(WindowMode::Fullscreen), WindowMode::Windowed);
    assert_eq!(next_window_mode(WindowMode::SizedFullscreen), WindowMode::Windowed);
    assert_eq!(window_mode_label(WindowMode::Windowed), "Windowed");
    assert_eq!(window_mode_label(WindowMode::BorderlessFullscreen), "Borderless Fullscreen");
    assert_eq!(window_mode_label(WindowMode::Fullscreen), "Fullscreen");
    assert_eq!(window_mode_label(WindowMode::SizedFullscreen), "Other?");
    assert_eq!(vsync_label(true), "Vsync");
    assert_eq!(vsync_label(false), "No Vsync");
}

#[test]
fn fov_slider_updates_perspective_projections_and_persists() {
    let mut session = Session::on_tab(SettingsTabOption::Graphics);
    let effect = session.send(UiEvent::SetFov(75));
    assert_eq!(session.graphics_settings.fov, 75);
    assert_eq!(
        session.projections,
        vec![
            Projection::Perspective(PerspectiveProjection { fov: 75 }),
            Projection::Orthographic,
            Projection::Perspective(PerspectiveProjection { fov: 75 }),
        ]
    );
    let written =
        SettingsRecord::Graphics(GraphicsSettings { mode: WindowMode::Windowed, vsync: true, fov: 75 });
    assert_eq!(effect, Some(UiEffect::Export(written)));
    assert_eq!(written.key(), "settings.graphics");
    assert_eq!(session.control_settings, ControlSettings::default());
}

#[test]
fn fov_beyond_slider_is_clamped() {
    let mut session = Session::on_tab(SettingsTabOption::Graphics);
    session.send(UiEvent::SetFov(120));
    assert_eq!(session.graphics_settings.fov, 100);
    assert_eq!(session.projections[0], Projection::Perspective(PerspectiveProjection { fov: 100 }));
    session.send(UiEvent::SetFov(-5));
    assert_eq!(session.graphics_settings.fov, 30);
    assert_eq!(session.projections[2], Projection::Perspective(PerspectiveProjection { fov: 30 }));
}

#[test]
fn graphics_widgets_are_dead_on_other_tabs_and_in_other_menus() {
    for tab in [
        SettingsTabOption::General,
        SettingsTabOption::Audio,
        SettingsTabOption::Controls,
        SettingsTabOption::Debug,
    ] {
        let mut session = Session::on_tab(tab);
        for event in [UiEvent::CycleWindowMode, UiEvent::ToggleVsync, UiEvent::SetFov(40)] {
            assert_eq!(session.send(event), None);
        }
        assert_eq!(session.graphics_settings, GraphicsSettings::default());
        assert_eq!(session.window.mode, WindowMode::Windowed);
        assert_eq!(session.window.present_mode, PresentMode::AutoVsync);
        assert_eq!(session.projections[0], Projection::Perspective(PerspectiveProjection { fov: 60 }));
        assert_eq!(session.projections[2], Projection::Perspective(PerspectiveProjection { fov: 33 }));
    }
    let mut session = Session::on_tab(SettingsTabOption::Graphics);
    session.ui_visibility.settings_menu = false;
    session.ui_visibility.escape_menu = true;
    for event in [UiEvent::CycleWindowMode, UiEvent::ToggleVsync, UiEvent::SetFov(40)] {
        assert_eq!(session.send(event), None);
    }
    assert_eq!(session.graphics_settings, GraphicsSettings::default());
}

#[test]
fn every_edit_of_a_tick_is_persisted_on_its_own() {
    let mut session = Session::on_tab(SettingsTabOption::Graphics);
    let events = vec![UiEvent::ToggleVsync, UiEvent::SetFov(80), UiEvent::CycleWindowMode];
    let effects = ui_menu(
        &mut session.window,
        &mut session.ui_visibility,
        &mut session.cursor_lock_state,
        &mut session.control_settings,
        &mut session.graphics_settings,
        &mut session.projections,
        &events,
    );
    assert_eq!(
        effects,
        vec![
            UiEffect::Export(SettingsRecord::Graphics(GraphicsSettings {
                mode: WindowMode::Windowed,
                vsync: false,
                fov: 60,
            })),
            UiEffect::Export(SettingsRecord::Graphics(GraphicsSettings {
                mode: WindowMode::Windowed,
                vsync: false,
                fov: 80,
            })),
            UiEffect::Export(SettingsRecord::Graphics(GraphicsSettings {
                mode: WindowMode::BorderlessFullscreen,
                vsync: false,
                fov: 80,
            })),
        ]
    );
}

#[test]
fn edits_keep_the_menu_and_the_pointer_as_they_are() {
    let mut session = Session::on_tab(SettingsTabOption::Graphics);
    session.send(UiEvent::SetFov(42));
    assert!(session.ui_visibility.settings_menu);
    assert!(!session.ui_visibility.escape_menu);
    assert_eq!(session.ui_visibility.settings_tab_option, SettingsTabOption::Graphics);
    assert_eq!(session.cursor_lock_state, CursorLockState(false));
    assert_eq!(session.window.cursor, Cursor { visible: true, grab_mode: CursorGrabMode::Free });
}
