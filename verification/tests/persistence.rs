use aetherion::settings::{ControlSettings, GraphicsSettings};
use aetherion::settings_io::{
    import_player_settings, import_settings, PersistReadError, SettingsRecord,
    CONTROL_SETTINGS_KEY, GRAPHICS_SETTINGS_KEY,
};
use aetherion::window::WindowMode;

struct Store {
    control: Option<ControlSettings>,
    graphics: Option<GraphicsSettings>,
}

impl Store {
    fn read_control(&self) -> Result<ControlSettings, PersistReadError> {
        self.control.ok_or(PersistReadError::NotFound)
    }

    fn read_graphics(&self) -> Result<GraphicsSettings, PersistReadError> {
        self.graphics.ok_or(PersistReadError::NotFound)
    }

    fn write(&mut self, record: SettingsRecord) {
        match record {
            SettingsRecord::Control(settings) => {
                assert_eq!(record.key(), "settings.control");
                self.control = Some(settings);
            }
            SettingsRecord::Graphics(settings) => {
                assert_eq!(record.key(), "settings.graphics");
                self.graphics = Some(settings);
            }
        }
    }
}

#[test]
fn record_keys() {
    assert_eq!(SettingsRecord::Control(ControlSettings::default()).key(), "settings.control");
    assert_eq!(SettingsRecord::Graphics(GraphicsSettings::default()).key(), "settings.graphics");
    assert_eq!(CONTROL_SETTINGS_KEY, "settings.control");
    assert_eq!(GRAPHICS_SETTINGS_KEY, "settings.graphics");
}

#[test]
fn every_read_error_loads_the_default_and_asks_for_a_repair() {
    for error in [PersistReadError::NotFound, PersistReadError::Unreadable] {
        let mut control = ControlSettings { mouse_sensitivity: 1 };
        assert!(import_settings(&mut control, Err(error)));
        assert_eq!(control, ControlSettings::default());

        let mut graphics = GraphicsSettings { mode: WindowMode::Fullscreen, vsync: false, fov: 31 };
        let exports = import_player_settings(&mut control, &mut graphics, Err(error), Err(error));
        assert_eq!(graphics, GraphicsSettings::default());
        assert_eq!(exports.len(), 2);
    }
}

#[test]
fn missing_graphics_settings_load_as_defaults_and_are_written_back() {
    let mut store = Store { control: None, graphics: None };
    let mut graphics = GraphicsSettings::default();
    let export = import_settings(&mut graphics, store.read_graphics());
    assert!(export);
    assert_eq!(graphics.fov, 60);
    assert!(graphics.vsync);
    assert_eq!(graphics.mode, WindowMode::Windowed);
    store.write(SettingsRecord::Graphics(graphics));
    assert_eq!(store.graphics, Some(graphics));
    assert_eq!(store.control, None);
}

#[test]
fn stored_settings_replace_the_ones_in_use() {
    let stored = GraphicsSettings { mode: WindowMode::Fullscreen, vsync: false, fov: 95 };
    let mut graphics = GraphicsSettings::default();
    let export = import_settings(&mut graphics, Ok(stored));
    assert!(!export);
    assert_eq!(graphics, stored);
}

#[test]
fn stored_settings_are_taken_as_they_are() {
    let stored = GraphicsSettings { mode: WindowMode::SizedFullscreen, vsync: true, fov: 120 };
    let mut graphics = GraphicsSettings::default();
    assert!(!import_settings(&mut graphics, Ok(stored)));
    assert_eq!(graphics.fov, 120);
    let mut control = ControlSettings::default();
    assert!(!import_settings(&mut control, Ok(ControlSettings { mouse_sensitivity: 0 })));
    assert_eq!(control.mouse_sensitivity, 0);
}

#[test]
fn loading_again_after_load_or_default_gives_the_same_record() {
    let mut store = Store { control: None, graphics: None };
    let mut control = ControlSettings::default();
    if import_settings(&mut control, store.read_control()) {
        store.write(SettingsRecord::Control(control));
    }
    assert!(store.control.is_some());
    assert_eq!(store.control, Some(control));
    let first = control;
    let persisted = store.control;

    let mut again = ControlSettings { mouse_sensitivity: 3500 };
    let export = import_settings(&mut again, store.read_control());
    assert!(!export);
    assert_eq!(again, first);
    assert_eq!(store.control, persisted);
}

#[test]
fn missing_record_loads_as_default_whatever_was_in_use() {
    let mut control = ControlSettings { mouse_sensitivity: 3500 };
    assert!(import_settings(&mut control, Err(PersistReadError::NotFound)));
    assert_eq!(control, ControlSettings { mouse_sensitivity: 2000 });
    let mut graphics = GraphicsSettings { mode: WindowMode::Fullscreen, vsync: false, fov: 99 };
    assert!(import_settings(&mut graphics, Err(PersistReadError::Unreadable)));
    assert_eq!(graphics, GraphicsSettings { mode: WindowMode::Windowed, vsync: true, fov: 60 });
}

#[test]
fn startup_with_empty_store_repairs_both_keys_in_order() {
    let mut store = Store { control: None, graphics: None };
    let mut control = ControlSettings::default();
    let mut graphics = GraphicsSettings::default();
    let exports = import_player_settings(
        &mut control,
        &mut graphics,
        store.read_control(),
        store.read_graphics(),
    );
    assert_eq!(control, ControlSettings { mouse_sensitivity: 2000 });
    assert_eq!(graphics, GraphicsSettings { mode: WindowMode::Windowed, vsync: true, fov: 60 });
    assert_eq!(
        exports,
        vec![
            SettingsRecord::Control(ControlSettings { mouse_sensitivity: 2000 }),
            SettingsRecord::Graphics(GraphicsSettings {
                mode: WindowMode::Windowed,
                vsync: true,
                fov: 60,
            }),
        ]
    );
    for record in exports {
        store.write(record);
    }
    let exports = import_player_settings(
        &mut control,
        &mut graphics,
        store.read_control(),
        store.read_graphics(),
    );
    assert!(exports.is_empty());
    assert_eq!(control, ControlSettings::default());
    assert_eq!(graphics, GraphicsSettings::default());
}

#[test]
fn startup_with_one_key_missing_repairs_only_that_key() {
    let stored_control = ControlSettings { mouse_sensitivity: 750 };
    let mut control = ControlSettings::default();
    let mut graphics = GraphicsSettings::default();
    let exports = import_player_settings(
        &mut control,
        &mut graphics,
        Ok(stored_control),
        Err(PersistReadError::NotFound),
    );
    assert_eq!(control, stored_control);
    assert_eq!(graphics, GraphicsSettings::default());
    assert_eq!(exports, vec![SettingsRecord::Graphics(GraphicsSettings::default())]);

    let stored_graphics = GraphicsSettings { mode: WindowMode::BorderlessFullscreen, vsync: false, fov: 45 };
    let mut control = ControlSettings::default();
    let mut graphics = GraphicsSettings::default();
    let exports = import_player_settings(
        &mut control,
        &mut graphics,
        Err(PersistReadError::Unreadable),
        Ok(stored_graphics),
    );
    assert_eq!(control, ControlSettings::default());
    assert_eq!(graphics, stored_graphics);
    assert_eq!(exports, vec![SettingsRecord::Control(ControlSettings::default())]);
}

#[test]
fn startup_with_full_store_writes_nothing() {
    let stored_control = ControlSettings { mouse_sensitivity: 9000 };
    let stored_graphics = GraphicsSettings { mode: WindowMode::Fullscreen, vsync: false, fov: 100 };
    let mut control = ControlSettings::default();
    let mut graphics = GraphicsSettings::default();
    let exports =
        import_player_settings(&mut control, &mut graphics, Ok(stored_control), Ok(stored_graphics));
    assert!(exports.is_empty());
    assert_eq!(control, stored_control);
    assert_eq!(graphics, stored_graphics);
}

#[test]
fn failed_write_is_not_fatal() {
    let store = Store { control: None, graphics: None };
    let mut graphics = GraphicsSettings::default();
    assert!(import_settings(&mut graphics, store.read_graphics()));
    assert_eq!(graphics, GraphicsSettings::default());
    assert_eq!(store.graphics, None);
    assert!(import_settings(&mut graphics, store.read_graphics()));
    assert_eq!(graphics, GraphicsSettings::default());
}

#[test]
fn import_works_on_any_type_with_a_default() {
    let mut volume: u8 = 7;
    assert!(!import_settings(&mut volume, Ok(9)));
    assert_eq!(volume, 9);
    assert!(import_settings(&mut volume, Err(PersistReadError::NotFound)));
    assert_eq!(volume, 0);
}
