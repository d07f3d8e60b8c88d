//! Loading the settings at startup, with defaults for what the persistent
//! store does not hold, and the records that have to be written back.
//!
//! The store itself is outside the library. The engine integration reads
//! it, hands over what the read of each key yielded, a record or the reason
//! why there is none, and writes back what the library asks for.

use crate::settings::{ControlSettings, GraphicsSettings};
use vstd::prelude::*;

verus! {

/// The key under which the control settings are kept.
pub const CONTROL_SETTINGS_KEY: &'static str = "settings.control";

/// The key under which the graphics settings are kept.
pub const GRAPHICS_SETTINGS_KEY: &'static str = "settings.graphics";

/// Why a read of the store yielded no record.
#[derive(Clone, Copy, Debug, PartialEq, Eq, Structural)]
pub enum PersistReadError {
    /// Nothing is kept under the key.
    NotFound,
    /// What is kept under the key could not be read as a record of the kind
    /// asked for.
    Unreadable,
}

/// A settings record on its way to the persistent store.
#[derive(Clone, Copy, Debug, PartialEq, Eq, Structural)]
pub enum SettingsRecord {
    Control(ControlSettings),
    Graphics(GraphicsSettings),
}

impl SettingsRecord {
    /// The key under which the record is kept.
    pub open spec fn spec_key(&self) -> Seq<char> {
        match self {
            SettingsRecord::Control(_) => CONTROL_SETTINGS_KEY@,
            SettingsRecord::Graphics(_) => GRAPHICS_SETTINGS_KEY@,
        }
    }

    /// The key under which the record is kept.
    pub fn key(&self) -> (key: &'static str)
        ensures
            key@ == self.spec_key(),
    {
        match self {
            SettingsRecord::Control(_) => CONTROL_SETTINGS_KEY,
            SettingsRecord::Graphics(_) => GRAPHICS_SETTINGS_KEY,
        }
    }
}

/// The record that loading settles on: the stored one where the read
/// yielded one, else the default, whatever the reason.
pub open spec fn imported<T>(stored: Result<T, PersistReadError>, default: T) -> T {
    match stored {
        Ok(record) => record,
        Err(_) => default,
    }
}

/// The persistent store as far as the settings go: the record kept under
/// each key.
pub type Store = Map<Seq<char>, SettingsRecord>;

/// What a read of the control settings yields: the record under their key,
/// or the reason why there is none.
pub open spec fn stored_control(store: Store) -> Result<ControlSettings, PersistReadError> {
    if store.contains_key(CONTROL_SETTINGS_KEY@) {
        match store[CONTROL_SETTINGS_KEY@] {
            SettingsRecord::Control(settings) => Ok(settings),
            _ => Err(PersistReadError::Unreadable),
        }
    } else {
        Err(PersistReadError::NotFound)
    }
}

/// What a read of the graphics settings yields: the record under their key,
/// or the reason why there is none.
pub open spec fn stored_graphics(store: Store) -> Result<GraphicsSettings, PersistReadError> {
    if store.contains_key(GRAPHICS_SETTINGS_KEY@) {
        match store[GRAPHICS_SETTINGS_KEY@] {
            SettingsRecord::Graphics(settings) => Ok(settings),
            _ => Err(PersistReadError::Unreadable),
        }
    } else {
        Err(PersistReadError::NotFound)
    }
}

/// The store once a record has been written to it: the record stands under
/// its key, and every other key is as it was.
pub open spec fn written(store: Store, record: SettingsRecord) -> Store {
    store.insert(record.spec_key(), record)
}

/// The store once some records have been written to it, in order.
pub open spec fn written_all(store: Store, records: Seq<SettingsRecord>) -> Store
    decreases records.len(),
{
    if records.len() == 0 {
        store
    } else {
        written(written_all(store, records.drop_last()), records.last())
    }
}

/// The records that `import_player_settings` asks to have written back:
/// the defaults of those that the read of the store did not yield, control
/// settings first.
pub open spec fn repairs(
    stored_control: Result<ControlSettings, PersistReadError>,
    stored_graphics: Result<GraphicsSettings, PersistReadError>,
) -> Seq<SettingsRecord> {
    let control = if stored_control is Err {
        seq![SettingsRecord::Control(ControlSettings::spec_default())]
    } else {
        Seq::<SettingsRecord>::empty()
    };
    let graphics = if stored_graphics is Err {
        seq![SettingsRecord::Graphics(GraphicsSettings::spec_default())]
    } else {
        Seq::<SettingsRecord>::empty()
    };
    control + graphics
}

/// Loads one record, or its default. Where the read of the key yielded a
/// record, `settings` takes it over. Where it failed, for whatever reason,
/// `settings` becomes the default of its type, and the result asks for that
/// default to be written back under the key.
pub fn import_settings<T: Default>(settings: &mut T, stored: Result<T, PersistReadError>) -> (export:
    bool)
    ensures
        export == (stored is Err),
        stored matches Ok(record) ==> *final(settings) == record,
        stored is Err ==> call_ensures(T::default, (), *final(settings)),
{
    match stored {
        Ok(new_settings) => {
            *settings = new_settings;
            false
        },
        Err(_) => {
            *settings = T::default();
            true
        },
    }
}

/// Loads both records at startup and returns those that have to be written
/// back to the store, in the order in which to write them.
pub fn import_player_settings(
    control_settings: &mut ControlSettings,
    graphics_settings: &mut GraphicsSettings,
    stored_control: Result<ControlSettings, PersistReadError>,
    stored_graphics: Result<GraphicsSettings, PersistReadError>,
) -> (exports: Vec<SettingsRecord>)
    ensures
        *final(control_settings) == imported(stored_control, ControlSettings::spec_default()),
        *final(graphics_settings) == imported(stored_graphics, GraphicsSettings::spec_default()),
        exports@ == repairs(stored_control, stored_graphics),
{
    let mut exports: Vec<SettingsRecord> = Vec::new();
    if import_settings(control_settings, stored_control) {
        exports.push(SettingsRecord::Control(*control_settings));
    }
    if import_settings(graphics_settings, stored_graphics) {
        exports.push(SettingsRecord::Graphics(*graphics_settings));
    }
    exports
}

/// The two keys differ, so that a write of one record never touches the
/// other.
pub proof fn lemma_keys_differ()
    ensures
        CONTROL_SETTINGS_KEY@ != GRAPHICS_SETTINGS_KEY@,
{
    reveal_strlit("settings.control");
    reveal_strlit("settings.graphics");
    assert(CONTROL_SETTINGS_KEY@.len() != GRAPHICS_SETTINGS_KEY@.len());
}

/// A record that has been written is what a read of its key yields, and
/// the record under the other key reads as before.
pub proof fn lemma_write_then_read(store: Store, record: SettingsRecord)
    ensures
        written(store, record).contains_key(record.spec_key()),
        written(store, record)[record.spec_key()] == record,
        record matches SettingsRecord::Control(settings) ==> stored_control(written(store, record))
            == Ok::<ControlSettings, PersistReadError>(settings) && stored_graphics(
            written(store, record),
        ) == stored_graphics(store),
        record matches SettingsRecord::Graphics(settings) ==> stored_graphics(
            written(store, record),
        ) == Ok::<GraphicsSettings, PersistReadError>(settings) && stored_control(
            written(store, record),
        ) == stored_control(store),
        forall|key: Seq<char>|
            key != record.spec_key() ==> written(store, record).contains_key(key)
                == store.contains_key(key) && written(store, record)[key] == store[key],
{
    lemma_keys_differ();
}

/// Loading is self-healing. Take any store, load both records from it, and
/// let every write that the import asks for go through. Then both keys
/// exist and hold the records that the import settled on, also where a key
/// was missing or held something unreadable before. Loading again from that
/// store settles on the same records and asks for no write, so the store
/// stays as it is. Keys other than the two are never touched.
pub proof fn lemma_import_is_self_healing(store: Store)
    ensures
        ({
            let control = imported(stored_control(store), ControlSettings::spec_default());
            let graphics = imported(stored_graphics(store), GraphicsSettings::spec_default());
            let after = written_all(store, repairs(stored_control(store), stored_graphics(store)));
            &&& stored_control(after) == Ok::<ControlSettings, PersistReadError>(control)
            &&& stored_graphics(after) == Ok::<GraphicsSettings, PersistReadError>(graphics)
            &&& imported(stored_control(after), ControlSettings::spec_default()) == control
            &&& imported(stored_graphics(after), GraphicsSettings::spec_default()) == graphics
            &&& repairs(stored_control(after), stored_graphics(after)) == Seq::<
                SettingsRecord,
            >::empty()
            &&& written_all(after, repairs(stored_control(after), stored_graphics(after))) == after
            &&& forall|key: Seq<char>|
                key != CONTROL_SETTINGS_KEY@ && key != GRAPHICS_SETTINGS_KEY@ ==> after.contains_key(
                    key,
                ) == store.contains_key(key) && after[key] == store[key]
        }),
{
    lemma_keys_differ();
    let missing_control = stored_control(store) is Err;
    let missing_graphics = stored_graphics(store) is Err;
    let control = SettingsRecord::Control(ControlSettings::spec_default());
    let graphics = SettingsRecord::Graphics(GraphicsSettings::spec_default());
    let records = repairs(stored_control(store), stored_graphics(store));
    if missing_control && missing_graphics {
        assert(records =~= seq![control, graphics]);
        assert(records.drop_last() =~= seq![control]);
        assert(records.drop_last().drop_last() =~= Seq::<SettingsRecord>::empty());
        assert(written_all(store, records) == written(written(store, control), graphics)) by {
            reveal_with_fuel(written_all, 3);
        }
    } else if missing_control {
        assert(records =~= seq![control]);
        assert(records.drop_last() =~= Seq::<SettingsRecord>::empty());
        assert(written_all(store, records) == written(store, control)) by {
            reveal_with_fuel(written_all, 2);
        }
    } else if missing_graphics {
        assert(records =~= seq![graphics]);
        assert(records.drop_last() =~= Seq::<SettingsRecord>::empty());
        assert(written_all(store, records) == written(store, graphics)) by {
            reveal_with_fuel(written_all, 2);
        }
    } else {
        assert(records =~= Seq::<SettingsRecord>::empty());
    }
}

} // verus!
