use vstd::prelude::*;

use crate::commands::Commands;
use crate::error::Error;
use crate::persistence::{kind_name, PersistenceUnit, PersistenceUnitDto, PersistenceUnitKind};

verus! {

/// Storage namespace of persisted units.
pub const NVS_NAMESPACE: &'static str = "blinky_persistence";

/// What the persister asks its surroundings to do.
#[derive(Debug)]
pub enum PersisterAction {
    /// Read the bytes stored under the unit's kind, then hand the outcome to
    /// `PersisterModule::should_write`, and write the unit's bytes under its kind if told so.
    Persist(PersistenceUnitDto),
    /// Read the bytes stored under this kind and hand the outcome to
    /// `PersisterModule::restored_unit`, whose unit goes out as a `Restored` event.
    Restore(PersistenceUnitKind),
    Stop,
}

/// The persister's storage as its loop sees it: the bytes stored under each key.
pub type StoredUnits = Map<Seq<char>, Seq<u8>>;

/// What the persister's loop does on one command, over a storage where a read under a key
/// succeeds exactly when bytes are stored there and gives them back, and a write stores them:
/// the storage after it, and the kind and bytes (or `None` for a failed read) of the unit it
/// announces as restored. A unit to persist is written under its kind's name only where
/// `PersisterModule::should_write` says so; a restore reads under that name and announces what
/// `PersisterModule::restored_unit` makes of the read.
pub open spec fn persister_step(stored: StoredUnits, command: Commands) -> (
    StoredUnits,
    Option<(PersistenceUnitKind, Option<Seq<u8>>)>,
) {
    match command {
        Commands::Persist(unit) => {
            let key = kind_name(unit.kind);
            if !stored.dom().contains(key) {
                (stored.insert(key, unit.data->Ok_0@), None)
            } else {
                (stored, None)
            }
        },
        Commands::Restore(kind) => {
            let key = kind_name(kind);
            (stored, Some((kind, if stored.dom().contains(key) { Some(stored[key]) } else { None })))
        },
        _ => (stored, None),
    }
}

/// Persisting a unit and then restoring its kind gives back the unit's bytes where nothing was
/// stored under its kind before; where something was, the stored bytes stay and come back.
pub proof fn persist_then_restore(stored: StoredUnits, unit: PersistenceUnit)
    requires
        unit.data is Ok,
    ensures
        ({
            let after = persister_step(stored, Commands::Persist(unit)).0;
            let key = kind_name(unit.kind);
            persister_step(after, Commands::Restore(unit.kind)).1 == Some(
                (
                    unit.kind,
                    Some(
                        if stored.dom().contains(key) {
                            stored[key]
                        } else {
                            unit.data->Ok_0@
                        },
                    ),
                ),
            )
        }),
{
}

/// The module that keeps persisted units in non-volatile storage.
pub struct PersisterModule {}

impl PersisterModule {
    /// Handles a command from the bus. A unit to persist must hold data.
    pub fn command_handler(command: Commands) -> (r: Option<PersisterAction>)
        requires
            command matches Commands::Persist(unit) ==> unit.data is Ok,
        ensures
            match command {
                Commands::Persist(unit) => r matches Some(PersisterAction::Persist(dto)) && dto.kind
                    == unit.kind && dto.data@ == unit.data->Ok_0@,
                Commands::Restore(kind) => r matches Some(PersisterAction::Restore(k)) && k == kind,
                Commands::StartDeepSleep => r matches Some(PersisterAction::Stop),
                _ => r is None,
            },
    {
        match command {
            Commands::Persist(unit) => Some(PersisterAction::Persist(unit.into_dto())),
            Commands::Restore(kind) => Some(PersisterAction::Restore(kind)),
            Commands::StartDeepSleep => Some(PersisterAction::Stop),
            _ => None,
        }
    }

    /// Whether a unit is written after reading what is stored under its kind. The existing
    /// and the new unit are compared by what hashing them returns, which is the unit value
    /// `()` for both, so they always compare equal: a unit is written only where reading
    /// found nothing.
    pub fn should_write(existing_read_ok: bool) -> (r: bool)
        ensures
            r == !existing_read_ok,
    {
        !existing_read_ok
    }

    /// The unit announced after reading the bytes stored under `kind`: the bytes, or the
    /// reading's error.
    pub fn restored_unit(kind: PersistenceUnitKind, read: Result<Vec<u8>, Error>) -> (r: PersistenceUnit)
        ensures
            r.kind == kind,
            read matches Ok(bytes) ==> r.data matches Ok(d) && d@ == bytes@,
            read matches Err(e) ==> r.data matches Err(e2) && e2 == e,
    {
        match read {
            Ok(bytes) => PersistenceUnit::new(kind, bytes),
            Err(error) => PersistenceUnit::failed(kind, error),
        }
    }

    /// The storage key of a kind: its name.
    pub fn storage_key(kind: PersistenceUnitKind) -> (r: &'static str)
        ensures
            r@ == kind_name(kind),
    {
        kind.as_str()
    }
}

} // verus!
