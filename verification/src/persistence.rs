use vstd::prelude::*;

use crate::error::Error;

verus! {

/// What a block of persisted data holds; its name is the key it is stored under.
#[derive(Clone, Copy, Debug, PartialEq, Eq, Structural)]
pub enum PersistenceUnitKind {
    RtcSyncInfo,
    CalendarEventInfo,
    CalendarSyncInfo,
}

pub open spec fn kind_name(kind: PersistenceUnitKind) -> Seq<char> {
    match kind {
        PersistenceUnitKind::RtcSyncInfo => "RtcSyncInfo"@,
        PersistenceUnitKind::CalendarEventInfo => "CalendarEventInfo"@,
        PersistenceUnitKind::CalendarSyncInfo => "CalendarSyncInfo"@,
    }
}

impl PersistenceUnitKind {
    /// The name of the kind, which is the storage key of its data.
    pub fn as_str(&self) -> (r: &'static str)
        ensures
            r@ == kind_name(*self),
    {
        match self {
            PersistenceUnitKind::RtcSyncInfo => "RtcSyncInfo",
            PersistenceUnitKind::CalendarEventInfo => "CalendarEventInfo",
            PersistenceUnitKind::CalendarSyncInfo => "CalendarSyncInfo",
        }
    }
}

/// A block of serialized data of some kind, or the error met while reading it.
#[derive(Debug)]
pub struct PersistenceUnit {
    pub kind: PersistenceUnitKind,
    pub data: Result<Vec<u8>, Error>,
}

/// A block of serialized data as it is handed to storage.
#[derive(Clone, Debug)]
pub struct PersistenceUnitDto {
    pub kind: PersistenceUnitKind,
    pub data: Vec<u8>,
}

impl Clone for PersistenceUnit {
    fn clone(&self) -> (r: Self)
        ensures
            r.kind == self.kind,
            r.data is Ok <==> self.data is Ok,
            r.data matches Ok(d) ==> d@ == self.data->Ok_0@,
            r.data matches Err(e) ==> e == self.data->Err_0,
    {
        PersistenceUnit {
            kind: self.kind,
            data: match &self.data {
                Ok(bytes) => Ok(bytes.clone()),
                Err(error) => Err(error.clone()),
            },
        }
    }
}

impl PersistenceUnit {
    /// A unit of the given kind holding already serialized data.
    pub fn new(kind: PersistenceUnitKind, data: Vec<u8>) -> (r: PersistenceUnit)
        ensures
            r.kind == kind,
            r.data matches Ok(d) && d@ == data@,
    {
        PersistenceUnit { kind, data: Ok(data) }
    }

    /// A unit of the given kind whose reading failed.
    pub fn failed(kind: PersistenceUnitKind, error: Error) -> (r: PersistenceUnit)
        ensures
            r.kind == kind,
            r.data matches Err(e) && e == error,
    {
        PersistenceUnit { kind, data: Err(error) }
    }

    /// The data of the unit as it is handed to storage; the unit must hold data.
    pub fn into_dto(self) -> (r: PersistenceUnitDto)
        requires
            self.data is Ok,
        ensures
            r.kind == self.kind,
            r.data@ == self.data->Ok_0@,
    {
        let kind = self.kind;
        match self.data {
            Ok(data) => PersistenceUnitDto { kind, data },
            Err(_) => PersistenceUnitDto { kind, data: Vec::new() },
        }
    }
}

} // verus!
