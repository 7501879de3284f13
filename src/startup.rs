//! Start-up of the attribute store, run again whenever the profile directory
//! changes: resolve the directory, open the environment and the store,
//! migrate legacy data, and rebuild the snapshot. Each step that fails
//! leaves the store unavailable for the rest; a failed migration does not.

use vstd::prelude::*;

use crate::cache::XulData;
use crate::error::XULStoreError;
use crate::value::StoredValue;
use crate::key::{join3, make_key};
use crate::xulstore::{get_data, spec_data_of};

verus! {

/// The step that start-up waits on.
#[derive(Debug, Clone, Copy, PartialEq, Eq, Structural)]
pub enum StartupPhase {
    Idle,
    AwaitProfileDir,
    AwaitEnvironment,
    AwaitStore,
    AwaitMigration,
    AwaitScan,
}

/// What the host reports back.
pub enum StartupEvent {
    /// The profile directory changed (or the store is first used).
    ProfileChanged,
    /// The profile directory, where it could be resolved.
    ProfileDir(Option<String>),
    /// Whether the environment beneath the profile directory opened.
    EnvironmentOpened(bool),
    /// Whether the attribute store opened (or was created).
    StoreOpened(bool),
    /// The migration of legacy data ran, successfully or not.
    Migrated,
    /// A full scan of the store in key order, where it could be read.
    Scanned(Option<Vec<(Vec<u8>, Option<StoredValue>)>>),
}

/// What the host does next.
pub enum StartupAction {
    ResolveProfileDir,
    /// Open the environment beneath this profile directory.
    OpenEnvironment(String),
    OpenStore,
    /// Migrate the legacy file found in this profile directory, if any.
    Migrate(String),
    ScanStore,
    Nothing,
}

/// The handles that the attribute store holds, as far as this library
/// sees them, and its snapshot.
pub struct XulStoreState {
    pub phase: StartupPhase,
    pub profile_dir: Option<String>,
    pub has_environment: bool,
    pub has_store: bool,
    pub data: Option<XulData>,
}

impl XulStoreState {
    pub open spec fn wf(&self) -> bool {
        (self.data matches Some(d) ==> d.wf())
    }

    /// A store that has not started: nothing is available.
    pub fn new() -> (r: XulStoreState)
        ensures
            r.wf(),
            r.phase == StartupPhase::Idle,
            r.profile_dir is None,
            !r.has_environment,
            !r.has_store,
            r.data is None,
    {
        XulStoreState {
            phase: StartupPhase::Idle,
            profile_dir: None,
            has_environment: false,
            has_store: false,
            data: None,
        }
    }

    /// The value of an attribute from the snapshot; the empty string where it
    /// has none. Without a snapshot the store is unavailable.
    pub fn get_value(&self, doc: &[u8], id: &[u8], attr: &[u8]) -> (r: Result<String, XULStoreError>)
        requires
            self.wf(),
        ensures
            match &self.data {
                None => r == Err::<String, XULStoreError>(XULStoreError::Unavailable),
                Some(d) => r matches Ok(v) && if d@.contains_key((doc@, id@, attr@)) {
                    v@ == d@[(doc@, id@, attr@)]
                } else {
                    v@ == Seq::<char>::empty()
                },
            },
    {
        match &self.data {
            None => Err(XULStoreError::Unavailable),
            Some(d) => Ok(d.get_value(doc, id, attr)),
        }
    }

    /// Whether the attribute holds a value; without a snapshot the store is
    /// unavailable.
    pub fn has_value(&self, doc: &[u8], id: &[u8], attr: &[u8]) -> (r: Result<bool, XULStoreError>)
        requires
            self.wf(),
        ensures
            match &self.data {
                None => r == Err::<bool, XULStoreError>(XULStoreError::Unavailable),
                Some(d) => r == Ok::<bool, XULStoreError>(d@.contains_key((doc@, id@, attr@))),
            },
    {
        match &self.data {
            None => Err(XULStoreError::Unavailable),
            Some(d) => Ok(d.has_value(doc, id, attr)),
        }
    }

    /// The store key that a write of the attribute goes to; without an open
    /// store the store is unavailable.
    pub fn key_for_write(&self, doc: &[u8], id: &[u8], attr: &[u8]) -> (r: Result<Vec<u8>, XULStoreError>)
        ensures
            !self.has_store ==> r == Err::<Vec<u8>, XULStoreError>(XULStoreError::Unavailable),
            self.has_store ==> (r matches Ok(k) && k@ == join3(doc@, id@, attr@)),
    {
        if !self.has_store {
            return Err(XULStoreError::Unavailable);
        }
        Ok(make_key(doc, id, attr))
    }

    /// Brings the snapshot up to date after a committed write of the
    /// attribute's value.
    pub fn record_set(&mut self, doc: &[u8], id: &[u8], attr: &[u8], value: String)
        requires
            old(self).wf(),
        ensures
            final(self).wf(),
            final(self).phase == old(self).phase,
            final(self).has_store == old(self).has_store,
            final(self).has_environment == old(self).has_environment,
            final(self).profile_dir == old(self).profile_dir,
            match (old(self).data, final(self).data) {
                (None, None) => true,
                (Some(d0), Some(d1)) => d1@ == d0@.insert((doc@, id@, attr@), value@),
                _ => false,
            },
    {
        match &mut self.data {
            Some(d) => d.set_value(doc, id, attr, value),
            None => {},
        }
    }

    /// Brings the snapshot up to date after a committed removal of the
    /// attribute's value.
    pub fn record_remove(&mut self, doc: &[u8], id: &[u8], attr: &[u8])
        requires
            old(self).wf(),
        ensures
            final(self).wf(),
            final(self).phase == old(self).phase,
            final(self).has_store == old(self).has_store,
            final(self).has_environment == old(self).has_environment,
            final(self).profile_dir == old(self).profile_dir,
            match (old(self).data, final(self).data) {
                (None, None) => true,
                (Some(d0), Some(d1)) => d1@ == d0@.remove((doc@, id@, attr@)),
                _ => false,
            },
    {
        match &mut self.data {
            Some(d) => d.remove_value(doc, id, attr),
            None => {},
        }
    }
}

fn clear_from_environment(state: &mut XulStoreState)
    ensures
        final(state).phase == StartupPhase::Idle,
        final(state).profile_dir == old(state).profile_dir,
        !final(state).has_environment,
        !final(state).has_store,
        final(state).data is None,
{
    state.phase = StartupPhase::Idle;
    state.has_environment = false;
    state.has_store = false;
    state.data = None;
}

/// Takes start-up one step further, given what the host reports for the
/// step it was asked to carry out, and says what the host does next. A
/// report that does not answer the step waited on changes nothing.
pub fn update_profile_dir(state: &mut XulStoreState, event: StartupEvent) -> (a: StartupAction)
    requires
        old(state).wf(),
    ensures
        final(state).wf(),
        match (old(state).phase, event) {
            (_, StartupEvent::ProfileChanged) => final(state).phase == StartupPhase::AwaitProfileDir
                && final(state).profile_dir == old(state).profile_dir
                && final(state).has_environment == old(state).has_environment
                && final(state).has_store == old(state).has_store
                && final(state).data == old(state).data
                && a is ResolveProfileDir,
            (StartupPhase::AwaitProfileDir, StartupEvent::ProfileDir(Some(dir))) =>
                final(state).phase == StartupPhase::AwaitEnvironment
                && final(state).profile_dir == Some(dir)
                && final(state).has_environment == old(state).has_environment
                && final(state).has_store == old(state).has_store
                && final(state).data == old(state).data
                && a == StartupAction::OpenEnvironment(dir),
            (StartupPhase::AwaitProfileDir, StartupEvent::ProfileDir(None)) =>
                final(state).phase == StartupPhase::Idle
                && final(state).profile_dir is None
                && !final(state).has_environment
                && !final(state).has_store
                && final(state).data is None
                && a is Nothing,
            (StartupPhase::AwaitEnvironment, StartupEvent::EnvironmentOpened(true)) =>
                final(state).phase == StartupPhase::AwaitStore
                && final(state).profile_dir == old(state).profile_dir
                && final(state).has_environment
                && final(state).has_store == old(state).has_store
                && final(state).data == old(state).data
                && a is OpenStore,
            (StartupPhase::AwaitStore, StartupEvent::StoreOpened(true)) =>
                final(state).profile_dir == old(state).profile_dir
                && final(state).has_environment == old(state).has_environment
                && final(state).has_store
                && final(state).data == old(state).data
                && match old(state).profile_dir {
                    Some(dir) => final(state).phase == StartupPhase::AwaitMigration
                        && a == StartupAction::Migrate(dir),
                    None => final(state).phase == StartupPhase::AwaitScan && a is ScanStore,
                },
            (StartupPhase::AwaitEnvironment, StartupEvent::EnvironmentOpened(false))
            | (StartupPhase::AwaitStore, StartupEvent::StoreOpened(false)) =>
                final(state).phase == StartupPhase::Idle
                && final(state).profile_dir == old(state).profile_dir
                && !final(state).has_environment
                && !final(state).has_store
                && final(state).data is None
                && a is Nothing,
            (StartupPhase::AwaitMigration, StartupEvent::Migrated) =>
                final(state).phase == StartupPhase::AwaitScan
                && final(state).profile_dir == old(state).profile_dir
                && final(state).has_environment == old(state).has_environment
                && final(state).has_store == old(state).has_store
                && final(state).data == old(state).data
                && a is ScanStore,
            (StartupPhase::AwaitScan, StartupEvent::Scanned(scan)) =>
                final(state).phase == StartupPhase::Idle
                && final(state).profile_dir == old(state).profile_dir
                && final(state).has_environment == old(state).has_environment
                && final(state).has_store == old(state).has_store
                && match scan {
                    Some(entries) => match spec_data_of(entries@) {
                        Ok(m) => final(state).data matches Some(d) && d@ == m,
                        Err(_) => final(state).data is None,
                    },
                    None => final(state).data is None,
                }
                && a is Nothing,
            _ => *final(state) == *old(state) && a is Nothing,
        },
{
    match (state.phase, event) {
        (_, StartupEvent::ProfileChanged) => {
            state.phase = StartupPhase::AwaitProfileDir;
            StartupAction::ResolveProfileDir
        },
        (StartupPhase::AwaitProfileDir, StartupEvent::ProfileDir(Some(dir))) => {
            state.phase = StartupPhase::AwaitEnvironment;
            state.profile_dir = Some(dir.clone());
            StartupAction::OpenEnvironment(dir)
        },
        (StartupPhase::AwaitProfileDir, StartupEvent::ProfileDir(None)) => {
            state.profile_dir = None;
            clear_from_environment(state);
            StartupAction::Nothing
        },
        (StartupPhase::AwaitEnvironment, StartupEvent::EnvironmentOpened(true)) => {
            state.phase = StartupPhase::AwaitStore;
            state.has_environment = true;
            StartupAction::OpenStore
        },
        (StartupPhase::AwaitStore, StartupEvent::StoreOpened(true)) => {
            state.has_store = true;
            match &state.profile_dir {
                Some(dir) => {
                    let dir = dir.clone();
                    state.phase = StartupPhase::AwaitMigration;
                    StartupAction::Migrate(dir)
                },
                None => {
                    state.phase = StartupPhase::AwaitScan;
                    StartupAction::ScanStore
                },
            }
        },
        (StartupPhase::AwaitEnvironment, StartupEvent::EnvironmentOpened(false))
        | (StartupPhase::AwaitStore, StartupEvent::StoreOpened(false)) => {
            clear_from_environment(state);
            StartupAction::Nothing
        },
        (StartupPhase::AwaitMigration, StartupEvent::Migrated) => {
            state.phase = StartupPhase::AwaitScan;
            StartupAction::ScanStore
        },
        (StartupPhase::AwaitScan, StartupEvent::Scanned(scan)) => {
            state.phase = StartupPhase::Idle;
            state.data = match scan {
                Some(entries) => match get_data(&entries) {
                    Ok(d) => Some(d),
                    Err(_) => None,
                },
                None => None,
            };
            StartupAction::Nothing
        },
        _ => StartupAction::Nothing,
    }
}

} // verus!
