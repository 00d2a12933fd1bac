use vstd::prelude::*;

use crate::permissions::{allows, AccessMode, Permissions};
use crate::value::{type_of, DataType, DataValue, Timestamp, ValueModel};

verus! {

/// A value with the broker time at which it was accepted (`ts`, nanoseconds
/// since the UNIX epoch) and the producer's capture time, if it gave one.
#[derive(Debug, Clone)]
pub struct Datapoint {
    pub value: DataValue,
    pub ts: u64,
    pub source_ts: Option<Timestamp>,
}

pub struct DatapointModel {
    pub value: ValueModel,
    pub ts: u64,
    pub source_ts: Option<Timestamp>,
}

impl View for Datapoint {
    type V = DatapointModel;

    open spec fn view(&self) -> DatapointModel {
        DatapointModel { value: self.value@, ts: self.ts, source_ts: self.source_ts }
    }
}

/// What a signal is.
#[derive(Clone, Copy, Debug, PartialEq, Eq, Structural)]
pub enum EntryType {
    Sensor,
    Actuator,
    Attribute,
}

/// Why one entry operation failed.
#[derive(Clone, Copy, Debug, PartialEq, Eq, Structural)]
pub enum EntryError {
    NotFound,
    PermissionDenied,
    InvalidValue,
}

/// One signal: its identity, metadata, current value and, for actuators,
/// the last requested setpoint.
#[derive(Debug)]
pub struct Entry {
    pub id: i32,
    pub path: String,
    pub entry_type: EntryType,
    pub data_type: DataType,
    pub datapoint: Datapoint,
    pub actuator_target: Option<Datapoint>,
    pub description: Option<String>,
    pub allowed: Option<Vec<DataValue>>,
    pub unit: Option<String>,
}

pub struct EntryModel {
    pub id: i32,
    pub path: Seq<char>,
    pub entry_type: EntryType,
    pub data_type: DataType,
    pub datapoint: DatapointModel,
    pub actuator_target: Option<DatapointModel>,
    pub description: Option<Seq<char>>,
    pub allowed: Option<Seq<ValueModel>>,
    pub unit: Option<Seq<char>>,
}

pub open spec fn opt_text(o: Option<String>) -> Option<Seq<char>> {
    match o {
        Some(s) => Some(s@),
        None => None,
    }
}

pub open spec fn opt_datapoint(o: Option<Datapoint>) -> Option<DatapointModel> {
    match o {
        Some(d) => Some(d@),
        None => None,
    }
}

pub open spec fn opt_values(o: Option<Vec<DataValue>>) -> Option<Seq<ValueModel>> {
    match o {
        Some(v) => Some(v@.map_values(|x: DataValue| x@)),
        None => None,
    }
}

impl View for Entry {
    type V = EntryModel;

    open spec fn view(&self) -> EntryModel {
        EntryModel {
            id: self.id,
            path: self.path@,
            entry_type: self.entry_type,
            data_type: self.data_type,
            datapoint: self.datapoint@,
            actuator_target: opt_datapoint(self.actuator_target),
            description: opt_text(self.description),
            allowed: opt_values(self.allowed),
            unit: opt_text(self.unit),
        }
    }
}

/// A sparse patch of one entry: each field that is present replaces the
/// entry's; absent ones leave it as it is. An entry's path never changes, so
/// a supplied `path` is not applied.
#[derive(Debug)]
pub struct EntryUpdate {
    pub path: Option<String>,
    pub datapoint: Option<Datapoint>,
    pub actuator_target: Option<Datapoint>,
    pub entry_type: Option<EntryType>,
    pub data_type: Option<DataType>,
    pub description: Option<String>,
    pub allowed: Option<Vec<DataValue>>,
    pub unit: Option<String>,
}

pub struct UpdateModel {
    pub path: Option<Seq<char>>,
    pub datapoint: Option<DatapointModel>,
    pub actuator_target: Option<DatapointModel>,
    pub entry_type: Option<EntryType>,
    pub data_type: Option<DataType>,
    pub description: Option<Seq<char>>,
    pub allowed: Option<Seq<ValueModel>>,
    pub unit: Option<Seq<char>>,
}

impl View for EntryUpdate {
    type V = UpdateModel;

    open spec fn view(&self) -> UpdateModel {
        UpdateModel {
            path: opt_text(self.path),
            datapoint: opt_datapoint(self.datapoint),
            actuator_target: opt_datapoint(self.actuator_target),
            entry_type: self.entry_type,
            data_type: self.data_type,
            description: opt_text(self.description),
            allowed: opt_values(self.allowed),
            unit: opt_text(self.unit),
        }
    }
}

impl EntryUpdate {
    /// A patch that sets the current value only.
    pub fn datapoint(datapoint: Datapoint) -> (r: EntryUpdate)
        ensures
            r@ == (UpdateModel {
                path: None,
                datapoint: Some(datapoint@),
                actuator_target: None,
                entry_type: None,
                data_type: None,
                description: None,
                allowed: None,
                unit: None,
            }),
    {
        EntryUpdate {
            path: None,
            datapoint: Some(datapoint),
            actuator_target: None,
            entry_type: None,
            data_type: None,
            description: None,
            allowed: None,
            unit: None,
        }
    }
}

/// Whether `v` may be stored in an entry of type `t` with allowed set
/// `allowed`: `NotAvailable` always may; any other value must have type `t`
/// and, where an allowed set is configured, be one of its values.
pub open spec fn value_fits(v: ValueModel, t: DataType, allowed: Option<Seq<ValueModel>>) -> bool {
    v is NotAvailable || (type_of(v) == Some(t) && match allowed {
        None => true,
        Some(a) => a.contains(v),
    })
}

/// Whether every value that `u` supplies fits the entry `e`.
pub open spec fn update_valid(e: EntryModel, u: UpdateModel) -> bool {
    (match u.datapoint {
        Some(d) => value_fits(d.value, e.data_type, e.allowed),
        None => true,
    }) && (match u.actuator_target {
        Some(d) => value_fits(d.value, e.data_type, e.allowed),
        None => true,
    })
}

/// Whether `u` changes anything but the actuator target.
pub open spec fn writes_entry(u: UpdateModel) -> bool {
    u.path is Some || u.datapoint is Some || u.entry_type is Some || u.data_type is Some
        || u.description is Some || u.allowed is Some || u.unit is Some
}

/// Writing an entry takes `Write` on its path; setting an actuator target
/// takes `Actuate`.
pub open spec fn update_permitted(
    perms: Seq<(Seq<char>, AccessMode)>,
    path: Seq<char>,
    u: UpdateModel,
) -> bool {
    (writes_entry(u) ==> allows(perms, path, AccessMode::Write)) && (u.actuator_target is Some
        ==> allows(perms, path, AccessMode::Actuate))
}

/// The entry `e` after the patch `u`, with `ts` as the time of a new value.
pub open spec fn patched(e: EntryModel, u: UpdateModel, ts: u64) -> EntryModel {
    EntryModel {
        id: e.id,
        path: e.path,
        entry_type: match u.entry_type {
            Some(t) => t,
            None => e.entry_type,
        },
        data_type: match u.data_type {
            Some(t) => t,
            None => e.data_type,
        },
        datapoint: match u.datapoint {
            Some(d) => DatapointModel { value: d.value, ts, source_ts: d.source_ts },
            None => e.datapoint,
        },
        actuator_target: match u.actuator_target {
            Some(d) => Some(d),
            None => e.actuator_target,
        },
        description: match u.description {
            Some(d) => Some(d),
            None => e.description,
        },
        allowed: match u.allowed {
            Some(a) => Some(a),
            None => e.allowed,
        },
        unit: match u.unit {
            Some(x) => Some(x),
            None => e.unit,
        },
    }
}

/// The store as a whole: the entries in order of registration and the latest
/// broker time handed out.
pub struct StoreModel {
    pub entries: Seq<EntryModel>,
    pub clock: u64,
}

pub open spec fn has_id(s: StoreModel, id: i32) -> bool {
    exists|i: int| 0 <= i < s.entries.len() && #[trigger] s.entries[i].id == id
}

/// Where the entry with id `id` stands (ids are unique in a well-formed store).
pub open spec fn index_of(s: StoreModel, id: i32) -> int {
    choose|i: int| 0 <= i < s.entries.len() && #[trigger] s.entries[i].id == id
}

pub open spec fn entry_of(s: StoreModel, id: i32) -> EntryModel {
    s.entries[index_of(s, id)]
}

/// Broker time never runs backwards: a new value gets `now`, or the latest
/// time already handed out where `now` is earlier.
pub open spec fn tick(clock: u64, now: u64) -> u64 {
    if now > clock {
        now
    } else {
        clock
    }
}

/// One update through the authorization check: the store afterwards and the
/// error, if any.
pub open spec fn update_step(
    s: StoreModel,
    perms: Seq<(Seq<char>, AccessMode)>,
    id: i32,
    u: UpdateModel,
    now: u64,
) -> (StoreModel, Option<EntryError>) {
    if !has_id(s, id) {
        (s, Some(EntryError::NotFound))
    } else if !update_permitted(perms, entry_of(s, id).path, u) {
        (s, Some(EntryError::PermissionDenied))
    } else if !update_valid(entry_of(s, id), u) {
        (s, Some(EntryError::InvalidValue))
    } else {
        let ts = if u.datapoint is Some {
            tick(s.clock, now)
        } else {
            s.clock
        };
        (
            StoreModel {
                entries: s.entries.update(index_of(s, id), patched(entry_of(s, id), u, ts)),
                clock: ts,
            },
            None,
        )
    }
}

/// A batch applied from its last pair to its first, each pair on its own:
/// the store afterwards, and each failing id with its error.
pub open spec fn batch_step(
    s: StoreModel,
    perms: Seq<(Seq<char>, AccessMode)>,
    updates: Seq<(i32, UpdateModel)>,
    now: u64,
) -> (StoreModel, Seq<(i32, EntryError)>)
    decreases updates.len(),
{
    if updates.len() == 0 {
        (s, Seq::empty())
    } else {
        let (id, u) = updates.last();
        let (s1, e) = update_step(s, perms, id, u, now);
        let (s2, rest) = batch_step(s1, perms, updates.drop_last(), now);
        match e {
            Some(err) => (s2, seq![(id, err)] + rest),
            None => (s2, rest),
        }
    }
}

pub open spec fn updates_model(v: Seq<(i32, EntryUpdate)>) -> Seq<(i32, UpdateModel)> {
    v.map_values(|p: (i32, EntryUpdate)| (p.0, p.1@))
}

/// All signal entries of the broker.
pub struct EntryStore {
    pub entries: Vec<Entry>,
    pub clock: u64,
}

impl View for EntryStore {
    type V = StoreModel;

    open spec fn view(&self) -> StoreModel {
        StoreModel { entries: self.entries@.map_values(|e: Entry| e@), clock: self.clock }
    }
}

pub open spec fn store_wf(s: StoreModel) -> bool {
    &&& forall|i: int, j: int|
        0 <= i < s.entries.len() && 0 <= j < s.entries.len() && i != j ==> #[trigger] s.entries[i].id
            != #[trigger] s.entries[j].id
    &&& forall|i: int| 0 <= i < s.entries.len() ==> #[trigger] s.entries[i].datapoint.ts <= s.clock
    &&& forall|i: int, j: int|
        0 <= i < s.entries.len() && 0 <= j < s.entries.len() && i != j ==> #[trigger] s.entries[i].path
            != #[trigger] s.entries[j].path
}

/// In a well-formed store an id names one index.
pub proof fn lemma_index_unique(s: StoreModel, id: i32, i: int)
    requires
        store_wf(s),
        0 <= i < s.entries.len(),
        s.entries[i].id == id,
    ensures
        has_id(s, id),
        index_of(s, id) == i,
{
    let j = index_of(s, id);
    assert(s.entries[j].id == id);
}

/// An update keeps the ids at every index, and touches at most the entry it
/// names.
pub proof fn lemma_update_step_frame(
    s: StoreModel,
    perms: Seq<(Seq<char>, AccessMode)>,
    id: i32,
    u: UpdateModel,
    now: u64,
)
    requires
        store_wf(s),
    ensures
        ({
            let s2 = update_step(s, perms, id, u, now).0;
            &&& store_wf(s2)
            &&& s2.entries.len() == s.entries.len()
            &&& forall|i: int| 0 <= i < s.entries.len() ==> #[trigger] s2.entries[i].id == s.entries[i].id
            &&& forall|i: int|
                0 <= i < s.entries.len() && s.entries[i].id != id ==> #[trigger] s2.entries[i]
                    == s.entries[i]
        }),
{
    lemma_update_step_wf(s, perms, id, u, now);
    if has_id(s, id) {
        let k = index_of(s, id);
        assert(s.entries[k].id == id);
    }
}

pub proof fn lemma_update_step_wf(
    s: StoreModel,
    perms: Seq<(Seq<char>, AccessMode)>,
    id: i32,
    u: UpdateModel,
    now: u64,
)
    requires
        store_wf(s),
    ensures
        store_wf(update_step(s, perms, id, u, now).0),
{
    let s2 = update_step(s, perms, id, u, now).0;
    assert forall|i: int| 0 <= i < s2.entries.len() implies #[trigger] s2.entries[i].datapoint.ts
        <= s2.clock by {
        assert(s.entries[i].datapoint.ts <= s.clock);
    }
    assert forall|i: int| 0 <= i < s2.entries.len() implies #[trigger] s2.entries[i].id == s.entries[i].id by {
    }
    assert forall|i: int, j: int|
        0 <= i < s2.entries.len() && 0 <= j < s2.entries.len() && i != j implies #[trigger] s2.entries[i].path
            != #[trigger] s2.entries[j].path by {
        assert(s.entries[i].path != s.entries[j].path);
    }
}

/// Whether `v` is one of `allowed`.
fn value_in(v: &DataValue, allowed: &Vec<DataValue>) -> (r: bool)
    ensures
        r == allowed@.map_values(|x: DataValue| x@).contains(v@),
{
    let ghost a = allowed@.map_values(|x: DataValue| x@);
    let mut k: usize = 0;
    while k < allowed.len()
        invariant
            a == allowed@.map_values(|x: DataValue| x@),
            k <= allowed@.len(),
            forall|j: int| 0 <= j < k ==> a[j] != v@,
        decreases allowed@.len() - k,
    {
        if allowed[k].same_as(v) {
            proof {
                assert(a[k as int] == v@);
            }
            return true;
        }
        k = k + 1;
    }
    false
}

/// Whether `v` may be stored in an entry of type `t` with allowed set `allowed`.
pub fn fits(v: &DataValue, t: DataType, allowed: &Option<Vec<DataValue>>) -> (r: bool)
    ensures
        r == value_fits(v@, t, opt_values(*allowed)),
{
    match v.data_type() {
        None => true,
        Some(vt) => {
            if vt != t {
                return false;
            }
            match allowed {
                None => true,
                Some(a) => value_in(v, a),
            }
        },
    }
}

fn apply_patch(e: &mut Entry, u: EntryUpdate, ts: u64)
    ensures
        final(e)@ == patched(old(e)@, u@, ts),
{
    if let Some(d) = u.datapoint {
        e.datapoint = Datapoint { value: d.value, ts, source_ts: d.source_ts };
    }
    if let Some(d) = u.actuator_target {
        e.actuator_target = Some(d);
    }
    if let Some(t) = u.entry_type {
        e.entry_type = t;
    }
    if let Some(t) = u.data_type {
        e.data_type = t;
    }
    if let Some(d) = u.description {
        e.description = Some(d);
    }
    if let Some(a) = u.allowed {
        e.allowed = Some(a);
    }
    if let Some(x) = u.unit {
        e.unit = Some(x);
    }
}


pub open spec fn path_taken(s: StoreModel, path: Seq<char>) -> bool {
    exists|i: int| 0 <= i < s.entries.len() && #[trigger] s.entries[i].path == path
}

/// The entry that `register` adds as entry number `id`.
pub open spec fn fresh_entry(
    id: i32,
    path: Seq<char>,
    entry_type: EntryType,
    data_type: DataType,
    ts: u64,
) -> EntryModel {
    EntryModel {
        id,
        path,
        entry_type,
        data_type,
        datapoint: DatapointModel { value: ValueModel::NotAvailable, ts, source_ts: None },
        actuator_target: None,
        description: None,
        allowed: None,
        unit: None,
    }
}

/// The ids of the entries that `perms` lets a caller read, in store order.
pub open spec fn readable_ids(entries: Seq<EntryModel>, perms: Seq<(Seq<char>, AccessMode)>) -> Seq<
    i32,
>
    decreases entries.len(),
{
    if entries.len() == 0 {
        Seq::empty()
    } else {
        let rest = readable_ids(entries.drop_last(), perms);
        if allows(perms, entries.last().path, AccessMode::Read) {
            rest.push(entries.last().id)
        } else {
            rest
        }
    }
}

impl EntryStore {
    pub open spec fn wf(&self) -> bool {
        store_wf(self@)
    }

    /// An empty store.
    pub fn new() -> (r: EntryStore)
        ensures
            r.wf(),
            r@.entries.len() == 0,
            r@.clock == 0,
    {
        let r = EntryStore { entries: Vec::new(), clock: 0 };
        proof {
            assert(r@.entries =~= Seq::<EntryModel>::empty());
        }
        r
    }

    /// The index of the entry with path `path`, if there is one.
    pub fn find_path(&self, path: &String) -> (r: Option<usize>)
        ensures
            match r {
                Some(i) => i < self@.entries.len() && self@.entries[i as int].path == path@,
                None => !path_taken(self@, path@),
            },
    {
        let mut i: usize = 0;
        while i < self.entries.len()
            invariant
                i <= self.entries@.len(),
                forall|j: int| 0 <= j < i ==> self@.entries[j].path != path@,
            decreases self.entries@.len() - i,
        {
            if self.entries[i].path.eq(path) {
                return Some(i);
            }
            i = i + 1;
        }
        None
    }

    /// The index of the entry with id `id`, if there is one.
    pub fn find_id(&self, id: i32) -> (r: Option<usize>)
        requires
            self.wf(),
        ensures
            match r {
                Some(i) => has_id(self@, id) && i as int == index_of(self@, id) && i
                    < self@.entries.len(),
                None => !has_id(self@, id),
            },
    {
        let mut i: usize = 0;
        while i < self.entries.len()
            invariant
                self.wf(),
                i <= self.entries@.len(),
                forall|j: int| 0 <= j < i ==> self@.entries[j].id != id,
            decreases self.entries@.len() - i,
        {
            if self.entries[i].id == id {
                proof {
                    lemma_index_unique(self@, id, i as int);
                }
                return Some(i);
            }
            i = i + 1;
        }
        None
    }

    /// Registers a new signal with id `id` and no value yet. Fails, changing
    /// nothing, where the id or the path is already registered.
    pub fn register(&mut self, id: i32, path: String, entry_type: EntryType, data_type: DataType) -> (r:
        bool)
        requires
            old(self).wf(),
        ensures
            final(self).wf(),
            r == (!has_id(old(self)@, id) && !path_taken(old(self)@, path@)),
            r ==> final(self)@ == (StoreModel {
                entries: old(self)@.entries.push(
                    fresh_entry(id, path@, entry_type, data_type, old(self)@.clock),
                ),
                clock: old(self)@.clock,
            }),
            !r ==> final(self)@ == old(self)@,
    {
        if self.find_id(id).is_some() {
            return false;
        }
        if self.find_path(&path).is_some() {
            return false;
        }
        let entry = Entry {
            id,
            path,
            entry_type,
            data_type,
            datapoint: Datapoint { value: DataValue::NotAvailable, ts: self.clock, source_ts: None },
            actuator_target: None,
            description: None,
            allowed: None,
            unit: None,
        };
        let ghost old_s = self@;
        self.entries.push(entry);
        proof {
            assert(self@.entries =~= old_s.entries.push(
                fresh_entry(id, path@, entry_type, data_type, old_s.clock),
            ));
            let new_s = self@;
            assert forall|i: int, j: int|
                0 <= i < new_s.entries.len() && 0 <= j < new_s.entries.len() && i != j implies #[trigger] new_s.entries[i].id
                    != #[trigger] new_s.entries[j].id by {
                if i < old_s.entries.len() && j < old_s.entries.len() {
                    assert(old_s.entries[i].id != old_s.entries[j].id);
                } else if i < old_s.entries.len() {
                    assert(old_s.entries[i].id == new_s.entries[i].id);
                } else {
                    assert(old_s.entries[j].id == new_s.entries[j].id);
                }
            }
            assert forall|i: int| 0 <= i < new_s.entries.len() implies #[trigger] new_s.entries[i].datapoint.ts
                <= new_s.clock by {
                if i < old_s.entries.len() {
                    assert(old_s.entries[i].datapoint.ts <= old_s.clock);
                }
            }
            assert forall|i: int, j: int|
                0 <= i < new_s.entries.len() && 0 <= j < new_s.entries.len() && i != j implies #[trigger] new_s.entries[i].path
                    != #[trigger] new_s.entries[j].path by {
                if i < old_s.entries.len() && j < old_s.entries.len() {
                    assert(old_s.entries[i].path != old_s.entries[j].path);
                } else if i < old_s.entries.len() {
                    assert(old_s.entries[i].path == new_s.entries[i].path);
                } else {
                    assert(old_s.entries[j].path == new_s.entries[j].path);
                }
            }
        }
        true
    }

    /// Reads entry `id` under `perms`: `NotFound` for an unknown id,
    /// `PermissionDenied` where `perms` does not grant `Read` on its path.
    pub fn get(&self, perms: &Permissions, id: i32) -> (r: Result<&Entry, EntryError>)
        requires
            self.wf(),
        ensures
            !has_id(self@, id) ==> r == Err::<&Entry, EntryError>(EntryError::NotFound),
            has_id(self@, id) && !allows(perms@, entry_of(self@, id).path, AccessMode::Read) ==> r
                == Err::<&Entry, EntryError>(EntryError::PermissionDenied),
            has_id(self@, id) && allows(perms@, entry_of(self@, id).path, AccessMode::Read) ==> r is Ok
                && r->Ok_0@ == entry_of(self@, id),
    {
        let i = match self.find_id(id) {
            None => {
                return Err(EntryError::NotFound);
            },
            Some(i) => i,
        };
        let e = &self.entries[i];
        if !perms.allows(e.path.as_str(), AccessMode::Read) {
            return Err(EntryError::PermissionDenied);
        }
        Ok(e)
    }

    /// Applies `u` to entry `id` under `perms`, with `now` as the broker time.
    /// Fails with `NotFound` for an unknown id, `PermissionDenied` where
    /// `perms` does not cover the patch, `InvalidValue` where a supplied value
    /// does not fit the entry; a failed update changes nothing.
    pub fn update_entry(&mut self, perms: &Permissions, id: i32, u: EntryUpdate, now: u64) -> (r:
        Result<(), EntryError>)
        requires
            old(self).wf(),
        ensures
            final(self).wf(),
            (final(self)@, match r {
                Ok(_) => None,
                Err(e) => Some(e),
            }) == update_step(old(self)@, perms@, id, u@, now),
    {
        proof {
            lemma_update_step_wf(self@, perms@, id, u@, now);
        }
        let i = match self.find_id(id) {
            None => {
                return Err(EntryError::NotFound);
            },
            Some(i) => i,
        };
        let e = &self.entries[i];
        let writes = u.path.is_some() || u.datapoint.is_some() || u.entry_type.is_some()
            || u.data_type.is_some() || u.description.is_some() || u.allowed.is_some()
            || u.unit.is_some();
        if writes && !perms.allows(e.path.as_str(), AccessMode::Write) {
            return Err(EntryError::PermissionDenied);
        }
        if u.actuator_target.is_some() && !perms.allows(e.path.as_str(), AccessMode::Actuate) {
            return Err(EntryError::PermissionDenied);
        }
        let valid = match &u.datapoint {
            Some(d) => fits(&d.value, e.data_type, &e.allowed),
            None => true,
        } && match &u.actuator_target {
            Some(d) => fits(&d.value, e.data_type, &e.allowed),
            None => true,
        };
        if !valid {
            return Err(EntryError::InvalidValue);
        }
        let ts = if u.datapoint.is_some() {
            if now > self.clock {
                now
            } else {
                self.clock
            }
        } else {
            self.clock
        };
        let ghost before = self@;
        apply_patch(&mut self.entries[i], u, ts);
        self.clock = ts;
        proof {
            assert(self@.entries =~= before.entries.update(
                index_of(before, id),
                patched(entry_of(before, id), u@, ts),
            ));
        }
        Ok(())
    }

    /// Applies each pair of `updates` on its own under `perms`, with `now` as
    /// the broker time. One failure never undoes or stops another update.
    /// `Ok` where every pair succeeded; otherwise each failing id with its
    /// error, and only those.
    pub fn update_entries(
        &mut self,
        perms: &Permissions,
        updates: Vec<(i32, EntryUpdate)>,
        now: u64,
    ) -> (r: Result<(), Vec<(i32, EntryError)>>)
        requires
            old(self).wf(),
        ensures
            final(self).wf(),
            final(self)@ == batch_step(old(self)@, perms@, updates_model(updates@), now).0,
            match r {
                Ok(_) => batch_step(old(self)@, perms@, updates_model(updates@), now).1.len() == 0,
                Err(errs) => errs@ == batch_step(old(self)@, perms@, updates_model(updates@), now).1
                    && errs@.len() > 0,
            },
    {
        let ghost total = batch_step(self@, perms@, updates_model(updates@), now);
        let mut rest = updates;
        let mut errors: Vec<(i32, EntryError)> = Vec::new();
        while rest.len() > 0
            invariant
                self.wf(),
                total.0 == batch_step(self@, perms@, updates_model(rest@), now).0,
                total.1 == errors@ + batch_step(self@, perms@, updates_model(rest@), now).1,
            decreases rest@.len(),
        {
            let ghost prev = rest@;
            let ghost before = self@;
            let (id, u) = rest.pop().unwrap();
            proof {
                assert(updates_model(rest@) =~= updates_model(prev).drop_last());
                assert(updates_model(prev).last() == (id, u@));
            }
            let res = self.update_entry(perms, id, u, now);
            match res {
                Ok(_) => {},
                Err(e) => {
                    proof {
                        let tail = batch_step(self@, perms@, updates_model(rest@), now).1;
                        assert(errors@.push((id, e)) + tail =~= errors@ + (seq![(id, e)] + tail));
                    }
                    errors.push((id, e));
                },
            }
        }
        proof {
            assert(errors@ + Seq::<(i32, EntryError)>::empty() =~= errors@);
        }
        if errors.len() == 0 {
            Ok(())
        } else {
            Err(errors)
        }
    }

    /// A snapshot of the ids of the entries that `perms` lets a caller read.
    pub fn list(&self, perms: &Permissions) -> (r: Vec<i32>)
        ensures
            r@ == readable_ids(self@.entries, perms@),
    {
        let ghost all = self@.entries;
        let mut ids: Vec<i32> = Vec::new();
        let mut k: usize = 0;
        while k < self.entries.len()
            invariant
                k <= self.entries@.len(),
                all == self@.entries,
                ids@ == readable_ids(all.take(k as int), perms@),
            decreases self.entries@.len() - k,
        {
            let e = &self.entries[k];
            proof {
                assert(all.take(k as int + 1).drop_last() =~= all.take(k as int));
                assert(all.take(k as int + 1).last() == e@);
            }
            if perms.allows(e.path.as_str(), AccessMode::Read) {
                ids.push(e.id);
            }
            k = k + 1;
        }
        proof {
            assert(all.take(self.entries@.len() as int) =~= all);
        }
        ids
    }
}

} // verus!
