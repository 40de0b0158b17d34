//! The transaction data cache: a map from access path to clean, dirty or
//! deleted resource entries, layered over an immutable remote view of the
//! backing store. Resources are borrowed, moved and published here, and the
//! overlay is flushed into an ordered write-set when the transaction ends.

use vstd::prelude::*;

use crate::canonical::StructDef;
use crate::canonical::TypeV;
use crate::canonical::spec_deserialize;
use crate::status::StatusCode;
use crate::status::VMResult;
use crate::status::VMStatus;
use crate::types::AccessPath;
use crate::types::AccessPathV;
use crate::values::GlobalRef;
use crate::values::Struct;
use crate::values::Value;
use crate::values::ValueV;
use crate::values::spec_size;

verus! {

/// The remote view contract the data cache consumes: a read-only key-value
/// view of the backing store, pure within a transaction. What `get` answers
/// is fixed by the view's own abstract contents.
pub trait RemoteCache {
    /// The bytes the view holds under an access path, if any.
    spec fn spec_get(&self, ap: AccessPathV) -> Option<Seq<u8>>;

    /// Read the bytes under an access path.
    fn get(&self, access_path: &AccessPath) -> (r: Option<Vec<u8>>)
        ensures
            match self.spec_get(access_path@) {
                Some(bs) => r matches Some(v) && v@ == bs,
                None => r is None,
            },
    ;
}

/// An in-memory remote view over a list of entries: the store the tests and
/// the standalone executor run against.
pub struct InMemoryStorage {
    entries: Vec<(AccessPath, Vec<u8>)>,
}

/// The bytes under the first entry of `entries` whose path is `ap`.
pub open spec fn spec_storage_find(
    entries: Seq<(AccessPathV, Seq<u8>)>,
    ap: AccessPathV,
    from: int,
) -> Option<Seq<u8>>
    decreases entries.len() - from,
{
    if from < 0 || from >= entries.len() {
        None
    } else if entries[from].0 == ap {
        Some(entries[from].1)
    } else {
        spec_storage_find(entries, ap, from + 1)
    }
}

impl InMemoryStorage {
    /// The entries the store holds.
    pub closed spec fn spec_entries(&self) -> Seq<(AccessPathV, Seq<u8>)> {
        Seq::new(self.entries@.len(), |i: int| (self.entries@[i].0@, self.entries@[i].1@))
    }

    /// An empty store.
    pub fn new() -> (r: InMemoryStorage)
        ensures
            r.spec_entries().len() == 0,
    {
        InMemoryStorage { entries: Vec::new() }
    }

    /// Add an entry to the store.
    pub fn publish(&mut self, ap: AccessPath, blob: Vec<u8>) -> (r: ())
        ensures
            final(self).spec_entries() == old(self).spec_entries().push((ap@, blob@)),
    {
        self.entries.push((ap, blob));
        proof {
            assert(final(self).spec_entries() =~= old(self).spec_entries().push((ap@, blob@)));
        }
    }
}

impl RemoteCache for InMemoryStorage {
    closed spec fn spec_get(&self, ap: AccessPathV) -> Option<Seq<u8>> {
        spec_storage_find(self.spec_entries(), ap, 0)
    }

    fn get(&self, access_path: &AccessPath) -> (r: Option<Vec<u8>>) {
        let mut i: usize = 0;
        while i < self.entries.len()
            invariant
                i <= self.entries@.len(),
                spec_storage_find(self.spec_entries(), access_path@, 0) == spec_storage_find(
                    self.spec_entries(),
                    access_path@,
                    i as int,
                ),
            decreases self.entries@.len() - i,
        {
            proof {
                assert(self.spec_entries()[i as int] == (self.entries@[i as int].0@, self.entries@[
                    i as int].1@));
            }
            if self.entries[i].0.equals(access_path) {
                return Some(crate::types::clone_bytes(&self.entries[i].1));
            }
            i += 1;
        }
        None
    }
}

/// The state of one cached resource slot.
#[derive(Debug, PartialEq, Eq)]
pub enum SlotState {
    /// Read from the remote view and not modified.
    Clean(Value),
    /// Created or modified within this transaction.
    Dirty(Value),
    /// Moved out within this transaction.
    Deleted,
}

/// One cached resource slot: its access path, its state, and how many
/// global references into it are outstanding. An outstanding borrow pins
/// the entry for the remainder of the transaction.
#[derive(Debug, PartialEq, Eq)]
pub struct CacheSlot {
    pub ap: AccessPath,
    pub state: SlotState,
    pub borrows: u64,
}

/// The mathematical value of a `SlotState`.
#[verifier::ext_equal]
pub enum SlotStateV {
    Clean(ValueV),
    Dirty(ValueV),
    Deleted,
}

/// The mathematical value of a `CacheSlot`.
#[verifier::ext_equal]
pub struct CacheSlotV {
    pub ap: AccessPathV,
    pub state: SlotStateV,
    pub borrows: u64,
}

impl View for SlotState {
    type V = SlotStateV;

    open spec fn view(&self) -> SlotStateV {
        match self {
            SlotState::Clean(v) => SlotStateV::Clean(v@),
            SlotState::Dirty(v) => SlotStateV::Dirty(v@),
            SlotState::Deleted => SlotStateV::Deleted,
        }
    }
}

impl View for CacheSlot {
    type V = CacheSlotV;

    open spec fn view(&self) -> CacheSlotV {
        CacheSlotV { ap: self.ap@, state: self.state@, borrows: self.borrows }
    }
}

/// The index of the first slot of `slots` whose access path is `ap`.
pub open spec fn spec_find_slot(slots: Seq<CacheSlotV>, ap: AccessPathV, from: int) -> Option<int>
    decreases slots.len() - from,
{
    if from < 0 || from >= slots.len() {
        None
    } else if slots[from].ap == ap {
        Some(from)
    } else {
        spec_find_slot(slots, ap, from + 1)
    }
}

/// A found slot index lies in range and names the queried path.
pub proof fn lemma_find_slot_bounds(slots: Seq<CacheSlotV>, ap: AccessPathV, from: int)
    ensures
        spec_find_slot(slots, ap, from) matches Some(i) ==> from <= i < slots.len() && slots[i].ap
            == ap,
    decreases slots.len() - from,
{
    if 0 <= from < slots.len() && slots[from].ap != ap {
        lemma_find_slot_bounds(slots, ap, from + 1);
    }
}

/// What loading an access path into the cache comes to: an existing slot,
/// a value decoded from the remote view, a miss, or malformed remote bytes.
#[verifier::ext_equal]
pub enum LoadOutcome {
    Found(int),
    Loaded(ValueV),
    Missing,
    Malformed,
}

/// The outcome of ensuring `ap` is present in the cache, against the given
/// slots, remote contents, and resource type.
pub open spec fn spec_load(
    slots: Seq<CacheSlotV>,
    ap: AccessPathV,
    remote: Option<Seq<u8>>,
    ftys: Seq<TypeV>,
) -> LoadOutcome {
    match spec_find_slot(slots, ap, 0) {
        Option::Some(i) => LoadOutcome::Found(i),
        Option::None => match remote {
            Option::None => LoadOutcome::Missing,
            Option::Some(bs) => match spec_deserialize(bs, TypeV::Struct(ftys), 0) {
                Option::Some(x) => if x.1 == bs.len() {
                    LoadOutcome::Loaded(x.0)
                } else {
                    LoadOutcome::Malformed
                },
                Option::None => LoadOutcome::Malformed,
            },
        },
    }
}

/// The transactional overlay over a remote view. Each access path touched
/// by the transaction has one slot; publishing modules accumulates
/// separately and joins the write-set at the end.
pub struct TransactionDataCache<'txn, R: RemoteCache> {
    data_cache: &'txn R,
    data_map: Vec<CacheSlot>,
}

impl<'txn, R: RemoteCache> TransactionDataCache<'txn, R> {
    /// The slots of the overlay, in the order they were first touched.
    pub closed spec fn slots(&self) -> Seq<CacheSlotV> {
        Seq::new(self.data_map@.len(), |i: int| self.data_map@[i]@)
    }

    /// The bytes the remote view holds under an access path.
    pub closed spec fn spec_remote(&self, ap: AccessPathV) -> Option<Seq<u8>> {
        self.data_cache.spec_get(ap)
    }

    /// An empty overlay over the given remote view.
    pub fn new(data_cache: &'txn R) -> (r: TransactionDataCache<'txn, R>)
        ensures
            r.slots().len() == 0,
            forall|ap: AccessPathV| #[trigger] r.spec_remote(ap) == data_cache.spec_get(ap),
    {
        TransactionDataCache { data_cache, data_map: Vec::new() }
    }

    /// Drop every local write, restarting from a clean overlay.
    pub fn clear(&mut self) -> (r: ())
        ensures
            final(self).slots().len() == 0,
            forall|ap: AccessPathV| #[trigger]
                final(self).spec_remote(ap) == old(self).spec_remote(ap),
    {
        self.data_map = Vec::new();
        proof {
            assert(final(self).slots() =~= Seq::<CacheSlotV>::empty());
        }
    }

    /// The index of the slot for `ap`, if one exists.
    fn find_slot(&self, ap: &AccessPath) -> (r: Option<usize>)
        ensures
            match spec_find_slot(self.slots(), ap@, 0) {
                Some(i) => r is Some && r->0 == i && 0 <= i < self.slots().len()
                    && self.slots()[i].ap == ap@,
                None => r is None,
            },
    {
        let mut i: usize = 0;
        while i < self.data_map.len()
            invariant
                i <= self.data_map@.len(),
                spec_find_slot(self.slots(), ap@, 0) == spec_find_slot(
                    self.slots(),
                    ap@,
                    i as int,
                ),
            decreases self.data_map@.len() - i,
        {
            proof {
                assert(self.slots()[i as int] == self.data_map@[i as int]@);
            }
            if self.data_map[i].ap.equals(ap) {
                return Some(i);
            }
            i += 1;
        }
        None
    }

    /// Make sure `ap` has a slot, reading the remote view on a cache miss.
    /// Returns the slot index.
    fn load_slot(&mut self, ap: &AccessPath, def: &StructDef) -> (r: VMResult<usize>)
        ensures
            r is Ok ==> r->Ok_0 < final(self).slots().len() && final(self).slots()[r->Ok_0 as int].ap
                == ap@ && final(self).slots() == spec_after_load(
                old(self).slots(),
                ap@,
                old(self).spec_remote(ap@),
                def@,
            ) && r->Ok_0 == spec_load_index(old(self).slots(), ap@, old(self).spec_remote(ap@), def@),
            r is Err ==> final(self).slots() == old(self).slots(),
            ({
                let outcome = spec_load(old(self).slots(), ap@, old(self).spec_remote(ap@), def@);
                &&& outcome matches LoadOutcome::Found(i) ==> r is Ok && r->Ok_0 == i && final(
                    self).slots() == old(self).slots()
                &&& outcome matches LoadOutcome::Loaded(v) ==> r is Ok && r->Ok_0 == old(self).slots().len() && final(self).slots() == old(self).slots().push(
                    CacheSlotV { ap: ap@, state: SlotStateV::Clean(v), borrows: 0 },
                )
                &&& outcome is Missing ==> r is Err && r->Err_0.major_status
                    == StatusCode::MissingData && final(self).slots() == old(self).slots()
                &&& outcome is Malformed ==> r is Err && r->Err_0.major_status
                    == StatusCode::DataFormatError && final(self).slots() == old(self).slots()
            }),
            final(self).data_cache == old(self).data_cache,
    {
        if let Some(i) = self.find_slot(ap) {
            return Ok(i);
        }
        let blob = match self.data_cache.get(ap) {
            Some(blob) => blob,
            None => {
                return Err(VMStatus::new(StatusCode::MissingData));
            },
        };
        let value = match Value::simple_deserialize(&blob, def) {
            Some(v) => v,
            None => {
                return Err(VMStatus::new(StatusCode::DataFormatError));
            },
        };
        let slot = CacheSlot { ap: ap.clone(), state: SlotState::Clean(value), borrows: 0 };
        let ghost vslot = slot@;
        self.data_map.push(slot);
        proof {
            assert(final(self).slots() =~= old(self).slots().push(vslot));
        }
        Ok(self.data_map.len() - 1)
    }
}

} // verus!

verus! {

/// The slots after a load: unchanged when the path already had a slot or
/// the load failed, extended by a clean slot when the remote view supplied
/// the value.
pub open spec fn spec_after_load(
    slots: Seq<CacheSlotV>,
    ap: AccessPathV,
    remote: Option<Seq<u8>>,
    ftys: Seq<TypeV>,
) -> Seq<CacheSlotV> {
    match spec_load(slots, ap, remote, ftys) {
        LoadOutcome::Loaded(v) => slots.push(
            CacheSlotV { ap, state: SlotStateV::Clean(v), borrows: 0 },
        ),
        _ => slots,
    }
}

/// The index of the slot for `ap` after a successful load.
pub open spec fn spec_load_index(
    slots: Seq<CacheSlotV>,
    ap: AccessPathV,
    remote: Option<Seq<u8>>,
    ftys: Seq<TypeV>,
) -> int {
    match spec_load(slots, ap, remote, ftys) {
        LoadOutcome::Found(i) => i,
        _ => slots.len() as int,
    }
}

impl<'txn, R: RemoteCache> TransactionDataCache<'txn, R> {
    /// Borrow the resource under `ap`: pin its slot with one more
    /// outstanding reference and hand back a logical reference together
    /// with the resource's abstract memory size.
    pub fn borrow_global(&mut self, ap: &AccessPath, def: &StructDef) -> (r: VMResult<
        (GlobalRef, crate::gas_schedule::AbstractMemorySize),
    >)
        ensures
            ({
                let outcome = spec_load(old(self).slots(), ap@, old(self).spec_remote(ap@), def@);
                let s1 = spec_after_load(old(self).slots(), ap@, old(self).spec_remote(ap@), def@);
                let i = spec_load_index(old(self).slots(), ap@, old(self).spec_remote(ap@), def@);
                &&& outcome is Missing ==> r is Err && r->Err_0.major_status
                    == StatusCode::MissingData && final(self).slots() == old(self).slots()
                &&& outcome is Malformed ==> r is Err && r->Err_0.major_status
                    == StatusCode::DataFormatError && final(self).slots() == old(self).slots()
                &&& (outcome is Found || outcome is Loaded) ==> {
                    let slot = s1[i];
                    &&& slot.state is Deleted ==> r is Err && r->Err_0.major_status
                        == StatusCode::MissingData && final(self).slots() == s1
                    &&& (slot.state matches SlotStateV::Clean(v) || slot.state
                        matches SlotStateV::Dirty(v)) ==> {
                        let v = match slot.state {
                            SlotStateV::Clean(v) => v,
                            SlotStateV::Dirty(v) => v,
                            SlotStateV::Deleted => ValueV::Bool(false),
                        };
                        &&& spec_size(v) > u64::MAX ==> r is Err && r->Err_0.major_status
                            == StatusCode::ArithmeticError && final(self).slots() == s1
                        &&& spec_size(v) <= u64::MAX && slot.borrows == u64::MAX ==> r is Err
                            && r->Err_0.major_status == StatusCode::VerifierInvariantViolation
                            && final(self).slots() == s1
                        &&& spec_size(v) <= u64::MAX && slot.borrows < u64::MAX ==> r is Ok && {
                            let (gref, size) = r->Ok_0;
                            &&& gref.ap@ == ap@
                            &&& gref.path@ == Seq::<u16>::empty()
                            &&& size.0 == spec_size(v)
                            &&& final(self).slots() == s1.update(
                                i,
                                CacheSlotV {
                                    ap: slot.ap,
                                    state: slot.state,
                                    borrows: (slot.borrows + 1) as u64,
                                },
                            )
                        }
                    }
                }
            }),
            forall|a: AccessPathV| #[trigger]
                final(self).spec_remote(a) == old(self).spec_remote(a),
    {
        let i = match self.load_slot(ap, def) {
            Ok(i) => i,
            Err(e) => {
                return Err(e);
            },
        };
        proof {
            lemma_find_slot_bounds(old(self).slots(), ap@, 0);
            let outcome = spec_load(old(self).slots(), ap@, old(self).spec_remote(ap@), def@);
            assert(!(outcome is Missing) && !(outcome is Malformed));
            assert(outcome is Found || outcome is Loaded);
            match outcome {
                LoadOutcome::Found(j) => {
                    assert(i == j);
                    assert(0 <= j < old(self).slots().len());
                },
                _ => {},
            }
            assert(i < self.data_map@.len());
            assert(self.slots()[i as int] == self.data_map@[i as int]@);
        }
        let size = match &self.data_map[i].state {
            SlotState::Clean(v) => v.size(),
            SlotState::Dirty(v) => v.size(),
            SlotState::Deleted => {
                return Err(VMStatus::new(StatusCode::MissingData));
            },
        };
        let size = match size {
            Ok(s) => s,
            Err(e) => {
                return Err(e);
            },
        };
        if self.data_map[i].borrows == u64::MAX {
            return Err(VMStatus::new(StatusCode::VerifierInvariantViolation));
        }
        let old_slot_ap = self.data_map[i].ap.clone();
        let old_borrows = self.data_map[i].borrows;
        let old_state = match &self.data_map[i].state {
            SlotState::Clean(v) => SlotState::Clean(v.clone_value()),
            SlotState::Dirty(v) => SlotState::Dirty(v.clone_value()),
            SlotState::Deleted => SlotState::Deleted,
        };
        self.data_map.set(
            i,
            CacheSlot { ap: old_slot_ap, state: old_state, borrows: old_borrows + 1 },
        );
        let gref = GlobalRef { ap: ap.clone(), path: Vec::new() };
        proof {
            let s1 = spec_after_load(old(self).slots(), ap@, old(self).spec_remote(ap@), def@);
            let ghost_i = spec_load_index(old(self).slots(), ap@, old(self).spec_remote(ap@), def@);
            let slot = s1[ghost_i];
            assert(final(self).slots() =~= s1.update(
                ghost_i,
                CacheSlotV { ap: slot.ap, state: slot.state, borrows: (slot.borrows + 1) as u64 },
            ));
        }
        Ok((gref, size))
    }

    /// Whether a resource lives under `ap`, and its size. A hit is
    /// materialized into the overlay; a miss is not.
    pub fn resource_exists(&mut self, ap: &AccessPath, def: &StructDef) -> (r: VMResult<
        (bool, crate::gas_schedule::AbstractMemorySize),
    >)
        ensures
            ({
                let outcome = spec_load(old(self).slots(), ap@, old(self).spec_remote(ap@), def@);
                let s1 = spec_after_load(old(self).slots(), ap@, old(self).spec_remote(ap@), def@);
                let i = spec_load_index(old(self).slots(), ap@, old(self).spec_remote(ap@), def@);
                &&& outcome is Missing ==> r is Ok && r->Ok_0 == (false,
                    crate::gas_schedule::AbstractMemorySize(0)) && final(self).slots() == old(self).slots()
                &&& outcome is Malformed ==> r is Err && r->Err_0.major_status
                    == StatusCode::DataFormatError && final(self).slots() == old(self).slots()
                &&& (outcome is Found || outcome is Loaded) ==> final(self).slots() == s1 && {
                    let slot = s1[i];
                    &&& slot.state is Deleted ==> r is Ok && r->Ok_0 == (false,
                        crate::gas_schedule::AbstractMemorySize(0))
                    &&& !(slot.state is Deleted) ==> {
                        let v = match slot.state {
                            SlotStateV::Clean(v) => v,
                            SlotStateV::Dirty(v) => v,
                            SlotStateV::Deleted => ValueV::Bool(false),
                        };
                        &&& spec_size(v) > u64::MAX ==> r is Err && r->Err_0.major_status
                            == StatusCode::ArithmeticError
                        &&& spec_size(v) <= u64::MAX ==> r is Ok && r->Ok_0.0 == true
                            && r->Ok_0.1.0 == spec_size(v)
                    }
                }
            }),
            forall|a: AccessPathV| #[trigger]
                final(self).spec_remote(a) == old(self).spec_remote(a),
    {
        let found = self.find_slot(ap);
        if found.is_none() {
            let absent = {
                let blob = self.data_cache.get(ap);
                match blob {
                    Option::Some(_) => false,
                    Option::None => true,
                }
            };
            if absent {
                return Ok((false, crate::gas_schedule::AbstractMemorySize(0)));
            }
        }
        let i = match self.load_slot(ap, def) {
            Ok(i) => i,
            Err(e) => {
                return Err(e);
            },
        };
        proof {
            lemma_find_slot_bounds(old(self).slots(), ap@, 0);
            let outcome = spec_load(old(self).slots(), ap@, old(self).spec_remote(ap@), def@);
            assert(!(outcome is Missing) && !(outcome is Malformed));
            assert(outcome is Found || outcome is Loaded);
            match outcome {
                LoadOutcome::Found(j) => {
                    assert(i == j);
                    assert(0 <= j < old(self).slots().len());
                },
                _ => {},
            }
            assert(i < self.data_map@.len());
            assert(self.slots()[i as int] == self.data_map@[i as int]@);
        }
        let size = match &self.data_map[i].state {
            SlotState::Clean(v) => v.size(),
            SlotState::Dirty(v) => v.size(),
            SlotState::Deleted => {
                return Ok((false, crate::gas_schedule::AbstractMemorySize(0)));
            },
        };
        match size {
            Ok(s) => Ok((true, s)),
            Err(e) => Err(e),
        }
    }

    /// Move the resource under `ap` out of global storage, marking its slot
    /// deleted. Fails if no resource is there or a live global reference
    /// still pins it.
    pub fn move_resource_from(&mut self, ap: &AccessPath, def: &StructDef) -> (r: VMResult<Value>)
        ensures
            ({
                let outcome = spec_load(old(self).slots(), ap@, old(self).spec_remote(ap@), def@);
                let s1 = spec_after_load(old(self).slots(), ap@, old(self).spec_remote(ap@), def@);
                let i = spec_load_index(old(self).slots(), ap@, old(self).spec_remote(ap@), def@);
                &&& outcome is Missing ==> r is Err && r->Err_0.major_status
                    == StatusCode::MissingData && final(self).slots() == old(self).slots()
                &&& outcome is Malformed ==> r is Err && r->Err_0.major_status
                    == StatusCode::DataFormatError && final(self).slots() == old(self).slots()
                &&& (outcome is Found || outcome is Loaded) ==> {
                    let slot = s1[i];
                    &&& slot.state is Deleted ==> r is Err && r->Err_0.major_status
                        == StatusCode::MissingData && final(self).slots() == s1
                    &&& !(slot.state is Deleted) && slot.borrows > 0 ==> r is Err
                        && r->Err_0.major_status == StatusCode::DanglingReference && final(self).slots() == s1
                    &&& !(slot.state is Deleted) && slot.borrows == 0 ==> r is Ok && {
                        let v = match slot.state {
                            SlotStateV::Clean(v) => v,
                            SlotStateV::Dirty(v) => v,
                            SlotStateV::Deleted => ValueV::Bool(false),
                        };
                        &&& r->Ok_0@ == v
                        &&& final(self).slots() == s1.update(
                            i,
                            CacheSlotV { ap: slot.ap, state: SlotStateV::Deleted, borrows: 0 },
                        )
                    }
                }
            }),
            forall|a: AccessPathV| #[trigger]
                final(self).spec_remote(a) == old(self).spec_remote(a),
    {
        let i = match self.load_slot(ap, def) {
            Ok(i) => i,
            Err(e) => {
                return Err(e);
            },
        };
        proof {
            lemma_find_slot_bounds(old(self).slots(), ap@, 0);
            assert(i < self.data_map@.len());
            assert(self.slots()[i as int] == self.data_map@[i as int]@);
        }
        let value = match &self.data_map[i].state {
            SlotState::Clean(v) => v.clone_value(),
            SlotState::Dirty(v) => v.clone_value(),
            SlotState::Deleted => {
                return Err(VMStatus::new(StatusCode::MissingData));
            },
        };
        if self.data_map[i].borrows > 0 {
            return Err(VMStatus::new(StatusCode::DanglingReference));
        }
        let slot_ap = self.data_map[i].ap.clone();
        self.data_map.set(i, CacheSlot { ap: slot_ap, state: SlotState::Deleted, borrows: 0 });
        proof {
            let s1 = spec_after_load(old(self).slots(), ap@, old(self).spec_remote(ap@), def@);
            let ghost_i = spec_load_index(old(self).slots(), ap@, old(self).spec_remote(ap@), def@);
            let slot = s1[ghost_i];
            assert(final(self).slots() =~= s1.update(
                ghost_i,
                CacheSlotV { ap: slot.ap, state: SlotStateV::Deleted, borrows: 0 },
            ));
        }
        Ok(value)
    }

    /// Publish a resource under `ap`. Fails if the slot already saw a
    /// resource this transaction or the remote view holds one: a linear
    /// resource is persisted under exactly one access path at a time.
    pub fn move_resource_to(&mut self, ap: &AccessPath, def: &StructDef, resource: Struct) -> (r:
        VMResult<()>)
        ensures
            ({
                let outcome = spec_load(old(self).slots(), ap@, old(self).spec_remote(ap@), def@);
                &&& outcome is Missing ==> r is Ok && final(self).slots() == old(self).slots().push(
                    CacheSlotV {
                        ap: ap@,
                        state: SlotStateV::Dirty(ValueV::Struct(resource@)),
                        borrows: 0,
                    },
                )
                &&& outcome is Malformed ==> r is Err && r->Err_0.major_status
                    == StatusCode::DataFormatError && final(self).slots() == old(self).slots()
                &&& (outcome is Found || outcome is Loaded) ==> r is Err
                    && r->Err_0.major_status == StatusCode::ResourceAlreadyExists && final(self).slots() == old(self).slots()
            }),
            forall|a: AccessPathV| #[trigger]
                final(self).spec_remote(a) == old(self).spec_remote(a),
    {
        let found = self.find_slot(ap);
        if found.is_some() {
            return Err(VMStatus::new(StatusCode::ResourceAlreadyExists));
        }
        let blob = self.data_cache.get(ap);
        match blob {
            Option::Some(bytes) => {
                let parsed = Value::simple_deserialize(&bytes, def);
                match parsed {
                    Option::Some(_) => Err(VMStatus::new(StatusCode::ResourceAlreadyExists)),
                    Option::None => Err(VMStatus::new(StatusCode::DataFormatError)),
                }
            },
            Option::None => {
                let slot = CacheSlot {
                    ap: ap.clone(),
                    state: SlotState::Dirty(Value::Struct(resource)),
                    borrows: 0,
                };
                let ghost vslot = slot@;
                self.data_map.push(slot);
                proof {
                    assert(final(self).slots() =~= old(self).slots().push(vslot));
                }
                Ok(())
            },
        }
    }
}

} // verus!

verus! {

impl<'txn, R: RemoteCache> TransactionDataCache<'txn, R> {
    /// Read the value a global reference points at, resolving through the
    /// access path. Fails on a consumed or never-borrowed slot, and on a
    /// field path that does not fit the value.
    pub fn read_resource_at(&self, ap: &AccessPath, path: &Vec<u16>) -> (r: VMResult<Value>)
        ensures
            ({
                let found = spec_find_slot(self.slots(), ap@, 0);
                &&& found is None ==> r is Err && r->Err_0.major_status
                    == StatusCode::DanglingReference
                &&& found matches Some(i) ==> {
                    let slot = self.slots()[i];
                    &&& slot.state is Deleted ==> r is Err && r->Err_0.major_status
                        == StatusCode::DanglingReference
                    &&& !(slot.state is Deleted) ==> {
                        let v = match slot.state {
                            SlotStateV::Clean(v) => v,
                            SlotStateV::Dirty(v) => v,
                            SlotStateV::Deleted => ValueV::Bool(false),
                        };
                        match crate::values::spec_read_at(v, path@) {
                            Option::Some(x) => r is Ok && r->Ok_0@ == x,
                            Option::None => r is Err && r->Err_0.major_status
                                == StatusCode::VerifierInvariantViolation,
                        }
                    }
                }
            }),
    {
        let i = match self.find_slot(ap) {
            Some(i) => i,
            None => {
                return Err(VMStatus::new(StatusCode::DanglingReference));
            },
        };
        proof {
            assert(self.slots()[i as int] == self.data_map@[i as int]@);
        }
        let value = match &self.data_map[i].state {
            SlotState::Clean(v) => v,
            SlotState::Dirty(v) => v,
            SlotState::Deleted => {
                return Err(VMStatus::new(StatusCode::DanglingReference));
            },
        };
        match crate::values::value_read_at(value, path, 0) {
            Some(x) => {
                proof {
                    assert(path@.skip(0) =~= path@);
                }
                Ok(x)
            },
            None => {
                proof {
                    assert(path@.skip(0) =~= path@);
                }
                Err(VMStatus::new(StatusCode::VerifierInvariantViolation))
            },
        }
    }

    /// Write through a global reference: replace the value the field path
    /// reaches and mark the slot dirty. The write is tracked so the
    /// executor can charge the global write cost.
    pub fn write_resource_at(&mut self, ap: &AccessPath, path: &Vec<u16>, nv: Value) -> (r:
        VMResult<()>)
        ensures
            ({
                let found = spec_find_slot(old(self).slots(), ap@, 0);
                &&& found is None ==> r is Err && r->Err_0.major_status
                    == StatusCode::DanglingReference && final(self).slots() == old(self).slots()
                &&& found matches Some(i) ==> {
                    let slot = old(self).slots()[i];
                    &&& slot.state is Deleted ==> r is Err && r->Err_0.major_status
                        == StatusCode::DanglingReference && final(self).slots() == old(self).slots()
                    &&& !(slot.state is Deleted) ==> {
                        let v = match slot.state {
                            SlotStateV::Clean(v) => v,
                            SlotStateV::Dirty(v) => v,
                            SlotStateV::Deleted => ValueV::Bool(false),
                        };
                        match crate::values::spec_write_at(v, path@, nv@) {
                            Option::Some(v2) => r is Ok && final(self).slots() == old(self).slots().update(
                                i,
                                CacheSlotV {
                                    ap: slot.ap,
                                    state: SlotStateV::Dirty(v2),
                                    borrows: slot.borrows,
                                },
                            ),
                            Option::None => r is Err && r->Err_0.major_status
                                == StatusCode::VerifierInvariantViolation && final(self).slots()
                                == old(self).slots(),
                        }
                    }
                }
            }),
            forall|a: AccessPathV| #[trigger]
                final(self).spec_remote(a) == old(self).spec_remote(a),
    {
        let i = match self.find_slot(ap) {
            Some(i) => i,
            None => {
                return Err(VMStatus::new(StatusCode::DanglingReference));
            },
        };
        proof {
            assert(self.slots()[i as int] == self.data_map@[i as int]@);
            assert(path@.skip(0) =~= path@);
        }
        let mut value = match &self.data_map[i].state {
            SlotState::Clean(v) => v.clone_value(),
            SlotState::Dirty(v) => v.clone_value(),
            SlotState::Deleted => {
                return Err(VMStatus::new(StatusCode::DanglingReference));
            },
        };
        let ok = crate::values::value_write_at(&mut value, path, 0, nv);
        if !ok {
            return Err(VMStatus::new(StatusCode::VerifierInvariantViolation));
        }
        let slot_ap = self.data_map[i].ap.clone();
        let borrows = self.data_map[i].borrows;
        self.data_map.set(i, CacheSlot { ap: slot_ap, state: SlotState::Dirty(value), borrows });
        proof {
            let slot = old(self).slots()[i as int];
            let v = match slot.state {
                SlotStateV::Clean(v) => v,
                SlotStateV::Dirty(v) => v,
                SlotStateV::Deleted => ValueV::Bool(false),
            };
            assert(final(self).slots() =~= old(self).slots().update(
                i as int,
                CacheSlotV {
                    ap: slot.ap,
                    state: SlotStateV::Dirty(crate::values::spec_write_at(v, path@, nv@)->0),
                    borrows: slot.borrows,
                },
            ));
        }
        Ok(())
    }

    /// Record one more outstanding borrow of the slot under `ap`: taken when
    /// a global reference is duplicated.
    pub fn retain_borrow(&mut self, ap: &AccessPath) -> (r: VMResult<()>)
        ensures
            ({
                let found = spec_find_slot(old(self).slots(), ap@, 0);
                &&& found is None ==> r is Err && r->Err_0.major_status
                    == StatusCode::VerifierInvariantViolation && final(self).slots() == old(self).slots()
                &&& found matches Some(i) ==> {
                    let slot = old(self).slots()[i];
                    &&& slot.borrows == u64::MAX ==> r is Err && r->Err_0.major_status
                        == StatusCode::VerifierInvariantViolation && final(self).slots() == old(self).slots()
                    &&& slot.borrows < u64::MAX ==> r is Ok && final(self).slots() == old(self).slots().update(
                        i,
                        CacheSlotV {
                            ap: slot.ap,
                            state: slot.state,
                            borrows: (slot.borrows + 1) as u64,
                        },
                    )
                }
            }),
            forall|a: AccessPathV| #[trigger]
                final(self).spec_remote(a) == old(self).spec_remote(a),
    {
        let i = match self.find_slot(ap) {
            Some(i) => i,
            None => {
                return Err(VMStatus::new(StatusCode::VerifierInvariantViolation));
            },
        };
        proof {
            assert(self.slots()[i as int] == self.data_map@[i as int]@);
        }
        let borrows = self.data_map[i].borrows;
        if borrows == u64::MAX {
            return Err(VMStatus::new(StatusCode::VerifierInvariantViolation));
        }
        let slot_ap = self.data_map[i].ap.clone();
        let state = match &self.data_map[i].state {
            SlotState::Clean(v) => SlotState::Clean(v.clone_value()),
            SlotState::Dirty(v) => SlotState::Dirty(v.clone_value()),
            SlotState::Deleted => SlotState::Deleted,
        };
        self.data_map.set(i, CacheSlot { ap: slot_ap, state, borrows: borrows + 1 });
        proof {
            let slot = old(self).slots()[i as int];
            assert(final(self).slots() =~= old(self).slots().update(
                i as int,
                CacheSlotV { ap: slot.ap, state: slot.state, borrows: (slot.borrows + 1) as u64 },
            ));
        }
        Ok(())
    }

    /// Give back one outstanding borrow of the slot under `ap`.
    pub fn release_borrow(&mut self, ap: &AccessPath) -> (r: VMResult<()>)
        ensures
            ({
                let found = spec_find_slot(old(self).slots(), ap@, 0);
                &&& found is None ==> r is Err && r->Err_0.major_status
                    == StatusCode::VerifierInvariantViolation && final(self).slots() == old(self).slots()
                &&& found matches Some(i) ==> {
                    let slot = old(self).slots()[i];
                    &&& slot.borrows == 0 ==> r is Err && r->Err_0.major_status
                        == StatusCode::VerifierInvariantViolation && final(self).slots() == old(self).slots()
                    &&& slot.borrows > 0 ==> r is Ok && final(self).slots() == old(self).slots().update(
                        i,
                        CacheSlotV {
                            ap: slot.ap,
                            state: slot.state,
                            borrows: (slot.borrows - 1) as u64,
                        },
                    )
                }
            }),
            forall|a: AccessPathV| #[trigger]
                final(self).spec_remote(a) == old(self).spec_remote(a),
    {
        let i = match self.find_slot(ap) {
            Some(i) => i,
            None => {
                return Err(VMStatus::new(StatusCode::VerifierInvariantViolation));
            },
        };
        proof {
            assert(self.slots()[i as int] == self.data_map@[i as int]@);
        }
        let borrows = self.data_map[i].borrows;
        if borrows == 0 {
            return Err(VMStatus::new(StatusCode::VerifierInvariantViolation));
        }
        let slot_ap = self.data_map[i].ap.clone();
        let state = match &self.data_map[i].state {
            SlotState::Clean(v) => SlotState::Clean(v.clone_value()),
            SlotState::Dirty(v) => SlotState::Dirty(v.clone_value()),
            SlotState::Deleted => SlotState::Deleted,
        };
        self.data_map.set(i, CacheSlot { ap: slot_ap, state, borrows: borrows - 1 });
        proof {
            let slot = old(self).slots()[i as int];
            assert(final(self).slots() =~= old(self).slots().update(
                i as int,
                CacheSlotV { ap: slot.ap, state: slot.state, borrows: (slot.borrows - 1) as u64 },
            ));
        }
        Ok(())
    }
}

} // verus!

verus! {

/// One write of a transaction: delete the slot, or set its bytes.
#[derive(Debug, PartialEq, Eq)]
pub enum WriteOp {
    Deletion,
    Value(Vec<u8>),
}

/// The mathematical value of a `WriteOp`.
#[verifier::ext_equal]
pub enum WriteOpV {
    Deletion,
    Value(Seq<u8>),
}

impl View for WriteOp {
    type V = WriteOpV;

    open spec fn view(&self) -> WriteOpV {
        match self {
            WriteOp::Deletion => WriteOpV::Deletion,
            WriteOp::Value(bytes) => WriteOpV::Value(bytes@),
        }
    }
}

/// The ordered set of writes a transaction produced, one per access path,
/// ordered by access path.
#[derive(Debug, PartialEq, Eq)]
pub struct WriteSet {
    pub write_set: Vec<(AccessPath, WriteOp)>,
}

impl View for WriteSet {
    type V = Seq<(AccessPathV, WriteOpV)>;

    open spec fn view(&self) -> Seq<(AccessPathV, WriteOpV)> {
        Seq::new(self.write_set@.len(), |i: int| (self.write_set@[i].0@, self.write_set@[i].1@))
    }
}

/// The sort key of a write: address bytes, then path bytes.
pub open spec fn spec_ws_key(ap: AccessPathV) -> Seq<u8> {
    ap.address + ap.path
}

/// The writes are ordered by access path.
pub open spec fn spec_ws_sorted(s: Seq<(AccessPathV, WriteOpV)>) -> bool {
    forall|i: int|
        0 <= i < s.len() - 1 ==> crate::types::spec_lex_le(
            spec_ws_key(#[trigger] s[i].0),
            spec_ws_key(s[i + 1].0),
        )
}

/// Insert a write before the first entry with a strictly later key.
pub open spec fn spec_sorted_insert(
    s: Seq<(AccessPathV, WriteOpV)>,
    e: (AccessPathV, WriteOpV),
) -> Seq<(AccessPathV, WriteOpV)>
    decreases s.len(),
{
    if s.len() == 0 {
        seq![e]
    } else if crate::types::spec_lex_le(spec_ws_key(s[0].0), spec_ws_key(e.0)) {
        seq![s[0]] + spec_sorted_insert(s.drop_first(), e)
    } else {
        seq![e] + s
    }
}

/// A sorted insert keeps the writes ordered.
pub proof fn lemma_sorted_insert_sorted(
    s: Seq<(AccessPathV, WriteOpV)>,
    e: (AccessPathV, WriteOpV),
)
    requires
        spec_ws_sorted(s),
    ensures
        spec_ws_sorted(spec_sorted_insert(s, e)),
        spec_sorted_insert(s, e).len() == s.len() + 1,
    decreases s.len(),
{
    crate::types::lemma_lex_le_total(spec_ws_key(s[0].0), spec_ws_key(e.0));
    if s.len() == 0 {
    } else if crate::types::spec_lex_le(spec_ws_key(s[0].0), spec_ws_key(e.0)) {
        assert(spec_ws_sorted(s.drop_first())) by {
            assert forall|i: int| 0 <= i < s.drop_first().len() - 1 implies crate::types::spec_lex_le(
                spec_ws_key(#[trigger] s.drop_first()[i].0),
                spec_ws_key(s.drop_first()[i + 1].0),
            ) by {
                assert(s.drop_first()[i] == s[i + 1]);
                assert(s.drop_first()[i + 1] == s[i + 2]);
            }
        }
        lemma_sorted_insert_sorted(s.drop_first(), e);
        let t = seq![s[0]] + spec_sorted_insert(s.drop_first(), e);
        assert forall|i: int| 0 <= i < t.len() - 1 implies crate::types::spec_lex_le(
            spec_ws_key(#[trigger] t[i].0),
            spec_ws_key(t[i + 1].0),
        ) by {
            let ins = spec_sorted_insert(s.drop_first(), e);
            if i == 0 {
                // The head of the inserted tail is either the old head of the
                // tail or the new element; the old head is ordered by
                // sortedness, the new element by the branch condition.
                if s.len() == 1 {
                    assert(ins == seq![e]);
                } else if crate::types::spec_lex_le(
                    spec_ws_key(s.drop_first()[0].0),
                    spec_ws_key(e.0),
                ) {
                    assert(ins[0] == s.drop_first()[0]);
                    assert(s.drop_first()[0] == s[1]);
                } else {
                    assert(ins[0] == e);
                }
            } else {
                assert(t[i] == ins[i - 1]);
                assert(t[i + 1] == ins[i]);
            }
        }
    } else {
        let t = seq![e] + s;
        assert forall|i: int| 0 <= i < t.len() - 1 implies crate::types::spec_lex_le(
            spec_ws_key(#[trigger] t[i].0),
            spec_ws_key(t[i + 1].0),
        ) by {
            if i == 0 {
            } else {
                assert(t[i] == s[i - 1]);
                assert(t[i + 1] == s[i]);
            }
        }
    }
}

/// Flush the overlay into writes, walking the slots from `from` with the
/// writes accumulated so far: clean slots are skipped, dirty slots encoded,
/// deleted slots turned into deletions. Nothing when a dirty value has no
/// encoding.
pub open spec fn spec_flush(
    slots: Seq<CacheSlotV>,
    from: int,
    acc: Seq<(AccessPathV, WriteOpV)>,
) -> Option<Seq<(AccessPathV, WriteOpV)>>
    decreases slots.len() - from,
{
    if from < 0 || from >= slots.len() {
        Some(acc)
    } else {
        match slots[from].state {
            SlotStateV::Clean(_) => spec_flush(slots, from + 1, acc),
            SlotStateV::Dirty(v) => match crate::canonical::spec_serialize(v) {
                Option::Some(bytes) => spec_flush(
                    slots,
                    from + 1,
                    spec_sorted_insert(acc, (slots[from].ap, WriteOpV::Value(bytes))),
                ),
                Option::None => None,
            },
            SlotStateV::Deleted => spec_flush(
                slots,
                from + 1,
                spec_sorted_insert(acc, (slots[from].ap, WriteOpV::Deletion)),
            ),
        }
    }
}

/// The access path a published module is stored under: the module's
/// address, then the module tag byte and the module's name.
pub open spec fn spec_module_ap(id: crate::types::ModuleIdV) -> AccessPathV {
    AccessPathV {
        address: id.address,
        path: seq![crate::types::MODULE_TAG] + vstd::utf8::encode_utf8(id.name),
    }
}

/// Merge the modules to publish into the writes, from `from` on.
pub open spec fn spec_add_modules(
    modules: Seq<(crate::types::ModuleIdV, Seq<u8>)>,
    from: int,
    acc: Seq<(AccessPathV, WriteOpV)>,
) -> Seq<(AccessPathV, WriteOpV)>
    decreases modules.len() - from,
{
    if from < 0 || from >= modules.len() {
        acc
    } else {
        spec_add_modules(
            modules,
            from + 1,
            spec_sorted_insert(
                acc,
                (spec_module_ap(modules[from].0), WriteOpV::Value(modules[from].1)),
            ),
        )
    }
}

/// Some slot still has an outstanding global reference.
pub open spec fn spec_any_borrow(slots: Seq<CacheSlotV>) -> bool {
    exists|i: int| 0 <= i < slots.len() && #[trigger] slots[i].borrows > 0
}

/// The write-set of a transaction: the flushed overlay merged with the
/// modules to publish, ordered by access path.
pub open spec fn spec_make_write_set(
    slots: Seq<CacheSlotV>,
    modules: Seq<(crate::types::ModuleIdV, Seq<u8>)>,
) -> Option<Seq<(AccessPathV, WriteOpV)>> {
    match spec_flush(slots, 0, Seq::empty()) {
        Option::Some(ws) => Some(spec_add_modules(modules, 0, ws)),
        Option::None => None,
    }
}

/// The write-set is deterministic: caches in the same state, with the same
/// modules to publish, flush to the same writes.
pub proof fn lemma_write_set_deterministic(
    slots1: Seq<CacheSlotV>,
    slots2: Seq<CacheSlotV>,
    modules1: Seq<(crate::types::ModuleIdV, Seq<u8>)>,
    modules2: Seq<(crate::types::ModuleIdV, Seq<u8>)>,
)
    requires
        slots1 == slots2,
        modules1 == modules2,
    ensures
        spec_make_write_set(slots1, modules1) == spec_make_write_set(slots2, modules2),
{
}

} // verus!

verus! {

/// The views of a list of writes, in order.
pub open spec fn views_of_writes(s: Seq<(AccessPath, WriteOp)>) -> Seq<(AccessPathV, WriteOpV)> {
    Seq::new(s.len(), |i: int| (s[i].0@, s[i].1@))
}

/// The views of a list of modules to publish, in order.
pub open spec fn views_of_modules(s: Seq<(crate::types::ModuleId, Vec<u8>)>) -> Seq<
    (crate::types::ModuleIdV, Seq<u8>),
> {
    Seq::new(s.len(), |i: int| (s[i].0@, s[i].1@))
}

/// A sorted insert goes in at the first position with a strictly later key.
proof fn lemma_sorted_insert_position(
    s: Seq<(AccessPathV, WriteOpV)>,
    e: (AccessPathV, WriteOpV),
    p: int,
)
    requires
        0 <= p <= s.len(),
        forall|j: int|
            0 <= j < p ==> crate::types::spec_lex_le(
                spec_ws_key(#[trigger] s[j].0),
                spec_ws_key(e.0),
            ),
        p < s.len() ==> !crate::types::spec_lex_le(spec_ws_key(s[p].0), spec_ws_key(e.0)),
    ensures
        spec_sorted_insert(s, e) == s.take(p) + seq![e] + s.skip(p),
    decreases p,
{
    if p == 0 {
        if s.len() == 0 {
            assert(spec_sorted_insert(s, e) =~= s.take(0) + seq![e] + s.skip(0));
        } else {
            assert(spec_sorted_insert(s, e) =~= s.take(0) + seq![e] + s.skip(0));
        }
    } else {
        assert(crate::types::spec_lex_le(spec_ws_key(s[0].0), spec_ws_key(e.0)));
        assert forall|j: int|
            0 <= j < p - 1 implies crate::types::spec_lex_le(
            spec_ws_key(#[trigger] s.drop_first()[j].0),
            spec_ws_key(e.0),
        ) by {
            assert(s.drop_first()[j] == s[j + 1]);
        }
        if p - 1 < s.drop_first().len() {
            assert(s.drop_first()[p - 1] == s[p]);
        }
        lemma_sorted_insert_position(s.drop_first(), e, p - 1);
        assert(spec_sorted_insert(s, e) =~= s.take(p) + seq![e] + s.skip(p));
    }
}

/// Insert one write at its ordered position.
fn insert_sorted(ws: &mut Vec<(AccessPath, WriteOp)>, ap: AccessPath, op: WriteOp) -> (r: ())
    ensures
        views_of_writes(final(ws)@) == spec_sorted_insert(views_of_writes(old(ws)@), (ap@, op@)),
{
    let ghost s = views_of_writes(old(ws)@);
    let ghost e = (ap@, op@);
    let mut i: usize = 0;
    while i < ws.len() && ws[i].0.le(&ap)
        invariant
            i <= ws@.len(),
            ws@ == old(ws)@,
            s == views_of_writes(ws@),
            e == (ap@, op@),
            forall|j: int|
                0 <= j < i ==> crate::types::spec_lex_le(
                    spec_ws_key(#[trigger] s[j].0),
                    spec_ws_key(e.0),
                ),
        decreases ws@.len() - i,
    {
        proof {
            assert(s[i as int] == (ws@[i as int].0@, ws@[i as int].1@));
        }
        i += 1;
    }
    proof {
        if (i as int) < s.len() {
            assert(s[i as int] == (ws@[i as int].0@, ws@[i as int].1@));
        }
        lemma_sorted_insert_position(s, e, i as int);
    }
    ws.insert(i, (ap, op));
    proof {
        assert(views_of_writes(final(ws)@) =~= s.take(i as int) + seq![e] + s.skip(i as int));
    }
}

impl<'txn, R: RemoteCache> TransactionDataCache<'txn, R> {
    /// Flush the overlay and the modules to publish into an ordered,
    /// deduplicated write-set, emptying the overlay. Fails while any global
    /// reference is outstanding, and when a dirty value has no encoding.
    pub fn make_write_set(&mut self, to_be_published_modules: Vec<(crate::types::ModuleId, Vec<u8>)>)
        -> (r: VMResult<WriteSet>)
        ensures
            spec_any_borrow(old(self).slots()) ==> r is Err && r->Err_0.major_status
                == StatusCode::DanglingReference && final(self).slots() == old(self).slots(),
            !spec_any_borrow(old(self).slots()) ==> match spec_make_write_set(
                old(self).slots(),
                views_of_modules(to_be_published_modules@),
            ) {
                Option::Some(ws) => r is Ok && r->Ok_0@ == ws && spec_ws_sorted(ws) && final(self).slots().len() == 0,
                Option::None => r is Err && r->Err_0.major_status == StatusCode::DataFormatError
                    && final(self).slots() == old(self).slots(),
            },
            forall|a: AccessPathV| #[trigger]
                final(self).spec_remote(a) == old(self).spec_remote(a),
    {
        let ghost slots0 = self.slots();
        proof {
            assert(slots0 == old(self).slots());
        }
        let mut i: usize = 0;
        while i < self.data_map.len()
            invariant
                i <= self.data_map@.len(),
                slots0 == self.slots(),
                slots0 == old(self).slots(),
                forall|j: int| 0 <= j < i ==> #[trigger] slots0[j].borrows == 0,
            decreases self.data_map@.len() - i,
        {
            proof {
                assert(self.slots()[i as int] == self.data_map@[i as int]@);
            }
            if self.data_map[i].borrows > 0 {
                proof {
                    assert(slots0[i as int].borrows > 0);
                    assert(spec_any_borrow(slots0));
                }
                return Err(VMStatus::new(StatusCode::DanglingReference));
            }
            i += 1;
        }
        assert(forall|j: int| 0 <= j < slots0.len() ==> #[trigger] slots0[j].borrows == 0);
        assert(!spec_any_borrow(slots0));

        let mut ws: Vec<(AccessPath, WriteOp)> = Vec::new();
        proof {
            assert(views_of_writes(ws@) =~= Seq::<(AccessPathV, WriteOpV)>::empty());
        }
        let mut i: usize = 0;
        while i < self.data_map.len()
            invariant
                i <= self.data_map@.len(),
                slots0 == self.slots(),
                slots0 == old(self).slots(),
                !spec_any_borrow(slots0),
                spec_ws_sorted(views_of_writes(ws@)),
                spec_flush(slots0, 0, Seq::empty()) == spec_flush(
                    slots0,
                    i as int,
                    views_of_writes(ws@),
                ),
            decreases self.data_map@.len() - i,
        {
            proof {
                assert(self.slots()[i as int] == self.data_map@[i as int]@);
            }
            let slot_ap = self.data_map[i].ap.clone();
            match &self.data_map[i].state {
                SlotState::Clean(_) => {},
                SlotState::Dirty(v) => {
                    let bytes = match v.simple_serialize() {
                        Some(bytes) => bytes,
                        None => {
                            return Err(VMStatus::new(StatusCode::DataFormatError));
                        },
                    };
                    proof {
                        lemma_sorted_insert_sorted(views_of_writes(ws@), (slot_ap@, WriteOpV::Value(
                            bytes@,
                        )));
                    }
                    insert_sorted(&mut ws, slot_ap, WriteOp::Value(bytes));
                },
                SlotState::Deleted => {
                    proof {
                        lemma_sorted_insert_sorted(
                            views_of_writes(ws@),
                            (slot_ap@, WriteOpV::Deletion),
                        );
                    }
                    insert_sorted(&mut ws, slot_ap, WriteOp::Deletion);
                },
            }
            i += 1;
        }

        let mut modules = to_be_published_modules;
        let ghost mods0 = views_of_modules(modules@);
        let mut i: usize = 0;
        while i < modules.len()
            invariant
                i <= modules@.len(),
                mods0 == views_of_modules(modules@),
                spec_ws_sorted(views_of_writes(ws@)),
                spec_add_modules(mods0, 0, spec_flush(slots0, 0, Seq::empty())->0)
                    == spec_add_modules(mods0, i as int, views_of_writes(ws@)),
                spec_flush(slots0, 0, Seq::empty()) is Some,
                slots0 == self.slots(),
                slots0 == old(self).slots(),
                !spec_any_borrow(slots0),
                mods0 == views_of_modules(to_be_published_modules@),
                spec_ws_sorted(views_of_writes(ws@)),
            decreases modules@.len() - i,
        {
            proof {
                assert(mods0[i as int] == (modules@[i as int].0@, modules@[i as int].1@));
            }
            let id = modules[i].0.clone();
            let blob = crate::types::clone_bytes(&modules[i].1);
            let mut path: Vec<u8> = Vec::new();
            path.push(crate::types::MODULE_TAG);
            let mut name_bytes = id.name.as_bytes_vec();
            path.append(&mut name_bytes);
            let ap = AccessPath::new(id.address, path);
            proof {
                assert(ap@ =~= spec_module_ap(mods0[i as int].0));
                lemma_sorted_insert_sorted(
                    views_of_writes(ws@),
                    (ap@, WriteOpV::Value(blob@)),
                );
            }
            insert_sorted(&mut ws, ap, WriteOp::Value(blob));
            i += 1;
        }

        self.data_map = Vec::new();
        proof {
            assert(final(self).slots() =~= Seq::<CacheSlotV>::empty());
        }
        Ok(WriteSet { write_set: ws })
    }
}

} // verus!

verus! {

/// A data-cache operation on one access path.
#[derive(Debug, Clone, Copy, PartialEq, Eq, Structural)]
pub enum ResourceOp {
    BorrowGlobal,
    Exists,
    MoveFrom,
    MoveToSender,
}

/// The phase of one access path within a transaction: no resource yet,
/// a resource present, or a resource moved out.
#[derive(Debug, Clone, Copy, PartialEq, Eq, Structural)]
pub enum SlotPhase {
    Vacant,
    Occupied,
    Emptied,
}

/// How one successful data-cache operation moves an access path between
/// phases, as the cache contracts allow it: borrowing needs a resource and
/// keeps it, an existence check touches nothing, moving out empties an
/// occupied slot, and publishing fills a vacant one.
pub open spec fn spec_op_step(phase: SlotPhase, op: ResourceOp) -> Option<SlotPhase> {
    match op {
        ResourceOp::Exists => Some(phase),
        ResourceOp::BorrowGlobal => if phase is Occupied {
            Some(SlotPhase::Occupied)
        } else {
            None
        },
        ResourceOp::MoveFrom => if phase is Occupied {
            Some(SlotPhase::Emptied)
        } else {
            None
        },
        ResourceOp::MoveToSender => if phase is Vacant {
            Some(SlotPhase::Occupied)
        } else {
            None
        },
    }
}

/// Run a sequence of operations on one access path; `None` as soon as one
/// fails.
pub open spec fn spec_run_ops(phase: SlotPhase, ops: Seq<ResourceOp>) -> Option<SlotPhase>
    decreases ops.len(),
{
    if ops.len() == 0 {
        Some(phase)
    } else {
        match spec_op_step(phase, ops[0]) {
            Option::Some(p) => spec_run_ops(p, ops.drop_first()),
            Option::None => None,
        }
    }
}

/// Every operation only reads: a borrow or an existence check.
pub open spec fn spec_all_reads(ops: Seq<ResourceOp>) -> bool {
    forall|i: int|
        0 <= i < ops.len() ==> (#[trigger] ops[i] is BorrowGlobal || ops[i] is Exists)
}

/// The operation sequence matches
/// `(BorrowGlobal|Exists)* (MoveFrom | MoveToSender (BorrowGlobal|Exists)*)?`:
/// reads, then at most one transfer, with further reads only after a
/// publication.
pub open spec fn spec_matches_linear(ops: Seq<ResourceOp>) -> bool {
    ||| spec_all_reads(ops)
    ||| exists|k: int|
        0 <= k < ops.len() && spec_all_reads(#[trigger] ops.take(k)) && ops[k] is MoveFrom && k
            == ops.len() - 1
    ||| exists|k: int|
        0 <= k < ops.len() && spec_all_reads(#[trigger] ops.take(k)) && ops[k] is MoveToSender
            && spec_all_reads(ops.skip(k + 1))
}

/// From an occupied slot, a run without transfers is all reads.
proof fn lemma_reads_only(ops: Seq<ResourceOp>)
    requires
        spec_run_ops(SlotPhase::Occupied, ops) is Some,
        forall|i: int| 0 <= i < ops.len() ==> !(#[trigger] ops[i] is MoveFrom),
        forall|i: int| 0 <= i < ops.len() ==> !(#[trigger] ops[i] is MoveToSender),
    ensures
        spec_all_reads(ops),
    decreases ops.len(),
{
    if ops.len() > 0 {
        assert(spec_op_step(SlotPhase::Occupied, ops[0]) == Some(SlotPhase::Occupied));
        assert(forall|i: int|
            0 <= i < ops.drop_first().len() ==> !(#[trigger] ops.drop_first()[i] is MoveFrom));
        assert(forall|i: int|
            0 <= i < ops.drop_first().len() ==> !(#[trigger] ops.drop_first()[i] is MoveToSender));
        lemma_reads_only(ops.drop_first());
        assert forall|i: int|
            0 <= i < ops.len() implies (#[trigger] ops[i] is BorrowGlobal || ops[i] is Exists) by {
            if i > 0 {
                assert(ops.drop_first()[i - 1] == ops[i]);
            }
        }
    }
}

/// Resource linearity: within a transaction, the successful data-cache
/// operations on one access path — provided a move-out ends the path's
/// story and no publication precedes it — follow the pattern
/// `(BorrowGlobal|Exists)* (MoveFrom | MoveToSender (BorrowGlobal|Exists)*)?`.
/// Publishing to an occupied slot and moving from an empty one fail, so
/// they never appear in a successful run. `spec_op_step` is the transition
/// relation the contracts of `borrow_global`, `resource_exists`,
/// `move_resource_from` and `move_resource_to` spell out slot by slot.
pub proof fn lemma_resource_linearity(start: SlotPhase, ops: Seq<ResourceOp>)
    requires
        !(start is Emptied),
        spec_run_ops(start, ops) is Some,
        forall|i: int| 0 <= i < ops.len() && #[trigger] ops[i] is MoveFrom ==> i == ops.len() - 1,
        forall|i: int, j: int|
            0 <= i < j < ops.len() && #[trigger] ops[i] is MoveToSender ==> !(#[trigger] ops[j]
                is MoveFrom),
    ensures
        spec_matches_linear(ops),
    decreases ops.len(),
{
    if ops.len() == 0 {
        assert(spec_all_reads(ops));
        return ;
    }
    let rest = ops.drop_first();
    assert(forall|i: int| 0 <= i < rest.len() ==> rest[i] == ops[i + 1]);
    match ops[0] {
        ResourceOp::Exists | ResourceOp::BorrowGlobal => {
            assert(spec_op_step(start, ops[0]) == Some(start) || spec_op_step(start, ops[0])
                == Some(SlotPhase::Occupied));
            let next = spec_op_step(start, ops[0])->0;
            lemma_resource_linearity(next, rest);
            if spec_all_reads(rest) {
                assert(spec_all_reads(ops)) by {
                    assert forall|i: int|
                        0 <= i < ops.len() implies (#[trigger] ops[i] is BorrowGlobal || ops[i]
                        is Exists) by {
                        if i > 0 {
                            assert(rest[i - 1] == ops[i]);
                        }
                    }
                }
            } else if exists|k: int|
                0 <= k < rest.len() && spec_all_reads(#[trigger] rest.take(k)) && rest[k]
                    is MoveFrom && k == rest.len() - 1 {
                let k = choose|k: int|
                    0 <= k < rest.len() && spec_all_reads(#[trigger] rest.take(k)) && rest[k]
                        is MoveFrom && k == rest.len() - 1;
                assert(ops[k + 1] is MoveFrom);
                assert(spec_all_reads(ops.take(k + 1))) by {
                    assert forall|i: int|
                        0 <= i < k + 1 implies (#[trigger] ops.take(k + 1)[i] is BorrowGlobal
                        || ops.take(k + 1)[i] is Exists) by {
                        if i > 0 {
                            assert(rest.take(k)[i - 1] == ops.take(k + 1)[i]);
                        }
                    }
                }
                assert(0 <= k + 1 < ops.len() && spec_all_reads(ops.take(k + 1)) && ops[k + 1]
                    is MoveFrom && k + 1 == ops.len() - 1);
            } else {
                let k = choose|k: int|
                    0 <= k < rest.len() && spec_all_reads(#[trigger] rest.take(k)) && rest[k]
                        is MoveToSender && spec_all_reads(rest.skip(k + 1));
                assert(ops[k + 1] is MoveToSender);
                assert(spec_all_reads(ops.take(k + 1))) by {
                    assert forall|i: int|
                        0 <= i < k + 1 implies (#[trigger] ops.take(k + 1)[i] is BorrowGlobal
                        || ops.take(k + 1)[i] is Exists) by {
                        if i > 0 {
                            assert(rest.take(k)[i - 1] == ops.take(k + 1)[i]);
                        }
                    }
                }
                assert(ops.skip(k + 2) =~= rest.skip(k + 1));
                assert(0 <= k + 1 < ops.len() && spec_all_reads(ops.take(k + 1)) && ops[k + 1]
                    is MoveToSender && spec_all_reads(ops.skip(k + 2)));
            }
        },
        ResourceOp::MoveFrom => {
            assert(ops.len() == 1);
            assert(spec_all_reads(ops.take(0)));
            assert(0 <= 0 < ops.len() && spec_all_reads(ops.take(0)) && ops[0] is MoveFrom && 0
                == ops.len() - 1);
        },
        ResourceOp::MoveToSender => {
            assert(start is Vacant);
            assert(spec_run_ops(SlotPhase::Occupied, rest) is Some);
            assert(forall|i: int| 0 <= i < rest.len() ==> !(#[trigger] rest[i] is MoveFrom));
            assert forall|i: int| 0 <= i < rest.len() implies !(#[trigger] rest[i]
                is MoveToSender) by {
                if rest[i] is MoveToSender {
                    lemma_run_reaches(SlotPhase::Occupied, rest, i);
                }
            }
            lemma_reads_only(rest);
            assert(spec_all_reads(ops.take(0)));
            assert(ops.skip(1) =~= rest);
            assert(0 <= 0 < ops.len() && spec_all_reads(ops.take(0)) && ops[0] is MoveToSender
                && spec_all_reads(ops.skip(1)));
        },
    }
}

/// In a successful run from an occupied slot with no move-outs, the phase
/// stays occupied, so a publication at any position would have failed.
proof fn lemma_run_reaches(phase: SlotPhase, ops: Seq<ResourceOp>, at: int)
    requires
        phase is Occupied,
        spec_run_ops(phase, ops) is Some,
        forall|i: int| 0 <= i < ops.len() ==> !(#[trigger] ops[i] is MoveFrom),
        0 <= at < ops.len(),
    ensures
        !(ops[at] is MoveToSender),
    decreases ops.len(),
{
    if ops[0] is MoveToSender {
        assert(spec_op_step(phase, ops[0]) is None);
    } else {
        assert(spec_op_step(phase, ops[0]) == Some(SlotPhase::Occupied));
        if at > 0 {
            assert(forall|i: int|
                0 <= i < ops.drop_first().len() ==> !(#[trigger] ops.drop_first()[i] is MoveFrom));
            lemma_run_reaches(SlotPhase::Occupied, ops.drop_first(), at - 1);
            assert(ops.drop_first()[at - 1] == ops[at]);
        }
    }
}

} // verus!
