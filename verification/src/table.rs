use crate::arithmetic::fits_i64;
use crate::arithmetic::Arithmetic;
use vstd::prelude::*;
use wasmtime::component::Resource;
use wasmtime::component::ResourceTable;
use wasmtime::component::ResourceTableError;

verus! {

/// `wasmtime::component::ResourceTable`: the store in which the accumulators
/// are kept. Nothing inside it is visible here.
#[verifier::external_type_specification]
#[verifier::external_body]
pub struct ExResourceTable(ResourceTable);

/// `wasmtime::component::ResourceTableError`, with its variants.
#[verifier::external_type_specification]
pub struct ExResourceTableError(ResourceTableError);

/// What the table stores for one accumulator: the cell, and the serial
/// number under which its handle was issued.
struct Slot {
    cell: Arithmetic,
    serial: u64,
}

/// The accumulators that a table holds: each index at which a slot is
/// stored, mapped to the slot's serial number and to the integer in its
/// cell.
pub uninterp spec fn table_slots(table: ResourceTable) -> Map<u32, (u64, i64)>;

/// The indices at which a table holds anything but a slot that is free to
/// go: an entry of another type, or an entry with child entries.
pub uninterp spec fn table_others(table: ResourceTable) -> Set<u32>;

/// How many more entries a table takes before `push` refuses.
pub uninterp spec fn table_spare(table: ResourceTable) -> nat;

/// `ResourceTable::new`: a table without entries, which takes a million of
/// them.
#[verifier::external_body]
fn table_new() -> (table: ResourceTable)
    ensures
        (table_slots(table) == Map::<u32, (u64, i64)>::empty()),
        table_others(table) == Set::<u32>::empty(),
        table_spare(table) == 1_000_000,
{
    ResourceTable::new()
}

/// `ResourceTable::push`: while the table has room, stores the slot at an
/// index that held no entry; otherwise refuses with `Full` and changes
/// nothing.
#[verifier::external_body]
fn table_push(table: &mut ResourceTable, slot: Slot) -> (pushed: Result<u32, ResourceTableError>)
    ensures
        table_others(*final(table)) == table_others(*old(table)),
        pushed is Ok <==> table_spare(*old(table)) > 0,
        match pushed {
            Ok(rep) => !table_slots(*old(table)).contains_key(rep) && table_slots(*final(table))
                == table_slots(*old(table)).insert(rep, (slot.serial, slot.cell.value()))
                && table_spare(*final(table)) == table_spare(*old(table)) - 1,
            Err(e) => e is Full && table_slots(*final(table)) == table_slots(*old(table))
                && table_spare(*final(table)) == table_spare(*old(table)),
        },
{
    table.push(slot).map(|resource| resource.rep())
}

/// `ResourceTable::get`, asked for a slot: found exactly where the table
/// holds one.
#[verifier::external_body]
fn table_get(table: &ResourceTable, rep: u32) -> (found: Result<&Slot, ResourceTableError>)
    ensures
        match found {
            Ok(slot) => table_slots(*table).contains_key(rep) && (slot.serial, slot.cell.value())
                == table_slots(*table)[rep],
            Err(e) => !(e is Full) && !table_slots(*table).contains_key(rep),
        },
{
    table.get(&Resource::<Slot>::new_own(rep))
}

/// `ResourceTable::get_mut`, asked for a slot: found exactly where the table
/// holds one. What the caller leaves in the slot is what the table holds
/// there afterwards; nothing else changes.
#[verifier::external_body]
fn table_get_mut(table: &mut ResourceTable, rep: u32) -> (found: Result<
    &mut Slot,
    ResourceTableError,
>)
    ensures
        table_others(*final(table)) == table_others(*old(table)),
        table_spare(*final(table)) == table_spare(*old(table)),
        match found {
            Ok(slot) => table_slots(*old(table)).contains_key(rep) && (
                slot.serial,
                slot.cell.value(),
            ) == table_slots(*old(table))[rep] && table_slots(*final(table)) == table_slots(
                *old(table),
            ).insert(rep, (final(slot).serial, final(slot).cell.value())),
            Err(e) => !(e is Full) && !table_slots(*old(table)).contains_key(rep) && table_slots(
                *final(table),
            ) == table_slots(*old(table)),
        },
{
    table.get_mut(&Resource::<Slot>::new_own(rep))
}

/// `ResourceTable::delete`, asked for a slot: takes the slot out where the
/// table holds one that has no child entries, and otherwise leaves every
/// slot in place. Where the index held no entry at all, nothing changes.
/// No entry gains children and no room is lost.
#[verifier::external_body]
fn table_delete(table: &mut ResourceTable, rep: u32) -> (taken: Result<Slot, ResourceTableError>)
    ensures
        table_others(*final(table)).subset_of(table_others(*old(table))),
        table_spare(*final(table)) >= table_spare(*old(table)),
        taken is Ok <==> table_slots(*old(table)).contains_key(rep) && !table_others(
            *old(table),
        ).contains(rep),
        match taken {
            Ok(slot) => (slot.serial, slot.cell.value()) == table_slots(*old(table))[rep]
                && table_slots(*final(table)) == table_slots(*old(table)).remove(rep)
                && table_spare(*final(table)) == table_spare(*old(table)) + 1,
            Err(e) => !(e is Full) && table_slots(*final(table)) == table_slots(*old(table)) && (
            !table_others(*old(table)).contains(rep) ==> table_spare(*final(table)) == table_spare(
                *old(table),
            )),
        },
{
    table.delete(Resource::<Slot>::new_own(rep))
}

/// Names one accumulator of one table. A handle carries no reference to the
/// cell: it holds the index of a slot and the serial number under which it
/// was issued, and the table decides whether both still select an
/// accumulator. Only a table makes handles.
#[derive(Clone, Copy, Debug, PartialEq, Eq, Structural)]
pub struct Handle {
    rep: u32,
    serial: u64,
}

impl Handle {
    /// The index of the slot that this handle points at.
    pub closed spec fn index(self) -> u32 {
        self.rep
    }

    /// The serial number under which this handle was issued.
    pub closed spec fn serial(self) -> u64 {
        self.serial
    }

    /// The index of the slot that this handle points at.
    pub fn rep(&self) -> (rep: u32)
        ensures
            rep == self.index(),
    {
        self.rep
    }

    /// Two handles with the same index and serial number are the same
    /// handle.
    pub proof fn same_parts_same_handle(self, other: Handle)
        requires
            self.index() == other.index(),
            self.serial() == other.serial(),
        ensures
            self == other,
    {
    }
}

/// Why an operation on the table was refused.
#[derive(Clone, Copy, Debug, PartialEq, Eq, Structural)]
pub enum TableError {
    /// The table takes no further accumulator.
    Full,
    /// The handle selects no accumulator of this table: it was never issued
    /// here, or its accumulator has been dropped.
    InvalidHandle,
}

/// What reading the accumulator behind `handle` yields.
pub open spec fn get_outcome(live: Map<Handle, i64>, handle: Handle) -> Result<i64, TableError> {
    if live.contains_key(handle) {
        Ok(live[handle])
    } else {
        Err(TableError::InvalidHandle)
    }
}

/// What adding `delta` to the accumulator behind `handle` yields: the new
/// value, `None` where the sum does not fit, or a refusal of the handle.
pub open spec fn add_outcome(live: Map<Handle, i64>, handle: Handle, delta: i64) -> Result<
    Option<i64>,
    TableError,
> {
    if !live.contains_key(handle) {
        Err(TableError::InvalidHandle)
    } else if fits_i64(live[handle] + delta) {
        Ok(Some((live[handle] + delta) as i64))
    } else {
        Ok(None)
    }
}

/// The live accumulators after adding `delta` behind `handle`.
pub open spec fn after_add(live: Map<Handle, i64>, handle: Handle, delta: i64) -> Map<
    Handle,
    i64,
> {
    match add_outcome(live, handle, delta) {
        Ok(Some(sum)) => live.insert(handle, sum),
        _ => live,
    }
}

/// What subtracting `delta` from the accumulator behind `handle` yields.
pub open spec fn subtract_outcome(live: Map<Handle, i64>, handle: Handle, delta: i64) -> Result<
    Option<i64>,
    TableError,
> {
    if !live.contains_key(handle) {
        Err(TableError::InvalidHandle)
    } else if fits_i64(live[handle] - delta) {
        Ok(Some((live[handle] - delta) as i64))
    } else {
        Ok(None)
    }
}

/// The live accumulators after subtracting `delta` behind `handle`.
pub open spec fn after_subtract(live: Map<Handle, i64>, handle: Handle, delta: i64) -> Map<
    Handle,
    i64,
> {
    match subtract_outcome(live, handle, delta) {
        Ok(Some(difference)) => live.insert(handle, difference),
        _ => live,
    }
}

/// What dropping the accumulator behind `handle` yields.
pub open spec fn drop_outcome(live: Map<Handle, i64>, handle: Handle) -> Result<(), TableError> {
    if live.contains_key(handle) {
        Ok(())
    } else {
        Err(TableError::InvalidHandle)
    }
}

/// The live accumulators after dropping the one behind `handle`.
pub open spec fn after_drop(live: Map<Handle, i64>, handle: Handle) -> Map<Handle, i64> {
    live.remove(handle)
}

/// The handles that select a slot, each mapped to the value in the slot's
/// cell.
spec fn live_of(slots: Map<u32, (u64, i64)>) -> Map<Handle, i64> {
    Map::new(
        |handle: Handle| slots.contains_key(handle.rep) && slots[handle.rep].0 == handle.serial,
        |handle: Handle| slots[handle.rep].1,
    )
}

/// Owns every accumulator that has been handed out by handle, and decides
/// for each handle whether it still selects one.
pub struct AccumulatorTable {
    table: ResourceTable,
    issued: u64,
}

impl View for AccumulatorTable {
    type V = Map<Handle, i64>;

    /// The live accumulators: each valid handle, mapped to the value of its
    /// accumulator.
    closed spec fn view(&self) -> Map<Handle, i64> {
        live_of(table_slots(self.table))
    }
}

impl AccumulatorTable {
    /// Holds of every table that `new` made and these methods changed: it
    /// holds accumulators only, each of them is free to be dropped, and each
    /// has a serial number that has been issued.
    pub closed spec fn well_formed(&self) -> bool {
        &&& table_others(self.table) == Set::<u32>::empty()
        &&& forall|rep: u32| #[trigger]
            table_slots(self.table).contains_key(rep) ==> table_slots(self.table)[rep].0
                < self.issued
    }

    /// How many more accumulators the table has room for.
    pub closed spec fn room(&self) -> nat {
        table_spare(self.table)
    }

    /// How many handles the table has issued so far. Handles are numbered
    /// in the order of their issue, from zero.
    pub closed spec fn issued(&self) -> nat {
        self.issued as nat
    }

    /// Whether `handle` selects an accumulator of this table.
    pub open spec fn is_live(&self, handle: Handle) -> bool {
        self@.contains_key(handle)
    }

    /// Every live handle has been issued, and no two live handles point at
    /// the same slot.
    pub proof fn live_handles_are_issued_and_apart(&self, handle: Handle, other: Handle)
        requires
            self.well_formed(),
            self.is_live(handle),
        ensures
            handle.serial() < self.issued(),
            self.is_live(other) && other.index() == handle.index() ==> other == handle,
    {
    }

    /// An empty table that has issued no handle, with room for a million
    /// accumulators.
    pub fn new() -> (table: AccumulatorTable)
        ensures
            table.well_formed(),
            table@ == Map::<Handle, i64>::empty(),
            table.room() == 1_000_000,
            table.issued() == 0,
    {
        let table = AccumulatorTable { table: table_new(), issued: 0 };
        assert(table@ =~= Map::<Handle, i64>::empty());
        table
    }

    /// Stores a new accumulator holding `initial` and issues its handle,
    /// under the next serial number and at an index that no live handle
    /// points at. Refused only when the table has no room, or has run out
    /// of serial numbers.
    pub fn create(&mut self, initial: i64) -> (issued: Result<Handle, TableError>)
        requires
            old(self).well_formed(),
        ensures
            final(self).well_formed(),
            issued is Ok <==> old(self).room() > 0 && old(self).issued() < u64::MAX,
            match issued {
                Ok(handle) => handle.serial() == old(self).issued() && (forall|other: Handle|
                    other.index() == handle.index() ==> !old(self).is_live(other)) && final(self)@
                    == old(self)@.insert(handle, initial) && final(self).room() == old(self).room()
                    - 1 && final(self).issued() == old(self).issued() + 1,
                Err(e) => e == TableError::Full && final(self)@ == old(self)@ && final(self).room()
                    == old(self).room() && final(self).issued() == old(self).issued(),
            },
    {
        if self.issued == u64::MAX {
            return Err(TableError::Full);
        }
        let serial = self.issued;
        let slot = Slot { cell: Arithmetic::new(initial), serial };
        match table_push(&mut self.table, slot) {
            Ok(rep) => {
                self.issued = serial + 1;
                let handle = Handle { rep, serial };
                assert(self@ =~= old(self)@.insert(handle, initial));
                Ok(handle)
            },
            Err(_) => Err(TableError::Full),
        }
    }

    /// The live handle that points at the slot with this index, if there is
    /// one.
    pub fn handle_at(&self, rep: u32) -> (found: Option<Handle>)
        ensures
            match found {
                Some(handle) => handle.index() == rep && self.is_live(handle),
                None => forall|handle: Handle| handle.index() == rep ==> !self.is_live(handle),
            },
    {
        match table_get(&self.table, rep) {
            Ok(slot) => Some(Handle { rep, serial: slot.serial }),
            Err(_) => None,
        }
    }

    /// Reads the accumulator behind `handle`.
    pub fn get(&self, handle: Handle) -> (read: Result<i64, TableError>)
        ensures
            read == get_outcome(self@, handle),
    {
        match table_get(&self.table, handle.rep) {
            Ok(slot) => {
                if slot.serial == handle.serial {
                    Ok(slot.cell.get())
                } else {
                    Err(TableError::InvalidHandle)
                }
            },
            Err(_) => Err(TableError::InvalidHandle),
        }
    }

    /// Adds `delta` to the accumulator behind `handle`. An overflow yields
    /// `Ok(None)` and leaves the accumulator as it was.
    pub fn add(&mut self, handle: Handle, delta: i64) -> (added: Result<Option<i64>, TableError>)
        requires
            old(self).well_formed(),
        ensures
            final(self).well_formed(),
            added == add_outcome(old(self)@, handle, delta),
            final(self)@ == after_add(old(self)@, handle, delta),
            final(self).room() == old(self).room(),
            final(self).issued() == old(self).issued(),
    {
        let added = match table_get_mut(&mut self.table, handle.rep) {
            Ok(slot) => {
                if slot.serial == handle.serial {
                    Ok(slot.cell.add(delta))
                } else {
                    Err(TableError::InvalidHandle)
                }
            },
            Err(_) => Err(TableError::InvalidHandle),
        };
        assert(self@ =~= after_add(old(self)@, handle, delta));
        added
    }

    /// Subtracts `delta` from the accumulator behind `handle`. An overflow
    /// yields `Ok(None)` and leaves the accumulator as it was.
    pub fn subtract(&mut self, handle: Handle, delta: i64) -> (subtracted: Result<
        Option<i64>,
        TableError,
    >)
        requires
            old(self).well_formed(),
        ensures
            final(self).well_formed(),
            subtracted == subtract_outcome(old(self)@, handle, delta),
            final(self)@ == after_subtract(old(self)@, handle, delta),
            final(self).room() == old(self).room(),
            final(self).issued() == old(self).issued(),
    {
        let subtracted = match table_get_mut(&mut self.table, handle.rep) {
            Ok(slot) => {
                if slot.serial == handle.serial {
                    Ok(slot.cell.sub(delta))
                } else {
                    Err(TableError::InvalidHandle)
                }
            },
            Err(_) => Err(TableError::InvalidHandle),
        };
        assert(self@ =~= after_subtract(old(self)@, handle, delta));
        subtracted
    }

    /// Releases the accumulator behind `handle`; from then on the handle
    /// selects nothing.
    pub fn drop(&mut self, handle: Handle) -> (dropped: Result<(), TableError>)
        requires
            old(self).well_formed(),
        ensures
            final(self).well_formed(),
            dropped == drop_outcome(old(self)@, handle),
            final(self)@ == after_drop(old(self)@, handle),
            final(self).room() == old(self).room() + if dropped is Ok {
                1nat
            } else {
                0nat
            },
            final(self).issued() == old(self).issued(),
    {
        let selected = match table_get(&self.table, handle.rep) {
            Ok(slot) => slot.serial == handle.serial,
            Err(_) => false,
        };
        if !selected {
            assert(self@ =~= after_drop(self@, handle));
            return Err(TableError::InvalidHandle);
        }
        let taken = table_delete(&mut self.table, handle.rep);
        assert(table_others(self.table) =~= Set::<u32>::empty());
        assert(self@ =~= after_drop(old(self)@, handle));
        match taken {
            Ok(_) => Ok(()),
            Err(_) => Err(TableError::InvalidHandle),
        }
    }
}

/// A handle whose accumulator has been dropped selects nothing: reading,
/// adding, subtracting and dropping through it are all refused, and none of
/// them changes the table.
pub proof fn dropped_handle_is_refused(live: Map<Handle, i64>, handle: Handle, delta: i64)
    ensures
        ({
            let rest = after_drop(live, handle);
            &&& get_outcome(rest, handle) == Err::<i64, TableError>(TableError::InvalidHandle)
            &&& add_outcome(rest, handle, delta) == Err::<Option<i64>, TableError>(
                TableError::InvalidHandle,
            )
            &&& subtract_outcome(rest, handle, delta) == Err::<Option<i64>, TableError>(
                TableError::InvalidHandle,
            )
            &&& drop_outcome(rest, handle) == Err::<(), TableError>(TableError::InvalidHandle)
            &&& after_add(rest, handle, delta) == rest
            &&& after_subtract(rest, handle, delta) == rest
            &&& after_drop(rest, handle) == rest
        }),
{
    let rest = after_drop(live, handle);
    assert(after_drop(rest, handle) =~= rest);
}

/// A handle that has been issued and selects nothing stays that way,
/// whatever is done to the table next: a handle that is created then has a
/// serial number of its own, and the other operations make no handle live.
pub proof fn retired_handle_stays_refused(
    live: Map<Handle, i64>,
    issued: nat,
    retired: Handle,
    other: Handle,
    value: i64,
)
    requires
        retired.serial() < issued,
        !live.contains_key(retired),
    ensures
        other.serial() == issued ==> !live.insert(other, value).contains_key(retired),
        !after_add(live, other, value).contains_key(retired),
        !after_subtract(live, other, value).contains_key(retired),
        !after_drop(live, other).contains_key(retired),
{
}

} // verus!
