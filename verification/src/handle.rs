//! The handle table: opaque numeric handles for values that the shim owns.
//!
//! A value is handed to the table with [`open`], which returns a handle that
//! was never returned before. The value lives in the table until [`close`]
//! removes it. [`lookup`] gives the value back under the type it was opened
//! with.

use crate::error::ShimError;
use crate::event::Event;
use crate::registry::RegistryKey;
use std::collections::HashMap;
use vstd::prelude::*;

verus! {

broadcast use vstd::std_specs::hash::group_hash_axioms;

/// A value that a handle can refer to, with its type forgotten.
pub enum HandleValue {
    RegistryKey(RegistryKey),
    Event(Event),
}

/// The owner of one value in the table.
pub struct HandleObject {
    inner: Box<HandleValue>,
}

impl View for HandleObject {
    type V = HandleValue;

    closed spec fn view(&self) -> HandleValue {
        *self.inner
    }
}

impl HandleObject {
    /// Takes ownership of a value.
    pub fn new(value: HandleValue) -> (obj: HandleObject)
        ensures
            obj@ == value,
    {
        HandleObject { inner: Box::new(value) }
    }

    /// The value that this object owns.
    pub fn value(&self) -> (value: &HandleValue)
        ensures
            *value == self@,
    {
        &*self.inner
    }
}

/// The types whose values a handle can refer to. Such a type says how its
/// values look with their type forgotten, and how to tell them again from the
/// values of other types. Its values can be handed from thread to thread, as
/// the table that holds them can.
pub trait HandleImpl: Sized + Send + Sync {
    /// This value with its type forgotten.
    spec fn erased(self) -> HandleValue;

    /// The value of this type that `value` is, if it is one.
    spec fn recovered(value: HandleValue) -> Option<Self>;

    /// Forgetting the type and recovering it gives the same value back.
    proof fn lemma_erased_recovered(self)
        ensures
            Self::recovered(self.erased()) == Some(self),
    ;

    /// Whatever is recovered from a value is that value.
    proof fn lemma_recovered_erased(value: HandleValue)
        ensures
            Self::recovered(value) matches Some(v) ==> v.erased() == value,
    ;

    /// Hands this value over to a type-erased owner.
    fn into_object(self) -> (obj: HandleObject)
        ensures
            obj@ == self.erased(),
    ;

    /// Looks at `obj` as a value of this type.
    fn downcast(obj: &HandleObject) -> (found: Option<&Self>)
        ensures
            found matches Some(v) ==> Self::recovered(obj@) == Some(*v),
            found is None ==> Self::recovered(obj@) is None,
    ;
}

/// What a handle table holds: the values that are live, each under its
/// handle, and the handle that the next `open` will return.
pub struct TableView {
    pub live: Map<usize, HandleValue>,
    pub next: nat,
}

impl TableView {
    /// No handle is 0, every live handle was handed out before, and the
    /// counter fits the handle type.
    pub open spec fn wf(self) -> bool {
        &&& 1 <= self.next <= usize::MAX
        &&& forall|h: usize| self.live.contains_key(h) ==> 1 <= h < self.next
    }

    /// Whether another handle can be handed out.
    pub open spec fn has_room(self) -> bool {
        self.next < usize::MAX
    }

    /// The table after `value` has been opened.
    pub open spec fn open(self, value: HandleValue) -> TableView {
        TableView { live: self.live.insert(self.next as usize, value), next: self.next + 1 }
    }

    /// The table after `handle` has been closed.
    pub open spec fn close(self, handle: usize) -> TableView {
        TableView { live: self.live.remove(handle), next: self.next }
    }

    /// The value that `handle` refers to, if it is live.
    pub open spec fn lookup(self, handle: usize) -> Option<HandleValue> {
        if self.live.contains_key(handle) {
            Some(self.live[handle])
        } else {
            None
        }
    }

    /// The value that `handle` refers to, as a value of type `T`.
    pub open spec fn lookup_as<T: HandleImpl>(self, handle: usize) -> Result<T, ShimError> {
        match self.lookup(handle) {
            None => Err(ShimError::NotFound),
            Some(value) => match T::recovered(value) {
                Some(v) => Ok(v),
                None => Err(ShimError::TypeMismatch),
            },
        }
    }
}

/// The table of live handles.
///
/// The table is plain data and does not lock itself. A program whose
/// threads share one table keeps it behind one lock and holds the lock for
/// each call; the calls then follow one another as the steps of [`run`].
pub struct HandleTable {
    objects: HashMap<usize, HandleObject>,
    next: usize,
}

impl View for HandleTable {
    type V = TableView;

    closed spec fn view(&self) -> TableView {
        TableView {
            live: self.objects@.map_values(|obj: HandleObject| obj@),
            next: self.next as nat,
        }
    }
}

impl HandleTable {
    /// An empty table. Its first handle will be 1.
    pub fn new() -> (table: HandleTable)
        ensures
            table@.live == Map::<usize, HandleValue>::empty(),
            table@.next == 1,
            table@.wf(),
    {
        HandleTable { objects: HashMap::new(), next: 1 }
    }

    /// An empty table whose first handle will be `first`. The handles below
    /// `first` are never handed out, so they stay free for the host API's
    /// predefined values.
    pub fn with_first_handle(first: usize) -> (table: HandleTable)
        requires
            first != 0,
        ensures
            table@.live == Map::<usize, HandleValue>::empty(),
            table@.next == first,
            table@.wf(),
    {
        HandleTable { objects: HashMap::new(), next: first }
    }

    /// Whether another handle can be handed out.
    pub fn has_room(&self) -> (r: bool)
        ensures
            r == self@.has_room(),
    {
        self.next < usize::MAX
    }

    /// The owner of the value that `handle` refers to, if it is live.
    pub fn get(&self, handle: usize) -> (found: Option<&HandleObject>)
        ensures
            match found {
                Some(obj) => self@.lookup(handle) == Some(obj@),
                None => self@.lookup(handle) is None,
            },
    {
        self.objects.get(&handle)
    }
}

/// Stores `h` in the table and returns its handle: one that is not 0 and that
/// no earlier call has returned.
pub fn open<T: HandleImpl>(table: &mut HandleTable, h: T) -> (handle: usize)
    requires
        old(table)@.has_room(),
    ensures
        handle == old(table)@.next,
        final(table)@ == old(table)@.open(h.erased()),
        old(table)@.wf() ==> final(table)@.wf() && handle != 0 && !old(table)@.live.contains_key(
            handle,
        ),
{
    let handle = table.next;
    let obj = h.into_object();
    table.next = handle + 1;
    table.objects.insert(handle, obj);
    assert(table@.live =~= old(table)@.open(h.erased()).live);
    handle
}

/// Removes the value that `handle` refers to and drops it. Closing a handle
/// that is not live changes nothing.
pub fn close(table: &mut HandleTable, handle: usize)
    ensures
        final(table)@ == old(table)@.close(handle),
        old(table)@.wf() ==> final(table)@.wf(),
        !old(table)@.live.contains_key(handle) ==> final(table)@ == old(table)@,
{
    table.objects.remove(&handle);
    assert(table@.live =~= old(table)@.close(handle).live);
    assert(!old(table)@.live.contains_key(handle) ==> old(table)@.live.remove(handle)
        =~= old(table)@.live);
}

/// The value that `handle` refers to, as a value of type `T`. A handle that
/// is not live is `NotFound`; a live handle to a value of another type is
/// `TypeMismatch`.
pub fn lookup<T: HandleImpl>(table: &HandleTable, handle: usize) -> (found: Result<&T, ShimError>)
    ensures
        match found {
            Ok(v) => {
                &&& table@.lookup_as::<T>(handle) == Ok::<T, ShimError>(*v)
                &&& table@.lookup(handle) == Some(v.erased())
            },
            Err(e) => table@.lookup_as::<T>(handle) == Err::<T, ShimError>(e),
        },
{
    match table.get(handle) {
        None => Err(ShimError::NotFound),
        Some(obj) => {
            proof {
                T::lemma_recovered_erased(obj@);
            }
            match T::downcast(obj) {
                Some(v) => Ok(v),
                None => Err(ShimError::TypeMismatch),
            }
        },
    }
}

/// One call on a handle table.
pub enum TableOp {
    /// `open` with this value.
    Open(HandleValue),
    /// `close` with this handle.
    Close(usize),
}

/// The table after the calls `ops`, made one after the other.
pub open spec fn run(table: TableView, ops: Seq<TableOp>) -> TableView
    decreases ops.len(),
{
    if ops.len() == 0 {
        table
    } else {
        match ops[0] {
            TableOp::Open(value) => run(table.open(value), ops.drop_first()),
            TableOp::Close(handle) => run(table.close(handle), ops.drop_first()),
        }
    }
}

/// The handles that the `open` calls among `ops` return, in the order of the
/// calls.
pub open spec fn issued(table: TableView, ops: Seq<TableOp>) -> Seq<usize>
    decreases ops.len(),
{
    if ops.len() == 0 {
        Seq::empty()
    } else {
        match ops[0] {
            TableOp::Open(value) => seq![table.next as usize] + issued(
                table.open(value),
                ops.drop_first(),
            ),
            TableOp::Close(handle) => issued(table.close(handle), ops.drop_first()),
        }
    }
}

/// A value that was opened is found under its handle, as the value it was
/// and under the type it was opened with. Once the handle is closed, it is
/// not found any more.
pub proof fn lemma_open_lookup_close<T: HandleImpl>(table: TableView, v: T)
    requires
        table.wf(),
    ensures
        table.open(v.erased()).lookup(table.next as usize) == Some(v.erased()),
        table.open(v.erased()).lookup_as::<T>(table.next as usize) == Ok::<T, ShimError>(v),
        table.open(v.erased()).close(table.next as usize).lookup(table.next as usize) is None,
        table.open(v.erased()).close(table.next as usize).lookup_as::<T>(table.next as usize)
            == Err::<T, ShimError>(ShimError::NotFound),
{
    v.lemma_erased_recovered();
}

/// Opening and closing leave the other handles as they were.
pub proof fn lemma_other_handles_untouched(table: TableView, value: HandleValue, other: usize)
    requires
        table.wf(),
        other != table.next,
    ensures
        table.open(value).lookup(other) == table.lookup(other),
        forall|closed: usize|
            closed != other ==> table.close(closed).lookup(other) == table.lookup(other),
{
}

/// The handle that `open` returns is not 0 and refers to nothing before the
/// call.
pub proof fn lemma_open_is_fresh(table: TableView)
    requires
        table.wf(),
    ensures
        table.next as usize != 0,
        table.lookup(table.next as usize) is None,
{
}

/// However opens and closes follow one another, as long as handles last:
/// the table stays well formed, no handle is returned twice, none is 0, and
/// none was live before. The handles come out in increasing order.
pub proof fn lemma_handles_unique(table: TableView, ops: Seq<TableOp>)
    requires
        table.wf(),
        table.next + ops.len() <= usize::MAX,
    ensures
        run(table, ops).wf(),
        table.next <= run(table, ops).next <= table.next + ops.len(),
        forall|i: int|
            0 <= i < issued(table, ops).len() ==> table.next <= #[trigger] issued(table, ops)[i]
                < run(table, ops).next,
        forall|i: int|
            0 <= i < issued(table, ops).len() ==> #[trigger] issued(table, ops)[i] != 0
                && !table.live.contains_key(issued(table, ops)[i]),
        forall|i: int, j: int|
            0 <= i < j < issued(table, ops).len() ==> issued(table, ops)[i] < issued(
                table,
                ops,
            )[j],
    decreases ops.len(),
{
    if ops.len() > 0 {
        let rest = ops.drop_first();
        let after = match ops[0] {
            TableOp::Open(value) => table.open(value),
            TableOp::Close(handle) => table.close(handle),
        };
        lemma_handles_unique(after, rest);
        match ops[0] {
            TableOp::Open(value) => {
                let tail = issued(after, rest);
                assert(issued(table, ops) == seq![table.next as usize] + tail);
                assert forall|i: int| 0 < i < issued(table, ops).len() implies issued(
                    table,
                    ops,
                )[i] == tail[i - 1] by {}
            },
            TableOp::Close(handle) => {},
        }
    }
}

} // verus!
