//! The per-caller handle onto a shared bus.
//!
//! A `CriticalSectionDevice` borrows one `SharedBus` and presents the
//! transport's own four operations. Each call enters a critical section that
//! spans the whole transport call, so the operation is atomic with respect to
//! every other handle on the same container, at any interrupt priority level.
//! The handle itself carries no state beyond the borrow, so handles are cheap,
//! independent, and interchangeable.

use vstd::prelude::*;

use crate::shared::SharedBus;
use crate::transport::{
    ops_of, read_ops, read_outcome, reads_filled, shapes_kept, step_result, transaction_outcome,
    write_ops, write_outcome, write_read_ops, write_read_outcome, I2cBus, Operation,
};

verus! {

/// A lightweight handle bound to one shared bus container.
///
/// Any number of handles may be bound to the same container; dropping one is
/// ordinary destruction of a borrow and cannot affect the container or the
/// other handles.
#[verifier::reject_recursive_types(T)]
pub struct CriticalSectionDevice<'a, T> {
    bus: &'a SharedBus<T>,
}

impl<'a, T> CriticalSectionDevice<'a, T> {
    /// The shared container this handle is bound to.
    pub closed spec fn container(self) -> &'a SharedBus<T> {
        self.bus
    }

    /// Create a new handle bound to `bus`.
    pub fn new(bus: &'a SharedBus<T>) -> (r: Self)
        ensures
            r.container() == bus,
    {
        CriticalSectionDevice { bus }
    }
}

impl<'a, T: I2cBus> CriticalSectionDevice<'a, T> {
    /// Read `buffer.len()` bytes from the peripheral at `address` into
    /// `buffer`, holding the bus exclusively for the whole call.
    ///
    /// The transport took exactly one read transition, from whatever state the
    /// call found it in, and its result is passed through unchanged.
    pub fn read(&mut self, address: u8, buffer: &mut Vec<u8>) -> (r: Result<(), T::Error>)
        ensures
            *final(self) == *old(self),
            final(buffer)@.len() == old(buffer)@.len(),
            exists|pre: T, post: T|
                #[trigger] read_outcome(
                    pre,
                    post,
                    address,
                    old(buffer)@.len() as nat,
                    final(buffer)@,
                    r,
                ),
    {
        self.bus.read_locked(address, buffer)
    }

    /// Write `bytes` to the peripheral at `address`, holding the bus
    /// exclusively for the whole call.
    pub fn write(&mut self, address: u8, bytes: &[u8]) -> (r: Result<(), T::Error>)
        ensures
            *final(self) == *old(self),
            exists|pre: T, post: T| #[trigger] write_outcome(pre, post, address, bytes@, r),
    {
        self.bus.write_locked(address, bytes)
    }

    /// Write `bytes` to the peripheral at `address`, then read `buffer.len()`
    /// bytes back, as one transaction under one critical section.
    pub fn write_read(&mut self, address: u8, bytes: &[u8], buffer: &mut Vec<u8>) -> (r: Result<
        (),
        T::Error,
    >)
        ensures
            *final(self) == *old(self),
            final(buffer)@.len() == old(buffer)@.len(),
            exists|pre: T, post: T|
                #[trigger] write_read_outcome(
                    pre,
                    post,
                    address,
                    bytes@,
                    old(buffer)@.len() as nat,
                    final(buffer)@,
                    r,
                ),
    {
        self.bus.write_read_locked(address, bytes, buffer)
    }

    /// Execute `operations` in order against the peripheral at `address` as
    /// one transaction under one critical section, filling each read buffer
    /// in place.
    pub fn transaction(&mut self, address: u8, operations: &mut Vec<Operation>) -> (r: Result<
        (),
        T::Error,
    >)
        ensures
            *final(self) == *old(self),
            exists|pre: T, post: T|
                #[trigger] transaction_outcome(
                    pre,
                    post,
                    address,
                    old(operations)@,
                    final(operations)@,
                    r,
                ),
    {
        self.bus.transaction_locked(address, operations)
    }
}

/// A handle carries no state and no identity beyond its borrow of the
/// container: two handles bound to the same container are the same value, so
/// every operation behaves identically through either.
pub proof fn lemma_handles_interchangeable<'a, T>(
    a: CriticalSectionDevice<'a, T>,
    b: CriticalSectionDevice<'a, T>,
)
    requires
        a.container() == b.container(),
    ensures
        a == b,
{
}

/// Pass-through fidelity for `read`: when the transport reports the same
/// result for a read of `n` bytes at `address` from every state, a handle's
/// `read` — whose contract only fixes the transport state existentially —
/// returns exactly that result, exactly as a direct, exclusive call would.
pub proof fn lemma_read_pass_through<T: I2cBus>(
    address: u8,
    n: nat,
    data: Seq<u8>,
    r: Result<(), T::Error>,
    res: Result<Seq<Seq<u8>>, T::Error>,
)
    requires
        exists|pre: T, post: T| #[trigger] read_outcome(pre, post, address, n, data, r),
        forall|pre: T| #[trigger] step_result(pre, address, read_ops(n)) == res,
    ensures
        match res {
            Ok(outs) => r is Ok && data == outs[0],
            Err(e) => r is Err && r->Err_0 == e,
        },
{
    let (pre, post) = choose|pre: T, post: T|
        #[trigger] read_outcome(pre, post, address, n, data, r);
    assert(step_result(pre, address, read_ops(n)) == res);
}

/// Pass-through fidelity for `write`: as `lemma_read_pass_through`, for a
/// write of `bytes`.
pub proof fn lemma_write_pass_through<T: I2cBus>(
    address: u8,
    bytes: Seq<u8>,
    r: Result<(), T::Error>,
    res: Result<Seq<Seq<u8>>, T::Error>,
)
    requires
        exists|pre: T, post: T| #[trigger] write_outcome(pre, post, address, bytes, r),
        forall|pre: T| #[trigger] step_result(pre, address, write_ops(bytes)) == res,
    ensures
        match res {
            Ok(_) => r is Ok,
            Err(e) => r is Err && r->Err_0 == e,
        },
{
    let (pre, post) = choose|pre: T, post: T|
        #[trigger] write_outcome(pre, post, address, bytes, r);
    assert(step_result(pre, address, write_ops(bytes)) == res);
}

/// Pass-through fidelity for `write_read`: as `lemma_read_pass_through`, for
/// a write of `bytes` followed by a read of `n` bytes.
pub proof fn lemma_write_read_pass_through<T: I2cBus>(
    address: u8,
    bytes: Seq<u8>,
    n: nat,
    data: Seq<u8>,
    r: Result<(), T::Error>,
    res: Result<Seq<Seq<u8>>, T::Error>,
)
    requires
        exists|pre: T, post: T|
            #[trigger] write_read_outcome(pre, post, address, bytes, n, data, r),
        forall|pre: T| #[trigger] step_result(pre, address, write_read_ops(bytes, n)) == res,
    ensures
        match res {
            Ok(outs) => r is Ok && data == outs[1],
            Err(e) => r is Err && r->Err_0 == e,
        },
{
    let (pre, post) = choose|pre: T, post: T|
        #[trigger] write_read_outcome(pre, post, address, bytes, n, data, r);
    assert(step_result(pre, address, write_read_ops(bytes, n)) == res);
}

/// Pass-through fidelity for `transaction`: when the transport reports the
/// same result for the operation list from every state, a handle's
/// `transaction` returns exactly that result, fills every read buffer with
/// its bytes on success, and keeps the list's shape on failure.
pub proof fn lemma_transaction_pass_through<T: I2cBus>(
    address: u8,
    pre_ops: Seq<Operation>,
    post_ops: Seq<Operation>,
    r: Result<(), T::Error>,
    res: Result<Seq<Seq<u8>>, T::Error>,
)
    requires
        exists|pre: T, post: T|
            #[trigger] transaction_outcome(pre, post, address, pre_ops, post_ops, r),
        forall|pre: T| #[trigger] step_result(pre, address, ops_of(pre_ops)) == res,
    ensures
        match res {
            Ok(outs) => r is Ok && reads_filled(pre_ops, post_ops, outs),
            Err(e) => r is Err && r->Err_0 == e && shapes_kept(pre_ops, post_ops),
        },
{
    let (pre, post) = choose|pre: T, post: T|
        #[trigger] transaction_outcome(pre, post, address, pre_ops, post_ops, r);
    assert(step_result(pre, address, ops_of(pre_ops)) == res);
}

} // verus!
