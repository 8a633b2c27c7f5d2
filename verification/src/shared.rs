//! The shared container: one transport behind a critical-section mutex.
//!
//! `SharedBus` owns the transport for the lifetime of the sharing. All access
//! goes through the `*_locked` methods, each of which enters one critical
//! section that spans the whole transport call, so no two of them — from any
//! thread or interrupt priority level — ever overlap on the transport.
//!
//! Because a caller holds only a shared reference, the transport state a call
//! will find cannot be named in a contract: another handle may have used the
//! bus in between. Each `*_locked` method therefore promises what holds of
//! every outcome: the call took exactly one transition of the transport, from
//! some state to its successor, and reported that transition's result
//! unchanged.

use vstd::prelude::*;

use crate::transport::{
    read_outcome, transaction_outcome, write_outcome, write_read_outcome, I2cBus, Operation,
};

verus! {

/// `critical_section::Mutex`, the container's outer layer: its contents are
/// reachable only while a critical-section token proves global exclusion.
#[verifier::external_type_specification]
#[verifier::external_body]
#[verifier::reject_recursive_types(T)]
pub struct ExMutex<T>(critical_section::Mutex<T>);

/// `core::cell::RefCell`, the container's inner layer: it hands out exclusive
/// mutable access through a shared reference.
#[verifier::external_type_specification]
#[verifier::external_body]
#[verifier::reject_recursive_types(T)]
pub struct ExRefCell<T: ?Sized>(core::cell::RefCell<T>);

/// One physical bus transport, shared among any number of handles. Exactly
/// one logical owner interacts with the transport at any instant.
#[verifier::reject_recursive_types(T)]
pub struct SharedBus<T> {
    inner: critical_section::Mutex<core::cell::RefCell<T>>,
}

impl<T> SharedBus<T> {
    /// Wrap `transport` for sharing. The container must outlive every handle
    /// bound to it, which the borrow it hands out enforces.
    ///
    /// Relies on `critical_section::Mutex::new` and `core::cell::RefCell::new`:
    /// plain constructors that cannot fail.
    #[verifier::external_body]
    pub fn new(transport: T) -> (r: SharedBus<T>) {
        SharedBus { inner: critical_section::Mutex::new(core::cell::RefCell::new(transport)) }
    }
}

impl<T: I2cBus> SharedBus<T> {
    /// Run the transport's `read` under global exclusion.
    ///
    /// Relies on `critical_section::with`, which runs the closure with global
    /// exclusion held for its whole run and returns its result, and on
    /// `critical_section::Mutex::borrow_ref_mut`, which hands the closure
    /// exclusive access to the wrapped transport for the token's scope. The
    /// closure only forwards to the transport's own `read`, whose contract
    /// gives the clauses below for the states the call found and left.
    /// `borrow_ref_mut` panics only on reentrant use of the same container,
    /// which this layer does not support.
    #[verifier::external_body]
    pub(crate) fn read_locked(&self, address: u8, buffer: &mut Vec<u8>) -> (r: Result<
        (),
        T::Error,
    >)
        ensures
            final(buffer)@.len() == old(buffer)@.len(),
            exists|pre: T, post: T|
                #[trigger] read_outcome(
                    pre,
                    post,
                    address,
                    old(buffer)@.len() as nat,
                    final(buffer)@,
                    r,
                ),
    {
        critical_section::with(|cs| {
            let bus = &mut *self.inner.borrow_ref_mut(cs);
            bus.read(address, buffer)
        })
    }

    /// Run the transport's `write` under global exclusion.
    ///
    /// Relies on `critical_section::with` and
    /// `critical_section::Mutex::borrow_ref_mut` exactly as `read_locked`
    /// does; the closure only forwards to the transport's own `write`.
    #[verifier::external_body]
    pub(crate) fn write_locked(&self, address: u8, bytes: &[u8]) -> (r: Result<(), T::Error>)
        ensures
            exists|pre: T, post: T| #[trigger] write_outcome(pre, post, address, bytes@, r),
    {
        critical_section::with(|cs| {
            let bus = &mut *self.inner.borrow_ref_mut(cs);
            bus.write(address, bytes)
        })
    }

    /// Run the transport's `write_read` under global exclusion.
    ///
    /// Relies on `critical_section::with` and
    /// `critical_section::Mutex::borrow_ref_mut` exactly as `read_locked`
    /// does; the closure only forwards to the transport's own `write_read`.
    #[verifier::external_body]
    pub(crate) fn write_read_locked(
        &self,
        address: u8,
        bytes: &[u8],
        buffer: &mut Vec<u8>,
    ) -> (r: Result<(), T::Error>)
        ensures
            final(buffer)@.len() == old(buffer)@.len(),
            exists|pre: T, post: T|
                #[trigger] write_read_outcome(
                    pre,
                    post,
                    address,
                    bytes@,
                    old(buffer)@.len() as nat,
                    final(buffer)@,
                    r,
                ),
    {
        critical_section::with(|cs| {
            let bus = &mut *self.inner.borrow_ref_mut(cs);
            bus.write_read(address, bytes, buffer)
        })
    }

    /// Run the transport's `transaction` under global exclusion.
    ///
    /// Relies on `critical_section::with` and
    /// `critical_section::Mutex::borrow_ref_mut` exactly as `read_locked`
    /// does; the closure only forwards to the transport's own `transaction`.
    #[verifier::external_body]
    pub(crate) fn transaction_locked(
        &self,
        address: u8,
        operations: &mut Vec<Operation>,
    ) -> (r: Result<(), T::Error>)
        ensures
            exists|pre: T, post: T|
                #[trigger] transaction_outcome(
                    pre,
                    post,
                    address,
                    old(operations)@,
                    final(operations)@,
                    r,
                ),
    {
        critical_section::with(|cs| {
            let bus = &mut *self.inner.borrow_ref_mut(cs);
            bus.transaction(address, operations)
        })
    }
}

} // verus!
