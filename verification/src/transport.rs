//! The bus transport capability that this layer shares.
//!
//! A transport is a concrete driver for one physical bus. Its observable
//! behaviour is modelled by a single ghost transition function, `I2cBus::step`:
//! from a transport state and an ordered list of sub-operations addressed to
//! one peripheral, it yields the successor state and either the bytes produced
//! for each sub-operation or the transport's own error. Every exec operation
//! of the trait is specified against that one function, so a driver cannot
//! give `read` and `transaction` inconsistent meanings.

use vstd::prelude::*;

verus! {

/// Ghost description of one sub-operation of a bus transaction: a read of the
/// given number of bytes, or a write of the given bytes.
pub enum BusOp {
    Read(nat),
    Write(Seq<u8>),
}

/// One sub-operation of a batched transaction, executed against the same
/// peripheral without releasing exclusivity in between.
pub enum Operation {
    /// Read as many bytes as the carried buffer holds, in place.
    Read(Vec<u8>),
    /// Write the carried bytes.
    Write(Vec<u8>),
}

impl View for Operation {
    type V = BusOp;

    open spec fn view(&self) -> BusOp {
        match self {
            Operation::Read(buffer) => BusOp::Read(buffer@.len()),
            Operation::Write(bytes) => BusOp::Write(bytes@),
        }
    }
}

/// A concrete bus driver: the shared resource behind a `SharedBus`.
///
/// Implementations define `step`, the ghost transition that fixes the meaning
/// of all four operations, and must make each exec operation behave exactly as
/// `step` says. Errors are the driver's own; this layer never interprets them.
pub trait I2cBus: Sized {
    /// The transport's error type, surfaced to callers unchanged.
    type Error;

    /// The transport's transition: from state `self`, performing `ops` in
    /// order against the peripheral at `address` leads to the returned state
    /// and, on success, one byte sequence per sub-operation (empty for a
    /// write), else the transport's error.
    ///
    /// The default leaves the transition unspecified, so a driver that keeps
    /// it can promise nothing about its operations; a driver that wants its
    /// behaviour stated overrides it.
    open spec fn step(self, address: u8, ops: Seq<BusOp>) -> (Self, Result<
        Seq<Seq<u8>>,
        Self::Error,
    >) {
        arbitrary()
    }

    /// Read `buffer.len()` bytes from the peripheral at `address` into
    /// `buffer`.
    fn read(&mut self, address: u8, buffer: &mut Vec<u8>) -> (r: Result<(), Self::Error>)
        ensures
            final(buffer)@.len() == old(buffer)@.len(),
            *final(self) == old(self).step(address, read_ops(old(buffer)@.len() as nat)).0,
            read_reported(
                old(self).step(address, read_ops(old(buffer)@.len() as nat)).1,
                final(buffer)@,
                r,
            ),
    ;

    /// Write `bytes` to the peripheral at `address`.
    fn write(&mut self, address: u8, bytes: &[u8]) -> (r: Result<(), Self::Error>)
        ensures
            *final(self) == old(self).step(address, write_ops(bytes@)).0,
            write_reported(old(self).step(address, write_ops(bytes@)).1, r),
    ;

    /// Write `bytes` to the peripheral at `address`, then read `buffer.len()`
    /// bytes back into `buffer`, as one uninterrupted transaction.
    fn write_read(&mut self, address: u8, bytes: &[u8], buffer: &mut Vec<u8>) -> (r: Result<
        (),
        Self::Error,
    >)
        ensures
            final(buffer)@.len() == old(buffer)@.len(),
            *final(self) == old(self).step(
                address,
                write_read_ops(bytes@, old(buffer)@.len() as nat),
            ).0,
            write_read_reported(
                old(self).step(address, write_read_ops(bytes@, old(buffer)@.len() as nat)).1,
                final(buffer)@,
                r,
            ),
    ;

    /// Execute `operations` in order against the peripheral at `address` as
    /// one uninterrupted transaction, filling each read buffer in place.
    fn transaction(&mut self, address: u8, operations: &mut Vec<Operation>) -> (r: Result<
        (),
        Self::Error,
    >)
        ensures
            *final(self) == old(self).step(address, ops_of(old(operations)@)).0,
            transaction_reported(
                old(self).step(address, ops_of(old(operations)@)).1,
                old(operations)@,
                final(operations)@,
                r,
            ),
    ;
}

/// How a `read` call reports a transition's result `res`: on success the
/// buffer afterwards, `data`, is exactly the transport's bytes, else the
/// transport's error is returned unchanged.
pub open spec fn read_reported<E>(
    res: Result<Seq<Seq<u8>>, E>,
    data: Seq<u8>,
    r: Result<(), E>,
) -> bool {
    match res {
        Ok(outs) => r is Ok && data == outs[0],
        Err(e) => r is Err && r->Err_0 == e,
    }
}

/// How a `write` call reports a transition's result `res`.
pub open spec fn write_reported<E>(res: Result<Seq<Seq<u8>>, E>, r: Result<(), E>) -> bool {
    match res {
        Ok(_) => r is Ok,
        Err(e) => r is Err && r->Err_0 == e,
    }
}

/// How a `write_read` call reports a transition's result `res`: on success
/// the read buffer afterwards, `data`, is the bytes of the read
/// sub-operation.
pub open spec fn write_read_reported<E>(
    res: Result<Seq<Seq<u8>>, E>,
    data: Seq<u8>,
    r: Result<(), E>,
) -> bool {
    match res {
        Ok(outs) => r is Ok && data == outs[1],
        Err(e) => r is Err && r->Err_0 == e,
    }
}

/// How a `transaction` call reports a transition's result `res`: on success
/// every read buffer is filled with the transport's bytes for its position,
/// on failure the transport's error comes back unchanged and the operation
/// list keeps its shape.
pub open spec fn transaction_reported<E>(
    res: Result<Seq<Seq<u8>>, E>,
    pre_ops: Seq<Operation>,
    post_ops: Seq<Operation>,
    r: Result<(), E>,
) -> bool {
    match res {
        Ok(outs) => r is Ok && reads_filled(pre_ops, post_ops, outs),
        Err(e) => r is Err && r->Err_0 == e && shapes_kept(pre_ops, post_ops),
    }
}

/// The sub-operation list of a single read of `n` bytes.
pub open spec fn read_ops(n: nat) -> Seq<BusOp> {
    seq![BusOp::Read(n)]
}

/// The sub-operation list of a single write of `bytes`.
pub open spec fn write_ops(bytes: Seq<u8>) -> Seq<BusOp> {
    seq![BusOp::Write(bytes)]
}

/// The sub-operation list of a write of `bytes` followed by a read of `n`
/// bytes.
pub open spec fn write_read_ops(bytes: Seq<u8>, n: nat) -> Seq<BusOp> {
    seq![BusOp::Write(bytes), BusOp::Read(n)]
}

/// The state a transport in state `pre` is left in by `ops` at `address`.
pub open spec fn step_state<T: I2cBus>(pre: T, address: u8, ops: Seq<BusOp>) -> T {
    pre.step(address, ops).0
}

/// What a transport in state `pre` reports for `ops` at `address`.
pub open spec fn step_result<T: I2cBus>(pre: T, address: u8, ops: Seq<BusOp>) -> Result<
    Seq<Seq<u8>>,
    T::Error,
> {
    pre.step(address, ops).1
}

/// The ghost views of an operation list, in order.
pub open spec fn ops_of(ops: Seq<Operation>) -> Seq<BusOp> {
    ops.map(|i: int, op: Operation| op@)
}

/// Relates one pre-call sub-operation to its post-call form on success:
/// a read buffer now holds `out` (same length as before), a write is
/// untouched.
pub open spec fn read_filled_at(pre_op: Operation, post_op: Operation, out: Seq<u8>) -> bool {
    match pre_op {
        Operation::Read(b) => match post_op {
            Operation::Read(b2) => b2@.len() == b@.len() && b2@ == out,
            Operation::Write(_) => false,
        },
        Operation::Write(_) => post_op == pre_op,
    }
}

/// On success, every read buffer of `pre_ops` holds the transport's bytes for
/// its position, and every write is untouched.
pub open spec fn reads_filled(pre_ops: Seq<Operation>, post_ops: Seq<Operation>, outs: Seq<Seq<u8>>) -> bool {
    &&& post_ops.len() == pre_ops.len()
    &&& forall|i: int|
        0 <= i < pre_ops.len() ==> #[trigger] read_filled_at(pre_ops[i], post_ops[i], outs[i])
}

/// Relates one pre-call sub-operation to its post-call form on failure: the
/// variant and every length are kept, but a read buffer's contents are
/// whatever the transport left there.
pub open spec fn shape_kept_at(pre_op: Operation, post_op: Operation) -> bool {
    match pre_op {
        Operation::Read(b) => match post_op {
            Operation::Read(b2) => b2@.len() == b@.len(),
            Operation::Write(_) => false,
        },
        Operation::Write(_) => post_op == pre_op,
    }
}

/// On failure, the operation list keeps its shape: same variants, same write
/// bytes, same read-buffer lengths.
pub open spec fn shapes_kept(pre_ops: Seq<Operation>, post_ops: Seq<Operation>) -> bool {
    &&& post_ops.len() == pre_ops.len()
    &&& forall|i: int| 0 <= i < pre_ops.len() ==> #[trigger] shape_kept_at(pre_ops[i], post_ops[i])
}

/// What one `read` call observes of a transport that went from state `pre` to
/// state `post`: the transition for a single read of `n` bytes was taken, and
/// on success `data` (the buffer afterwards) is exactly the transport's bytes,
/// else the transport's error is returned unchanged.
pub open spec fn read_outcome<T: I2cBus>(
    pre: T,
    post: T,
    address: u8,
    n: nat,
    data: Seq<u8>,
    r: Result<(), T::Error>,
) -> bool {
    &&& post == step_state(pre, address, read_ops(n))
    &&& read_reported(step_result(pre, address, read_ops(n)), data, r)
}

/// What one `write` call observes of a transport that went from state `pre`
/// to state `post`.
pub open spec fn write_outcome<T: I2cBus>(
    pre: T,
    post: T,
    address: u8,
    bytes: Seq<u8>,
    r: Result<(), T::Error>,
) -> bool {
    &&& post == step_state(pre, address, write_ops(bytes))
    &&& write_reported(step_result(pre, address, write_ops(bytes)), r)
}

/// What one `write_read` call observes of a transport that went from state
/// `pre` to state `post`: on success `data` (the read buffer afterwards) is
/// the transport's bytes for the read sub-operation.
pub open spec fn write_read_outcome<T: I2cBus>(
    pre: T,
    post: T,
    address: u8,
    bytes: Seq<u8>,
    n: nat,
    data: Seq<u8>,
    r: Result<(), T::Error>,
) -> bool {
    &&& post == step_state(pre, address, write_read_ops(bytes, n))
    &&& write_read_reported(step_result(pre, address, write_read_ops(bytes, n)), data, r)
}

/// What one `transaction` call observes of a transport that went from state
/// `pre` to state `post`: the transition for the whole list was taken as one
/// step, on success every read buffer is filled, on failure the transport's
/// error comes back unchanged and the list keeps its shape.
pub open spec fn transaction_outcome<T: I2cBus>(
    pre: T,
    post: T,
    address: u8,
    pre_ops: Seq<Operation>,
    post_ops: Seq<Operation>,
    r: Result<(), T::Error>,
) -> bool {
    &&& post == step_state(pre, address, ops_of(pre_ops))
    &&& transaction_reported(step_result(pre, address, ops_of(pre_ops)), pre_ops, post_ops, r)
}

} // verus!
