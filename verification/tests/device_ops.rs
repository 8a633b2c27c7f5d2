use shared_bus::device::CriticalSectionDevice;
use shared_bus::shared::SharedBus;
use shared_bus::transport::{I2cBus, Operation};
use std::cell::{Cell, RefCell};
use std::rc::Rc;

/// A transport that fails with a fixed error for one address and succeeds for
/// every other, filling read buffers with a fixed byte.
struct FixedErrBus {
    err_addr: u8,
    err: u8,
}

impl I2cBus for FixedErrBus {
    type Error = u8;

    fn read(&mut self, address: u8, buffer: &mut Vec<u8>) -> Result<(), u8> {
        if address == self.err_addr {
            return Err(self.err);
        }
        for slot in buffer.iter_mut() {
            *slot = 0xAB;
        }
        Ok(())
    }

    fn write(&mut self, address: u8, _bytes: &[u8]) -> Result<(), u8> {
        if address == self.err_addr {
            return Err(self.err);
        }
        Ok(())
    }

    fn write_read(&mut self, address: u8, _bytes: &[u8], buffer: &mut Vec<u8>) -> Result<(), u8> {
        if address == self.err_addr {
            return Err(self.err);
        }
        for slot in buffer.iter_mut() {
            *slot = 0xAB;
        }
        Ok(())
    }

    fn transaction(&mut self, address: u8, operations: &mut Vec<Operation>) -> Result<(), u8> {
        if address == self.err_addr {
            return Err(self.err);
        }
        for op in operations.iter_mut() {
            if let Operation::Read(buffer) = op {
                for slot in buffer.iter_mut() {
                    *slot = 0xAB;
                }
            }
        }
        Ok(())
    }
}

/// A register-emulation transport: a write sets the register pointer to its
/// first byte and stores the remaining bytes from there; a read returns
/// registers from the pointer on. The pointer advances on every byte.
struct RegBus {
    regs: Vec<u8>,
    ptr: usize,
}

impl RegBus {
    fn new() -> Self {
        let mut regs = vec![0u8; 256];
        for (i, slot) in regs.iter_mut().enumerate() {
            *slot = (3 * i % 251) as u8;
        }
        RegBus { regs, ptr: 0 }
    }

    fn store(&mut self, bytes: &[u8]) {
        if let Some((first, rest)) = bytes.split_first() {
            self.ptr = *first as usize;
            for b in rest.iter() {
                self.regs[self.ptr] = *b;
                self.ptr = (self.ptr + 1) % 256;
            }
        }
    }

    fn load(&mut self, buffer: &mut [u8]) {
        for slot in buffer.iter_mut() {
            *slot = self.regs[self.ptr];
            self.ptr = (self.ptr + 1) % 256;
        }
    }
}

impl I2cBus for RegBus {
    type Error = u8;

    fn read(&mut self, _address: u8, buffer: &mut Vec<u8>) -> Result<(), u8> {
        self.load(buffer.as_mut_slice());
        Ok(())
    }

    fn write(&mut self, _address: u8, bytes: &[u8]) -> Result<(), u8> {
        self.store(bytes);
        Ok(())
    }

    fn write_read(&mut self, _address: u8, bytes: &[u8], buffer: &mut Vec<u8>) -> Result<(), u8> {
        self.store(bytes);
        self.load(buffer.as_mut_slice());
        Ok(())
    }

    fn transaction(&mut self, _address: u8, operations: &mut Vec<Operation>) -> Result<(), u8> {
        for op in operations.iter_mut() {
            match op {
                Operation::Read(buffer) => self.load(buffer.as_mut_slice()),
                Operation::Write(bytes) => {
                    let copy = bytes.clone();
                    self.store(copy.as_slice());
                }
            }
        }
        Ok(())
    }
}

/// A transport that counts its calls and records a begin and an end trace
/// entry around each one, through handles shared with the test.
struct TraceBus {
    counter: Rc<Cell<u64>>,
    trace: Rc<RefCell<Vec<String>>>,
}

impl TraceBus {
    fn record(&self, name: &str, address: u8) {
        self.counter.set(self.counter.get() + 1);
        self.trace.borrow_mut().push(format!("begin {} {}", name, address));
        self.trace.borrow_mut().push(format!("end {} {}", name, address));
    }
}

impl I2cBus for TraceBus {
    type Error = u8;

    fn read(&mut self, address: u8, _buffer: &mut Vec<u8>) -> Result<(), u8> {
        self.record("read", address);
        Ok(())
    }

    fn write(&mut self, address: u8, _bytes: &[u8]) -> Result<(), u8> {
        self.record("write", address);
        Ok(())
    }

    fn write_read(&mut self, address: u8, _bytes: &[u8], _buffer: &mut Vec<u8>) -> Result<(), u8> {
        self.record("write_read", address);
        Ok(())
    }

    fn transaction(&mut self, address: u8, _operations: &mut Vec<Operation>) -> Result<(), u8> {
        self.record("transaction", address);
        Ok(())
    }
}

#[test]
fn read_passes_through_fixed_error() {
    let bus = SharedBus::new(FixedErrBus { err_addr: 0x50, err: 0x2A });
    let mut dev = CriticalSectionDevice::new(&bus);
    let mut buffer = vec![0u8; 4];
    assert_eq!(dev.read(0x50, &mut buffer), Err(0x2A));
    assert_eq!(dev.read(0x10, &mut buffer), Ok(()));
    assert_eq!(buffer, vec![0xAB; 4]);
}

#[test]
fn write_passes_through_fixed_error() {
    let bus = SharedBus::new(FixedErrBus { err_addr: 0x50, err: 0x07 });
    let mut dev = CriticalSectionDevice::new(&bus);
    assert_eq!(dev.write(0x50, &[1, 2, 3]), Err(0x07));
    assert_eq!(dev.write(0x51, &[1, 2, 3]), Ok(()));
}

#[test]
fn write_read_passes_through_fixed_error() {
    let bus = SharedBus::new(FixedErrBus { err_addr: 0x33, err: 0x55 });
    let mut dev = CriticalSectionDevice::new(&bus);
    let mut buffer = vec![0u8; 2];
    assert_eq!(dev.write_read(0x33, &[9], &mut buffer), Err(0x55));
    assert_eq!(buffer, vec![0u8; 2]);
    assert_eq!(dev.write_read(0x34, &[9], &mut buffer), Ok(()));
    assert_eq!(buffer, vec![0xAB; 2]);
}

#[test]
fn transaction_passes_through_fixed_error() {
    let bus = SharedBus::new(FixedErrBus { err_addr: 0x01, err: 0x99 });
    let mut dev = CriticalSectionDevice::new(&bus);
    let mut ops = vec![Operation::Write(vec![4, 5]), Operation::Read(vec![0u8; 3])];
    assert_eq!(dev.transaction(0x01, &mut ops), Err(0x99));
    assert_eq!(dev.transaction(0x02, &mut ops), Ok(()));
    match &ops[1] {
        Operation::Read(buffer) => assert_eq!(buffer, &vec![0xAB; 3]),
        Operation::Write(_) => panic!("read operation changed variant"),
    }
}

#[test]
fn read_fills_buffer_from_transport() {
    let bus = SharedBus::new(RegBus::new());
    let mut dev = CriticalSectionDevice::new(&bus);
    let mut buffer = vec![0u8; 3];
    // The register file starts as regs[i] == 3 * i % 251 and the pointer at 0.
    assert_eq!(dev.read(0x42, &mut buffer), Ok(()));
    assert_eq!(buffer, vec![0, 3, 6]);
    // The pointer advanced, so an unchanged buffer here would be wrong.
    assert_eq!(dev.read(0x42, &mut buffer), Ok(()));
    assert_eq!(buffer, vec![9, 12, 15]);
}

#[test]
fn transaction_matches_direct_write_then_read() {
    // The shared path: one transaction, a write of [0x01] then a 2-byte read,
    // against address 0x42 through a handle.
    let bus = SharedBus::new(RegBus::new());
    let mut dev = CriticalSectionDevice::new(&bus);
    let mut ops = vec![Operation::Write(vec![0x01]), Operation::Read(vec![0u8; 2])];
    assert_eq!(dev.transaction(0x42, &mut ops), Ok(()));
    let shared_result = match &ops[1] {
        Operation::Read(buffer) => buffer.clone(),
        Operation::Write(_) => panic!("read operation changed variant"),
    };

    // The direct path: write then read against an unshared instance of the
    // same stub, started from the same state.
    let mut direct = RegBus::new();
    let mut buffer = vec![0u8; 2];
    assert_eq!(direct.write(0x42, &[0x01]), Ok(()));
    assert_eq!(direct.read(0x42, &mut buffer), Ok(()));

    assert_eq!(shared_result, buffer);
}

#[test]
fn two_handles_count_exactly_once_per_operation() {
    let counter = Rc::new(Cell::new(0u64));
    let trace = Rc::new(RefCell::new(Vec::new()));
    let bus = SharedBus::new(TraceBus { counter: Rc::clone(&counter), trace });
    let mut first = CriticalSectionDevice::new(&bus);
    let mut second = CriticalSectionDevice::new(&bus);

    // Two simulated contexts take turns issuing operations.
    let mut buffer = vec![0u8; 1];
    assert_eq!(first.read(0x10, &mut buffer), Ok(()));
    assert_eq!(second.write(0x20, &[1]), Ok(()));
    assert_eq!(first.write_read(0x30, &[2], &mut buffer), Ok(()));
    let mut ops = vec![Operation::Write(vec![3])];
    assert_eq!(second.transaction(0x40, &mut ops), Ok(()));
    assert_eq!(first.write(0x21, &[4]), Ok(()));

    assert_eq!(counter.get(), 5);
}

#[test]
fn interleaved_operations_leave_contiguous_trace_blocks() {
    let counter = Rc::new(Cell::new(0u64));
    let trace = Rc::new(RefCell::new(Vec::new()));
    let bus = SharedBus::new(TraceBus { counter, trace: Rc::clone(&trace) });
    let mut first = CriticalSectionDevice::new(&bus);
    let mut second = CriticalSectionDevice::new(&bus);

    let mut buffer = vec![0u8; 1];
    assert_eq!(first.read(0x10, &mut buffer), Ok(()));
    assert_eq!(second.write(0x20, &[1]), Ok(()));
    assert_eq!(first.write_read(0x30, &[2], &mut buffer), Ok(()));

    // Every operation's transport calls form one uninterrupted begin/end
    // block in the trace; nothing from another operation falls in between.
    let recorded = trace.borrow();
    assert_eq!(
        *recorded,
        vec![
            "begin read 16".to_string(),
            "end read 16".to_string(),
            "begin write 32".to_string(),
            "end write 32".to_string(),
            "begin write_read 48".to_string(),
            "end write_read 48".to_string(),
        ]
    );
}

#[test]
fn dropped_handle_leaves_container_usable() {
    let bus = SharedBus::new(RegBus::new());
    let first = CriticalSectionDevice::new(&bus);
    let mut second = CriticalSectionDevice::new(&bus);

    let mut before = vec![0u8; 2];
    assert_eq!(second.write_read(0x42, &[0x01], &mut before), Ok(()));

    drop(first);

    // The same operation on the surviving handle succeeds identically.
    let mut after = vec![0u8; 2];
    assert_eq!(second.write_read(0x42, &[0x01], &mut after), Ok(()));
    assert_eq!(after, before);
}
