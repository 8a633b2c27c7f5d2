//! Mutually-exclusive sharing of a single I2C bus among several lightweight
//! handles, guarded by a global critical section.
//!
//! A [`shared::SharedBus`] owns the concrete bus transport; any number of
//! [`device::CriticalSectionDevice`] handles borrow it and present the
//! transport's own operation surface. Each operation runs inside one critical
//! section that spans the whole transport call, so operations from different
//! handles — including ones issued from interrupt context — never interleave
//! on the bus, and every result is passed through unchanged.

pub mod device;
pub mod shared;
pub mod transport;
