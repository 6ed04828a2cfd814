use vstd::prelude::*;

pub mod mem_accessor;
pub mod mem_buffer;
pub mod mmap_accessor;
pub mod mmio_accessor;
pub mod mpu9250;
pub mod phys_accessor;
pub mod sys;
pub mod text;
pub mod udmabuf_accessor;
pub mod uio_accessor;

verus! {

/// Errors surfaced by the fallible parts of the library: backend construction,
/// sysfs attribute access, and interrupt control.
#[derive(Clone, Copy, Debug, PartialEq, Eq, Structural)]
pub enum AccessError {
    /// An operating-system call failed; the payload is the errno value.
    Os(i32),
    /// A sysfs attribute held text that is not a number of the expected form.
    Parse,
    /// No device with the requested name exists.
    DeviceNotFound,
}

} // verus!
