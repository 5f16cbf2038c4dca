//! Growable heap allocators of a microkernel: the kernel's heap over a lazily
//! mapped virtual reservation, and the userspace heap grown through a resize
//! request to the kernel; plus the service-manager client and the clock driver.
pub mod align;
pub mod error;
pub mod kernel_heap;
pub mod user_heap;
pub mod rtc;
pub mod sm;
