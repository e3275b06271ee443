//! Verified core of a small x86 hobby kernel: the bump-pointer heap
//! allocator, the run queues of the two schedulers and the sleeping
//! mutex, the interrupt controller programming, and the stack layout.
pub mod bump_pointer;
pub mod sync;
pub mod thread;
pub mod arch;
