//! The preemptive scheduler, whose queue holds the running thread at its
//! front, and the mutex whose waiters sleep in a queue of their own.
pub mod scheduler;
