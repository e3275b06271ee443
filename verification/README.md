# rustos

The logic of a small x86 hobby kernel, verified with Verus.

- `src/bump_pointer.rs`: the heap allocator that moves a pointer forward
  through a region, the `Allocator` interface, and the runtime entry points.
- `src/sync/scheduler.rs`: the run queue of the cooperative scheduler.
- `src/sync/stack.rs`: thread stacks and their initial stack pointer.
- `src/thread/scheduler.rs`: the round-robin thread queue whose front is the
  running thread, and the mutex whose waiters sleep.
- `src/arch/cpu.rs`: interrupt vectors, I/O ports, the 8259 controllers'
  initialisation writes and the routing of interrupts to handlers.

`app/` is the kernel around it: boot entry, port I/O, the serial console,
the global heap, interrupt glue and context switching. Threads are plain
handles in the verified queues; `app/` keeps their saved stack pointers.
