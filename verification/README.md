# rsart

A small single-threaded async runtime. The library (`src/`) holds its
bookkeeping, verified with Verus:

- `scheduler`: the FIFO run queue, the tasks parked on wakers, waking by waker and by task id;
- `executor`: the wakers that wait for readiness tokens;
- `join`: the slot that carries a task's result to its join handle;
- `sleep`: the state shared by a sleeping future and its timer's waker;
- `runtime`: task ids and spawning, and the decisions of `block_on`;
- `timer`: the settings handed to a timer descriptor and the decoding of its reads.

`app/` is the program around it: the thread's runtime context, std's future
and waker plumbing, the mio poller and the Linux timer descriptors.
