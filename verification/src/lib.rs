//! A single-threaded task runtime: the bookkeeping of a scheduler that polls
//! tasks in FIFO order and parks them on wakers, of an executor that maps
//! readiness tokens to wakers, and of join handles that carry a task's result.
//! The futures themselves, the operating-system poller and the timers are driven
//! by the program that embeds the runtime.

pub mod executor;
pub mod join;
pub mod runtime;
pub mod scheduler;
pub mod sleep;
pub mod task;
pub mod timer;

pub use executor::{Executor, ExecutorView};
pub use join::{JoinHandle, Poll};
pub use runtime::{block_on, spawn, BlockOn, BlockOnAction, BlockOnEvent, Runtime};
pub use scheduler::{Scheduler, SchedulerView, ScheduleStep};
pub use sleep::SleepState;
pub use task::{Task, TaskWrapper};
pub use timer::{disarmed, one_shot, periodic, timer_read_result, TimerSpec};
