//! The periodic work of a worker process.
use vstd::prelude::*;

verus! {

/// How often the timer of a worker runs, in milliseconds.
pub const TICK_MS: usize = 1000;

/// The descriptor of a connection without a socket.
pub const NO_SOCKET: i32 = -1;

/// The timer that a worker starts with. It hangs on a connection that stands for no
/// socket.
#[derive(Clone, Copy, Debug, PartialEq, Eq, Structural)]
pub struct Timer {
    /// The descriptor of the connection.
    pub fd: i32,
    /// Whether the worker may exit while the timer is set.
    pub cancelable: bool,
    /// When the timer runs first, in milliseconds.
    pub delay: usize,
}

/// The timer that a process of the kind `process` starts with, where `worker` is the
/// kind of the worker processes: other processes have none.
pub fn init_process(process: usize, worker: usize) -> (timer: Option<Timer>)
    ensures
        timer == if process == worker {
            Some(Timer { fd: NO_SOCKET, cancelable: true, delay: TICK_MS })
        } else {
            None
        },
        timer is Some <==> process == worker,
        timer matches Some(timer) ==> timer.fd == -1 && timer.cancelable && timer.delay == 1000,
{
    if process != worker {
        return None;
    }
    Some(Timer { fd: NO_SOCKET, cancelable: true, delay: TICK_MS })
}

/// When a timer that has just run is to run again: not in a worker that is exiting
/// or has been told to quit. Each flag is raised by the value 1.
pub fn next_tick(exiting: usize, quit: i32) -> (delay: Option<usize>)
    ensures
        delay == if exiting == 1 || quit == 1 {
            None
        } else {
            Some(TICK_MS)
        },
        delay is None <==> exiting == 1 || quit == 1,
        delay matches Some(delay) ==> delay == 1000,
{
    if !(exiting == 1) && !(quit == 1) {
        Some(TICK_MS)
    } else {
        None
    }
}

} // verus!
