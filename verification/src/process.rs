//!Processes: updatable objects that a manager runs and that can be asked to stop.
use vstd::prelude::*;
use crate::interfaces::Updatable;

verus! {

///A signal from a process manager to one of its processes.
#[derive(Clone, Copy, Debug, PartialEq, Eq, Structural)]
pub enum ManagerSignal {
    ///The process should finish what it is doing and stop.
    Quit,
}

///A signal from a process to its manager.
#[derive(Clone, Copy, Debug, PartialEq, Eq, Structural)]
pub enum ProcessSignal {
    ///The process is finished and should be removed.
    Die,
}

///Something that a process manager runs: it is updated when it is given time, receives the
///manager's signals and may ask the manager for something.
pub trait Process<E>: Updatable<E> {
    ///Handle a signal from the manager.
    fn handle_signal(&mut self, signal: ManagerSignal);

    ///What the process asks of the manager, if anything. By default it asks nothing.
    fn ask_manager(&self) -> (r: Option<ProcessSignal>)
        default_ensures
            r == None::<ProcessSignal>,
    {
        None
    }
}

} // verus!
