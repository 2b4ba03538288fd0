//! A runtime together with the code it runs.
use crate::engine::runtime_machine;
use crate::signal::Signal;
use evm::{Capture, Handler, Machine, Runtime};
use std::rc::Rc;
use vstd::prelude::*;

verus! {

/// Calls `Runtime::step`, which executes one instruction and tells whether
/// the machine can go on, has exited or has trapped. What is needed to
/// resolve a trap is dropped.
///
/// The answer depends on the caller's handler: nothing is assumed of it, and
/// the code that steps is proved for every answer.
#[verifier::external_body]
fn runtime_step<H: Handler>(runtime: &mut Runtime, handler: &mut H) -> (signal: Signal) {
    match runtime.step(handler) {
        Ok(()) => Signal::Continue,
        Err(Capture::Exit(reason)) => Signal::Exit(reason),
        Err(Capture::Trap(_)) => Signal::Trap,
    }
}

/// A borrowed runtime and the code that it executes.
pub struct ForgeRuntime<'b> {
    pub inner: &'b mut Runtime,
    pub code: Rc<Vec<u8>>,
    /// How many times the runtime was stepped through this handle.
    pub executed: Ghost<nat>,
}

impl<'b> ForgeRuntime<'b> {
    /// The borrowed runtime as it stands.
    pub open spec fn runtime(&self) -> Runtime {
        *self.inner
    }

    /// The machine inside the borrowed runtime.
    pub open spec fn machine_inside(&self) -> Machine {
        runtime_machine(self.runtime())
    }

    /// Takes hold of `runtime`, which executes `code`, for as long as the
    /// borrow lasts.
    pub fn new_with_runtime(runtime: &'b mut Runtime, code: Rc<Vec<u8>>) -> (forge: Self)
        ensures
            forge.code == code,
            forge.executed@ == 0,
            *forge.inner == *old(runtime),
            *final(forge.inner) == *final(runtime),
    {
        Self { inner: runtime, code, executed: Ghost(0) }
    }

    /// Step the runtime: have it execute one instruction.
    ///
    /// The signal is the runtime's answer. The step is counted.
    pub fn step<H: Handler>(&mut self, handler: &mut H) -> (signal: Signal)
        ensures
            final(self).code == old(self).code,
            final(self).executed@ == old(self).executed@ + 1,
    {
        let signal = runtime_step(self.inner, handler);
        proof {
            self.executed@ = self.executed@ + 1;
        }
        signal
    }

    /// Get a reference to the machine.
    pub fn machine(&self) -> (machine: &Machine)
        ensures
            *machine == self.machine_inside(),
    {
        self.inner.machine()
    }
}

} // verus!
