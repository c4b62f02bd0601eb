//! The shell trust gate: whether a shell command of the configuration may run.
use vstd::prelude::*;
use crate::args::{Backend, ShellTrust};

verus! {

/// What the trust gate decides about one shell command.
#[derive(Debug, Clone, Copy, PartialEq, Eq, Structural)]
pub enum Decision {
    Run,
    Skip,
    Abort,
}

/// Whether the trust gate has to ask the user before it can decide.
pub open spec fn asks(trust: ShellTrust, backend: Backend) -> bool {
    trust == ShellTrust::Prompt && backend != Backend::Headless
}

/// The decision of the trust gate. `confirmed` is the user's answer; it counts only
/// where the trust gate asks.
pub open spec fn decision(trust: ShellTrust, backend: Backend, confirmed: bool) -> Decision {
    match trust {
        ShellTrust::NoTrust => Decision::Skip,
        ShellTrust::Ultimate => Decision::Run,
        ShellTrust::Prompt => if backend == Backend::Headless {
            Decision::Abort
        } else if confirmed {
            Decision::Run
        } else {
            Decision::Skip
        },
    }
}

impl ShellTrust {
    /// Whether a confirmation has to be asked for before `authorize`.
    pub fn needs_confirmation(&self, backend: Backend) -> (r: bool)
        ensures
            r == asks(*self, backend),
    {
        match (self, backend) {
            (ShellTrust::Prompt, Backend::Headless) => false,
            (ShellTrust::Prompt, _) => true,
            _ => false,
        }
    }

    /// Decides whether a shell command may run.
    pub fn authorize(&self, backend: Backend, confirmed: bool) -> (r: Decision)
        ensures
            r == decision(*self, backend, confirmed),
    {
        match self {
            ShellTrust::NoTrust => Decision::Skip,
            ShellTrust::Ultimate => Decision::Run,
            ShellTrust::Prompt => match backend {
                Backend::Headless => Decision::Abort,
                _ => if confirmed {
                    Decision::Run
                } else {
                    Decision::Skip
                },
            },
        }
    }
}

} // verus!
