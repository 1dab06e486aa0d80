use vstd::prelude::*;

verus! {

/// Error kinds returned by the process-management core.
///
/// Recoverable conditions are reported to the immediate caller through these
/// values; irrecoverable conditions (for example releasing a process control
/// block that is still referenced elsewhere) are also reported as values here
/// so that the caller can halt, since verified code never panics.
#[derive(Debug, Clone, Copy, PartialEq, Eq, Structural)]
pub enum SystemError {
    /// Invalid state: the target process has already exited.
    EINVAL,
    /// Interrupted call: the calling process has already exited.
    EINTR,
    /// No child / no adoption target: the init process is not registered.
    /// Init's registration is a boot invariant, so the operations that
    /// adopt children demand it as a precondition rather than report this
    /// kind; it names the condition they exclude.
    ECHILD,
    /// Permission or placement: the resource is already claimed or still referenced.
    EPERM,
    /// Alignment or address: a malformed kernel-stack base was supplied.
    EFAULT,
}

} // verus!
