use vstd::prelude::*;

verus! {

/// What went wrong, by the layer that failed.
#[derive(Clone, Copy, Debug, PartialEq, Eq, Structural)]
pub enum ErrorKind {
    /// The execution engine could not be built.
    RuntimeInit,
    /// A plugin file could not be read.
    Io,
    /// A plugin binary is malformed or targets another format version.
    Compile,
    /// A plugin's imports could not be resolved against the sandbox.
    Link,
    /// A plugin's own start-up code trapped.
    Instantiation,
    /// An instance does not export the expected interface.
    InterfaceMismatch,
    /// No registered instance sits at the requested position.
    NotFound,
    /// The call into a plugin trapped or failed.
    Invocation,
}

/// A failure together with a human-readable cause.
#[derive(Debug)]
pub struct PluginError {
    pub kind: ErrorKind,
    pub cause: String,
}

impl PluginError {
    pub fn new(kind: ErrorKind, cause: String) -> (r: PluginError)
        ensures
            r.kind == kind,
            r.cause@ == cause@,
    {
        PluginError { kind, cause }
    }

    pub fn kind(&self) -> (r: ErrorKind)
        ensures
            r == self.kind,
    {
        self.kind
    }

    pub fn cause(&self) -> (r: &str)
        ensures
            r@ == self.cause@,
    {
        self.cause.as_str()
    }
}

} // verus!
