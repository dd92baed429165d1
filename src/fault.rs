use vstd::prelude::*;

verus! {

/// The kinds of failure that end an invocation.
#[derive(Debug, Clone, Copy, PartialEq, Eq, Structural)]
pub enum Fault {
    /// A required setting (the rendezvous path) is missing.
    Config,
    /// The rendezvous channel could not be created.
    Channel,
    /// Reading, writing or erasing failed.
    Io,
    /// The file-system event stream failed.
    Watch,
    /// The captured content is not well-formed JSON.
    Parse,
    /// The captured content is JSON but does not follow the export schema.
    Validation,
}

} // verus!
