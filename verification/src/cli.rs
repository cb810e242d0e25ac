use vstd::prelude::*;

verus! {

/// Clock in under a job name.
#[derive(Debug, Clone, PartialEq, Eq)]
pub struct InCmd {
    pub job: String,
}

/// Clock out of the current session with a note.
#[derive(Debug, Clone, PartialEq, Eq)]
pub struct OutCmd {
    pub message: String,
}

/// Listing and watching switches.
#[derive(Debug, Clone, PartialEq, Eq)]
pub struct IOCmd {
    pub list: bool,
    /// Watch refresh interval in seconds.
    pub n: u64,
    pub export_filter: Option<String>,
}

/// One invocation's command.
#[derive(Debug, Clone, PartialEq, Eq)]
pub enum Cmds {
    Version,
    In(InCmd),
    Out(OutCmd),
    /// Watch the active session, refreshing every `n` seconds.
    Watch { n: u64 },
    LS,
}

/// The parsed command line.
#[derive(Debug, Clone, PartialEq, Eq)]
pub struct Cli {
    pub command: Cmds,
}

impl Cmds {
    /// Whether running this command needs the active session resolved first.
    pub fn needs_active_session(&self) -> (r: bool)
        ensures
            r == (self is In || self is Out || self is Watch),
    {
        match self {
            Cmds::In(_) => true,
            Cmds::Out(_) => true,
            Cmds::Watch { .. } => true,
            Cmds::Version => false,
            Cmds::LS => false,
        }
    }
}

} // verus!
