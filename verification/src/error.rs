use vstd::prelude::*;

verus! {

/// What can go wrong in a run.
#[derive(Clone, Copy, Debug, PartialEq, Eq, Structural)]
pub enum TailError {
    /// The pods of the namespace could not be listed.
    Selection,
    /// The log stream of one pod could not be opened.
    Connect,
    /// A line of one pod was not valid UTF-8.
    Decode,
    /// The log stream of one pod broke while it was followed.
    Stream,
    /// A pattern given by the operator does not compile.
    Config,
    /// A write to the terminal failed.
    Render,
    /// The operator's answer to the pod menu is no index.
    Choice,
}

impl TailError {
    /// The errors that end the whole run: those of the selection and
    /// configuration phases. Every other error stays with the pod or the
    /// write that it belongs to.
    pub open spec fn fatal(self) -> bool {
        self is Selection || self is Choice || self is Config
    }

    pub fn is_fatal(&self) -> (b: bool)
        ensures
            b == self.fatal(),
    {
        match self {
            TailError::Selection => true,
            TailError::Choice => true,
            TailError::Config => true,
            _ => false,
        }
    }
}

} // verus!
