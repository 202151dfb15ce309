use vstd::prelude::*;

verus! {

/// How the logger prints errors.
#[derive(Copy, Clone, Debug, PartialEq, Eq, Structural)]
pub enum ErrorFormat {
    Short,
    Long,
}

/// How much the run says of what it does.
#[derive(Copy, Clone, Debug, PartialEq, Eq, Structural)]
pub enum Verbosity {
    Verbose,
    VeryVerbose,
}

/// The options of the logger for the run of one input file.
#[derive(Clone, Debug, PartialEq, Eq)]
pub struct LoggerOptions {
    pub color: bool,
    pub error_format: ErrorFormat,
    pub filename: String,
    pub progress_bar: bool,
    pub test: bool,
    pub verbosity: Option<Verbosity>,
}

impl Verbosity {
    /// What two flags ask for: the stronger of the two wins.
    pub open spec fn of(verbose: bool, very_verbose: bool) -> Option<Verbosity> {
        if very_verbose {
            Some(Verbosity::VeryVerbose)
        } else if verbose {
            Some(Verbosity::Verbose)
        } else {
            None
        }
    }

    /// What two flags ask for.
    pub fn from(verbose: bool, very_verbose: bool) -> (verbosity: Option<Verbosity>)
        ensures
            verbosity == Verbosity::of(verbose, very_verbose),
    {
        match (verbose, very_verbose) {
            (_, true) => Some(Verbosity::VeryVerbose),
            (true, false) => Some(Verbosity::Verbose),
            _ => None,
        }
    }
}

} // verus!
