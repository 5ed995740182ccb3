use vstd::prelude::*;

verus! {

/// What the program is asked to do.
#[derive(Clone, Copy, Debug, PartialEq, Eq, Structural)]
pub enum Commands {
    /// Train a model and store it in the artifact directory.
    Train,
    /// Score a sample of the test split with the stored model.
    Inference,
    /// Serve the stored model over HTTPS.
    Serve,
}

/// The command line: an optional command and the configuration file.
#[derive(Clone, Debug)]
pub struct Cli {
    pub command: Option<Commands>,
    pub config: String,
}

} // verus!
