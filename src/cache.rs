//! Where the cache command writes a resolved environment.
use vstd::prelude::*;

verus! {

/// The file or directory given for the cached environment.
#[derive(Debug, Default)]
pub struct OutputFileConfig {
    pub output_file: Option<String>,
    pub output_dir: Option<String>,
}

/// The file that receives the cached environment.
#[derive(Debug, PartialEq, Eq)]
pub enum OutputTarget {
    /// This very file, created or truncated.
    Direct(String),
    /// A new temporary file in this directory.
    TempIn(String),
    /// A new temporary file in the system's temporary directory.
    Temp,
}

impl OutputFileConfig {
    /// A given file wins over a given directory; without either, a temporary
    /// file is made.
    pub fn target(self) -> (r: OutputTarget)
        ensures
            self.output_file is Some ==> r == OutputTarget::Direct(self.output_file->Some_0),
            self.output_file is None && self.output_dir is Some ==> r == OutputTarget::TempIn(
                self.output_dir->Some_0,
            ),
            self.output_file is None && self.output_dir is None ==> r == OutputTarget::Temp,
    {
        match (self.output_file, self.output_dir) {
            (Some(f), _) => OutputTarget::Direct(f),
            (None, Some(d)) => OutputTarget::TempIn(d),
            (None, None) => OutputTarget::Temp,
        }
    }
}

} // verus!
