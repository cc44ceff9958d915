//! What the command line of each tool hands over: where to read and where to write.

use std::path::PathBuf;
use vstd::prelude::*;

verus! {

/// A path of the file system. Its contents are not looked at here.
#[verifier::external_type_specification]
#[verifier::external_body]
pub struct ExPathBuf(PathBuf);

/// The arguments of a sampler.
#[derive(Debug)]
pub struct Args {
    /// Folder that holds one directory for each language.
    pub src: PathBuf,
    /// File or folder that the sample is written to.
    pub dst: PathBuf,
}

/// The arguments of the converter.
#[derive(Debug)]
pub struct Cli {
    pub command: Option<Commands>,
}

/// What the converter is asked to do.
#[derive(Debug)]
pub enum Commands {
    /// Convert line-delimited records to flat columnar files.
    ConvertToParquet {
        /// Folder that holds the records.
        src: PathBuf,
        /// Folder that the files are written to.
        dst: PathBuf,
    },
}

} // verus!
