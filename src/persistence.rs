use vstd::prelude::*;

verus! {

/// The format tag of a saved file.
#[derive(Clone, Copy, Debug, PartialEq, Eq, Structural)]
pub enum FileVersion {
    V1,
}

pub const CURRENT_VERSION: FileVersion = FileVersion::V1;

/// A saved drawing: its format tag and the serialized shapes and mode.
#[derive(Debug)]
pub struct TrawFile {
    pub version: FileVersion,
    pub data: String,
}

impl TrawFile {
    /// Wraps serialized data with the current format tag.
    pub fn new(data: String) -> (r: TrawFile)
        ensures
            r.version == CURRENT_VERSION,
            r.data@ == data@,
    {
        TrawFile { version: CURRENT_VERSION, data }
    }
}

} // verus!
