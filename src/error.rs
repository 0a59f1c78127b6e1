use vstd::prelude::*;

verus! {

/// Why the decoding of one file stopped.
#[derive(Clone, Copy, Debug, PartialEq, Eq, Structural)]
pub enum ConvertError {
    /// Fewer bytes remain than the next field needs.
    Truncated,
    /// A node id differs from its position in the node loop.
    NodeId { expected: u32, found: u32 },
    /// A sub-step index differs from its position in the sub-step loop.
    SubStep { expected: u32, found: u32 },
    /// A step index differs from its position in the step loop.
    Step { expected: u32, found: u32 },
    /// The step written in a file differs from the step the file is named for.
    FileStep { expected: u32, found: u32 },
}

impl ConvertError {
    /// A human-readable message for the kind of failure.
    pub fn message(&self) -> (r: String)
        ensures
            r@ == match *self {
                ConvertError::Truncated => "The input ends before the record does"@,
                ConvertError::NodeId { .. } => "The node ID does not match"@,
                ConvertError::SubStep { .. } => "The sub step index does not match"@,
                ConvertError::Step { .. } => "The step index does not match"@,
                ConvertError::FileStep { .. } => "The file step index does not match"@,
            },
    {
        match self {
            ConvertError::Truncated => "The input ends before the record does".to_owned(),
            ConvertError::NodeId { .. } => "The node ID does not match".to_owned(),
            ConvertError::SubStep { .. } => "The sub step index does not match".to_owned(),
            ConvertError::Step { .. } => "The step index does not match".to_owned(),
            ConvertError::FileStep { .. } => "The file step index does not match".to_owned(),
        }
    }
}

} // verus!

verus! {

/// The records decoded from one file, in the order they were read, and how
/// the decoding ended: the records read before a failure are kept.
pub struct Decoded<R> {
    pub records: Vec<R>,
    pub status: Result<(), ConvertError>,
}

} // verus!
