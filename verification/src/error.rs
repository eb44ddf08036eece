//! Failure taxonomy of the adapter.
use vstd::prelude::*;

verus! {

/// A failure reported to the host.
#[derive(Debug, PartialEq, Eq)]
pub enum EraError {
    /// Reading from or writing to a host-supplied stream failed.
    Io(String),
    /// The source bytes did not parse as an archive; nothing was opened.
    InvalidFormat(String),
    /// A caller-supplied item index has no corresponding item.
    IndexOutOfBounds { index: usize, count: usize },
    /// Any other collaborator failure, with a diagnostic.
    Other(String),
}

/// Ghost form of an [`EraError`].
#[verifier::ext_equal]
pub ghost enum ErrModel {
    Io(Seq<char>),
    InvalidFormat(Seq<char>),
    IndexOutOfBounds { index: int, count: int },
    Other(Seq<char>),
}

impl View for EraError {
    type V = ErrModel;

    open spec fn view(&self) -> ErrModel {
        match self {
            EraError::Io(m) => ErrModel::Io(m@),
            EraError::InvalidFormat(m) => ErrModel::InvalidFormat(m@),
            EraError::IndexOutOfBounds { index, count } => ErrModel::IndexOutOfBounds {
                index: *index as int,
                count: *count as int,
            },
            EraError::Other(m) => ErrModel::Other(m@),
        }
    }
}

} // verus!
