use vstd::prelude::*;

verus! {

/// Everything that can go wrong in the library.
///
/// `DuplicateName`, `DuplicateType` and `NotFound` are structural errors of
/// the home/room hierarchy; `ConnectionError` is raised when a socket address
/// cannot be used to reach an endpoint; `CommunicationError` when a round
/// trip on an established connection fails.
#[derive(Debug, Clone, Copy, PartialEq, Eq, Structural)]
pub enum Error {
    DuplicateName,
    DuplicateType,
    NotFound,
    ConnectionError,
    CommunicationError,
}

impl Error {
    /// A short human-readable description of the error.
    pub fn describe(&self) -> (r: &'static str)
        ensures
            r@.len() > 0,
    {
        match self {
            Error::DuplicateName => {
                proof {
                    reveal_strlit("duplicate name");
                }
                "duplicate name"
            },
            Error::DuplicateType => {
                proof {
                    reveal_strlit("duplicate device type");
                }
                "duplicate device type"
            },
            Error::NotFound => {
                proof {
                    reveal_strlit("not found");
                }
                "not found"
            },
            Error::ConnectionError => {
                proof {
                    reveal_strlit("connection error");
                }
                "connection error"
            },
            Error::CommunicationError => {
                proof {
                    reveal_strlit("communication error");
                }
                "communication error"
            },
        }
    }
}

} // verus!
