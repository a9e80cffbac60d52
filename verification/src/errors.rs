use vstd::prelude::*;

verus! {

/// Why a transition was refused. A refused transition changes nothing.
#[derive(Clone, Copy, Debug, PartialEq, Eq, Structural)]
pub enum OptionError {
    /// The instance already has a seller.
    AlreadyInitialized,
    /// The option has been bought and is not yet settled.
    AlreadyPurchased,
    /// The option has not been bought, or is already settled.
    NotPurchased,
    /// The caller is not the buyer of the option.
    WrongCaller,
    /// The time boundary has been reached.
    Expired,
    /// The time boundary has not yet been passed.
    NotYetExpired,
    /// The caller did not authenticate, or is not the principal required.
    Authorization,
    /// The token ledger rejected a movement.
    External,
    /// A value that the transition must read was never stored.
    MissingState,
}

/// The four classes into which errors fall.
#[derive(Clone, Copy, Debug, PartialEq, Eq, Structural)]
pub enum ErrorKind {
    /// The state machine does not allow the transition now.
    Precondition,
    /// The caller is not who the transition requires.
    Authorization,
    /// A collaborator outside the engine failed.
    External,
    /// The stored state is damaged; the failure is fatal.
    Invariant,
}

impl OptionError {
    /// The class of the error.
    pub open spec fn kind_spec(self) -> ErrorKind {
        match self {
            OptionError::Authorization => ErrorKind::Authorization,
            OptionError::External => ErrorKind::External,
            OptionError::MissingState => ErrorKind::Invariant,
            _ => ErrorKind::Precondition,
        }
    }

    /// The class of the error.
    pub fn kind(&self) -> (k: ErrorKind)
        ensures
            k == self.kind_spec(),
    {
        match self {
            OptionError::Authorization => ErrorKind::Authorization,
            OptionError::External => ErrorKind::External,
            OptionError::MissingState => ErrorKind::Invariant,
            OptionError::AlreadyInitialized => ErrorKind::Precondition,
            OptionError::AlreadyPurchased => ErrorKind::Precondition,
            OptionError::NotPurchased => ErrorKind::Precondition,
            OptionError::WrongCaller => ErrorKind::Precondition,
            OptionError::Expired => ErrorKind::Precondition,
            OptionError::NotYetExpired => ErrorKind::Precondition,
        }
    }
}

} // verus!
