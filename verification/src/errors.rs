use vstd::prelude::*;

verus! {

/// The causes of failure that the workflow tells apart.
#[derive(Debug, Clone, Copy, PartialEq, Eq, Structural)]
pub enum Kind {
    /// The provider name is neither `github` nor `bitbucket`.
    UnknownProjectType,
    /// A required attribute of the provider is empty.
    OptionConstraint,
    /// The server has no GitHub integration configured.
    NoGithubSCPConfig,
    /// The server has no Bitbucket integration configured.
    NoBitbucketSCPConfig,
    /// No enclosing `.git/config` was found.
    NoGitConfig,
    /// The home directory of the user is unknown.
    NoHomedir,
    /// A remote named `delivery` exists and points elsewhere.
    GitSetupFailed,
    /// A git invocation failed.
    GitFailed,
    /// A request to the server failed.
    ApiError,
    /// A filesystem operation failed.
    IoError,
    /// An external program could not be run or reported failure.
    FailedToExecute,
    /// A collaborator answered what was not asked.
    UnexpectedResponse,
}

/// A failure: its cause and, where there is one, a message for the user.
#[derive(Debug, Clone)]
pub struct DeliveryError {
    pub kind: Kind,
    pub detail: Option<String>,
}

/// What a `DeliveryError` says, with the message as a sequence of characters.
pub struct ErrorView {
    pub kind: Kind,
    pub detail: Option<Seq<char>>,
}

impl View for DeliveryError {
    type V = ErrorView;

    open spec fn view(&self) -> ErrorView {
        ErrorView {
            kind: self.kind,
            detail: match self.detail {
                Some(d) => Some(d@),
                None => None,
            },
        }
    }
}

impl DeliveryError {
    /// A failure of the given kind without a message.
    pub fn bare(kind: Kind) -> (e: DeliveryError)
        ensures
            e@ == (ErrorView { kind: kind, detail: None }),
    {
        DeliveryError { kind: kind, detail: None }
    }

    /// A failure of the given kind with a message.
    pub fn with_detail(kind: Kind, detail: String) -> (e: DeliveryError)
        ensures
            e@ == (ErrorView { kind: kind, detail: Some(detail@) }),
    {
        DeliveryError { kind: kind, detail: Some(detail) }
    }
}

} // verus!
