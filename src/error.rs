use vstd::prelude::*;

verus! {

/// Which of the two access lists a configuration problem comes from.
#[derive(Clone, Copy, Debug, PartialEq, Eq, Structural)]
pub enum PolicyList {
    Allow,
    Deny,
}

/// The broad class of a failure, as reported to the script caller.
#[derive(Clone, Copy, Debug, PartialEq, Eq, Structural)]
pub enum ErrorKind {
    /// A malformed allow or deny list.
    Configuration,
    /// An invalid method, a missing url or an unparseable url.
    Argument,
    /// The url is denied, or not on the allow list.
    AccessControl,
    /// A headers or body value that could not be converted.
    Conversion,
    /// The exchange itself failed.
    Transport,
}

/// A failure of a fetch call.
#[derive(Clone, Debug)]
pub enum FetchError {
    /// An access list holds an entry that is not a valid URI.
    Config { list: PolicyList, reason: String },
    /// The method text is not one of the supported methods; `shown` is the
    /// text itself, or `{empty}` for empty text.
    InvalidMethod { shown: String },
    /// Neither argument supplied a url.
    MissingUrl,
    /// The url text is not a valid absolute URI.
    InvalidUrl { reason: String },
    /// The url matches an entry of the deny list.
    Denied { url: String },
    /// An allow list is set and the url matches none of its entries.
    NotAllowed { url: String },
    /// A headers or body value could not be converted.
    Conversion { reason: String },
    /// A header name or value is not valid in a request; `name` is the
    /// header's name.
    InvalidHeader { name: String },
    /// The exchange failed.
    Transport { reason: String },
}

impl FetchError {
    pub open spec fn spec_kind(&self) -> ErrorKind {
        match self {
            FetchError::Config { .. } => ErrorKind::Configuration,
            FetchError::InvalidMethod { .. } => ErrorKind::Argument,
            FetchError::MissingUrl => ErrorKind::Argument,
            FetchError::InvalidUrl { .. } => ErrorKind::Argument,
            FetchError::Denied { .. } => ErrorKind::AccessControl,
            FetchError::NotAllowed { .. } => ErrorKind::AccessControl,
            FetchError::Conversion { .. } => ErrorKind::Conversion,
            FetchError::InvalidHeader { .. } => ErrorKind::Conversion,
            FetchError::Transport { .. } => ErrorKind::Transport,
        }
    }

    /// The class of this failure.
    pub fn kind(&self) -> (r: ErrorKind)
        ensures
            r == self.spec_kind(),
    {
        match self {
            FetchError::Config { .. } => ErrorKind::Configuration,
            FetchError::InvalidMethod { .. } => ErrorKind::Argument,
            FetchError::MissingUrl => ErrorKind::Argument,
            FetchError::InvalidUrl { .. } => ErrorKind::Argument,
            FetchError::Denied { .. } => ErrorKind::AccessControl,
            FetchError::NotAllowed { .. } => ErrorKind::AccessControl,
            FetchError::Conversion { .. } => ErrorKind::Conversion,
            FetchError::InvalidHeader { .. } => ErrorKind::Conversion,
            FetchError::Transport { .. } => ErrorKind::Transport,
        }
    }
}

} // verus!
