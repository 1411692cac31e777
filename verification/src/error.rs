//! The failures that the delivery client reports.
use vstd::prelude::*;
use crate::signer::KeyError;

verus! {

/// A required setting is absent.
#[derive(Debug, Clone, Copy, PartialEq, Eq, Structural)]
pub enum ConfigurationError {
    /// No domain name is configured for this instance.
    MissingDomainName,
}

/// Why a fetch or a delivery did not succeed.
#[derive(Debug)]
pub enum DeliveryError {
    /// A required setting is absent.
    Configuration(ConfigurationError),
    /// The signing key could not be read or used.
    Key(KeyError),
    /// The request did not reach the remote peer, or no answer came back;
    /// the text is the cause.
    Transport(String),
    /// The remote peer answered with a status outside the 2xx range.
    Rejected { status: u16, status_text: String },
}

/// The mathematical value of a [`DeliveryError`].
pub enum DeliveryErrorView {
    Configuration(ConfigurationError),
    Key(KeyError),
    Transport(Seq<char>),
    Rejected { status: u16, status_text: Seq<char> },
}

impl View for DeliveryError {
    type V = DeliveryErrorView;

    open spec fn view(&self) -> DeliveryErrorView {
        match self {
            DeliveryError::Configuration(e) => DeliveryErrorView::Configuration(*e),
            DeliveryError::Key(e) => DeliveryErrorView::Key(*e),
            DeliveryError::Transport(cause) => DeliveryErrorView::Transport(cause@),
            DeliveryError::Rejected { status, status_text } => DeliveryErrorView::Rejected {
                status: *status,
                status_text: status_text@,
            },
        }
    }
}

impl ConfigurationError {
    /// What the error says, in words.
    pub open spec fn message_of(self) -> Seq<char> {
        "DOMAIN_NAME is not set"@
    }

    /// A description of the error.
    pub fn message(&self) -> (text: String)
        ensures
            text@ == self.message_of(),
    {
        String::from_str("DOMAIN_NAME is not set")
    }
}

impl KeyError {
    /// What the error says, in words.
    pub open spec fn message_of(self) -> Seq<char> {
        match self {
            KeyError::MalformedPem => "private key is not valid PEM"@,
            KeyError::AlgorithmMismatch => "private key cannot sign with RSA-SHA256"@,
            KeyError::SignerFailure => "signing failed"@,
        }
    }

    /// A description of the error.
    pub fn message(&self) -> (text: String)
        ensures
            text@ == self.message_of(),
    {
        match self {
            KeyError::MalformedPem => String::from_str("private key is not valid PEM"),
            KeyError::AlgorithmMismatch => String::from_str(
                "private key cannot sign with RSA-SHA256",
            ),
            KeyError::SignerFailure => String::from_str("signing failed"),
        }
    }
}

impl DeliveryErrorView {
    /// What the error says: the cause of a transport failure, the status
    /// text of a rejection, else the description of the inner error.
    pub open spec fn message_of(self) -> Seq<char> {
        match self {
            DeliveryErrorView::Configuration(e) => e.message_of(),
            DeliveryErrorView::Key(e) => e.message_of(),
            DeliveryErrorView::Transport(cause) => cause,
            DeliveryErrorView::Rejected { status, status_text } => status_text,
        }
    }
}

impl DeliveryError {
    /// A description of the error.
    pub fn message(&self) -> (text: String)
        ensures
            text@ == self@.message_of(),
    {
        match self {
            DeliveryError::Configuration(e) => e.message(),
            DeliveryError::Key(e) => e.message(),
            DeliveryError::Transport(cause) => cause.clone(),
            DeliveryError::Rejected { status, status_text } => status_text.clone(),
        }
    }
}

} // verus!
