//! What goes out and what comes back: the request of one delivery attempt
//! and the classification of the transport's answer.
use vstd::prelude::*;
use crate::composer::Method;
use crate::error::{DeliveryError, DeliveryErrorView};
use crate::headers::{header_views, Header, HeaderView};
use crate::target::{Target, TargetView};
use crate::text::{decimal, decimal_text};

verus! {

/// One outbound request, ready to be handed to the transport.
#[derive(Debug)]
pub struct OutboundEnvelope {
    pub method: Method,
    pub target: Target,
    pub headers: Vec<Header>,
    pub body: String,
}

/// The mathematical value of an [`OutboundEnvelope`].
pub struct EnvelopeView {
    pub method: Method,
    pub target: TargetView,
    pub headers: Seq<HeaderView>,
    pub body: Seq<char>,
}

impl View for OutboundEnvelope {
    type V = EnvelopeView;

    open spec fn view(&self) -> EnvelopeView {
        EnvelopeView {
            method: self.method,
            target: self.target@,
            headers: header_views(self.headers@),
            body: self.body@,
        }
    }
}

/// What the transport reports after it was handed a request.
#[derive(Debug)]
pub enum TransportReply {
    /// The remote peer answered: the status code, the reason phrase that
    /// belongs to the code where one is known, and the body.
    Response { status: u16, reason: Option<String>, body: String },
    /// No answer: resolving, connecting, the TLS handshake or reading
    /// failed, or a timeout struck; the text is the cause.
    Failed { cause: String },
}

/// The mathematical value of a [`TransportReply`].
pub enum ReplyView {
    Response { status: u16, reason: Option<Seq<char>>, body: Seq<char> },
    Failed { cause: Seq<char> },
}

impl View for TransportReply {
    type V = ReplyView;

    open spec fn view(&self) -> ReplyView {
        match self {
            TransportReply::Response { status, reason, body } => ReplyView::Response {
                status: *status,
                reason: match reason {
                    Some(r) => Some(r@),
                    None => None,
                },
                body: body@,
            },
            TransportReply::Failed { cause } => ReplyView::Failed { cause: cause@ },
        }
    }
}

/// Whether a status code reports success: 200 to 299.
pub open spec fn status_is_success(status: u16) -> bool {
    200 <= status < 300
}

/// The text of a status: the code, a space, and the reason phrase, or a
/// note that the code is unknown.
pub open spec fn status_text_of(status: u16, reason: Option<Seq<char>>) -> Seq<char> {
    decimal(status as nat) + seq![' '] + match reason {
        Some(r) => r,
        None => "<unknown status code>"@,
    }
}

/// The outcome of a fetch for each reply: the body on success, nothing on
/// any other status, a transport error when no answer came.
pub open spec fn fetch_outcome_of(reply: ReplyView) -> Result<Option<Seq<char>>, DeliveryErrorView> {
    match reply {
        ReplyView::Failed { cause } => Err(DeliveryErrorView::Transport(cause)),
        ReplyView::Response { status, reason, body } => if status_is_success(status) {
            Ok(Some(body))
        } else {
            Ok(None)
        },
    }
}

/// The outcome of a delivery for each reply: success on a 2xx status, a
/// rejection with the status text on any other, a transport error when no
/// answer came.
pub open spec fn delivery_outcome_of(reply: ReplyView) -> Result<(), DeliveryErrorView> {
    match reply {
        ReplyView::Failed { cause } => Err(DeliveryErrorView::Transport(cause)),
        ReplyView::Response { status, reason, body } => if status_is_success(status) {
            Ok(())
        } else {
            Err(
                DeliveryErrorView::Rejected {
                    status,
                    status_text: status_text_of(status, reason),
                },
            )
        },
    }
}

/// Whether a status code reports success.
pub fn is_success(status: u16) -> (success: bool)
    ensures
        success == status_is_success(status),
{
    200 <= status && status < 300
}

/// Writes the text of a status.
pub fn status_text(status: u16, reason: Option<&str>) -> (text: String)
    ensures
        text@ == status_text_of(
            status,
            match reason {
                Some(r) => Some(r@),
                None => None,
            },
        ),
{
    proof {
        reveal_strlit(" ");
    }
    let mut text: String = decimal_text(status);
    text.append(" ");
    match reason {
        Some(r) => {
            text.append(r);
        },
        None => {
            text.append("<unknown status code>");
        },
    }
    text
}

/// Classifies the reply to a fetch.
pub fn fetch_outcome(reply: TransportReply) -> (outcome: Result<Option<String>, DeliveryError>)
    ensures
        match outcome {
            Ok(Some(body)) => fetch_outcome_of(reply@) == Ok::<
                Option<Seq<char>>,
                DeliveryErrorView,
            >(Some(body@)),
            Ok(None) => fetch_outcome_of(reply@) == Ok::<Option<Seq<char>>, DeliveryErrorView>(
                None,
            ),
            Err(e) => fetch_outcome_of(reply@) == Err::<Option<Seq<char>>, DeliveryErrorView>(e@),
        },
{
    match reply {
        TransportReply::Failed { cause } => Err(DeliveryError::Transport(cause)),
        TransportReply::Response { status, reason, body } => {
            if is_success(status) {
                Ok(Some(body))
            } else {
                Ok(None)
            }
        },
    }
}

/// Classifies the reply to a delivery.
pub fn delivery_outcome(reply: TransportReply) -> (outcome: Result<(), DeliveryError>)
    ensures
        match outcome {
            Ok(_) => delivery_outcome_of(reply@) == Ok::<(), DeliveryErrorView>(()),
            Err(e) => delivery_outcome_of(reply@) == Err::<(), DeliveryErrorView>(e@),
        },
{
    match reply {
        TransportReply::Failed { cause } => Err(DeliveryError::Transport(cause)),
        TransportReply::Response { status, reason, body } => {
            if is_success(status) {
                Ok(())
            } else {
                let status_text: String = match &reason {
                    Some(r) => status_text(status, Some(r.as_str())),
                    None => status_text(status, None),
                };
                Err(DeliveryError::Rejected { status, status_text })
            }
        },
    }
}

} // verus!
