//! The alert webhook: where alerts go, and how its reply is judged.

use vstd::prelude::*;
use crate::text::same_text;

verus! {

/// The webhook that alerts are posted to.
pub struct Slack {
    webhook: String,
}

/// Why the webhook did not take an alert.
pub enum DeliveryError {
    /// It answered with a client or server error status, and this body.
    Status { code: u16, body: String },
    /// It answered with a success status but a body other than `ok`.
    Rejected { body: String },
}

/// A client error (4xx) or server error (5xx) status.
pub open spec fn is_error_status(code: u16) -> bool {
    400 <= code < 600
}

impl Slack {
    pub closed spec fn spec_webhook(&self) -> Seq<char> {
        self.webhook@
    }

    pub fn new(webhook: String) -> (r: Slack)
        ensures
            r.spec_webhook() == webhook@,
    {
        Slack { webhook }
    }

    pub fn webhook(&self) -> (r: &str)
        ensures
            r@ == self.spec_webhook(),
    {
        self.webhook.as_str()
    }

    /// Judges the webhook's reply to a posted alert: accepted only with a
    /// status that is no error and the body `ok`.
    pub fn check_reply(status: u16, body: String) -> (r: Result<(), DeliveryError>)
        ensures
            is_error_status(status) ==> r == Err::<(), DeliveryError>(
                DeliveryError::Status { code: status, body },
            ),
            !is_error_status(status) && body@ != "ok"@ ==> r == Err::<(), DeliveryError>(
                DeliveryError::Rejected { body },
            ),
            !is_error_status(status) && body@ == "ok"@ ==> r is Ok,
    {
        if 400 <= status && status < 600 {
            Err(DeliveryError::Status { code: status, body })
        } else if !same_text(body.as_str(), "ok") {
            Err(DeliveryError::Rejected { body })
        } else {
            Ok(())
        }
    }
}

} // verus!
