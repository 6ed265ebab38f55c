//! The one-time-code exchange.

use vstd::prelude::*;

verus! {

/// The body of a verification request.
#[derive(Debug)]
pub struct VerifyOtpRequest {
    pub otp: String,
}

/// What the service returns for an accepted code.
#[derive(Debug)]
pub struct VerifyOtpResponse {
    pub session_id: String,
    pub aggregator_url: String,
    pub token: String,
}

/// The mathematical value of a [`VerifyOtpResponse`].
pub ghost struct VerifyOtpResponseView {
    pub session_id: Seq<char>,
    pub aggregator_url: Seq<char>,
    pub token: Seq<char>,
}

impl DeepView for VerifyOtpResponse {
    type V = VerifyOtpResponseView;

    open spec fn deep_view(&self) -> VerifyOtpResponseView {
        VerifyOtpResponseView {
            session_id: self.session_id@,
            aggregator_url: self.aggregator_url@,
            token: self.token@,
        }
    }
}

} // verus!
