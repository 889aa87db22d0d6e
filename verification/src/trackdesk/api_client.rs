//! The Trackdesk postback: one call that reports a purchase as an approved
//! conversion.

use vstd::prelude::*;
use crate::text::{decimal, decimal_string};

verus! {

/// Seconds that a postback may take.
pub const POSTBACK_TIMEOUT_SECS: u64 = 15;

/// What became of a postback that was sent.
#[derive(Debug, Clone, PartialEq, Eq)]
pub enum PostbackOutcome {
    /// The transport gave up; holds its report.
    SendFailed(String),
    /// A response with this status arrived.
    Responded(u16),
}

/// The address of a postback: the request as a query, marked as an approved
/// conversion.
pub open spec fn postback_address(url: Seq<char>, query_string: Seq<char>) -> Seq<char> {
    url + "?"@ + query_string + "&status=CONVERSION_STATUS_APPROVED"@
}

/// The message for a postback that could not be sent.
pub open spec fn send_failure(address: Seq<char>, report: Seq<char>) -> Seq<char> {
    "Failed to send request: "@ + address + ". Err: "@ + report
}

/// The message for a postback that was answered with a status above 299.
pub open spec fn status_failure(address: Seq<char>, status: u16) -> Seq<char> {
    "Request with unsucessful status: "@ + address + ". Status code: "@ + decimal(
        status as nat,
    )
}

/// What the outcome of a postback to `address` comes to: success for every
/// status up to 299, else the message of the failure.
pub open spec fn postback_concluded(address: Seq<char>, outcome: PostbackOutcome) -> Result<
    (),
    Seq<char>,
> {
    match outcome {
        PostbackOutcome::SendFailed(report) => Err(send_failure(address, report@)),
        PostbackOutcome::Responded(status) => if status > 299 {
            Err(status_failure(address, status))
        } else {
            Ok(())
        },
    }
}

/// Client of the Trackdesk postback.
pub struct TrackdeskApiClient {
    url: String,
}

impl TrackdeskApiClient {
    /// The address that postbacks go to, without the query.
    pub closed spec fn url(&self) -> Seq<char> {
        self.url@
    }

    /// A client that posts to `url`.
    pub fn new(url: String) -> (client: Self)
        ensures
            client.url() == url@,
    {
        Self { url }
    }

    /// The address of the postback for a request that is written as
    /// `query_string`.
    pub fn postback_url(&self, query_string: &str) -> (address: String)
        ensures
            address@ == postback_address(self.url(), query_string@),
    {
        self.url.clone().concat("?").concat(query_string).concat(
            "&status=CONVERSION_STATUS_APPROVED",
        )
    }

    /// Concludes the postback for `query_string` from what the transport
    /// reports.
    pub fn postback(&self, query_string: &str, outcome: PostbackOutcome) -> (result: Result<
        (),
        String,
    >)
        ensures
            match result {
                Ok(()) => postback_concluded(
                    postback_address(self.url(), query_string@),
                    outcome,
                ) == Ok::<(), Seq<char>>(()),
                Err(message) => postback_concluded(
                    postback_address(self.url(), query_string@),
                    outcome,
                ) == Err::<(), Seq<char>>(message@),
            },
    {
        let address = self.postback_url(query_string);
        match outcome {
            PostbackOutcome::SendFailed(report) => Err(
                "Failed to send request: ".to_owned().concat(address.as_str()).concat(
                    ". Err: ",
                ).concat(report.as_str()),
            ),
            PostbackOutcome::Responded(status) => {
                if status > 299 {
                    Err(
                        "Request with unsucessful status: ".to_owned().concat(
                            address.as_str(),
                        ).concat(". Status code: ").concat(
                            decimal_string(status as u128).as_str(),
                        ),
                    )
                } else {
                    Ok(())
                }
            },
        }
    }
}

} // verus!
