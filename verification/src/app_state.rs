//! The values the front end and the database service exchange: the summary
//! query, the batches of payments sent over the websocket, and the payment as
//! received from a client.
use vstd::prelude::*;
use vstd::string::StringExecFns;
use crate::database::PaymentPost;
use crate::dates::{ClockReading, local_now};

verus! {

/// The window of a summary request: RFC 3339 bounds, either of which may be absent.
pub struct SummaryQuery {
    pub from: Option<String>,
    pub to: Option<String>,
}

impl Default for SummaryQuery {
    /// No bound: the whole history.
    fn default() -> (q: Self)
        ensures
            q.from is None,
            q.to is None,
    {
        SummaryQuery { from: None, to: None }
    }
}

/// A message of the websocket between a front end and the database service: a
/// batch of raw payment bodies, or nothing usable.
pub enum WebsocketMessage {
    Payment(Vec<Vec<u8>>),
    Nothing,
}

impl WebsocketMessage {
    /// The payment bodies the message carries, in order; none when it carries nothing.
    pub fn payloads(self) -> (bodies: Vec<Vec<u8>>)
        ensures
            bodies@ == match self {
                WebsocketMessage::Payment(v) => v@,
                WebsocketMessage::Nothing => Seq::<Vec<u8>>::empty(),
            },
    {
        match self {
            WebsocketMessage::Payment(v) => v,
            WebsocketMessage::Nothing => Vec::new(),
        }
    }
}

/// The URL of the database service's summary for a host and an optional
/// query string: `http://{host}/payments-summary`, followed by `?{query}` when
/// one is given.
pub open spec fn summary_url_text(host: Seq<char>, query: Option<Seq<char>>) -> Seq<char> {
    match query {
        Some(q) => "http://"@ + host + "/payments-summary?"@ + q,
        None => "http://"@ + host + "/payments-summary"@,
    }
}

/// Builds the URL of the database service's summary.
pub fn summary_url(host: &str, query: Option<&str>) -> (url: String)
    ensures
        url@ == summary_url_text(
            host@,
            match query {
                Some(q) => Some(q@),
                None => None,
            },
        ),
{
    let url = "http://".to_owned().concat(host);
    match query {
        Some(q) => url.concat("/payments-summary?").concat(q),
        None => url.concat("/payments-summary"),
    }
}

/// A payment as a client submits it. The amount is held in cents.
pub struct PaymentGet {
    pub correlation_id: String,
    pub amount_cents: i64,
}

impl PaymentGet {
    /// The payment to forward, stamped with the clock reading `now`: same
    /// correlation id and amount, requested at `now`, not yet processed.
    pub fn to_payment_post_at(&self, now: ClockReading) -> (post: PaymentPost)
        ensures
            post.correlation_id == self.correlation_id,
            post.amount_cents == self.amount_cents,
            post.requested_at == now.rfc3339,
            post.requested_at_ts == now.millis,
            post.processed_on is None,
    {
        PaymentPost {
            correlation_id: self.correlation_id.clone(),
            amount_cents: self.amount_cents,
            requested_at: now.rfc3339,
            requested_at_ts: now.millis,
            processed_on: None,
        }
    }

    /// The payment to forward, stamped with the current local time: same
    /// correlation id and amount, not yet processed. The time read is not stated.
    pub fn to_payment_post(&self) -> (post: PaymentPost)
        ensures
            post.correlation_id == self.correlation_id,
            post.amount_cents == self.amount_cents,
            post.processed_on is None,
    {
        self.to_payment_post_at(local_now())
    }
}

} // verus!
