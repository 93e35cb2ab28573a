//! The session client: the bridge's address and the four operations.
//!
//! The round trip of an operation is made by a transport that the caller hands
//! in: a function that posts an envelope to an address and returns the bridge's
//! answer, or its own error where it got none. A transport can be called once,
//! so an operation makes one round trip and never tries again. What a transport
//! borrows, such as a pool of open connections, outlives the call and can serve
//! the next one.

use crate::digits::{decimal, decimal_text};
use crate::error::SamError;
use crate::reply::{
    close_session_outcome,
    close_session_reply,
    create_session_outcome,
    create_session_reply,
    receive_message_outcome,
    receive_message_reply,
    send_message_outcome,
    send_message_reply,
    text_result,
    unit_result,
};
use crate::request::{
    close_session_envelope,
    create_session_envelope,
    receive_message_envelope,
    send_message_envelope,
    SamRequest,
    SamRequestView,
};
use crate::response::SamResponse;
use vstd::prelude::*;

verus! {

/// A client of the bridge that listens at one host and port.
///
/// The client holds no session: a session is known by the text that
/// `create_session` returned, which the caller keeps and hands back.
#[derive(Debug, PartialEq, Eq)]
pub struct I2PSamClient {
    sam_host: String,
    sam_port: u16,
}

/// An [`I2PSamClient`] as a mathematical value.
pub struct I2PSamClientView {
    pub host: Seq<char>,
    pub port: u16,
}

impl I2PSamClientView {
    /// The address to which every request of the client is posted.
    pub open spec fn endpoint(self) -> Seq<char> {
        endpoint_url(self.host, self.port)
    }
}

impl View for I2PSamClient {
    type V = I2PSamClientView;

    closed spec fn view(&self) -> I2PSamClientView {
        I2PSamClientView { host: self.sam_host@, port: self.sam_port }
    }
}

/// The address of the bridge at `host` and `port`:
/// `http://`, the host, a colon, the port in decimal notation, and `/i2psam`.
pub open spec fn endpoint_url(host: Seq<char>, port: u16) -> Seq<char> {
    "http://"@ + host + ":"@ + decimal(port as nat) + "/i2psam"@
}

/// Whether `transport` may be called to post `envelope` to `endpoint`, whichever
/// two values hold that address and that envelope.
pub open spec fn accepts<E, T: FnOnce(String, SamRequest) -> Result<SamResponse, E>>(
    transport: T,
    endpoint: Seq<char>,
    envelope: SamRequestView,
) -> bool {
    forall|url: String, body: SamRequest|
        url@ == endpoint && body@ == envelope ==> call_requires(transport, (url, body))
}

/// Whether `outcome` is what `transport` returned from a call that posted
/// `envelope` to `endpoint`.
pub open spec fn answered<E, T: FnOnce(String, SamRequest) -> Result<SamResponse, E>>(
    transport: T,
    endpoint: Seq<char>,
    envelope: SamRequestView,
    outcome: Result<SamResponse, E>,
) -> bool {
    exists|url: String, body: SamRequest|
        url@ == endpoint && body@ == envelope && call_ensures(transport, (url, body), outcome)
}

impl I2PSamClient {
    /// A client of the bridge at `sam_host` and `sam_port`. Both are kept as
    /// given: neither is checked, and nothing is sent.
    pub fn new(sam_host: String, sam_port: u16) -> (client: I2PSamClient)
        ensures
            client@ == (I2PSamClientView { host: sam_host@, port: sam_port }),
    {
        I2PSamClient { sam_host, sam_port }
    }

    /// The bridge's host, as it was given.
    pub fn host(&self) -> (host: &str)
        ensures
            host@ == self@.host,
    {
        self.sam_host.as_str()
    }

    /// The bridge's port, as it was given.
    pub fn port(&self) -> (port: u16)
        ensures
            port == self@.port,
    {
        self.sam_port
    }

    /// The address to which every request of the client is posted.
    pub fn endpoint(&self) -> (url: String)
        ensures
            url@ == self@.endpoint(),
    {
        let mut url = "http://".to_string();
        url.append(self.sam_host.as_str());
        url.append(":");
        url.append(decimal_text(self.sam_port).as_str());
        url.append("/i2psam");
        url
    }

    /// Posts `envelope` to the endpoint, once, and returns what the transport
    /// returned: the bridge's answer, whatever it says, or the transport's error.
    pub fn send_request<E, T>(&self, envelope: SamRequest, transport: T) -> (outcome: Result<
        SamResponse,
        E,
    >) where T: FnOnce(String, SamRequest) -> Result<SamResponse, E>
        requires
            accepts(transport, self@.endpoint(), envelope@),
        ensures
            answered(transport, self@.endpoint(), envelope@, outcome),
    {
        let url = self.endpoint();
        transport(url, envelope)
    }

    /// Opens a session and returns its destination, `"Unknown destination"` where
    /// the bridge accepted and named none. Fails with the transport's error where
    /// the round trip failed, and with an operation error where the bridge
    /// rejected the request; so do the three operations below.
    pub fn create_session<E, T>(&self, transport: T) -> (result: Result<
        String,
        SamError<E>,
    >) where T: FnOnce(String, SamRequest) -> Result<SamResponse, E>
        requires
            accepts(transport, self@.endpoint(), create_session_envelope()),
        ensures
            exists|outcome: Result<SamResponse, E>|
                #[trigger] answered(
                    transport,
                    self@.endpoint(),
                    create_session_envelope(),
                    outcome,
                ) && text_result(result) == create_session_outcome(outcome),
    {
        let outcome = self.send_request(SamRequest::create_session(), transport);
        create_session_reply(outcome)
    }

    /// Closes the session `session_id`.
    pub fn close_session<E, T>(&self, session_id: &str, transport: T) -> (result: Result<
        (),
        SamError<E>,
    >) where T: FnOnce(String, SamRequest) -> Result<SamResponse, E>
        requires
            accepts(transport, self@.endpoint(), close_session_envelope(session_id@)),
        ensures
            exists|outcome: Result<SamResponse, E>|
                #[trigger] answered(
                    transport,
                    self@.endpoint(),
                    close_session_envelope(session_id@),
                    outcome,
                ) && unit_result(result) == close_session_outcome(outcome),
    {
        let outcome = self.send_request(SamRequest::close_session(session_id), transport);
        close_session_reply(outcome)
    }

    /// Sends `message` to `destination`.
    pub fn send_message<E, T>(&self, destination: &str, message: &str, transport: T) -> (result:
        Result<(), SamError<E>>) where T: FnOnce(String, SamRequest) -> Result<SamResponse, E>
        requires
            accepts(transport, self@.endpoint(), send_message_envelope(destination@, message@)),
        ensures
            exists|outcome: Result<SamResponse, E>|
                #[trigger] answered(
                    transport,
                    self@.endpoint(),
                    send_message_envelope(destination@, message@),
                    outcome,
                ) && unit_result(result) == send_message_outcome(outcome),
    {
        let outcome = self.send_request(SamRequest::send_message(destination, message), transport);
        send_message_reply(outcome)
    }

    /// Fetches a message for the session `session_id`, `"No message"` where the
    /// bridge accepted and handed none back.
    pub fn receive_message<E, T>(&self, session_id: &str, transport: T) -> (result: Result<
        String,
        SamError<E>,
    >) where T: FnOnce(String, SamRequest) -> Result<SamResponse, E>
        requires
            accepts(transport, self@.endpoint(), receive_message_envelope(session_id@)),
        ensures
            exists|outcome: Result<SamResponse, E>|
                #[trigger] answered(
                    transport,
                    self@.endpoint(),
                    receive_message_envelope(session_id@),
                    outcome,
                ) && text_result(result) == receive_message_outcome(outcome),
    {
        let outcome = self.send_request(SamRequest::receive_message(session_id), transport);
        receive_message_reply(outcome)
    }
}

} // verus!
