//! The client of the email provider.
//!
//! Sending a message is one exchange over HTTP. [`EmailClient::request`] says
//! what to send, [`delivery_result`] says what the answer means, and the
//! caller performs the exchange in between, once, within
//! [`EmailClient::timeout`].

use crate::credential::Credential;
use crate::domain::SubscriberEmail;
use crate::json::encode;
use crate::json::json_text;
use crate::payload::payload;
use crate::payload::payload_value;
use std::time::Duration;
use vstd::prelude::*;

verus! {

/// Why a message was not delivered.
#[derive(Clone, Copy, Debug, PartialEq, Eq, Structural)]
pub enum DeliveryError {
    /// No answer of the provider was obtained.
    Transport,
    /// The provider answered with a status that is not a success.
    RejectedByProvider { status: u16 },
}

/// What became of one exchange with the provider.
#[derive(Clone, Copy, Debug, PartialEq, Eq, Structural)]
pub enum Exchange {
    /// The provider answered with this status. The body of the answer is not
    /// looked at.
    Response { status: u16 },
    /// No answer came within the timeout.
    TimedOut,
    /// The connection could not be made or broke.
    NetworkFailure,
}

/// Whether `status` is one of the success statuses, 200 to 299.
pub open spec fn is_success(status: u16) -> bool {
    200 <= status <= 299
}

/// What an exchange means for the delivery of the message.
pub open spec fn delivery_outcome(exchange: Exchange) -> Result<(), DeliveryError> {
    match exchange {
        Exchange::Response { status } => if is_success(status) {
            Ok(())
        } else {
            Err(DeliveryError::RejectedByProvider { status })
        },
        Exchange::TimedOut => Err(DeliveryError::Transport),
        Exchange::NetworkFailure => Err(DeliveryError::Transport),
    }
}

/// Interprets one exchange. A success status means that the message was
/// accepted. Any other status is a rejection and is handed on as it came.
/// An exchange without an answer is a transport failure.
pub fn delivery_result(exchange: Exchange) -> (result: Result<(), DeliveryError>)
    ensures
        result == delivery_outcome(exchange),
        exchange matches Exchange::Response { status } ==> (200 <= status <= 299 ==> result is Ok),
        exchange matches Exchange::Response { status } ==> (status >= 300 ==> (result matches Err(
            e,
        ) && e == (DeliveryError::RejectedByProvider { status }))),
        exchange is TimedOut ==> (result matches Err(e) && e == DeliveryError::Transport),
{
    match exchange {
        Exchange::Response { status } => {
            if 200 <= status && status <= 299 {
                Ok(())
            } else {
                Err(DeliveryError::RejectedByProvider { status })
            }
        },
        Exchange::TimedOut => Err(DeliveryError::Transport),
        Exchange::NetworkFailure => Err(DeliveryError::Transport),
    }
}

/// One header of a request.
pub struct Header {
    pub name: String,
    pub value: String,
}

/// A header as a mathematical value.
pub struct HeaderView {
    pub name: Seq<char>,
    pub value: Seq<char>,
}

impl View for Header {
    type V = HeaderView;

    open spec fn view(&self) -> HeaderView {
        HeaderView { name: self.name@, value: self.value@ }
    }
}

/// A request, ready to be sent. It holds the credential in its headers, so
/// it has no debug form.
pub struct OutboundRequest {
    pub method: String,
    pub url: String,
    pub headers: Vec<Header>,
    pub body: Vec<u8>,
}

/// A request as a mathematical value.
pub struct RequestView {
    pub method: Seq<char>,
    pub url: Seq<char>,
    pub headers: Seq<HeaderView>,
    pub body: Seq<u8>,
}

impl View for OutboundRequest {
    type V = RequestView;

    open spec fn view(&self) -> RequestView {
        RequestView {
            method: self.method@,
            url: self.url@,
            headers: self.headers@.map_values(|header: Header| header@),
            body: self.body@,
        }
    }
}

/// The request that posts the JSON text `body` to `url` under the given
/// authorization.
pub open spec fn post_json(url: Seq<char>, authorization: Seq<char>, body: Seq<u8>) -> RequestView {
    RequestView {
        method: "POST"@,
        url,
        headers: seq![
            HeaderView { name: "Authorization"@, value: authorization },
            HeaderView { name: "Content-Type"@, value: "application/json"@ },
        ],
        body,
    }
}

impl OutboundRequest {
    /// Makes the request out of its address, its authorization and the
    /// result of encoding its body. An encoder that failed would leave
    /// nothing to send, which is a transport failure.
    pub fn from_encoding(
        url: String,
        authorization: String,
        encoded: Result<Vec<u8>, serde_json::Error>,
    ) -> (result: Result<OutboundRequest, DeliveryError>)
        ensures
            match encoded {
                Ok(body) => result matches Ok(request) && request@ == post_json(
                    url@,
                    authorization@,
                    body@,
                ),
                Err(_) => result matches Err(e) && e == DeliveryError::Transport,
            },
    {
        match encoded {
            Ok(body) => {
                let mut headers: Vec<Header> = Vec::new();
                headers.push(Header { name: "Authorization".to_owned(), value: authorization });
                headers.push(
                    Header { name: "Content-Type".to_owned(), value: "application/json".to_owned() },
                );
                let request = OutboundRequest { method: "POST".to_owned(), url, headers, body };
                assert(request@.headers =~= post_json(url@, authorization@, body@).headers);
                Ok(request)
            },
            Err(_) => Err(DeliveryError::Transport),
        }
    }
}

/// The client of the email provider: where the provider is, who the messages
/// come from, the credential, and how long an exchange may take.
pub struct EmailClient {
    base_url: String,
    sender: SubscriberEmail,
    auth_token: Credential,
    timeout: Duration,
}

/// A client as a mathematical value.
pub struct EmailClientView {
    pub base_url: Seq<char>,
    pub sender: Seq<char>,
    pub credential: Seq<char>,
    pub timeout: Duration,
}

impl View for EmailClient {
    type V = EmailClientView;

    closed spec fn view(&self) -> EmailClientView {
        EmailClientView {
            base_url: self.base_url@,
            sender: self.sender@,
            credential: self.auth_token@,
            timeout: self.timeout,
        }
    }
}

/// The request by which `client` sends a message.
pub open spec fn send_request(
    client: EmailClientView,
    recipient: Seq<char>,
    subject: Seq<char>,
    html: Seq<char>,
    plain: Seq<char>,
) -> RequestView {
    post_json(
        client.base_url + "/send"@,
        "Bearer "@ + client.credential,
        json_text(payload(client.sender, recipient, subject, html, plain)),
    )
}

/// The credential shows in the value of the `Authorization` header and has
/// no part in anything else: two clients that differ in nothing but their
/// credentials send, for the same message, requests that differ in nothing
/// but that value.
pub proof fn lemma_credential_only_in_authorization(
    a: EmailClientView,
    b: EmailClientView,
    recipient: Seq<char>,
    subject: Seq<char>,
    html: Seq<char>,
    plain: Seq<char>,
)
    requires
        a.base_url == b.base_url,
        a.sender == b.sender,
    ensures
        ({
            let x = send_request(a, recipient, subject, html, plain);
            let y = send_request(b, recipient, subject, html, plain);
            &&& x.method == y.method
            &&& x.url == y.url
            &&& x.body == y.body
            &&& x.headers.len() == 2
            &&& y.headers.len() == 2
            &&& x.headers[0].name == y.headers[0].name
            &&& x.headers[1] == y.headers[1]
            &&& x.headers[0].value == "Bearer "@ + a.credential
            &&& y.headers[0].value == "Bearer "@ + b.credential
        }),
{
}

impl EmailClient {
    /// A client that sends to `base_url` in the name of `sender`.
    pub fn new(
        base_url: String,
        sender: SubscriberEmail,
        auth_token: Credential,
        timeout: Duration,
    ) -> (client: Self)
        ensures
            client@ == (EmailClientView {
                base_url: base_url@,
                sender: sender@,
                credential: auth_token@,
                timeout,
            }),
    {
        EmailClient { base_url, sender, auth_token, timeout }
    }

    /// The longest that one exchange may take.
    pub fn timeout(&self) -> (timeout: Duration)
        ensures
            timeout == self@.timeout,
    {
        self.timeout
    }

    /// The request that sends one message to `recipient`: a `POST` to the
    /// path `/send` under the base URL, authorized by the credential, with
    /// the message as a JSON document. The sender is the one the client was
    /// made with. The client itself does not change.
    ///
    /// A request is made for every message: the result is never an error.
    /// It has the type of a delivery so that the steps of one can be chained.
    pub fn request(
        &self,
        recipient: SubscriberEmail,
        subject: &str,
        html_content: &str,
        text_content: &str,
    ) -> (result: Result<OutboundRequest, DeliveryError>)
        ensures
            result matches Ok(request) && request@ == send_request(
                self@,
                recipient@,
                subject@,
                html_content@,
                text_content@,
            ),
            result matches Ok(request) && request@.headers[0] == (HeaderView {
                name: "Authorization"@,
                value: "Bearer "@ + self@.credential,
            }),
    {
        let mut url = self.base_url.clone();
        url.append("/send");
        let authorization = self.auth_token.bearer();
        let document = payload_value(
            self.sender.as_ref(),
            recipient.as_ref(),
            subject,
            html_content,
            text_content,
        );
        OutboundRequest::from_encoding(url, authorization, encode(&document))
    }
}

} // verus!
