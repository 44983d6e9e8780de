//! The document that asks the provider to send one message.
//!
//! The provider reads the members by these names and the two renditions of
//! the content by their position: HTML first, plain text second. Addresses
//! are sent bare, as an object with the single member `email`; no display
//! name goes with them.

use crate::json::json_content;
use crate::json::json_contents;
use crate::json::list;
use crate::json::new_object;
use crate::json::record;
use crate::json::set_member;
use crate::json::text;
use crate::json::Json;
use serde_json::Value;
use vstd::prelude::*;

verus! {

/// An address: `{"email": email}`.
pub open spec fn address(email: Seq<char>) -> Json {
    Json::Record(map!["email"@ => Json::Text(email)])
}

/// One rendition of the content: `{"type": media_type, "value": value}`.
pub open spec fn content_part(media_type: Seq<char>, value: Seq<char>) -> Json {
    Json::Record(map!["type"@ => Json::Text(media_type), "value"@ => Json::Text(value)])
}

/// The recipient and the subject: `{"to": [address], "subject": subject}`.
pub open spec fn personalization(recipient: Seq<char>, subject: Seq<char>) -> Json {
    Json::Record(
        map!["to"@ => Json::List(seq![address(recipient)]), "subject"@ => Json::Text(subject)],
    )
}

/// The whole document for a message from `sender` to `recipient`.
pub open spec fn payload(
    sender: Seq<char>,
    recipient: Seq<char>,
    subject: Seq<char>,
    html: Seq<char>,
    plain: Seq<char>,
) -> Json {
    Json::Record(
        map![
            "personalizations"@ => Json::List(seq![personalization(recipient, subject)]),
            "content"@ => Json::List(
                seq![content_part("text/html"@, html), content_part("text/plain"@, plain)],
            ),
            "from"@ => address(sender),
            "reply_to"@ => address(sender),
        ],
    )
}

/// The names of the members differ from each other.
proof fn lemma_names_differ()
    ensures
        "type"@ != "value"@,
        "to"@ != "subject"@,
        "personalizations"@ != "content"@,
        "personalizations"@ != "from"@,
        "personalizations"@ != "reply_to"@,
        "content"@ != "from"@,
        "content"@ != "reply_to"@,
        "from"@ != "reply_to"@,
{
    reveal_strlit("type");
    reveal_strlit("value");
    reveal_strlit("to");
    reveal_strlit("subject");
    reveal_strlit("personalizations");
    reveal_strlit("content");
    reveal_strlit("from");
    reveal_strlit("reply_to");
    assert("type"@.len() != "value"@.len());
    assert("to"@.len() != "subject"@.len());
    assert("personalizations"@.len() != "content"@.len());
    assert("personalizations"@.len() != "from"@.len());
    assert("personalizations"@.len() != "reply_to"@.len());
    assert("content"@.len() != "from"@.len());
    assert("content"@.len() != "reply_to"@.len());
    assert("from"@.len() != "reply_to"@.len());
}

/// Every document holds one recipient, one subject and the two renditions of
/// the content, HTML before plain text, and names the sender both as the
/// origin of the message and as the address for replies. It holds no other
/// member.
pub proof fn lemma_payload_shape(
    sender: Seq<char>,
    recipient: Seq<char>,
    subject: Seq<char>,
    html: Seq<char>,
    plain: Seq<char>,
)
    ensures
        ({
            let document = payload(sender, recipient, subject, html, plain);
            let personalizations = document.field("personalizations"@);
            let to = personalizations.item(0).field("to"@);
            let content = document.field("content"@);
            &&& document matches Json::Record(members) && members.dom() =~= set![
                "personalizations"@,
                "content"@,
                "from"@,
                "reply_to"@,
            ]
            &&& personalizations.length() == 1
            &&& to.length() == 1
            &&& to.item(0).field("email"@) == Json::Text(recipient)
            &&& personalizations.item(0).field("subject"@) == Json::Text(subject)
            &&& content.length() == 2
            &&& content.item(0) == content_part("text/html"@, html)
            &&& content.item(0).field("type"@) == Json::Text("text/html"@)
            &&& content.item(0).field("value"@) == Json::Text(html)
            &&& content.item(1) == content_part("text/plain"@, plain)
            &&& content.item(1).field("type"@) == Json::Text("text/plain"@)
            &&& content.item(1).field("value"@) == Json::Text(plain)
            &&& document.field("from"@).field("email"@) == Json::Text(sender)
            &&& document.field("reply_to"@).field("email"@) == Json::Text(sender)
        }),
{
    lemma_names_differ();
}

/// Builds the address `{"email": email}`.
fn address_value(email: &str) -> (value: Value)
    ensures
        json_content(value) == address(email@),
{
    let mut object = new_object();
    set_member(&mut object, "email", text(email));
    record(object)
}

/// Builds one rendition of the content.
fn content_value(media_type: &str, value: &str) -> (part: Value)
    ensures
        json_content(part) == content_part(media_type@, value@),
{
    let mut object = new_object();
    set_member(&mut object, "type", text(media_type));
    set_member(&mut object, "value", text(value));
    record(object)
}

/// Builds the recipient and the subject.
fn personalization_value(recipient: &str, subject: &str) -> (value: Value)
    ensures
        json_content(value) == personalization(recipient@, subject@),
{
    let mut to: Vec<Value> = Vec::new();
    to.push(address_value(recipient));
    assert(json_contents(to@) =~= seq![address(recipient@)]);
    let mut object = new_object();
    set_member(&mut object, "to", list(to));
    set_member(&mut object, "subject", text(subject));
    record(object)
}

/// Builds the document for a message from `sender` to `recipient`.
pub fn payload_value(
    sender: &str,
    recipient: &str,
    subject: &str,
    html: &str,
    plain: &str,
) -> (value: Value)
    ensures
        json_content(value) == payload(sender@, recipient@, subject@, html@, plain@),
{
    let mut personalizations: Vec<Value> = Vec::new();
    personalizations.push(personalization_value(recipient, subject));
    assert(json_contents(personalizations@) =~= seq![personalization(recipient@, subject@)]);
    let mut content: Vec<Value> = Vec::new();
    content.push(content_value("text/html", html));
    content.push(content_value("text/plain", plain));
    assert(json_contents(content@) =~= seq![
        content_part("text/html"@, html@),
        content_part("text/plain"@, plain@),
    ]);
    let mut object = new_object();
    set_member(&mut object, "personalizations", list(personalizations));
    set_member(&mut object, "content", list(content));
    set_member(&mut object, "from", address_value(sender));
    set_member(&mut object, "reply_to", address_value(sender));
    record(object)
}

} // verus!
