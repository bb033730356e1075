//! The requests of the mail service: one URL for each operation.

use crate::text::{decimal, push_decimal, push_signed_decimal, signed_decimal};
use vstd::prelude::*;
use vstd::string::StringExecFns;

verus! {

/// What every request starts with: the address of the service, up to the
/// name of the operation.
pub open spec fn api_root() -> Seq<char> {
    "https://www.1secmail.com/api/v1/?action="@
}

/// The request for `count` generated mailboxes.
pub open spec fn random_mailboxes_request(count: nat) -> Seq<char> {
    api_root() + "genRandomMailbox&count="@ + decimal(count)
}

/// The request for the inbox of `login@domain`. Login and domain go into the
/// URL as they are.
pub open spec fn messages_request(login: Seq<char>, domain: Seq<char>) -> Seq<char> {
    api_root() + "getMessages&login="@ + login + "&domain="@ + domain
}

/// The request for message `id` of `login@domain`.
pub open spec fn message_request(login: Seq<char>, domain: Seq<char>, id: int) -> Seq<char> {
    api_root() + "readMessage&login="@ + login + "&domain="@ + domain + "&id="@ + signed_decimal(
        id,
    )
}

/// The URL that asks for `count` generated mailboxes.
pub fn random_mailboxes_url(count: usize) -> (url: String)
    ensures
        url@ == random_mailboxes_request(count as nat),
{
    let mut url = String::from_str("https://www.1secmail.com/api/v1/?action=");
    url.append("genRandomMailbox&count=");
    push_decimal(&mut url, count as u64);
    url
}

/// The URL that asks for the inbox of `login@domain`.
pub fn messages_url(login: &str, domain: &str) -> (url: String)
    ensures
        url@ == messages_request(login@, domain@),
{
    let mut url = String::from_str("https://www.1secmail.com/api/v1/?action=");
    url.append("getMessages&login=");
    url.append(login);
    url.append("&domain=");
    url.append(domain);
    url
}

/// The URL that asks for message `id` of `login@domain`.
pub fn message_url(login: &str, domain: &str, id: i64) -> (url: String)
    ensures
        url@ == message_request(login@, domain@, id as int),
{
    let mut url = String::from_str("https://www.1secmail.com/api/v1/?action=");
    url.append("readMessage&login=");
    url.append(login);
    url.append("&domain=");
    url.append(domain);
    url.append("&id=");
    push_signed_decimal(&mut url, id);
    url
}

} // verus!
