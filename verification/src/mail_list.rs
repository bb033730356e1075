//! Mail addresses and the list of generated mailboxes.

use crate::error::MailError;
use crate::json::{json_document, json_items, json_text, parse_value};
use crate::text::{chars_of, decimal, push_decimal, string_of};
use vstd::prelude::*;
use vstd::string::StringExecFns;

verus! {

/// Whether `s` is a mail address that splits at position `at`: the only `@`
/// of `s` stands there, with text before it and after it.
pub open spec fn splits_at(s: Seq<char>, at: int) -> bool {
    &&& 0 < at < s.len() - 1
    &&& s[at] == '@'
    &&& forall|i: int| 0 <= i < s.len() && i != at ==> s[i] != '@'
}

/// Whether `s` is a mail address: exactly one `@`, with a login before it and
/// a domain after it, neither of them empty.
pub open spec fn is_address(s: Seq<char>) -> bool {
    exists|at: int| splits_at(s, at)
}

/// The login and the domain of the address `s`, or `None` where `s` is no
/// address.
pub open spec fn address_parts(s: Seq<char>) -> Option<AddressView> {
    if is_address(s) {
        let at = choose|at: int| splits_at(s, at);
        Some(AddressView { login: s.take(at), domain: s.skip(at + 1) })
    } else {
        None
    }
}

/// The address that a login and a domain make: `login@domain`.
pub open spec fn address_text(address: AddressView) -> Seq<char> {
    address.login + seq!['@'] + address.domain
}

/// An address splits at one position only, and its parts are what stands on
/// the two sides of it.
pub proof fn lemma_address_parts(s: Seq<char>, at: int)
    requires
        splits_at(s, at),
    ensures
        address_parts(s) == Some(AddressView { login: s.take(at), domain: s.skip(at + 1) }),
{
}

/// One mailbox of the service: the login and the domain of its address.
#[derive(Clone, Debug, PartialEq, Eq)]
pub struct Address {
    pub login: String,
    pub domain: String,
}

/// What an `Address` stands for.
pub struct AddressView {
    pub login: Seq<char>,
    pub domain: Seq<char>,
}

impl View for Address {
    type V = AddressView;

    open spec fn view(&self) -> AddressView {
        AddressView { login: self.login@, domain: self.domain@ }
    }
}

impl Address {
    /// The address in full, `login@domain`.
    pub fn text(&self) -> (text: String)
        ensures
            text@ == address_text(self@),
    {
        let mut text = String::new();
        text.append(self.login.as_str());
        text.push('@');
        text.append(self.domain.as_str());
        text
    }
}

/// Splits `text` into login and domain. `None` where `text` is no address.
pub fn split_address(text: &str) -> (parts: Option<Address>)
    ensures
        match parts {
            Some(address) => address_parts(text@) == Some(address@),
            None => address_parts(text@) is None,
        },
{
    let chars = chars_of(text);
    let n = chars.len();
    let mut at: usize = 0;
    while at < n && chars[at] != '@'
        invariant
            at <= n == chars.len(),
            forall|i: int| 0 <= i < at ==> chars@[i] != '@',
        decreases n - at,
    {
        at += 1;
    }
    if at == 0 || at >= n - 1 {
        return None;
    }
    let mut i: usize = at + 1;
    while i < n
        invariant
            chars@ == text@,
            0 < at < i <= n == chars.len(),
            chars@[at as int] == '@',
            forall|j: int| 0 <= j < i && j != at ==> chars@[j] != '@',
        decreases n - i,
    {
        if chars[i] == '@' {
            return None;
        }
        i += 1;
    }
    proof {
        lemma_address_parts(chars@, at as int);
    }
    Some(Address { login: string_of(&chars, 0, at), domain: string_of(&chars, at + 1, n) })
}

/// The mailboxes that the service generated: logins and domains, index by
/// index. The two sequences have one length.
#[derive(Debug, PartialEq, Eq)]
pub struct MailList {
    logins: Vec<String>,
    domains: Vec<String>,
}

impl View for MailList {
    type V = Seq<AddressView>;

    /// The list as a sequence of pairs, login first.
    closed spec fn view(&self) -> Seq<AddressView> {
        Seq::new(
            self.logins.len() as nat,
            |i: int| AddressView { login: self.logins[i]@, domain: self.domains[i]@ },
        )
    }
}

/// One line of the listing: the index, ` - `, the address, and a line break.
pub open spec fn listing_line(index: nat, address: AddressView) -> Seq<char> {
    decimal(index) + " - "@ + address_text(address) + "\n"@
}

/// The numbered lines of the listing, in the order of the list.
pub open spec fn listing_lines(list: Seq<AddressView>) -> Seq<char>
    decreases list.len(),
{
    if list.len() == 0 {
        Seq::empty()
    } else {
        listing_lines(list.drop_last()) + listing_line((list.len() - 1) as nat, list.last())
    }
}

/// The listing in full.
pub open spec fn listing_text(list: Seq<AddressView>) -> Seq<char> {
    "\nRandom mail adresses:\n\n"@ + listing_lines(list) + "\n"@
}

impl MailList {
    #[verifier::type_invariant]
    spec fn aligned(&self) -> bool {
        self.logins.len() == self.domains.len()
    }

    /// The empty list.
    pub fn new() -> (list: MailList)
        ensures
            list@ == Seq::<AddressView>::empty(),
    {
        MailList { logins: Vec::new(), domains: Vec::new() }
    }

    /// Adds one mailbox at the end.
    pub fn push(&mut self, address: Address)
        ensures
            final(self)@ == old(self)@.push(address@),
    {
        let mut taken = MailList::new();
        core::mem::swap(self, &mut taken);
        proof {
            use_type_invariant(&taken);
        }
        let MailList { mut logins, mut domains } = taken;
        logins.push(address.login);
        domains.push(address.domain);
        *self = MailList { logins, domains };
    }

    /// How many mailboxes the list holds.
    pub fn len(&self) -> (n: usize)
        ensures
            n == self@.len(),
    {
        self.logins.len()
    }

    /// The logins, in the order of the list.
    pub fn logins(&self) -> (logins: &Vec<String>)
        ensures
            logins@.len() == self@.len(),
            forall|i: int| 0 <= i < logins@.len() ==> (#[trigger] logins@[i])@ == self@[i].login,
    {
        &self.logins
    }

    /// The domains, in the order of the list.
    pub fn domains(&self) -> (domains: &Vec<String>)
        ensures
            domains@.len() == self@.len(),
            forall|i: int| 0 <= i < domains@.len() ==> (#[trigger] domains@[i])@ == self@[i].domain,
    {
        proof {
            use_type_invariant(self);
        }
        &self.domains
    }

    /// The mailbox at `index`, or `None` where the list has no such index.
    pub fn select(&self, index: usize) -> (chosen: Option<Address>)
        ensures
            match chosen {
                Some(address) => index < self@.len() && address@ == self@[index as int],
                None => index >= self@.len(),
            },
    {
        proof {
            use_type_invariant(self);
        }
        if index < self.logins.len() {
            Some(
                Address {
                    login: self.logins[index].clone(),
                    domain: self.domains[index].clone(),
                },
            )
        } else {
            None
        }
    }

    /// The list as it is shown: a heading, one numbered line for each
    /// mailbox, and an empty line.
    pub fn listing(&self) -> (text: String)
        ensures
            text@ == listing_text(self@),
    {
        proof {
            use_type_invariant(self);
        }
        let mut text = String::from_str("\nRandom mail adresses:\n\n");
        let n = self.logins.len();
        let mut i: usize = 0;
        while i < n
            invariant
                i <= n == self.logins.len() == self.domains.len(),
                text@ == "\nRandom mail adresses:\n\n"@ + listing_lines(self@.take(i as int)),
            decreases n - i,
        {
            proof {
                let shown = self@.take(i + 1);
                assert(shown.drop_last() =~= self@.take(i as int));
                assert(shown.last() == AddressView {
                    login: self.logins[i as int]@,
                    domain: self.domains[i as int]@,
                });
            }
            push_decimal(&mut text, i as u64);
            text.append(" - ");
            text.append(self.logins[i].as_str());
            text.push('@');
            text.append(self.domains[i].as_str());
            text.append("\n");
            i += 1;
        }
        proof {
            assert(self@.take(n as int) =~= self@);
        }
        text.append("\n");
        text
    }
}

/// What one element of the response stands for: the parts of the address
/// that it holds, `Shape` where it is no string, `Address` where the string
/// is no address.
pub open spec fn address_of(item: serde_json::Value) -> Result<AddressView, MailError> {
    match json_text(item) {
        None => Err(MailError::Shape),
        Some(text) => match address_parts(text) {
            None => Err(MailError::Address),
            Some(address) => Ok(address),
        },
    }
}

/// What stands at position `i` of the response: the address of the element
/// there, `Shape` where the response ends before it.
pub open spec fn entry_at(items: Seq<serde_json::Value>, i: int) -> Result<AddressView, MailError> {
    if 0 <= i < items.len() {
        address_of(items[i])
    } else {
        Err(MailError::Shape)
    }
}

/// The first `count` addresses of the response, in its order, or the failure
/// of the first position that has none.
pub open spec fn first_entries(items: Seq<serde_json::Value>, count: nat) -> Result<
    Seq<AddressView>,
    MailError,
>
    decreases count,
{
    if count == 0 {
        Ok(Seq::empty())
    } else {
        match first_entries(items, (count - 1) as nat) {
            Err(e) => Err(e),
            Ok(front) => match entry_at(items, count - 1) {
                Err(e) => Err(e),
                Ok(address) => Ok(front.push(address)),
            },
        }
    }
}

/// The list of `count` mailboxes that the document `doc` holds.
pub open spec fn mail_list_of(doc: serde_json::Value, count: nat) -> Result<
    Seq<AddressView>,
    MailError,
> {
    match json_items(doc) {
        None => Err(MailError::Shape),
        Some(items) => first_entries(items, count),
    }
}

/// The list of `count` mailboxes that the response body `body` holds.
pub open spec fn mail_list_in(body: Seq<char>, count: nat) -> Result<
    Seq<AddressView>,
    MailError,
> {
    match json_document(body) {
        None => Err(MailError::Json),
        Some(doc) => mail_list_of(doc, count),
    }
}

/// A decoded list has exactly `count` entries, entry `i` is the address of
/// element `i` of the response, and no login and no domain is empty.
pub proof fn lemma_first_entries(items: Seq<serde_json::Value>, count: nat)
    requires
        first_entries(items, count) is Ok,
    ensures
        count <= items.len(),
        first_entries(items, count)->Ok_0.len() == count,
        forall|i: int|
            0 <= i < count ==> {
                let address = #[trigger] first_entries(items, count)->Ok_0[i];
                &&& address_of(items[i]) == Ok::<_, MailError>(address)
                &&& address.login.len() > 0
                &&& address.domain.len() > 0
            },
    decreases count,
{
    if count > 0 {
        lemma_first_entries(items, (count - 1) as nat);
    }
}

/// A failure stays: once a position has no address, asking for more entries
/// gives the same failure.
pub proof fn lemma_first_entries_failure(items: Seq<serde_json::Value>, k: nat, count: nat)
    requires
        k <= count,
        first_entries(items, k) is Err,
    ensures
        first_entries(items, count) == first_entries(items, k),
    decreases count - k,
{
    if k < count {
        lemma_first_entries_failure(items, k, (count - 1) as nat);
    }
}

/// Reads the list of `count` mailboxes out of a parsed response: the first
/// `count` elements of the array, in its order. Elements after them are not
/// looked at. The first position without an address decides the failure.
pub fn mail_list_from_value(doc: &serde_json::Value, count: usize) -> (decoded: Result<
    MailList,
    MailError,
>)
    ensures
        match decoded {
            Ok(list) => mail_list_of(*doc, count as nat) == Ok::<_, MailError>(list@),
            Err(e) => mail_list_of(*doc, count as nat) == Err::<Seq<AddressView>, _>(e),
        },
        decoded matches Ok(list) ==> list@.len() == count && forall|i: int|
            0 <= i < count ==> (#[trigger] list@[i]).login.len() > 0 && list@[i].domain.len() > 0,
{
    let items = match doc.as_array() {
        Some(items) => items,
        None => {
            return Err(MailError::Shape);
        },
    };
    let mut list = MailList::new();
    let mut i: usize = 0;
    while i < count
        invariant
            i <= count,
            json_items(*doc) == Some(items@),
            first_entries(items@, i as nat) == Ok::<_, MailError>(list@),
        decreases count - i,
    {
        proof {
            assert(first_entries(items@, (i + 1) as nat) == match entry_at(items@, i as int) {
                Err(e) => Err(e),
                Ok(address) => Ok(list@.push(address)),
            });
            if entry_at(items@, i as int) is Err {
                lemma_first_entries_failure(items@, (i + 1) as nat, count as nat);
            }
        }
        if i >= items.len() {
            return Err(MailError::Shape);
        }
        let text = match items[i].as_str() {
            Some(text) => text,
            None => {
                return Err(MailError::Shape);
            },
        };
        let address = match split_address(text) {
            Some(address) => address,
            None => {
                return Err(MailError::Address);
            },
        };
        list.push(address);
        i += 1;
    }
    proof {
        lemma_first_entries(items@, count as nat);
    }
    Ok(list)
}

/// Reads the list of `count` generated mailboxes out of the body of the
/// service's response. A list that is returned has exactly `count` entries,
/// none of them with an empty login or an empty domain.
pub fn get_random_mail_adress(count: usize, body: &str) -> (decoded: Result<MailList, MailError>)
    ensures
        match decoded {
            Ok(list) => mail_list_in(body@, count as nat) == Ok::<_, MailError>(list@),
            Err(e) => mail_list_in(body@, count as nat) == Err::<Seq<AddressView>, _>(e),
        },
        decoded matches Ok(list) ==> list@.len() == count && forall|i: int|
            0 <= i < count ==> (#[trigger] list@[i]).login.len() > 0 && list@[i].domain.len() > 0,
{
    match parse_value(body) {
        Ok(doc) => mail_list_from_value(&doc, count),
        Err(_) => Err(MailError::Json),
    }
}

} // verus!
