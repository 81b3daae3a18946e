//! Named email addresses of users.
use vstd::prelude::*;

use crate::store::invites::normal_email;
use crate::text::{self, trimmed};

verus! {

/// Why an email address was refused, as `lettre` tells it.
#[derive(Debug, Copy, Clone, PartialEq, Eq)]
pub enum AddressFault {
    MissingParts,
    Unbalanced,
    InvalidUser,
    InvalidDomain,
    InvalidInput,
    /// A refusal that `lettre` added after these.
    Unknown,
}

/// What `lettre` answers when it parses an email address.
pub uninterp spec fn address_check(address: Seq<char>) -> Result<(), AddressFault>;

/// Parses `address` with `lettre::Address::from_str`. The result is named
/// `address_check`; without an `@` the address lacks its parts, as the
/// parser splits at the last `@` before it checks anything else.
#[verifier::external_body]
fn check_address(address: &str) -> (r: Result<(), AddressFault>)
    ensures
        r == address_check(address@),
        !address@.contains('@') ==> (r is Err && r->Err_0 == AddressFault::MissingParts),
{
    match address.parse::<lettre::Address>() {
        Ok(_) => Ok(()),
        Err(lettre::address::AddressError::MissingParts) => Err(AddressFault::MissingParts),
        Err(lettre::address::AddressError::Unbalanced) => Err(AddressFault::Unbalanced),
        Err(lettre::address::AddressError::InvalidUser) => Err(AddressFault::InvalidUser),
        Err(lettre::address::AddressError::InvalidDomain) => Err(AddressFault::InvalidDomain),
        Err(lettre::address::AddressError::InvalidInput) => Err(AddressFault::InvalidInput),
        Err(_) => Err(AddressFault::Unknown),
    }
}

/// Why a mailbox could not be made.
#[derive(Debug, Copy, Clone, PartialEq, Eq)]
pub enum Error {
    /// The name was blank.
    MissingName,
    /// The email address was refused.
    Address(AddressFault),
}

/// The text that describes a refused address.
pub open spec fn describe_fault(f: AddressFault) -> Seq<char> {
    match f {
        AddressFault::MissingParts => "Missing domain or user"@,
        AddressFault::Unbalanced => "Unbalanced angle bracket"@,
        AddressFault::InvalidUser => "Invalid email user"@,
        AddressFault::InvalidDomain => "Invalid email domain"@,
        AddressFault::InvalidInput => "Invalid input"@,
        AddressFault::Unknown => "Invalid address"@,
    }
}

/// The text that describes a mailbox error.
pub open spec fn describe(e: Error) -> Seq<char> {
    match e {
        Error::MissingName => "Missing name"@,
        Error::Address(f) => describe_fault(f),
    }
}

impl Error {
    /// The text that describes the error to a user.
    pub fn message(&self) -> (r: String)
        ensures
            r@ == describe(*self),
    {
        match self {
            Error::MissingName => String::from_str("Missing name"),
            Error::Address(f) => match f {
                AddressFault::MissingParts => String::from_str("Missing domain or user"),
                AddressFault::Unbalanced => String::from_str("Unbalanced angle bracket"),
                AddressFault::InvalidUser => String::from_str("Invalid email user"),
                AddressFault::InvalidDomain => String::from_str("Invalid email domain"),
                AddressFault::InvalidInput => String::from_str("Invalid input"),
                AddressFault::Unknown => String::from_str("Invalid address"),
            },
        }
    }
}

/// A name and an email address, unchecked.
#[derive(Debug, Clone, PartialEq, Eq)]
pub struct Proto {
    pub name: String,
    pub email: String,
}

/// A name and a checked email address: the name trimmed and not blank, the
/// address trimmed, lower-cased and accepted by `lettre`.
#[derive(Debug, Clone, PartialEq, Eq)]
pub struct Mailbox {
    name: String,
    email: String,
}

/// What `Mailbox::new` answers for a name and an address.
pub open spec fn mailbox_outcome(name: Seq<char>, email: Seq<char>) -> Result<
    (Seq<char>, Seq<char>),
    Error,
> {
    if trimmed(name).len() == 0 {
        Err(Error::MissingName)
    } else if trimmed(email).len() == 0 {
        Err(Error::Address(AddressFault::MissingParts))
    } else {
        match address_check(normal_email(email)) {
            Ok(_) => Ok((trimmed(name), normal_email(email))),
            Err(f) => Err(Error::Address(f)),
        }
    }
}

impl Mailbox {
    /// The name of the mailbox.
    pub closed spec fn spec_name(&self) -> Seq<char> {
        self.name@
    }

    /// The email address of the mailbox.
    pub closed spec fn spec_email(&self) -> Seq<char> {
        self.email@
    }

    /// A mailbox of the trimmed name and the trimmed, lower-cased address:
    /// `MissingName` where the name is blank; else, where the address is
    /// blank once trimmed, `MissingParts`, as `lettre` answers for an empty
    /// address; else the address's fault where `lettre` refuses it.
    pub fn new(name: String, email: String) -> (r: Result<Mailbox, Error>)
        ensures
            match (r, mailbox_outcome(name@, email@)) {
                (Ok(m), Ok((n, e))) => m.spec_name() == n && m.spec_email() == e,
                (Err(a), Err(b)) => a == b,
                _ => false,
            },
    {
        let name = text::trim(name.as_str());
        if name.as_str().is_empty() {
            return Err(Error::MissingName);
        }
        let t = text::trim(email.as_str());
        if t.as_str().is_empty() {
            return Err(Error::Address(AddressFault::MissingParts));
        }
        let email = text::to_lowercase(t.as_str());
        match check_address(email.as_str()) {
            Ok(()) => Ok(Mailbox { name, email }),
            Err(f) => Err(Error::Address(f)),
        }
    }

    /// The name of the mailbox.
    pub fn name(&self) -> (r: &str)
        ensures
            r@ == self.spec_name(),
    {
        self.name.as_str()
    }

    /// The email address of the mailbox.
    pub fn email(&self) -> (r: &str)
        ensures
            r@ == self.spec_email(),
    {
        self.email.as_str()
    }

    /// The unchecked form of the mailbox.
    pub fn to_proto(&self) -> (r: Proto)
        ensures
            r.name@ == self.spec_name(),
            r.email@ == self.spec_email(),
    {
        Proto { name: self.name.clone(), email: self.email.clone() }
    }
}

/// A blank name is refused before the address is looked at; a blank
/// address, or one without `@`, is refused as lacking its parts.
pub proof fn lemma_mailbox_refusals(name: Seq<char>, email: Seq<char>)
    ensures
        trimmed(name).len() == 0 ==> mailbox_outcome(name, email) == Err::<
            (Seq<char>, Seq<char>),
            Error,
        >(Error::MissingName),
        trimmed(name).len() != 0 && trimmed(email).len() == 0 ==> mailbox_outcome(name, email)
            == Err::<(Seq<char>, Seq<char>), Error>(Error::Address(AddressFault::MissingParts)),
        address_check(normal_email(email)) == Err::<(), AddressFault>(AddressFault::MissingParts)
            && trimmed(name).len() != 0 ==> mailbox_outcome(name, email) == Err::<
            (Seq<char>, Seq<char>),
            Error,
        >(Error::Address(AddressFault::MissingParts)),
{
}

} // verus!
