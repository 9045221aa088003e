//! Envelope fields as the mailbox server sends them, and the metadata that a
//! notification is written from.

use crate::text::{decode_or, text_or};
use vstd::prelude::*;
use vstd::string::*;

verus! {

/// One address of an envelope, each part as raw bytes.
#[derive(Clone, Debug, PartialEq, Eq)]
pub struct RawAddress {
    pub name: Option<Vec<u8>>,
    pub mailbox: Option<Vec<u8>>,
    pub host: Option<Vec<u8>>,
}

/// The envelope fields that a notification reads, as raw bytes.
#[derive(Clone, Debug, PartialEq, Eq)]
pub struct RawEnvelope {
    pub date: Option<Vec<u8>>,
    pub subject: Option<Vec<u8>>,
    pub from: Option<Vec<RawAddress>>,
}

/// Sender, subject and date of one message, decoded, with its identifier.
#[derive(Clone, Debug, PartialEq, Eq)]
pub struct EmailMetadata {
    pub from: String,
    pub subject: String,
    pub date: String,
    pub uid: u32,
}

pub struct RawAddressView {
    pub name: Option<Seq<u8>>,
    pub mailbox: Option<Seq<u8>>,
    pub host: Option<Seq<u8>>,
}

pub struct RawEnvelopeView {
    pub date: Option<Seq<u8>>,
    pub subject: Option<Seq<u8>>,
    pub from: Option<Seq<RawAddressView>>,
}

pub struct EmailMetadataView {
    pub from: Seq<char>,
    pub subject: Seq<char>,
    pub date: Seq<char>,
    pub uid: u32,
}

/// The bytes of an optional field.
pub open spec fn field_view(field: Option<Vec<u8>>) -> Option<Seq<u8>> {
    match field {
        Some(b) => Some(b@),
        None => None,
    }
}

impl View for RawAddress {
    type V = RawAddressView;

    open spec fn view(&self) -> RawAddressView {
        RawAddressView {
            name: field_view(self.name),
            mailbox: field_view(self.mailbox),
            host: field_view(self.host),
        }
    }
}

impl View for RawEnvelope {
    type V = RawEnvelopeView;

    open spec fn view(&self) -> RawEnvelopeView {
        RawEnvelopeView {
            date: field_view(self.date),
            subject: field_view(self.subject),
            from: match self.from {
                Some(addrs) => Some(addrs@.map_values(|a: RawAddress| a@)),
                None => None,
            },
        }
    }
}

impl View for EmailMetadata {
    type V = EmailMetadataView;

    open spec fn view(&self) -> EmailMetadataView {
        EmailMetadataView {
            from: self.from@,
            subject: self.subject@,
            date: self.date@,
            uid: self.uid,
        }
    }
}

/// The envelope of a message that came without one: every field is missing.
pub open spec fn blank_envelope() -> RawEnvelopeView {
    RawEnvelopeView { date: None, subject: None, from: None }
}

/// How one address is shown: `name <mailbox@host>`, a part that is absent
/// or unreadable replaced by a placeholder.
pub open spec fn address_text(a: RawAddressView) -> Seq<char> {
    text_or(a.name, "Unknown"@) + " <"@ + text_or(a.mailbox, "unknown"@) + "@"@ + text_or(
        a.host,
        "unknown"@,
    ) + ">"@
}

/// How the sender is shown: the first `From` address, or a placeholder where
/// the envelope names none.
pub open spec fn sender_text(from: Option<Seq<RawAddressView>>) -> Seq<char> {
    match from {
        Some(addrs) => if addrs.len() > 0 {
            address_text(addrs[0])
        } else {
            "Unknown Sender"@
        },
        None => "Unknown Sender"@,
    }
}

/// The metadata of message `uid` as read from its envelope. No field can
/// make this fail: what is missing or unreadable becomes a placeholder.
pub open spec fn metadata_of(uid: u32, env: RawEnvelopeView) -> EmailMetadataView {
    EmailMetadataView {
        from: sender_text(env.from),
        subject: text_or(env.subject, "No Subject"@),
        date: text_or(env.date, "Unknown Date"@),
        uid,
    }
}

impl RawAddress {
    /// Renders the address as `name <mailbox@host>`.
    pub fn display(&self) -> (s: String)
        ensures
            s@ == address_text(self@),
    {
        let mut s = decode_or(&self.name, "Unknown");
        s.append(" <");
        let mailbox = decode_or(&self.mailbox, "unknown");
        s.append(mailbox.as_str());
        s.append("@");
        let host = decode_or(&self.host, "unknown");
        s.append(host.as_str());
        s.append(">");
        s
    }
}

impl RawEnvelope {
    /// An envelope of which every field is missing.
    pub fn blank() -> (env: RawEnvelope)
        ensures
            env@ == blank_envelope(),
    {
        RawEnvelope { date: None, subject: None, from: None }
    }

    /// Renders the sender: the first `From` address, if there is one.
    pub fn sender(&self) -> (s: String)
        ensures
            s@ == sender_text(self@.from),
    {
        match &self.from {
            Some(addrs) => {
                if addrs.len() > 0 {
                    addrs[0].display()
                } else {
                    String::from_str("Unknown Sender")
                }
            },
            None => String::from_str("Unknown Sender"),
        }
    }
}

impl EmailMetadata {
    /// Reads the metadata of message `uid` from its envelope.
    pub fn from_envelope(uid: u32, env: &RawEnvelope) -> (m: EmailMetadata)
        ensures
            m@ == metadata_of(uid, env@),
    {
        EmailMetadata {
            from: env.sender(),
            subject: decode_or(&env.subject, "No Subject"),
            date: decode_or(&env.date, "Unknown Date"),
            uid,
        }
    }
}

} // verus!
