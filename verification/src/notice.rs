//! The text that is sent for a new message.

use crate::envelope::{EmailMetadata, EmailMetadataView};
use crate::text::{decimal, push_decimal};
use vstd::prelude::*;
use vstd::string::*;

verus! {

/// The notification for one message: a headline, a blank line, then sender,
/// subject, date and identifier, one per line, the last line unterminated.
pub open spec fn notification_text(m: EmailMetadataView) -> Seq<char> {
    "📧 **New Email Received!**\n\n**From:** "@ + m.from + "\n**Subject:** "@ + m.subject
        + "\n**Date:** "@ + m.date + "\n**UID:** "@ + decimal(m.uid as nat)
}

/// Writes the notification for `m`.
pub fn notification(m: &EmailMetadata) -> (text: String)
    ensures
        text@ == notification_text(m@),
{
    let mut text = String::from_str("📧 **New Email Received!**\n\n**From:** ");
    text.append(m.from.as_str());
    text.append("\n**Subject:** ");
    text.append(m.subject.as_str());
    text.append("\n**Date:** ");
    text.append(m.date.as_str());
    text.append("\n**UID:** ");
    push_decimal(&mut text, m.uid);
    text
}

} // verus!
