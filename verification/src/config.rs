//! The settings the watcher starts from, and the check that all of them are
//! there.

use crate::text::chars_of;
use vstd::prelude::*;

verus! {

/// The mailbox server. It is fixed.
pub const MAILBOX_HOST: &'static str = "imap.gmail.com";

/// The port of the mailbox server.
pub const MAILBOX_PORT: u16 = 993;

/// The mailbox that is watched.
pub const MAILBOX_NAME: &'static str = "INBOX";

/// One of the four settings.
#[derive(Clone, Copy, Debug, PartialEq, Eq, Structural)]
pub enum Variable {
    /// The access token of the messaging endpoint.
    Token,
    /// The identity of the recipient of the notifications.
    Recipient,
    /// The mailbox account.
    Account,
    /// The secret of the mailbox account.
    Secret,
}

/// Why the watcher cannot start.
#[derive(Clone, Copy, Debug, PartialEq, Eq, Structural)]
pub enum ConfigError {
    /// A setting is absent.
    Missing(Variable),
    /// The recipient is not a number that fits in 64 bits.
    InvalidRecipient,
}

/// The four settings, all present, the recipient as a number.
#[derive(Clone, Debug, PartialEq, Eq)]
pub struct Settings {
    pub token: String,
    pub recipient: u64,
    pub account: String,
    pub secret: String,
}

/// `c` is one of the digits `0` to `9`.
pub open spec fn is_digit(c: char) -> bool {
    '0' <= c && c <= '9'
}

/// The number a run of digits stands for.
pub open spec fn digits_value(digits: Seq<char>) -> nat
    decreases digits.len(),
{
    if digits.len() == 0 {
        0
    } else {
        digits_value(digits.drop_last()) * 10 + (digits.last() as nat - '0' as nat) as nat
    }
}

/// What remains of a numeral once one leading `+` is taken off.
pub open spec fn unsigned_part(text: Seq<char>) -> Seq<char> {
    if text.len() > 0 && text[0] == '+' {
        text.drop_first()
    } else {
        text
    }
}

/// The number that `text` denotes: an optional `+`, then one digit or more
/// and nothing else, with a value that fits in 64 bits.
pub open spec fn parse_recipient(text: Seq<char>) -> Option<u64> {
    let digits = unsigned_part(text);
    if digits.len() > 0 && (forall|i: int| 0 <= i < digits.len() ==> is_digit(#[trigger] digits[i]))
        && digits_value(digits) <= u64::MAX {
        Some(digits_value(digits) as u64)
    } else {
        None
    }
}

/// The first setting that is absent, in the order token, recipient,
/// account, secret.
pub open spec fn first_missing(token: bool, recipient: bool, account: bool, secret: bool) -> Option<
    Variable,
> {
    if !token {
        Some(Variable::Token)
    } else if !recipient {
        Some(Variable::Recipient)
    } else if !account {
        Some(Variable::Account)
    } else if !secret {
        Some(Variable::Secret)
    } else {
        None
    }
}

/// A longer run of digits stands for a number at least as large as any of
/// its beginnings.
proof fn digits_value_grows(digits: Seq<char>, n: int)
    requires
        0 <= n <= digits.len(),
    ensures
        digits_value(digits.take(n)) <= digits_value(digits),
    decreases digits.len() - n,
{
    if n < digits.len() {
        digits_value_grows(digits, n + 1);
        assert(digits.take(n + 1).drop_last() =~= digits.take(n));
        assert(digits_value(digits.take(n)) * 10 >= digits_value(digits.take(n)))
            by (nonlinear_arith);
    } else {
        assert(digits.take(n) =~= digits);
    }
}

impl Variable {
    /// The name under which the setting is looked up in the environment.
    pub fn name(&self) -> (s: &'static str)
        ensures
            s@ == match *self {
                Variable::Token => "DISCORD_TOKEN"@,
                Variable::Recipient => "DISCORD_USER_ID"@,
                Variable::Account => "GMAIL_EMAIL"@,
                Variable::Secret => "GMAIL_APP_PASSWORD"@,
            },
    {
        match self {
            Variable::Token => "DISCORD_TOKEN",
            Variable::Recipient => "DISCORD_USER_ID",
            Variable::Account => "GMAIL_EMAIL",
            Variable::Secret => "GMAIL_APP_PASSWORD",
        }
    }
}

/// Reads the recipient's identity from its decimal numeral.
pub fn recipient_from(text: &str) -> (r: Option<u64>)
    ensures
        r == parse_recipient(text@),
{
    let chars = chars_of(text);
    let start: usize = if chars.len() > 0 && chars[0] == '+' {
        1
    } else {
        0
    };
    let ghost digits = unsigned_part(chars@);
    assert(digits =~= chars@.skip(start as int));
    if start == chars.len() {
        return None;
    }
    let mut value: u64 = 0;
    let mut i: usize = start;
    while i < chars.len()
        invariant
            start <= i <= chars.len(),
            digits == unsigned_part(text@),
            digits == chars@.skip(start as int),
            digits.len() == chars.len() - start,
            forall|j: int| 0 <= j < i - start ==> is_digit(#[trigger] digits[j]),
            value == digits_value(digits.take(i - start)),
        decreases chars.len() - i,
    {
        let c = chars[i];
        assert(digits[i - start] == c);
        if c < '0' || c > '9' {
            return None;
        }
        let d: u64 = (c as u64) - ('0' as u64);
        proof {
            let longer = digits.take(i - start + 1);
            assert(longer.drop_last() =~= digits.take(i - start));
            assert(longer.last() == c);
            assert(digits_value(longer) == value * 10 + d);
            digits_value_grows(digits, i - start + 1);
        }
        if value > (u64::MAX - d) / 10 {
            return None;
        }
        value = value * 10 + d;
        i += 1;
    }
    assert(digits.take(digits.len() as int) =~= digits);
    Some(value)
}

/// Checks that the four settings are there and reads the recipient. The
/// settings are looked at in the order token, recipient, account, secret,
/// and the first that is absent is reported; the recipient's numeral is
/// read only when none is absent.
pub fn settings_from(
    token: Option<String>,
    recipient: Option<String>,
    account: Option<String>,
    secret: Option<String>,
) -> (r: Result<Settings, ConfigError>)
    ensures
        match first_missing(token is Some, recipient is Some, account is Some, secret is Some) {
            Some(v) => r == Err::<Settings, ConfigError>(ConfigError::Missing(v)),
            None => match parse_recipient(recipient->0@) {
                Some(id) => r matches Ok(s) && s.token == token->0 && s.recipient == id
                    && s.account == account->0 && s.secret == secret->0,
                None => r == Err::<Settings, ConfigError>(ConfigError::InvalidRecipient),
            },
        },
{
    let token = match token {
        Some(t) => t,
        None => return Err(ConfigError::Missing(Variable::Token)),
    };
    let recipient = match recipient {
        Some(t) => t,
        None => return Err(ConfigError::Missing(Variable::Recipient)),
    };
    let account = match account {
        Some(t) => t,
        None => return Err(ConfigError::Missing(Variable::Account)),
    };
    let secret = match secret {
        Some(t) => t,
        None => return Err(ConfigError::Missing(Variable::Secret)),
    };
    match recipient_from(recipient.as_str()) {
        Some(id) => Ok(Settings { token, recipient: id, account, secret }),
        None => Err(ConfigError::InvalidRecipient),
    }
}

} // verus!
