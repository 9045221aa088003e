use mail_notifier::config::{
    recipient_from, settings_from, ConfigError, Settings, Variable, MAILBOX_HOST, MAILBOX_NAME,
    MAILBOX_PORT,
};

fn some(s: &str) -> Option<String> {
    Some(String::from(s))
}

#[test]
fn all_four_settings_give_settings() {
    let r = settings_from(some("tok"), some("123456789012345678"), some("me@gmail.com"), some("pw"));
    assert_eq!(
        r,
        Ok(Settings {
            token: String::from("tok"),
            recipient: 123456789012345678,
            account: String::from("me@gmail.com"),
            secret: String::from("pw"),
        })
    );
}

#[test]
fn the_first_missing_setting_is_reported() {
    assert_eq!(settings_from(None, None, None, None), Err(ConfigError::Missing(Variable::Token)));
    assert_eq!(
        settings_from(some("t"), None, None, None),
        Err(ConfigError::Missing(Variable::Recipient))
    );
    assert_eq!(
        settings_from(some("t"), some("1"), None, None),
        Err(ConfigError::Missing(Variable::Account))
    );
    assert_eq!(
        settings_from(some("t"), some("1"), some("a"), None),
        Err(ConfigError::Missing(Variable::Secret))
    );
    assert_eq!(
        settings_from(None, some("1"), some("a"), some("s")),
        Err(ConfigError::Missing(Variable::Token))
    );
}

#[test]
fn a_missing_setting_comes_before_a_bad_recipient() {
    assert_eq!(
        settings_from(some("t"), some("not a number"), some("a"), None),
        Err(ConfigError::Missing(Variable::Secret))
    );
}

#[test]
fn a_recipient_that_is_no_number_is_refused() {
    for bad in ["", "abc", "12a", " 12", "12 ", "-1", "+", "++1", "1_000", "0x10", "١٢"] {
        assert_eq!(
            settings_from(some("t"), some(bad), some("a"), some("s")),
            Err(ConfigError::InvalidRecipient),
            "{bad:?}"
        );
    }
}

#[test]
fn recipient_numerals() {
    assert_eq!(recipient_from("0"), Some(0));
    assert_eq!(recipient_from("7"), Some(7));
    assert_eq!(recipient_from("+7"), Some(7));
    assert_eq!(recipient_from("007"), Some(7));
    assert_eq!(recipient_from("18446744073709551615"), Some(u64::MAX));
    assert_eq!(recipient_from("18446744073709551616"), None);
    assert_eq!(recipient_from("18446744073709551620"), None);
    assert_eq!(recipient_from("99999999999999999999999"), None);
    assert_eq!(recipient_from("000000000000000000000000000001"), Some(1));
}

#[test]
fn recipient_numerals_read_as_std_reads_them() {
    for text in ["", "+", "-", "0", "+0", "-0", "42", "+42", "4 2", "18446744073709551615", "18446744073709551616", "a", "1a", "٣"] {
        assert_eq!(recipient_from(text), text.parse::<u64>().ok(), "{text:?}");
    }
}

#[test]
fn variable_names() {
    assert_eq!(Variable::Token.name(), "DISCORD_TOKEN");
    assert_eq!(Variable::Recipient.name(), "DISCORD_USER_ID");
    assert_eq!(Variable::Account.name(), "GMAIL_EMAIL");
    assert_eq!(Variable::Secret.name(), "GMAIL_APP_PASSWORD");
}

#[test]
fn mailbox_is_fixed() {
    assert_eq!(MAILBOX_HOST, "imap.gmail.com");
    assert_eq!(MAILBOX_PORT, 993);
    assert_eq!(MAILBOX_NAME, "INBOX");
}
