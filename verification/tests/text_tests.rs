use kn_bot::command::{classify, Command};
use kn_bot::text::{decimal_text, join2, join3};

#[test]
fn decimal_notation() {
    assert_eq!(decimal_text(0), "0");
    assert_eq!(decimal_text(7), "7");
    assert_eq!(decimal_text(10), "10");
    assert_eq!(decimal_text(465320725), "465320725");
    assert_eq!(decimal_text(u64::MAX), u64::MAX.to_string());
}

#[test]
fn joining() {
    assert_eq!(join2("ab", "cd"), "abcd");
    assert_eq!(join3("a", "", "c"), "ac");
}

#[test]
fn recognised_commands() {
    let cases = [
        ("/casino", Command::Casino),
        ("/darts", Command::Darts),
        ("/dice", Command::Dice),
        ("/help", Command::Help),
        ("/start", Command::Help),
        ("/genoffice", Command::GenOffice),
        ("/genzavod", Command::GenZavod),
        ("/msg", Command::Mail),
        ("/setmail", Command::SetMail),
        ("/shutdown", Command::Shutdown),
        ("/version", Command::Version),
        ("/subscribe", Command::Subscribe),
        ("/unsubscribe", Command::Unsubscribe),
        ("/subscription_status", Command::SubscriptionStatus),
        ("/casino ", Command::Other),
        ("/Casino", Command::Other),
        ("привет", Command::Other),
        ("", Command::Other),
    ];
    for (text, expected) in cases {
        assert_eq!(classify(&text.to_string()), expected, "{text}");
    }
}
