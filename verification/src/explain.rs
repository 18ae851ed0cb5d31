//! Explanations of the failure codes that the licensing service returns.

use vstd::prelude::*;
use vstd::string::*;
use crate::text::{decimal_digits, decimal_string, same_text, text_of, views};

verus! {

/// A field of a failure's data that is meant to hold a text: the service sent
/// none, or sent a value that is no text, or sent a text.
#[derive(Debug)]
pub enum TextField {
    Absent,
    NotText,
    Text(String),
}

/// The fields of a failure's data that an explanation reads. The time of
/// expiry tells a value of another type from none at all; each of the other
/// fields is absent where the service sent none, or sent one of another type.
#[derive(Debug)]
pub struct ErrorData {
    pub expires_at: TextField,
    pub hwid_reset_allowed: Option<bool>,
    pub last_hwid_reset_at: Option<String>,
    pub hwid_reset_cooldown: Option<i64>,
}

/// Whether a text is a date and time in the RFC 3339 notation.
pub uninterp spec fn is_rfc3339(stamp: Seq<char>) -> bool;

/// The date and time that `stamp` gives in the RFC 3339 notation, written
/// after `pattern`, in the time zone that `stamp` names.
pub uninterp spec fn rfc3339_formatted(stamp: Seq<char>, pattern: Seq<char>) -> Seq<char>;

/// The pattern of a date and time as an explanation shows it.
pub open spec fn civil_pattern() -> Seq<char> {
    "%Y-%m-%d %H:%M:%S"@
}

/// `DateTime::parse_from_rfc3339` of the `chrono` crate, then `format` on what
/// it returned. There is a result exactly where the text is accepted; it is
/// then the text that `format` writes, which depends on the stamp and the
/// pattern alone. The pattern is held to the one that is known to be well
/// formed.
#[verifier::external_body]
fn format_rfc3339(stamp: &str, pattern: &str) -> (text: Option<String>)
    requires
        pattern@ == civil_pattern(),
    ensures
        text.is_some() == is_rfc3339(stamp@),
        text.is_some() ==> text.unwrap()@ == rfc3339_formatted(stamp@, pattern@),
{
    match chrono::DateTime::parse_from_rfc3339(stamp) {
        Ok(moment) => Some(moment.format(pattern).to_string()),
        Err(_) => None,
    }
}

/// `DateTime::parse_from_rfc3339` of the `chrono` crate, then the whole
/// seconds (`num_seconds`) that `Utc::now()` lies after that moment
/// (`signed_duration_since`). There is a result
/// exactly where the text is accepted; its value depends on the clock, and
/// nothing is claimed of it.
#[verifier::external_body]
fn seconds_since(stamp: &str) -> (elapsed: Option<i64>)
    ensures
        elapsed.is_some() == is_rfc3339(stamp@),
{
    match chrono::DateTime::parse_from_rfc3339(stamp) {
        Ok(moment) => Some(chrono::Utc::now().signed_duration_since(moment).num_seconds()),
        Err(_) => None,
    }
}

/// The data names a time of expiry.
pub open spec fn names_expiry(data: Option<&ErrorData>) -> bool {
    data.is_some() && !(data.unwrap().expires_at is Absent)
}

/// The data allows a reset of the hardware identifier.
pub open spec fn reset_allowed(data: Option<&ErrorData>) -> bool {
    data.is_some() && data.unwrap().hwid_reset_allowed == Some(true)
}

/// The data names both the time of the last reset and the cooldown.
pub open spec fn names_cooldown(data: Option<&ErrorData>) -> bool {
    data.is_some() && data.unwrap().last_hwid_reset_at.is_some()
        && data.unwrap().hwid_reset_cooldown.is_some()
}

/// The seconds still to wait: the cooldown less the time gone by.
pub open spec fn remaining(cooldown: i64, elapsed: i64) -> int {
    cooldown - elapsed
}

/// What is said of an expired license. `expiry` is the time of expiry as it
/// is shown, absent where the data names none that can be read. Where the
/// data names one, as a text or as a value of another type, and it cannot be
/// read, the date is said to be invalid; where the data names none, only the
/// expiry is stated.
pub open spec fn expired_lines(data: Option<&ErrorData>, expiry: Option<Seq<char>>) -> Seq<
    Seq<char>,
> {
    if names_expiry(data) {
        match expiry {
            Some(shown) => seq!["License expired on: "@ + shown + " UTC"@],
            None => seq!["License has expired (invalid date format)."@],
        }
    } else {
        seq!["License has expired."@]
    }
}

/// What is said after the first line of a hardware mismatch. `elapsed` is the
/// time in seconds since the last reset, absent where the data names no time
/// that can be read.
pub open spec fn reset_advice(data: Option<&ErrorData>, elapsed: Option<i64>) -> Seq<char> {
    if !reset_allowed(data) {
        "HWID reset not allowed."@
    } else if !names_cooldown(data) {
        "Try resetting HWID."@
    } else {
        match elapsed {
            Some(gone) => {
                let left = remaining(data.unwrap().hwid_reset_cooldown.unwrap(), gone);
                if left > 0 {
                    "Reset available in "@ + decimal_digits(left as nat) + " seconds."@
                } else {
                    "HWID reset is now available."@
                }
            },
            None => "Try resetting HWID (invalid timestamp)."@,
        }
    }
}

/// The lines that explain a failure code, given what was read from the data.
pub open spec fn explanation_given(
    code: Seq<char>,
    data: Option<&ErrorData>,
    expiry: Option<Seq<char>>,
    elapsed: Option<i64>,
) -> Seq<Seq<char>> {
    if code == "LICENSE_NOT_FOUND"@ {
        seq!["License key not found – double-check it."@]
    } else if code == "INVALID_USERNAME_OR_PASSWORD"@ {
        seq!["Wrong username or password."@]
    } else if code == "LICENSE_NOT_ACTIVE"@ {
        seq!["License is not active – contact support."@]
    } else if code == "DEVICE_ALREADY_REGISTERED_WITH_OTHER_LICENSE"@ {
        seq!["This device is already bound to another license."@]
    } else if code == "LICENSE_EXPIRED"@ {
        expired_lines(data, expiry)
    } else if code == "HWID_MISMATCH"@ {
        seq!["HWID does not match the registered device."@, reset_advice(data, elapsed)]
    } else {
        seq!["Unexpected error: "@ + code + ". Contact support."@]
    }
}

/// The time of expiry as it is shown, where the data names one as a text
/// that can be read.
pub open spec fn expiry_reading(data: Option<&ErrorData>) -> Option<Seq<char>> {
    match data {
        Some(d) => match d.expires_at {
            TextField::Text(stamp) => if is_rfc3339(stamp@) {
                Some(rfc3339_formatted(stamp@, civil_pattern()))
            } else {
                None
            },
            _ => None,
        },
        None => None,
    }
}

/// The time since the last reset, where the data names a time that can be
/// read.
pub open spec fn elapsed_reading(data: Option<&ErrorData>, elapsed: i64) -> Option<i64> {
    if data.is_some() && data.unwrap().last_hwid_reset_at.is_some() && is_rfc3339(
        data.unwrap().last_hwid_reset_at.unwrap()@,
    ) {
        Some(elapsed)
    } else {
        None
    }
}

/// The lines that explain a failure code when `elapsed` seconds have gone by
/// since the time of the last reset that the data names.
pub open spec fn explanation(code: Seq<char>, data: Option<&ErrorData>, elapsed: i64) -> Seq<
    Seq<char>,
> {
    explanation_given(code, data, expiry_reading(data), elapsed_reading(data, elapsed))
}

/// One line.
fn one_line(text: String) -> (lines: Vec<String>)
    ensures
        views(lines@) == seq![text@],
{
    let mut lines: Vec<String> = Vec::new();
    lines.push(text);
    assert(views(lines@) =~= seq![text@]);
    lines
}

/// Says what is known of an expired license.
pub fn explain_expired(data: Option<&ErrorData>, expiry: Option<String>) -> (lines: Vec<String>)
    ensures
        views(lines@) == expired_lines(data, text_of(expiry)),
{
    let named = match data {
        Some(d) => match d.expires_at {
            TextField::Absent => false,
            _ => true,
        },
        None => false,
    };
    if named {
        match expiry {
            Some(shown) => {
                let mut text = String::from_str("License expired on: ");
                text.append(shown.as_str());
                text.append(" UTC");
                one_line(text)
            },
            None => one_line(String::from_str("License has expired (invalid date format).")),
        }
    } else {
        one_line(String::from_str("License has expired."))
    }
}

/// Says whether and when the hardware identifier can be reset.
pub fn advise_reset(data: Option<&ErrorData>, elapsed: Option<i64>) -> (advice: String)
    ensures
        advice@ == reset_advice(data, elapsed),
{
    let (allowed, cooldown) = match data {
        Some(d) => (
            match d.hwid_reset_allowed {
                Some(yes) => yes,
                None => false,
            },
            if d.last_hwid_reset_at.is_some() {
                d.hwid_reset_cooldown
            } else {
                None
            },
        ),
        None => (false, None),
    };
    if !allowed {
        return String::from_str("HWID reset not allowed.");
    }
    match cooldown {
        None => String::from_str("Try resetting HWID."),
        Some(wait) => match elapsed {
            Some(gone) => {
                let left: i128 = wait as i128 - gone as i128;
                if left > 0 {
                    let mut text = String::from_str("Reset available in ");
                    text.append(decimal_string(left as u128).as_str());
                    text.append(" seconds.");
                    text
                } else {
                    String::from_str("HWID reset is now available.")
                }
            },
            None => String::from_str("Try resetting HWID (invalid timestamp)."),
        },
    }
}

/// Explains a failure code, given what was read from the data: the time of
/// expiry as it is shown, and the seconds since the last reset.
pub fn explain_given(
    code: &str,
    data: Option<&ErrorData>,
    expiry: Option<String>,
    elapsed: Option<i64>,
) -> (lines: Vec<String>)
    ensures
        views(lines@) == explanation_given(code@, data, text_of(expiry), elapsed),
{
    if same_text(code, "LICENSE_NOT_FOUND") {
        one_line(String::from_str("License key not found – double-check it."))
    } else if same_text(code, "INVALID_USERNAME_OR_PASSWORD") {
        one_line(String::from_str("Wrong username or password."))
    } else if same_text(code, "LICENSE_NOT_ACTIVE") {
        one_line(String::from_str("License is not active – contact support."))
    } else if same_text(code, "DEVICE_ALREADY_REGISTERED_WITH_OTHER_LICENSE") {
        one_line(String::from_str("This device is already bound to another license."))
    } else if same_text(code, "LICENSE_EXPIRED") {
        explain_expired(data, expiry)
    } else if same_text(code, "HWID_MISMATCH") {
        let advice = advise_reset(data, elapsed);
        let mut lines = one_line(String::from_str("HWID does not match the registered device."));
        let ghost before = lines@;
        assert(views(before).len() == 1);
        assert(views(before)[0] == "HWID does not match the registered device."@);
        lines.push(advice);
        assert(views(lines@) =~= seq![
            "HWID does not match the registered device."@,
            reset_advice(data, elapsed),
        ]);
        lines
    } else {
        let mut text = String::from_str("Unexpected error: ");
        text.append(code);
        text.append(". Contact support.");
        one_line(text)
    }
}

/// Explains a failure code to the user. The time of expiry is read from the
/// data; the time since the last reset is taken from the clock, and only
/// where the explanation depends on it.
pub fn explain(code: &str, data: Option<&ErrorData>) -> (lines: Vec<String>)
    ensures
        exists|elapsed: i64| views(lines@) == #[trigger] explanation(code@, data, elapsed),
{
    let mut expiry: Option<String> = None;
    let mut elapsed: Option<i64> = None;
    if let Some(d) = data {
        if same_text(code, "LICENSE_EXPIRED") {
            if let TextField::Text(stamp) = &d.expires_at {
                expiry = format_rfc3339(stamp.as_str(), "%Y-%m-%d %H:%M:%S");
            }
        } else if same_text(code, "HWID_MISMATCH") {
            let allowed = match d.hwid_reset_allowed {
                Some(yes) => yes,
                None => false,
            };
            if allowed && d.hwid_reset_cooldown.is_some() {
                if let Some(stamp) = &d.last_hwid_reset_at {
                    elapsed = seconds_since(stamp.as_str());
                }
            }
        }
    }
    let lines = explain_given(code, data, expiry, elapsed);
    proof {
        let gone: i64 = match elapsed {
            Some(e) => e,
            None => 0,
        };
        assert(views(lines@) == explanation(code@, data, gone));
    }
    lines
}

/// The line that announces a failure: the code, in red.
pub open spec fn banner_text(code: Seq<char>) -> Seq<char> {
    "\x1b[31mAuthentication failed: "@ + code + "\x1b[0m"@
}

/// The line that announces a failure.
pub fn failure_banner(code: &str) -> (line: String)
    ensures
        line@ == banner_text(code@),
{
    let mut line = String::from_str("\x1b[31mAuthentication failed: ");
    line.append(code);
    line.append("\x1b[0m");
    line
}

/// All that is shown of a failure: the line that announces it, then its
/// explanation.
pub fn failure_lines(code: &str, data: Option<&ErrorData>) -> (lines: Vec<String>)
    ensures
        exists|elapsed: i64|
            views(lines@) == seq![banner_text(code@)] + #[trigger] explanation(
                code@,
                data,
                elapsed,
            ),
{
    let mut lines = one_line(failure_banner(code));
    let mut rest = explain(code, data);
    let ghost head = lines@;
    let ghost tail = rest@;
    lines.append(&mut rest);
    proof {
        let elapsed = choose|elapsed: i64| views(tail) == #[trigger] explanation(code@, data, elapsed);
        assert(views(head).len() == 1);
        assert(views(head + tail) =~= views(head) + views(tail));
        assert(views(lines@) == seq![banner_text(code@)] + explanation(code@, data, elapsed));
    }
    lines
}

} // verus!
