//! The decisions of the interactive flows: what is sent to the licensing
//! service for the lines that the user typed, and what is shown of its answer.

use vstd::prelude::*;
use vstd::string::*;
use crate::explain::{explain_given, explanation_given};
use crate::text::{lowercase, lowercased, same_text, text_of, trim, trimmed, views};

verus! {

/// What is sent to sign in: a license key, or a user name and a password,
/// and the hardware identifier where the program has one.
#[derive(Debug)]
pub struct AuthRequest {
    pub license: Option<String>,
    pub username: Option<String>,
    pub password: Option<String>,
    pub hwid: Option<String>,
}

/// What is sent to bind a user name and a password to a license.
#[derive(Debug)]
pub struct RegisterRequest {
    pub license: String,
    pub username: String,
    pub password: String,
}

/// What the user chose after signing in.
#[derive(Clone, Copy, Debug, PartialEq, Eq, Structural)]
pub enum MenuChoice {
    Exit,
    Register,
    Invalid,
}

/// What the user chose to do.
#[derive(Clone, Copy, Debug, PartialEq, Eq, Structural)]
pub enum Mode {
    Authenticate,
    Register,
    Invalid,
}

/// The text of a borrowed string that may be absent.
pub open spec fn borrowed_text(s: Option<&str>) -> Option<Seq<char>> {
    match s {
        Some(t) => Some(t@),
        None => None,
    }
}

/// A request is one that signs in with this license key and this identifier.
pub open spec fn is_license_request(
    request: AuthRequest,
    key: Seq<char>,
    hwid: Option<Seq<char>>,
) -> bool {
    &&& text_of(request.license) == Some(key)
    &&& request.username.is_none()
    &&& request.password.is_none()
    &&& text_of(request.hwid) == hwid
}

/// A request is one that signs in with this name, password and identifier.
pub open spec fn is_password_request(
    request: AuthRequest,
    username: Seq<char>,
    password: Seq<char>,
    hwid: Option<Seq<char>>,
) -> bool {
    &&& request.license.is_none()
    &&& text_of(request.username) == Some(username)
    &&& text_of(request.password) == Some(password)
    &&& text_of(request.hwid) == hwid
}

/// The line that reports an outcome: green `SUCCESS` or red `FAILED`, then
/// the message, after one empty line.
pub open spec fn result_text(ok: bool, message: Seq<char>) -> Seq<char> {
    if ok {
        "\n\x1b[32mSUCCESS: "@ + message + "\x1b[0m"@
    } else {
        "\n\x1b[31mFAILED: "@ + message + "\x1b[0m"@
    }
}

/// A copy of a borrowed string that may be absent.
fn owned(s: Option<&str>) -> (out: Option<String>)
    ensures
        text_of(out) == borrowed_text(s),
{
    match s {
        Some(t) => Some(String::from_str(t)),
        None => None,
    }
}

/// The request for the line typed at the prompt for a license key: with the
/// key, where the line holds one; nothing where it is blank, and the user is
/// to be asked for a name and a password.
pub fn license_login(key_line: &str, hwid: Option<&str>) -> (request: Option<AuthRequest>)
    ensures
        request.is_none() == (trimmed(key_line@).len() == 0),
        request.is_some() ==> is_license_request(
            request.unwrap(),
            trimmed(key_line@),
            borrowed_text(hwid),
        ),
{
    let key = trim(key_line);
    if key.as_str().is_empty() {
        None
    } else {
        Some(AuthRequest { license: Some(key), username: None, password: None, hwid: owned(hwid) })
    }
}

/// The request for a name and a password as they were typed, blank or not.
pub fn credentials_request(username_line: &str, password_line: &str, hwid: Option<&str>) -> (request:
    AuthRequest)
    ensures
        is_password_request(
            request,
            trimmed(username_line@),
            trimmed(password_line@),
            borrowed_text(hwid),
        ),
{
    AuthRequest {
        license: None,
        username: Some(trim(username_line)),
        password: Some(trim(password_line)),
        hwid: owned(hwid),
    }
}

/// The request for a name and a password, both of which are required:
/// nothing where either line is blank, and then nothing is to be sent.
pub fn password_login(username_line: &str, password_line: &str, hwid: Option<&str>) -> (request:
    Option<AuthRequest>)
    ensures
        request.is_none() == (trimmed(username_line@).len() == 0 || trimmed(password_line@).len()
            == 0),
        request.is_some() ==> is_password_request(
            request.unwrap(),
            trimmed(username_line@),
            trimmed(password_line@),
            borrowed_text(hwid),
        ),
{
    let request = credentials_request(username_line, password_line, hwid);
    let blank = match (&request.username, &request.password) {
        (Some(u), Some(p)) => u.as_str().is_empty() || p.as_str().is_empty(),
        _ => true,
    };
    if blank {
        None
    } else {
        Some(request)
    }
}

/// The registration for three lines as they were typed, all of which are
/// required: nothing where the license, the name or the password is blank,
/// and then nothing is to be sent.
pub fn registration(license_line: &str, username_line: &str, password_line: &str) -> (request:
    Option<RegisterRequest>)
    ensures
        request.is_none() == (trimmed(license_line@).len() == 0 || trimmed(username_line@).len()
            == 0 || trimmed(password_line@).len() == 0),
        request.is_some() ==> {
            &&& request.unwrap().license@ == trimmed(license_line@)
            &&& request.unwrap().username@ == trimmed(username_line@)
            &&& request.unwrap().password@ == trimmed(password_line@)
        },
{
    let license = trim(license_line);
    let username = trim(username_line);
    let password = trim(password_line);
    if license.as_str().is_empty() || username.as_str().is_empty() || password.as_str().is_empty() {
        None
    } else {
        Some(RegisterRequest { license, username, password })
    }
}

/// The registration of a name and a password under a license, all of which
/// are required: nothing where the license is empty or the line of the name
/// or of the password is blank, and then nothing is to be sent. The license
/// is sent as it is.
pub fn register_request(license: &str, username_line: &str, password_line: &str) -> (request:
    Option<RegisterRequest>)
    ensures
        request.is_none() == (license@.len() == 0 || trimmed(username_line@).len() == 0 || trimmed(
            password_line@,
        ).len() == 0),
        request.is_some() ==> {
            &&& request.unwrap().license@ == license@
            &&& request.unwrap().username@ == trimmed(username_line@)
            &&& request.unwrap().password@ == trimmed(password_line@)
        },
{
    let username = trim(username_line);
    let password = trim(password_line);
    if license.is_empty() || username.as_str().is_empty() || password.as_str().is_empty() {
        None
    } else {
        Some(RegisterRequest { license: String::from_str(license), username, password })
    }
}

/// What is shown of a registration that the service answered: the line that
/// reports the outcome and, where it failed, the explanation of its message.
pub open spec fn registration_text(success: bool, message: Seq<char>) -> Seq<Seq<char>> {
    if success {
        seq![result_text(true, message)]
    } else {
        seq![result_text(false, message)] + explanation_given(message, None, None, None)
    }
}

/// Says what came of a registration that the service answered.
pub fn registration_lines(success: bool, message: &str) -> (lines: Vec<String>)
    ensures
        views(lines@) == registration_text(success, message@),
{
    let mut lines: Vec<String> = Vec::new();
    lines.push(result_line(success, message));
    assert(views(lines@) =~= seq![result_text(success, message@)]);
    if !success {
        let mut rest = explain_given(message, None, None, None);
        let ghost head = lines@;
        let ghost tail = rest@;
        lines.append(&mut rest);
        assert(views(head + tail) =~= views(head) + views(tail));
    }
    lines
}

/// What signing in comes to: whether access is granted, and with it the
/// license key that the service named, if it named one.
pub fn login_outcome(success: bool, key: Option<String>) -> (outcome: (bool, Option<String>))
    ensures
        outcome.0 == success,
        outcome.1 == (if success {
            key
        } else {
            None
        }),
{
    if success {
        (true, key)
    } else {
        (false, None)
    }
}

/// The line that reports an outcome.
pub fn result_line(ok: bool, message: &str) -> (line: String)
    ensures
        line@ == result_text(ok, message@),
{
    let mut line = if ok {
        String::from_str("\n\x1b[32mSUCCESS: ")
    } else {
        String::from_str("\n\x1b[31mFAILED: ")
    };
    line.append(message);
    line.append("\x1b[0m");
    line
}

/// What a command in lower case asks for.
pub open spec fn command_meaning(command: Seq<char>) -> MenuChoice {
    if command == "exit"@ {
        MenuChoice::Exit
    } else if command == "register"@ {
        MenuChoice::Register
    } else {
        MenuChoice::Invalid
    }
}

/// Reads a command that is already in lower case and without white space
/// round it.
pub fn command_choice(command: &str) -> (choice: MenuChoice)
    ensures
        choice == command_meaning(command@),
{
    if same_text(command, "exit") {
        MenuChoice::Exit
    } else if same_text(command, "register") {
        MenuChoice::Register
    } else {
        MenuChoice::Invalid
    }
}

/// Reads the command typed after signing in, in any case of letters.
pub fn menu_choice(line: &str) -> (choice: MenuChoice)
    ensures
        choice == command_meaning(lowercased(trimmed(line@))),
{
    let command = lowercase(trim(line).as_str());
    command_choice(command.as_str())
}

/// Reads the number typed at the first prompt.
pub fn mode_choice(line: &str) -> (mode: Mode)
    ensures
        mode == (if trimmed(line@) == "1"@ {
            Mode::Authenticate
        } else if trimmed(line@) == "2"@ {
            Mode::Register
        } else {
            Mode::Invalid
        }),
{
    let choice = trim(line);
    if same_text(choice.as_str(), "1") {
        Mode::Authenticate
    } else if same_text(choice.as_str(), "2") {
        Mode::Register
    } else {
        Mode::Invalid
    }
}

} // verus!
