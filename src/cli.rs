use vstd::prelude::*;
use vstd::string::StringSliceAdditionalSpecFns;
use vstd::utf8::{decode_utf8, encode_utf8_decode_utf8, is_char_boundary};

use crate::text::{same_text, trim_chars, trimmed};

verus! {

/// The prompt to send as given, or `None` when it is to be read from standard input: no
/// prompt was given, or the prompt is a lone `-`.
pub fn read_prompt(prompt: Option<String>) -> (r: Option<String>)
    ensures
        match prompt {
            Some(p) => if trim_chars(p@) == "-"@ {
                r is None
            } else {
                r == Some(p)
            },
            None => r is None,
        },
{
    match prompt {
        Some(p) => {
            if same_text(trimmed(p.as_str()), "-") {
                None
            } else {
                Some(p)
            }
        },
        None => None,
    }
}

/// The text that was read, trimmed; `None` when nothing but white space was read.
pub fn nonempty_trimmed(text: &str) -> (r: Option<String>)
    ensures
        match r {
            Some(s) => s@ == trim_chars(text@) && s@.len() > 0,
            None => trim_chars(text@).len() == 0,
        },
{
    let t = trimmed(text);
    if t.is_empty() {
        None
    } else {
        Some(t.to_owned())
    }
}

/// The characters that bytes `lo` to `hi` of `s` encode.
pub open spec fn byte_slice_text(s: &str, lo: int, hi: int) -> Seq<char> {
    decode_utf8(s.spec_bytes().subrange(lo, hi))
}

/// Whether the preview of `key` can cut it: a key of more than six bytes is cut after its
/// third byte and before its last three, which must fall between characters.
pub open spec fn preview_cuts_ok(key: &str) -> bool {
    let n = key.spec_bytes().len() as int;
    n > 6 ==> is_char_boundary(key.spec_bytes(), 3) && is_char_boundary(key.spec_bytes(), n - 3)
}

/// A preview of a secret key that hides all but its first and last three bytes; a key of
/// six bytes or fewer is hidden whole.
pub fn safe_key_preview(key: &str) -> (r: String)
    requires
        preview_cuts_ok(key),
    ensures
        key.spec_bytes().len() <= 6 ==> r@ == "***"@,
        key.spec_bytes().len() > 6 ==> r@ == byte_slice_text(key, 0, 3) + "***"@
            + byte_slice_text(key, key.spec_bytes().len() - 3, key.spec_bytes().len() as int),
{
    let n = key.as_bytes().len();
    if n <= 6 {
        return "***".to_owned();
    }
    let (prefix, _) = key.split_at(3);
    let (_, suffix) = key.split_at(n - 3);
    proof {
        encode_utf8_decode_utf8(prefix@);
        encode_utf8_decode_utf8(suffix@);
    }
    let mut r = prefix.to_owned();
    r.append("***");
    r.append(suffix);
    r
}

/// The command that resumes a session, given its id.
pub fn resume_command(session_id: &str) -> (r: String)
    ensures
        r@ == "cleon --resume "@ + session_id@,
{
    let mut r = "cleon --resume ".to_owned();
    r.append(session_id);
    r
}

/// A login method that the workspace's configuration demands.
#[derive(Debug, Clone, Copy, PartialEq, Eq, Structural)]
pub enum ForcedLogin {
    Api,
    Chatgpt,
}

/// How to log in.
#[derive(Debug, Clone, Copy, PartialEq, Eq, Structural)]
pub enum LoginMethod {
    /// Store the API key given on the command line.
    ApiKeyGiven,
    /// Store the API key read from standard input.
    ApiKeyFromStdin,
    /// Run the device code flow.
    DeviceCode,
    /// Run the browser flow through a local server.
    Browser,
}

/// Why a login cannot go ahead.
#[derive(Debug, Clone, Copy, PartialEq, Eq, Structural)]
pub enum LoginError {
    /// The device code flow was asked for together with an API key.
    DeviceCodeWithApiKey,
    /// The workspace demands an API key and none is to be used.
    ApiKeyRequired,
    /// The workspace demands a ChatGPT login and an API key was offered.
    ChatgptRequired,
}

/// Whether the login options contradict each other.
pub open spec fn flags_conflict(device_code: bool, with_api_key: bool, api_key_given: bool) -> bool {
    device_code && (with_api_key || api_key_given)
}

/// The login that the options and the workspace's demand call for.
pub open spec fn login_plan(
    device_code: bool,
    with_api_key: bool,
    api_key_given: bool,
    forced: Option<ForcedLogin>,
) -> Result<LoginMethod, LoginError> {
    let uses_key = with_api_key || api_key_given;
    if flags_conflict(device_code, with_api_key, api_key_given) {
        Err(LoginError::DeviceCodeWithApiKey)
    } else if forced == Some(ForcedLogin::Api) && (device_code || !uses_key) {
        Err(LoginError::ApiKeyRequired)
    } else if forced == Some(ForcedLogin::Chatgpt) && uses_key {
        Err(LoginError::ChatgptRequired)
    } else if api_key_given {
        Ok(LoginMethod::ApiKeyGiven)
    } else if with_api_key {
        Ok(LoginMethod::ApiKeyFromStdin)
    } else if device_code {
        Ok(LoginMethod::DeviceCode)
    } else {
        Ok(LoginMethod::Browser)
    }
}

/// Checks that the login options do not contradict each other.
pub fn check_login_flags(device_code: bool, with_api_key: bool, api_key_given: bool) -> (r: Result<
    (),
    LoginError,
>)
    ensures
        r is Err <==> flags_conflict(device_code, with_api_key, api_key_given),
        r is Err ==> r == Err::<(), LoginError>(LoginError::DeviceCodeWithApiKey),
{
    if device_code && (with_api_key || api_key_given) {
        Err(LoginError::DeviceCodeWithApiKey)
    } else {
        Ok(())
    }
}

/// Picks how to log in, or says why the login cannot go ahead.
pub fn plan_login(
    device_code: bool,
    with_api_key: bool,
    api_key_given: bool,
    forced: Option<ForcedLogin>,
) -> (r: Result<LoginMethod, LoginError>)
    ensures
        r == login_plan(device_code, with_api_key, api_key_given, forced),
{
    if check_login_flags(device_code, with_api_key, api_key_given).is_err() {
        return Err(LoginError::DeviceCodeWithApiKey);
    }
    let uses_key = with_api_key || api_key_given;
    match forced {
        Some(ForcedLogin::Api) => {
            if device_code || !uses_key {
                return Err(LoginError::ApiKeyRequired);
            }
        },
        Some(ForcedLogin::Chatgpt) => {
            if uses_key {
                return Err(LoginError::ChatgptRequired);
            }
        },
        None => {},
    }
    if api_key_given {
        Ok(LoginMethod::ApiKeyGiven)
    } else if with_api_key {
        Ok(LoginMethod::ApiKeyFromStdin)
    } else if device_code {
        Ok(LoginMethod::DeviceCode)
    } else {
        Ok(LoginMethod::Browser)
    }
}

} // verus!
