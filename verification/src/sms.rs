//! The text-message gateway request: where it goes, how it is authorised,
//! what its form body holds, and how the gateway's answer is read.

use crate::text::push_decimal;
use base64::Engine;
use vstd::prelude::*;
use vstd::utf8::encode_utf8;

verus! {

/// The gateway address up to the account identifier.
pub const GATEWAY_URL_START: &'static str = "https://api.twilio.com/2010-04-01/Accounts/";

/// The gateway address after the account identifier.
pub const GATEWAY_URL_END: &'static str = "/Messages.json";

/// Content type of the form body.
pub const FORM_CONTENT_TYPE: &'static str = "application/x-www-form-urlencoded";

/// Bytes that percent-encoding leaves as they are: ASCII letters and digits,
/// `-`, `.`, `_` and `~`.
pub open spec fn is_unreserved(b: u8) -> bool {
    ||| 0x30 <= b <= 0x39
    ||| 0x41 <= b <= 0x5a
    ||| 0x61 <= b <= 0x7a
    ||| b == 0x2d
    ||| b == 0x2e
    ||| b == 0x5f
    ||| b == 0x7e
}

/// The upper-case hexadecimal digit for a value below sixteen.
pub open spec fn hex_digit_upper(nibble: u8) -> char {
    if nibble < 10 {
        (0x30 + nibble) as char
    } else {
        (0x41 + nibble - 10) as char
    }
}

/// One byte, percent-encoded: itself when unreserved, otherwise `%` and two
/// upper-case hexadecimal digits.
pub open spec fn percent_encoded_byte(b: u8) -> Seq<char> {
    if is_unreserved(b) {
        seq![b as char]
    } else {
        seq!['%', hex_digit_upper(b / 16), hex_digit_upper(b % 16)]
    }
}

/// A byte string, percent-encoded byte by byte.
pub open spec fn percent_encoding(bytes: Seq<u8>) -> Seq<char>
    decreases bytes.len(),
{
    if bytes.len() == 0 {
        Seq::<char>::empty()
    } else {
        percent_encoded_byte(bytes[0]) + percent_encoding(bytes.drop_first())
    }
}

/// A text, percent-encoded over its UTF-8 bytes.
pub open spec fn url_encoded(text: Seq<char>) -> Seq<char> {
    percent_encoding(encode_utf8(text))
}

/// The standard-alphabet, padded base64 encoding of a byte string.
pub uninterp spec fn base64_standard(bytes: Seq<u8>) -> Seq<char>;

/// Calls `urlencoding::encode`.
///
/// Assumed, as the crate documents it: every byte of the UTF-8 text is
/// percent-encoded except ASCII letters, digits, `-`, `_`, `.` and `~`, with
/// upper-case hexadecimal digits.
#[verifier::external_body]
fn percent_encode(text: &str) -> (res: String)
    ensures
        res@ == url_encoded(text@),
{
    urlencoding::encode(text).into_owned()
}

/// Calls `Engine::encode` on `base64::engine::general_purpose::STANDARD`.
///
/// Assumed: the result is a function of the bytes alone. (The call fails
/// only for inputs longer than three quarters of the address space, which no
/// slice is.)
#[verifier::external_body]
fn base64_encode(bytes: &[u8]) -> (res: String)
    ensures
        res@ == base64_standard(bytes@),
{
    base64::engine::general_purpose::STANDARD.encode(bytes)
}

/// What an HTTP basic-authentication credential holds before encoding.
pub open spec fn credentials_text(username: Seq<char>, password: Seq<char>) -> Seq<char> {
    username + seq![':'] + password
}

/// Encode basic authentication for the gateway: base64 of
/// `username:password`.
pub fn encode_basic_auth(username: &str, password: &str) -> (res: String)
    ensures
        res@ == base64_standard(encode_utf8(credentials_text(username@, password@))),
{
    let mut credentials = username.to_owned();
    credentials.append(":");
    credentials.append(password);
    proof {
        reveal_strlit(":");
        assert(credentials@ =~= credentials_text(username@, password@));
    }
    base64_encode(credentials.as_str().as_bytes())
}

/// Account and numbers needed to send one text message.
#[derive(Debug, Clone, PartialEq)]
pub struct SmsConfig {
    pub account_sid: String,
    pub auth_token: String,
    pub from_number: String,
    pub to_number: String,
}

/// A gateway request ready to be posted.
#[derive(Debug, Clone, PartialEq)]
pub struct SmsRequest {
    pub url: String,
    /// Value of the `Authorization` header.
    pub authorization: String,
    /// Form-encoded body.
    pub body: String,
}

/// The address messages for an account are posted to.
pub open spec fn gateway_url_text(account_sid: Seq<char>) -> Seq<char> {
    GATEWAY_URL_START@ + account_sid + GATEWAY_URL_END@
}

/// The `Authorization` header value for an account.
pub open spec fn authorization_text(account_sid: Seq<char>, auth_token: Seq<char>) -> Seq<char> {
    "Basic "@ + base64_standard(encode_utf8(credentials_text(account_sid, auth_token)))
}

/// The form body of a message: sender, recipient and text, each
/// percent-encoded.
pub open spec fn form_body_text(from: Seq<char>, to: Seq<char>, message: Seq<char>) -> Seq<
    char,
> {
    "From="@ + url_encoded(from) + "&To="@ + url_encoded(to) + "&Body="@ + url_encoded(message)
}

/// The address messages for `account_sid` are posted to.
pub fn gateway_url(account_sid: &str) -> (res: String)
    ensures
        res@ == gateway_url_text(account_sid@),
{
    let mut url = GATEWAY_URL_START.to_owned();
    url.append(account_sid);
    url.append(GATEWAY_URL_END);
    url
}

/// The form body that asks the gateway to text `message` from `from` to `to`.
pub fn form_body(from: &str, to: &str, message: &str) -> (res: String)
    ensures
        res@ == form_body_text(from@, to@, message@),
{
    let mut body = "From=".to_owned();
    body.append(percent_encode(from).as_str());
    body.append("&To=");
    body.append(percent_encode(to).as_str());
    body.append("&Body=");
    body.append(percent_encode(message).as_str());
    body
}

/// Builds the request that sends `message` with the given account.
pub fn build_sms_request(config: &SmsConfig, message: &str) -> (res: SmsRequest)
    ensures
        res.url@ == gateway_url_text(config.account_sid@),
        res.authorization@ == authorization_text(config.account_sid@, config.auth_token@),
        res.body@ == form_body_text(config.from_number@, config.to_number@, message@),
{
    let mut authorization = "Basic ".to_owned();
    authorization.append(
        encode_basic_auth(config.account_sid.as_str(), config.auth_token.as_str()).as_str(),
    );
    SmsRequest {
        url: gateway_url(config.account_sid.as_str()),
        authorization,
        body: form_body(config.from_number.as_str(), config.to_number.as_str(), message),
    }
}

/// Whether an HTTP status is in the 2xx range.
pub open spec fn is_success(status: int) -> bool {
    200 <= status < 300
}

/// Whether an HTTP status reports success.
pub fn is_success_status(status: u16) -> (res: bool)
    ensures
        res == is_success(status as int),
{
    status >= 200 && status < 300
}

/// The message for a failed call to a service:
/// `<service> API error <status>: <body>`.
pub open spec fn api_error_text(service: Seq<char>, status: int, body: Seq<char>) -> Seq<char> {
    service + " API error "@ + crate::text::decimal_text(status as nat) + ": "@ + body
}

/// Describes a failed call to `service`.
pub fn api_error(service: &str, status: u16, body: &str) -> (res: String)
    ensures
        res@ == api_error_text(service@, status as int, body@),
{
    let mut text = service.to_owned();
    text.append(" API error ");
    push_decimal(&mut text, status as u64);
    text.append(": ");
    text.append(body);
    text
}

/// Reads the gateway's answer: success for any 2xx status, otherwise the
/// error text with the status and body.
pub fn delivery_result(status: u16, body: &str) -> (res: Result<(), String>)
    ensures
        is_success(status as int) <==> res is Ok,
        res matches Err(e) ==> e@ == api_error_text("Twilio"@, status as int, body@),
{
    if is_success_status(status) {
        Ok(())
    } else {
        Err(api_error("Twilio", status, body))
    }
}

} // verus!
