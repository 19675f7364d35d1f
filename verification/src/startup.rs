//! The decisions the command-line front end makes around starting the
//! gateway and storing credentials.
use vstd::prelude::*;

use crate::config::{CredentialsFile, Environment, VertexCredentials};
use crate::paths::opt_text;
use crate::text::{
    after_last_colon, contains_text, decimal_text, is_ascii_digit, lemma_after_last_colon_of_suffix,
    lemma_decimal_text_digits, lemma_parse_decimal_text, occurs_in, parsed_u16, same_text, u16_text,
};

verus! {

/// What `serde_json` makes of a JSON text asked for two top-level fields:
/// the string value of field `str_key` (if it is there and is a string) and
/// whether field `present_key` is there; for a text that is not JSON, the
/// text of the parser's error.
pub uninterp spec fn json_fields(text: Seq<char>, str_key: Seq<char>, present_key: Seq<char>) -> Result<
    (Option<Seq<char>>, bool),
    Seq<char>,
>;

/// Calls `serde_json::from_str::<serde_json::Value>`, then `Value::get` with
/// `str_key` (and `Value::as_str`) and with `present_key`, or hands back the
/// error's `Display` text. The contract claims that the outcome depends on the
/// three texts alone, named `json_fields`.
#[verifier::external_body]
fn read_json_fields(text: &str, str_key: &str, present_key: &str) -> (r: Result<(Option<String>, bool), String>)
    ensures
        match r {
            Ok((t, present)) => json_fields(text@, str_key@, present_key@) == Ok::<(Option<Seq<char>>, bool), Seq<char>>((opt_text(t), present)),
            Err(message) => json_fields(text@, str_key@, present_key@) == Err::<(Option<Seq<char>>, bool), Seq<char>>(message@),
        },
{
    match serde_json::from_str::<serde_json::Value>(text) {
        Ok(v) => Ok((v.get(str_key).and_then(|t| t.as_str()).map(|t| t.to_string()), v.get(present_key).is_some())),
        Err(e) => Err(e.to_string()),
    }
}

/// What a key file says of itself: the string `type` field and whether it
/// has a `client_email` field, or the parser's error.
pub open spec fn key_file_fields(text: Seq<char>) -> Result<(Option<Seq<char>>, bool), Seq<char>> {
    json_fields(text, "type"@, "client_email"@)
}

/// Why a key file is refused.
#[derive(Debug, Clone, PartialEq, Eq)]
pub enum KeyFileError {
    /// The file is not JSON; `detail` is the parser's message.
    InvalidJson { detail: String },
    /// The JSON does not look like a Google service account key.
    NotServiceAccount,
}

/// A key file is taken when its `type` is `service_account` or it has a
/// `client_email`.
pub open spec fn accepted_key_fields(fields: (Option<Seq<char>>, bool)) -> bool {
    fields.0 == Some("service_account"@) || fields.1
}

/// Whether the text of a key file looks like a Google service account key.
pub fn check_key_file(text: &str) -> (r: Result<(), KeyFileError>)
    ensures
        match r {
            Ok(()) => key_file_fields(text@) matches Ok(f) && accepted_key_fields(f),
            Err(KeyFileError::InvalidJson { detail }) => key_file_fields(text@) == Err::<(Option<Seq<char>>, bool), Seq<char>>(detail@),
            Err(KeyFileError::NotServiceAccount) => key_file_fields(text@) matches Ok(f)
                && !accepted_key_fields(f),
        },
{
    match read_json_fields(text, "type", "client_email") {
        Ok((type_field, has_client_email)) => {
            let is_service_account = match &type_field {
                Some(t) => same_text(t.as_str(), "service_account"),
                None => false,
            };
            if is_service_account || has_client_email {
                Ok(())
            } else {
                Err(KeyFileError::NotServiceAccount)
            }
        },
        Err(detail) => Err(KeyFileError::InvalidJson { detail }),
    }
}

/// The credentials file with the Vertex key file set to `key_file`; the
/// gateway section is kept as it was.
pub fn with_vertex_key_file(creds: Option<CredentialsFile>, key_file: String) -> (r: CredentialsFile)
    ensures
        r.vertex matches Some(v) && opt_text(v.key_file) == Some(key_file@),
        r.gateway == match creds {
            Some(c) => c.gateway,
            None => None,
        },
{
    let gateway = match creds {
        Some(c) => c.gateway,
        None => None,
    };
    CredentialsFile { vertex: Some(VertexCredentials { key_file: Some(key_file) }), gateway }
}

/// The message with which credential discovery fails when no credentials
/// were found at all.
pub open spec fn no_credentials_marker() -> Seq<char> {
    "no available authentication method found"@
}

/// Whether a credential discovery error means that no credentials were
/// found, for which a longer explanation is shown.
pub fn is_missing_credentials_error(message: &str) -> (r: bool)
    ensures
        r == occurs_in(message@, no_credentials_marker()),
{
    contains_text(message, "no available authentication method found")
}

/// The loopback address of the gateway on `port`, as the banner and the
/// browser see it.
pub open spec fn local_url_text(port: u16) -> Seq<char> {
    "http://127.0.0.1:"@ + decimal_text(port as nat)
}

/// `http://127.0.0.1:` followed by the port.
pub fn local_url(port: u16) -> (r: String)
    ensures
        r@ == local_url_text(port),
{
    let digits = u16_text(port);
    String::from_str("http://127.0.0.1:").concat(digits.as_str())
}

/// The address to listen on: `BIND_ADDR` when set, else the loopback
/// address with the resolved port.
pub open spec fn listen_address_text(bind_addr: Option<Seq<char>>, port: u16) -> Seq<char> {
    match bind_addr {
        Some(a) => a,
        None => "127.0.0.1:"@ + decimal_text(port as nat),
    }
}

/// The address the gateway binds.
pub fn listen_address(env: &Environment, port: u16) -> (r: String)
    ensures
        r@ == listen_address_text(opt_text(env.bind_addr), port),
{
    match &env.bind_addr {
        Some(a) => a.clone(),
        None => {
            let digits = u16_text(port);
            String::from_str("127.0.0.1:").concat(digits.as_str())
        },
    }
}

/// The dashboard's address on a gateway at `address` (host and port).
pub open spec fn dashboard_url_text(address: Seq<char>) -> Seq<char> {
    "http://"@ + address + "/_cram/"@
}

/// `http://{address}/_cram/`.
pub fn dashboard_url(address: &str) -> (r: String)
    ensures
        r@ == dashboard_url_text(address@),
{
    String::from_str("http://").concat(address).concat("/_cram/")
}

/// The dashboard that `cram dash` opens: on `BIND_ADDR` when set, else on
/// the default loopback address.
pub fn dash_command_url(env: &Environment) -> (r: String)
    ensures
        r@ == dashboard_url_text(
            match opt_text(env.bind_addr) {
                Some(a) => a,
                None => "127.0.0.1:8787"@,
            },
        ),
{
    match &env.bind_addr {
        Some(a) => dashboard_url(a.as_str()),
        None => dashboard_url("127.0.0.1:8787"),
    }
}

/// The permission bits to warn about for a credentials file with mode
/// `mode`: its `rwx` bits when group or others have any access; `None` when
/// only the owner does.
pub fn credentials_mode_warning(mode: u32) -> (r: Option<u32>)
    ensures
        match r {
            Some(bits) => mode & 0o077 != 0 && bits == mode & 0o777,
            None => mode & 0o077 == 0,
        },
{
    if mode & 0o077 != 0 {
        Some(mode & 0o777)
    } else {
        None
    }
}

/// The port to suggest when `port` is already in use: the next one up.
pub fn next_port_suggestion(port: u16) -> (r: u32)
    ensures
        r == port + 1,
{
    port as u32 + 1
}

/// The address the gateway binds carries the resolved port: with
/// `BIND_ADDR` unset it is the loopback host, and the number after its last
/// colon reads back as exactly that port; with `BIND_ADDR` set it is that
/// value unchanged.
pub proof fn law_listen_address_carries_port(bind_addr: Option<Seq<char>>, port: u16)
    ensures
        bind_addr is None ==> parsed_u16(after_last_colon(listen_address_text(bind_addr, port))) == Some(port),
        bind_addr is None ==> listen_address_text(bind_addr, port).subrange(0, 10) == "127.0.0.1:"@,
        bind_addr matches Some(a) ==> listen_address_text(bind_addr, port) == a,
{
    reveal_strlit("127.0.0.1:");
    reveal_strlit("127.0.0.1");
    let d = decimal_text(port as nat);
    lemma_parse_decimal_text(port);
    lemma_decimal_text_digits(port as nat);
    assert forall|i: int| 0 <= i < d.len() implies d[i] != ':' by {
        assert(is_ascii_digit(d[i]));
    }
    lemma_after_last_colon_of_suffix("127.0.0.1"@, d);
    assert("127.0.0.1:"@ + d =~= "127.0.0.1"@ + seq![':'] + d);
    assert(("127.0.0.1:"@ + d).subrange(0, 10) =~= "127.0.0.1:"@);
}

/// A key file is refused only when it has neither mark of a service
/// account: a `type` of `service_account` is enough whatever else the file
/// holds, so is a `client_email` field whatever the `type`, and a file with
/// neither is refused.
pub proof fn law_key_file_marks(type_field: Option<Seq<char>>, has_client_email: bool)
    ensures
        accepted_key_fields((Some("service_account"@), has_client_email)),
        accepted_key_fields((type_field, true)),
        type_field != Some("service_account"@) ==> !accepted_key_fields((type_field, false)),
        accepted_key_fields((type_field, has_client_email)) ==> accepted_key_fields((type_field, true)),
{
}

/// The mode a credentials file is created with: read and write for its
/// owner alone. A file that already exists keeps the mode it has.
pub const CREDENTIALS_FILE_MODE: u32 = 0o600;

/// A credentials file that this program creates (with mode
/// `CREDENTIALS_FILE_MODE`) never draws the warning about loose permissions,
/// whatever file-type bits the system adds above the permission bits. A file
/// that existed before keeps its own mode, and this says nothing of it.
pub proof fn law_written_credentials_are_private(file_type_bits: u32)
    requires
        file_type_bits & 0o7777 == 0,
    ensures
        (file_type_bits | CREDENTIALS_FILE_MODE) & 0o077 == 0,
{
    assert((file_type_bits & 0o7777 == 0) ==> ((file_type_bits | 0o600u32) & 0o077 == 0)) by (bit_vector);
}

} // verus!
