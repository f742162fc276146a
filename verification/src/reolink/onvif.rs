//! The ONVIF interface of the camera: SOAP messages for moving it and for asking how it
//! moves.
use crate::error::{error_model, result_model, AppError, AppResult, ErrorKind, ErrorModel};
use crate::json::{is_same_name, option_model, same_name};
use crate::model::{PtzDirection, PtzSpeed};
use crate::reolink::client::{shortened, truncate_text, HttpReply, HttpReplyModel};
use crate::reolink::media::base64_text;
use crate::reolink::xml::{
    attribute_value, content_of, escape_xml, escaped, extract_all_tag_values, extract_attribute,
    extract_first_tag_attribute_by_local_name, extract_first_tag_inner_by_local_name,
    extract_first_tag_text_by_local_name, find_next_open_tag, has_tag_with_local_name, inner_of,
    local_part, next_tag, tag_attribute, tag_content, tag_named, tag_values, text_models, text_of,
    OpenTag, TagModel,
};
use crate::text::{
    contains, contains_text, dec, dec_u64, digit_char, digit_to_char, is_blank, join2, join3, lower,
    lower_text, same_text, to_chars, trim, trim_text,
};
use vstd::prelude::*;
use vstd::utf8::encode_utf8;

verus! {

// ---------------------------------------------------------------- configuration

/// How long a request may take where nothing else is said.
pub const DEFAULT_REQUEST_TIMEOUT_MS: u64 = 5000;

/// How many characters of a body an error shows.
pub const MAX_ERROR_BODY_CHARS: usize = 360;

/// How the ONVIF interface is reached.
#[derive(Debug, Clone, PartialEq, Eq)]
pub struct OnvifConfig {
    pub device_service_url: String,
    pub user_name: String,
    pub password: String,
    pub profile_token: Option<String>,
    pub allow_insecure_tls: bool,
    pub request_timeout_ms: u64,
}

pub ghost struct ConfigModel {
    pub device_service_url: Seq<char>,
    pub user_name: Seq<char>,
    pub password: Seq<char>,
    pub profile_token: Option<Seq<char>>,
    pub allow_insecure_tls: bool,
    pub request_timeout_ms: u64,
}

impl View for OnvifConfig {
    type V = ConfigModel;

    open spec fn view(&self) -> ConfigModel {
        ConfigModel {
            device_service_url: self.device_service_url@,
            user_name: self.user_name@,
            password: self.password@,
            profile_token: option_model(self.profile_token),
            allow_insecure_tls: self.allow_insecure_tls,
            request_timeout_ms: self.request_timeout_ms,
        }
    }
}

impl OnvifConfig {
    pub fn with_defaults(
        device_service_url: String,
        user_name: String,
        password: String,
        profile_token: Option<String>,
    ) -> (r: Self)
        ensures
            r@ == (ConfigModel {
                device_service_url: device_service_url@,
                user_name: user_name@,
                password: password@,
                profile_token: option_model(profile_token),
                allow_insecure_tls: true,
                request_timeout_ms: DEFAULT_REQUEST_TIMEOUT_MS,
            }),
    {
        OnvifConfig {
            device_service_url,
            user_name,
            password,
            profile_token,
            allow_insecure_tls: true,
            request_timeout_ms: DEFAULT_REQUEST_TIMEOUT_MS,
        }
    }
}

/// The profile token that the configuration names, where it is not blank.
pub open spec fn explicit_token(config: ConfigModel) -> Option<Seq<char>> {
    match config.profile_token {
        Some(token) => if trim(token).len() == 0 {
            None
        } else {
            Some(trim(token))
        },
        None => None,
    }
}

fn explicit_profile_token(config: &OnvifConfig) -> (r: Option<String>)
    ensures
        option_model(r) == explicit_token(config@),
{
    match &config.profile_token {
        Some(token) => {
            let trimmed = trim_text(token.as_str());
            if trimmed.as_str().is_empty() {
                None
            } else {
                Some(trimmed)
            }
        },
        None => None,
    }
}

/// What is wrong with a configuration.
pub open spec fn config_error(config: ConfigModel) -> Option<ErrorModel> {
    if trim(config.device_service_url).len() == 0 {
        Some(
            error_model(ErrorKind::InvalidInput, "ONVIF device service URL must not be empty"@),
        )
    } else if trim(config.user_name).len() == 0 {
        Some(error_model(ErrorKind::InvalidInput, "ONVIF user_name must not be empty"@))
    } else if config.password.len() == 0 {
        Some(error_model(ErrorKind::InvalidInput, "ONVIF password must not be empty"@))
    } else {
        None
    }
}

fn validate_config(config: &OnvifConfig) -> (r: Option<AppError>)
    ensures
        option_model(r) == config_error(config@),
{
    if is_blank(config.device_service_url.as_str()) {
        return Some(
            AppError::new(ErrorKind::InvalidInput, "ONVIF device service URL must not be empty"),
        );
    }
    if is_blank(config.user_name.as_str()) {
        return Some(AppError::new(ErrorKind::InvalidInput, "ONVIF user_name must not be empty"));
    }
    if config.password.as_str().is_empty() {
        return Some(AppError::new(ErrorKind::InvalidInput, "ONVIF password must not be empty"));
    }
    None
}

/// What tells the services of one configuration from those of another.
pub open spec fn services_key(config: ConfigModel) -> Seq<char> {
    config.device_service_url + "|"@ + match config.profile_token {
        Some(token) => trim(token),
        None => Seq::empty(),
    }
}

fn build_cache_key(config: &OnvifConfig) -> (r: String)
    ensures
        r@ == services_key(config@),
{
    let token = match &config.profile_token {
        Some(token) => trim_text(token.as_str()),
        None => String::new(),
    };
    join3(config.device_service_url.as_str(), "|", token.as_str())
}

// ---------------------------------------------------------------- messages

/// The bytes of a number, the highest first.
pub open spec fn be_bytes(n: nat, len: nat) -> Seq<u8>
    decreases len,
{
    if len == 0 {
        Seq::empty()
    } else {
        be_bytes(n / 256, (len - 1) as nat).push((n % 256) as u8)
    }
}

fn push_be_bytes(n: u128, len: usize) -> (r: Vec<u8>)
    ensures
        r@ == be_bytes(n as nat, len as nat),
    decreases len,
{
    if len == 0 {
        return Vec::new();
    }
    let mut out = push_be_bytes(n / 256, len - 1);
    out.push((n % 256) as u8);
    out
}

/// A number used once: the time in nanoseconds, then the number of the process.
pub fn generate_nonce(epoch_nanos: u128, process_id: u32) -> (r: Vec<u8>)
    ensures
        r@ == be_bytes(epoch_nanos as nat, 16) + be_bytes(process_id as nat, 4),
{
    let mut nonce = push_be_bytes(epoch_nanos, 16);
    let mut process = push_be_bytes(process_id as u128, 4);
    nonce.append(&mut process);
    nonce
}

/// The SHA-1 digest of bytes.
pub uninterp spec fn sha1_of(data: Seq<u8>) -> Seq<u8>;

/// `sha1::Sha1::digest`: a function of the bytes alone, of twenty bytes.
#[verifier::external_body]
fn sha1_digest(data: &[u8]) -> (r: Vec<u8>)
    ensures
        r@ == sha1_of(data@),
        r@.len() == 20,
{
    <sha1::Sha1 as sha1::Digest>::digest(data).to_vec()
}

/// `base64`'s `STANDARD.encode`: the standard alphabet, with padding. Bytes whose text would
/// not fit into memory are left out.
#[verifier::external_body]
fn encode_base64(data: &[u8]) -> (r: String)
    requires
        data@.len() <= 0x1000_0000,
    ensures
        r@ == base64_text(data@),
{
    base64::Engine::encode(&base64::engine::general_purpose::STANDARD, data)
}

/// What `time` prints, in the form of RFC 3339, for a moment given in nanoseconds since 1970:
/// a text, or the text of its error.
pub uninterp spec fn rfc3339_of(epoch_nanos: i128) -> Result<Seq<char>, Seq<char>>;

/// `time::OffsetDateTime::from_unix_timestamp_nanos` and its `format` with `Rfc3339`: a
/// function of the moment alone. An error of either is taken by the text it displays.
#[verifier::external_body]
fn format_rfc3339(epoch_nanos: i128) -> (r: Result<String, String>)
    ensures
        match r {
            Ok(text) => rfc3339_of(epoch_nanos) == Ok::<Seq<char>, Seq<char>>(text@),
            Err(message) => rfc3339_of(epoch_nanos) == Err::<Seq<char>, Seq<char>>(message@),
        },
{
    let moment = time::OffsetDateTime::from_unix_timestamp_nanos(epoch_nanos)
        .map_err(|error| error.to_string())?;
    moment
        .format(&time::format_description::well_known::Rfc3339)
        .map_err(|error| error.to_string())
}

/// The digest of a password: of the nonce, the time and the password one after another.
pub open spec fn digest_text(nonce: Seq<u8>, created: Seq<char>, password: Seq<char>) -> Seq<char> {
    base64_text(sha1_of(nonce + encode_utf8(created) + encode_utf8(password)))
}

/// The digest of a password.
pub fn password_digest(nonce: &[u8], created: &str, password: &str) -> (r: String)
    ensures
        r@ == digest_text(nonce@, created@, password@),
{
    let mut data: Vec<u8> = Vec::new();
    let mut i: usize = 0;
    while i < nonce.len()
        invariant
            i <= nonce.len(),
            data@ == nonce@.take(i as int),
        decreases nonce.len() - i,
    {
        proof {
            assert(nonce@.take(i + 1) =~= nonce@.take(i as int).push(nonce@[i as int]));
        }
        data.push(nonce[i]);
        i = i + 1;
    }
    proof {
        assert(nonce@.take(i as int) =~= nonce@);
    }
    let mut created_bytes = created.as_bytes_vec();
    data.append(&mut created_bytes);
    let mut password_bytes = password.as_bytes_vec();
    data.append(&mut password_bytes);
    let digest = sha1_digest(data.as_slice());
    encode_base64(digest.as_slice())
}

/// The security header of a message.
pub open spec fn security_header(
    user_name: Seq<char>,
    password: Seq<char>,
    created: Seq<char>,
    nonce: Seq<u8>,
) -> Seq<char> {
    "<wsse:Security s:mustUnderstand=\"1\"><wsse:UsernameToken><wsse:Username>"@ + escaped(user_name)
        + "</wsse:Username><wsse:Password Type=\"http://docs.oasis-open.org/wss/2004/01/oasis-200401-wss-username-token-profile-1.0#PasswordDigest\">"@
        + digest_text(nonce, created, password)
        + "</wsse:Password><wsse:Nonce EncodingType=\"http://docs.oasis-open.org/wss/2004/01/oasis-200401-wss-soap-message-security-1.0#Base64Binary\">"@
        + base64_text(nonce) + "</wsse:Nonce><wsu:Created>"@ + created
        + "</wsu:Created></wsse:UsernameToken></wsse:Security>"@
}

/// The security header of a message that is made at a moment.
pub open spec fn security_header_at(
    user_name: Seq<char>,
    password: Seq<char>,
    epoch_nanos: i128,
    nonce: Seq<u8>,
) -> Result<Seq<char>, ErrorModel> {
    match rfc3339_of(epoch_nanos) {
        Ok(created) => Ok(security_header(user_name, password, created, nonce)),
        Err(message) => Err(
            error_model(
                ErrorKind::UnexpectedResponse,
                "failed to format ONVIF created timestamp: "@ + message,
            ),
        ),
    }
}

/// The security header with the given time and nonce.
pub fn security_header_for(user_name: &str, password: &str, created: &str, nonce: &[u8]) -> (r:
    String)
    requires
        nonce@.len() <= 0x1000_0000,
    ensures
        r@ == security_header(user_name@, password@, created@, nonce@),
{
    let mut out = join2(
        "<wsse:Security s:mustUnderstand=\"1\"><wsse:UsernameToken><wsse:Username>",
        escape_xml(user_name).as_str(),
    );
    out.append(
        "</wsse:Username><wsse:Password Type=\"http://docs.oasis-open.org/wss/2004/01/oasis-200401-wss-username-token-profile-1.0#PasswordDigest\">",
    );
    out.append(password_digest(nonce, created, password).as_str());
    out.append(
        "</wsse:Password><wsse:Nonce EncodingType=\"http://docs.oasis-open.org/wss/2004/01/oasis-200401-wss-soap-message-security-1.0#Base64Binary\">",
    );
    out.append(encode_base64(nonce).as_str());
    out.append("</wsse:Nonce><wsu:Created>");
    out.append(created);
    out.append("</wsu:Created></wsse:UsernameToken></wsse:Security>");
    out
}

/// The security header of a message that is made at a moment.
pub fn build_security_header(
    user_name: &str,
    password: &str,
    epoch_nanos: i128,
    nonce: &[u8],
) -> (r: AppResult<String>)
    requires
        nonce@.len() <= 0x1000_0000,
    ensures
        result_model(r) == security_header_at(user_name@, password@, epoch_nanos, nonce@),
{
    match format_rfc3339(epoch_nanos) {
        Ok(created) => Ok(security_header_for(user_name, password, created.as_str(), nonce)),
        Err(message) => Err(
            AppError::with_message(
                ErrorKind::UnexpectedResponse,
                join2("failed to format ONVIF created timestamp: ", message.as_str()),
            ),
        ),
    }
}

/// A message: its header and its body in their envelope.
pub open spec fn envelope_text(header: Seq<char>, body: Seq<char>) -> Seq<char> {
    "<?xml version=\"1.0\" encoding=\"UTF-8\"?><s:Envelope xmlns:s=\"http://www.w3.org/2003/05/soap-envelope\" xmlns:wsse=\"http://docs.oasis-open.org/wss/2004/01/oasis-200401-wss-wssecurity-secext-1.0.xsd\" xmlns:wsu=\"http://docs.oasis-open.org/wss/2004/01/oasis-200401-wss-wssecurity-utility-1.0.xsd\" xmlns:tt=\"http://www.onvif.org/ver10/schema\"><s:Header>"@
        + header + "</s:Header><s:Body>"@ + body + "</s:Body></s:Envelope>"@
}

pub fn build_envelope(header: &str, body: &str) -> (r: String)
    ensures
        r@ == envelope_text(header@, body@),
{
    let mut out = join3(
        "<?xml version=\"1.0\" encoding=\"UTF-8\"?><s:Envelope xmlns:s=\"http://www.w3.org/2003/05/soap-envelope\" xmlns:wsse=\"http://docs.oasis-open.org/wss/2004/01/oasis-200401-wss-wssecurity-secext-1.0.xsd\" xmlns:wsu=\"http://docs.oasis-open.org/wss/2004/01/oasis-200401-wss-wssecurity-utility-1.0.xsd\" xmlns:tt=\"http://www.onvif.org/ver10/schema\"><s:Header>",
        header,
        "</s:Header><s:Body>",
    );
    out.append(body);
    out.append("</s:Body></s:Envelope>");
    out
}

/// The content type of a message.
pub open spec fn content_type_text(action: Seq<char>) -> Seq<char> {
    "application/soap+xml; charset=utf-8; action=\""@ + action + "\""@
}

pub fn build_content_type(action: &str) -> (r: String)
    ensures
        r@ == content_type_text(action@),
{
    join3("application/soap+xml; charset=utf-8; action=\"", action, "\"")
}

/// The first text of a list that is not empty.
pub open spec fn first_filled(values: Seq<Seq<char>>) -> Option<Seq<char>>
    decreases values.len(),
{
    if values.len() == 0 {
        None
    } else if trim(values[0]).len() > 0 {
        Some(trim(values[0]))
    } else {
        first_filled(values.drop_first())
    }
}

fn first_filled_text(values: &Vec<String>) -> (r: Option<String>)
    ensures
        option_model(r) == first_filled(text_models(values@)),
{
    let mut i: usize = 0;
    proof {
        assert(text_models(values@).skip(0) =~= text_models(values@));
    }
    while i < values.len()
        invariant
            i <= values.len(),
            first_filled(text_models(values@)) == first_filled(
                text_models(values@).skip(i as int),
            ),
        decreases values.len() - i,
    {
        proof {
            let rest = text_models(values@).skip(i as int);
            assert(rest[0] == values@[i as int]@);
            assert(rest.drop_first() =~= text_models(values@).skip(i + 1));
        }
        let trimmed = trim_text(values[i].as_str());
        if !trimmed.as_str().is_empty() {
            return Some(trimmed);
        }
        i = i + 1;
    }
    None
}

/// What a fault says, in the first of the tags that say it.
pub open spec fn fault_text(xml: Seq<char>) -> Option<Seq<char>> {
    if !contains(xml, ":Fault"@) && !contains(xml, "<Fault>"@) {
        None
    } else {
        match first_filled(tag_values(xml, "s:Text"@)) {
            Some(text) => Some(text),
            None => match first_filled(tag_values(xml, "soap:Text"@)) {
                Some(text) => Some(text),
                None => match first_filled(tag_values(xml, "faultstring"@)) {
                    Some(text) => Some(text),
                    None => match first_filled(tag_values(xml, "s:Reason"@)) {
                        Some(text) => Some(text),
                        None => match first_filled(tag_values(xml, "Reason"@)) {
                            Some(text) => Some(text),
                            None => Some("unknown SOAP fault"@),
                        },
                    },
                },
            },
        }
    }
}

pub fn extract_fault_message(xml: &str) -> (r: Option<String>)
    ensures
        option_model(r) == fault_text(xml@),
{
    if !contains_text(xml, ":Fault") && !contains_text(xml, "<Fault>") {
        return None;
    }
    let found = first_filled_text(&extract_all_tag_values(xml, "s:Text"));
    if found.is_some() {
        return found;
    }
    let found = first_filled_text(&extract_all_tag_values(xml, "soap:Text"));
    if found.is_some() {
        return found;
    }
    let found = first_filled_text(&extract_all_tag_values(xml, "faultstring"));
    if found.is_some() {
        return found;
    }
    let found = first_filled_text(&extract_all_tag_values(xml, "s:Reason"));
    if found.is_some() {
        return found;
    }
    let found = first_filled_text(&extract_all_tag_values(xml, "Reason"));
    if found.is_some() {
        return found;
    }
    Some("unknown SOAP fault".to_owned())
}

/// What an answer to a message comes to.
pub open spec fn soap_result(action: Seq<char>, reply: HttpReplyModel) -> Result<
    Seq<char>,
    ErrorModel,
> {
    match reply {
        HttpReplyModel::ClientFailed(message) => Err(
            error_model(ErrorKind::Network, "failed to build ONVIF HTTP client: "@ + message),
        ),
        HttpReplyModel::SendFailed(message) => Err(
            error_model(
                ErrorKind::Network,
                "failed ONVIF SOAP request "@ + action + ": "@ + message,
            ),
        ),
        HttpReplyModel::BodyFailed(message) => Err(
            error_model(
                ErrorKind::Network,
                "failed to read ONVIF SOAP response body for "@ + action + ": "@ + message,
            ),
        ),
        HttpReplyModel::Answered { status, status_text, body } => if !(200 <= status < 300) {
            Err(
                error_model(
                    ErrorKind::Network,
                    "ONVIF SOAP request "@ + action + " failed: status="@ + status_text + " body="@
                        + shortened(body, MAX_ERROR_BODY_CHARS as int),
                ),
            )
        } else {
            match fault_text(body) {
                Some(fault) => Err(
                    error_model(
                        ErrorKind::UnexpectedResponse,
                        "ONVIF SOAP fault for "@ + action + ": "@ + fault,
                    ),
                ),
                None => Ok(body),
            }
        },
    }
}

/// What an answer to a message comes to.
pub fn classify_soap_reply(action: &str, reply: &HttpReply) -> (r: AppResult<String>)
    ensures
        result_model(r) == soap_result(action@, reply@),
{
    match reply {
        HttpReply::ClientFailed(message) => Err(
            AppError::with_message(
                ErrorKind::Network,
                join2("failed to build ONVIF HTTP client: ", message.as_str()),
            ),
        ),
        HttpReply::SendFailed(message) => {
            let mut text = join3("failed ONVIF SOAP request ", action, ": ");
            text.append(message.as_str());
            Err(AppError::with_message(ErrorKind::Network, text))
        },
        HttpReply::BodyFailed(message) => {
            let mut text = join3("failed to read ONVIF SOAP response body for ", action, ": ");
            text.append(message.as_str());
            Err(AppError::with_message(ErrorKind::Network, text))
        },
        HttpReply::Answered { status, status_text, body } => {
            if *status < 200 || *status >= 300 {
                let mut text = join3("ONVIF SOAP request ", action, " failed: status=");
                text.append(status_text.as_str());
                text.append(" body=");
                text.append(truncate_text(body.as_str(), MAX_ERROR_BODY_CHARS).as_str());
                return Err(AppError::with_message(ErrorKind::Network, text));
            }
            match extract_fault_message(body.as_str()) {
                Some(fault) => {
                    let mut text = join3("ONVIF SOAP fault for ", action, ": ");
                    text.append(fault.as_str());
                    Err(AppError::with_message(ErrorKind::UnexpectedResponse, text))
                },
                None => Ok(body.clone()),
            }
        },
    }
}

// ---------------------------------------------------------------- bodies

pub const GET_CAPABILITIES_ACTION: &'static str =
    "http://www.onvif.org/ver10/device/wsdl/GetCapabilities";

pub const GET_PROFILES_ACTION: &'static str = "http://www.onvif.org/ver10/media/wsdl/GetProfiles";

pub const GET_STATUS_ACTION: &'static str = "http://www.onvif.org/ver20/ptz/wsdl/GetStatus";

pub const GET_CONFIGURATION_OPTIONS_ACTION: &'static str =
    "http://www.onvif.org/ver20/ptz/wsdl/GetConfigurationOptions";

pub const CONTINUOUS_MOVE_ACTION: &'static str =
    "http://www.onvif.org/ver20/ptz/wsdl/ContinuousMove";

pub const RELATIVE_MOVE_ACTION: &'static str = "http://www.onvif.org/ver20/ptz/wsdl/RelativeMove";

pub const STOP_ACTION: &'static str = "http://www.onvif.org/ver20/ptz/wsdl/Stop";

pub const GET_CAPABILITIES_BODY: &'static str =
    "<tds:GetCapabilities xmlns:tds=\"http://www.onvif.org/ver10/device/wsdl\"><tds:Category>PTZ</tds:Category><tds:Category>Media</tds:Category></tds:GetCapabilities>";

pub const GET_PROFILES_BODY: &'static str =
    "<trt:GetProfiles xmlns:trt=\"http://www.onvif.org/ver10/media/wsdl\"/>";

/// Three digits of a number below a thousand.
pub open spec fn three_digits(n: nat) -> Seq<char> {
    seq![digit_char(n / 100 % 10), digit_char(n / 10 % 10), digit_char(n % 10)]
}

/// A duration in the form of ISO 8601: seconds, and milliseconds where there are any.
pub open spec fn duration_text(duration_ms: u64) -> Seq<char> {
    if duration_ms % 1000 == 0 {
        "PT"@ + dec((duration_ms / 1000) as nat) + "S"@
    } else {
        "PT"@ + dec((duration_ms / 1000) as nat) + "."@ + three_digits((duration_ms % 1000) as nat)
            + "S"@
    }
}

pub fn format_duration(duration_ms: u64) -> (r: String)
    ensures
        r@ == duration_text(duration_ms),
{
    let seconds = dec_u64(duration_ms / 1000);
    let milliseconds: u64 = duration_ms % 1000;
    if milliseconds == 0 {
        return join3("PT", seconds.as_str(), "S");
    }
    let mut digits: String = String::new();
    digits.push(digit_to_char((milliseconds / 100 % 10) as u8));
    digits.push(digit_to_char((milliseconds / 10 % 10) as u8));
    digits.push(digit_to_char((milliseconds % 10) as u8));
    proof {
        assert(digits@ =~= three_digits(milliseconds as nat));
    }
    let mut out = join3("PT", seconds.as_str(), ".");
    out.append(digits.as_str());
    out.append("S");
    out
}

/// A speed as a share of the highest, with six decimals: sixty-fourths have no more.
pub open spec fn velocity_text(sixty_fourths: int) -> Seq<char> {
    let n = if sixty_fourths < 0 {
        -sixty_fourths
    } else {
        sixty_fourths
    };
    let millionths = n * 15625;
    let sign = if sixty_fourths < 0 {
        "-"@
    } else {
        Seq::empty()
    };
    sign + dec((millionths / 1000000) as nat) + "."@ + three_digits(
        (millionths / 1000 % 1000) as nat,
    ) + three_digits((millionths % 1000) as nat)
}

fn push_three_digits(out: &mut String, n: u32)
    requires
        n < 1000,
    ensures
        final(out)@ == old(out)@ + three_digits(n as nat),
{
    let ghost before = out@;
    out.push(digit_to_char((n / 100 % 10) as u8));
    out.push(digit_to_char((n / 10 % 10) as u8));
    out.push(digit_to_char((n % 10) as u8));
    proof {
        assert(out@ =~= before + three_digits(n as nat));
    }
}

/// A speed as a share of the highest, with six decimals.
pub fn format_velocity(sixty_fourths: i32) -> (r: String)
    requires
        -64 <= sixty_fourths <= 64,
    ensures
        r@ == velocity_text(sixty_fourths as int),
{
    let mut out: String = String::new();
    let n: u32 = if sixty_fourths < 0 {
        out.append("-");
        proof {
            assert(out@ =~= "-"@);
        }
        (-sixty_fourths) as u32
    } else {
        sixty_fourths as u32
    };
    let millionths: u32 = n * 15625;
    out.append(dec_u64((millionths / 1000000) as u64).as_str());
    out.append(".");
    push_three_digits(&mut out, millionths / 1000 % 1000);
    push_three_digits(&mut out, millionths % 1000);
    out
}

/// The velocity of a movement in sixty-fourths of the highest, in pan and in tilt. There is
/// none for a diagonal.
pub open spec fn velocity_of(direction: PtzDirection, speed: u8) -> Result<(int, int), ErrorModel> {
    let v = if speed < 1 {
        1int
    } else if speed > 64 {
        64int
    } else {
        speed as int
    };
    match direction {
        PtzDirection::Left => Ok((-v, 0int)),
        PtzDirection::Right => Ok((v, 0int)),
        PtzDirection::Up => Ok((0int, v)),
        PtzDirection::Down => Ok((0int, -v)),
        _ => Err(
            error_model(
                ErrorKind::InvalidInput,
                "ONVIF ContinuousMove backend does not support diagonal PTZ directions"@,
            ),
        ),
    }
}

/// The velocity of a movement in sixty-fourths of the highest, in pan and in tilt.
pub fn velocity_from_direction(direction: PtzDirection, speed: u8) -> (r: AppResult<(i32, i32)>)
    ensures
        match r {
            Ok((pan, tilt)) => velocity_of(direction, speed) == Ok::<(int, int), ErrorModel>(
                (pan as int, tilt as int),
            ) && -64 <= pan <= 64 && -64 <= tilt <= 64,
            Err(error) => velocity_of(direction, speed) == Err::<(int, int), ErrorModel>(error@),
        },
{
    let v: i32 = if speed < 1 {
        1
    } else if speed > 64 {
        64
    } else {
        speed as i32
    };
    match direction {
        PtzDirection::Left => Ok((-v, 0)),
        PtzDirection::Right => Ok((v, 0)),
        PtzDirection::Up => Ok((0, v)),
        PtzDirection::Down => Ok((0, -v)),
        _ => Err(
            AppError::new(
                ErrorKind::InvalidInput,
                "ONVIF ContinuousMove backend does not support diagonal PTZ directions",
            ),
        ),
    }
}

pub open spec fn continuous_move_text(
    profile_token: Seq<char>,
    pan: Seq<char>,
    tilt: Seq<char>,
    timeout: Option<Seq<char>>,
) -> Seq<char> {
    "<tptz:ContinuousMove xmlns:tptz=\"http://www.onvif.org/ver20/ptz/wsdl\"><tptz:ProfileToken>"@
        + escaped(profile_token) + "</tptz:ProfileToken><tptz:Velocity><tt:PanTilt x=\""@ + pan
        + "\" y=\""@ + tilt + "\"/></tptz:Velocity>"@ + match timeout {
        Some(text) => "<tptz:Timeout>"@ + text + "</tptz:Timeout>"@,
        None => Seq::empty(),
    } + "</tptz:ContinuousMove>"@
}

/// The message that starts a movement.
pub fn build_continuous_move_body(
    profile_token: &str,
    pan: &str,
    tilt: &str,
    timeout: Option<String>,
) -> (r: String)
    ensures
        r@ == continuous_move_text(profile_token@, pan@, tilt@, option_model(timeout)),
{
    let timeout_xml = match timeout {
        Some(text) => join3("<tptz:Timeout>", text.as_str(), "</tptz:Timeout>"),
        None => String::new(),
    };
    let mut out = join3(
        "<tptz:ContinuousMove xmlns:tptz=\"http://www.onvif.org/ver20/ptz/wsdl\"><tptz:ProfileToken>",
        escape_xml(profile_token).as_str(),
        "</tptz:ProfileToken><tptz:Velocity><tt:PanTilt x=\"",
    );
    out.append(pan);
    out.append("\" y=\"");
    out.append(tilt);
    out.append("\"/></tptz:Velocity>");
    out.append(timeout_xml.as_str());
    out.append("</tptz:ContinuousMove>");
    out
}

pub open spec fn stop_text(profile_token: Seq<char>) -> Seq<char> {
    "<tptz:Stop xmlns:tptz=\"http://www.onvif.org/ver20/ptz/wsdl\"><tptz:ProfileToken>"@ + escaped(
        profile_token,
    ) + "</tptz:ProfileToken><tptz:PanTilt>true</tptz:PanTilt><tptz:Zoom>false</tptz:Zoom></tptz:Stop>"@
}

/// The message that ends a movement.
pub fn build_stop_body(profile_token: &str) -> (r: String)
    ensures
        r@ == stop_text(profile_token@),
{
    join3(
        "<tptz:Stop xmlns:tptz=\"http://www.onvif.org/ver20/ptz/wsdl\"><tptz:ProfileToken>",
        escape_xml(profile_token).as_str(),
        "</tptz:ProfileToken><tptz:PanTilt>true</tptz:PanTilt><tptz:Zoom>false</tptz:Zoom></tptz:Stop>",
    )
}

pub open spec fn get_status_text(profile_token: Seq<char>) -> Seq<char> {
    "<tptz:GetStatus xmlns:tptz=\"http://www.onvif.org/ver20/ptz/wsdl\"><tptz:ProfileToken>"@ + escaped(
        profile_token,
    ) + "</tptz:ProfileToken></tptz:GetStatus>"@
}

/// The message that asks for the status.
pub fn build_get_status_body(profile_token: &str) -> (r: String)
    ensures
        r@ == get_status_text(profile_token@),
{
    join3(
        "<tptz:GetStatus xmlns:tptz=\"http://www.onvif.org/ver20/ptz/wsdl\"><tptz:ProfileToken>",
        escape_xml(profile_token).as_str(),
        "</tptz:ProfileToken></tptz:GetStatus>",
    )
}

pub open spec fn get_options_text(configuration_token: Seq<char>) -> Seq<char> {
    "<tptz:GetConfigurationOptions xmlns:tptz=\"http://www.onvif.org/ver20/ptz/wsdl\"><tptz:ConfigurationToken>"@
        + escaped(configuration_token)
        + "</tptz:ConfigurationToken></tptz:GetConfigurationOptions>"@
}

/// The message that asks how the camera can be moved.
pub fn build_get_configuration_options_body(configuration_token: &str) -> (r: String)
    ensures
        r@ == get_options_text(configuration_token@),
{
    join3(
        "<tptz:GetConfigurationOptions xmlns:tptz=\"http://www.onvif.org/ver20/ptz/wsdl\"><tptz:ConfigurationToken>",
        escape_xml(configuration_token).as_str(),
        "</tptz:ConfigurationToken></tptz:GetConfigurationOptions>",
    )
}

pub open spec fn relative_move_text(
    profile_token: Seq<char>,
    pan: Seq<char>,
    tilt: Seq<char>,
) -> Seq<char> {
    "<tptz:RelativeMove xmlns:tptz=\"http://www.onvif.org/ver20/ptz/wsdl\"><tptz:ProfileToken>"@
        + escaped(profile_token)
        + "</tptz:ProfileToken><tptz:Translation><tt:PanTilt x=\""@ + pan + "\" y=\""@ + tilt
        + "\"/></tptz:Translation><tptz:Speed><tt:PanTilt x=\""@ + pan + "\" y=\""@ + tilt
        + "\"/></tptz:Speed></tptz:RelativeMove>"@
}

/// The message that moves by a distance: its two parts as decimal texts.
pub fn build_relative_move_body(profile_token: &str, pan: &str, tilt: &str) -> (r: String)
    ensures
        r@ == relative_move_text(profile_token@, pan@, tilt@),
{
    let mut out = join3(
        "<tptz:RelativeMove xmlns:tptz=\"http://www.onvif.org/ver20/ptz/wsdl\"><tptz:ProfileToken>",
        escape_xml(profile_token).as_str(),
        "</tptz:ProfileToken><tptz:Translation><tt:PanTilt x=\"",
    );
    out.append(pan);
    out.append("\" y=\"");
    out.append(tilt);
    out.append("\"/></tptz:Translation><tptz:Speed><tt:PanTilt x=\"");
    out.append(pan);
    out.append("\" y=\"");
    out.append(tilt);
    out.append("\"/></tptz:Speed></tptz:RelativeMove>");
    out
}

// ---------------------------------------------------------------- profiles

/// A profile of the camera: its token, and that of its configuration for movements.
#[derive(Debug, Clone, PartialEq, Eq)]
pub struct MediaProfile {
    pub token: String,
    pub ptz_configuration_token: Option<String>,
}

pub ghost struct ProfileModel {
    pub token: Seq<char>,
    pub ptz_configuration_token: Option<Seq<char>>,
}

impl View for MediaProfile {
    type V = ProfileModel;

    open spec fn view(&self) -> ProfileModel {
        ProfileModel {
            token: self.token@,
            ptz_configuration_token: option_model(self.ptz_configuration_token),
        }
    }
}

pub open spec fn profile_models(profiles: Seq<MediaProfile>) -> Seq<ProfileModel> {
    Seq::new(profiles.len(), |i: int| profiles[i]@)
}

/// A profile with that token is among the profiles.
pub open spec fn has_profile(profiles: Seq<ProfileModel>, token: Seq<char>) -> bool {
    exists|i: int| 0 <= i < profiles.len() && (#[trigger] profiles[i]).token == token
}

/// The profile that a tag describes, where it describes a new one.
pub open spec fn profile_at(xml: Seq<char>, tag: TagModel, known: Seq<ProfileModel>) -> Option<
    ProfileModel,
> {
    if !same_name(local_part(tag.name), "Profiles"@) {
        None
    } else {
        match attribute_value(tag.body, "token"@) {
            None => None,
            Some(token) => if token.len() == 0 || has_profile(known, token) {
                None
            } else {
                Some(
                    ProfileModel {
                        token,
                        ptz_configuration_token: if tag.self_closing {
                            None
                        } else {
                            match tag_content(xml, tag) {
                                Some(inner) => tag_attribute(
                                    inner,
                                    "PTZConfiguration"@,
                                    "token"@,
                                ),
                                None => None,
                            }
                        },
                    },
                )
            },
        }
    }
}

/// The profiles that stand at or after a position, after those that are known.
pub open spec fn profiles_from(xml: Seq<char>, from: int, known: Seq<ProfileModel>) -> Seq<
    ProfileModel,
>
    decreases xml.len() - from,
{
    match next_tag(xml, from) {
        None => known,
        Some(tag) => if from < tag.content_start <= xml.len() {
            profiles_from(
                xml,
                tag.content_start,
                match profile_at(xml, tag, known) {
                    Some(profile) => known.push(profile),
                    None => known,
                },
            )
        } else {
            known
        },
    }
}

fn knows_profile(profiles: &Vec<MediaProfile>, token: &str) -> (r: bool)
    ensures
        r == has_profile(profile_models(profiles@), token@),
{
    let mut i: usize = 0;
    while i < profiles.len()
        invariant
            i <= profiles.len(),
            forall|j: int|
                0 <= j < i ==> (#[trigger] profile_models(profiles@)[j]).token != token@,
        decreases profiles.len() - i,
    {
        if same_text(profiles[i].token.as_str(), token) {
            proof {
                assert(profile_models(profiles@)[i as int].token == token@);
            }
            return true;
        }
        i = i + 1;
    }
    false
}

fn profile_from_tag(xml: &[char], tag: &OpenTag, known: &Vec<MediaProfile>) -> (r: Option<
    MediaProfile,
>)
    requires
        tag.content_start <= xml.len(),
    ensures
        option_model(r) == profile_at(xml@, tag@, profile_models(known@)),
{
    if !is_same_name(crate::reolink::xml::local_name(tag.name.as_str()).as_str(), "Profiles") {
        return None;
    }
    let token = match extract_attribute(tag.body.as_str(), "token") {
        Some(token) => token,
        None => {
            return None;
        },
    };
    if token.as_str().is_empty() || knows_profile(known, token.as_str()) {
        return None;
    }
    let ptz_configuration_token = if tag.self_closing {
        None
    } else {
        match content_of(xml, tag) {
            Some(inner) => extract_first_tag_attribute_by_local_name(
                inner.as_str(),
                "PTZConfiguration",
                "token",
            ),
            None => None,
        }
    };
    Some(MediaProfile { token, ptz_configuration_token })
}

/// The profiles in a response, each token once.
pub fn extract_media_profiles(xml: &str) -> (r: Vec<MediaProfile>)
    ensures
        profile_models(r@) == profiles_from(xml@, 0, Seq::empty()),
{
    let chars = to_chars(xml);
    let all = chars.as_slice();
    let mut profiles: Vec<MediaProfile> = Vec::new();
    let mut at: usize = 0;
    proof {
        assert(profile_models(profiles@) =~= Seq::empty());
    }
    loop
        invariant
            all@ == xml@,
            at <= all.len(),
            profiles_from(xml@, 0, Seq::empty()) == profiles_from(
                xml@,
                at as int,
                profile_models(profiles@),
            ),
        decreases all.len() - at,
    {
        match find_next_open_tag(all, at) {
            None => {
                return profiles;
            },
            Some(tag) => {
                let found = profile_from_tag(all, &tag, &profiles);
                if let Some(profile) = found {
                    let ghost before = profile_models(profiles@);
                    profiles.push(profile);
                    proof {
                        assert(profile_models(profiles@) =~= before.push(profile@));
                    }
                }
                at = tag.content_start;
            },
        }
    }
}

/// The address of the service whose address holds a word.
pub open spec fn service_address(values: Seq<Seq<char>>, keyword: Seq<char>) -> Option<Seq<char>>
    decreases values.len(),
{
    if values.len() == 0 {
        None
    } else if contains(lower(values[0]), keyword) {
        Some(values[0])
    } else {
        service_address(values.drop_first(), keyword)
    }
}

/// The address of a service in a response.
pub open spec fn service_xaddr(xml: Seq<char>, keyword: Seq<char>) -> Option<Seq<char>> {
    service_address(
        tag_values(xml, "tt:XAddr"@) + tag_values(xml, "XAddr"@),
        lower(trim(keyword)),
    )
}

fn find_service_address(values: &Vec<String>, keyword: &str) -> (r: Option<String>)
    ensures
        option_model(r) == service_address(text_models(values@), keyword@),
{
    let mut i: usize = 0;
    proof {
        assert(text_models(values@).skip(0) =~= text_models(values@));
    }
    while i < values.len()
        invariant
            i <= values.len(),
            service_address(text_models(values@), keyword@) == service_address(
                text_models(values@).skip(i as int),
                keyword@,
            ),
        decreases values.len() - i,
    {
        proof {
            let rest = text_models(values@).skip(i as int);
            assert(rest[0] == values@[i as int]@);
            assert(rest.drop_first() =~= text_models(values@).skip(i + 1));
        }
        if contains_text(lower_text(values[i].as_str()).as_str(), keyword) {
            return Some(values[i].clone());
        }
        i = i + 1;
    }
    None
}

/// The address of a service in a response.
pub fn extract_service_xaddr(xml: &str, service_keyword: &str) -> (r: Option<String>)
    ensures
        option_model(r) == service_xaddr(xml@, service_keyword@),
{
    let keyword = lower_text(trim_text(service_keyword).as_str());
    let mut values = extract_all_tag_values(xml, "tt:XAddr");
    let mut more = extract_all_tag_values(xml, "XAddr");
    let ghost first = text_models(values@);
    let ghost second = text_models(more@);
    values.append(&mut more);
    proof {
        assert(text_models(values@) =~= first + second);
    }
    find_service_address(&values, keyword.as_str())
}

// ---------------------------------------------------------------- services

/// Where the services of a camera are, and its profiles.
#[derive(Debug, PartialEq, Eq)]
pub struct ResolvedServices {
    pub cache_key: String,
    pub ptz_xaddr: String,
    pub media_xaddr: Option<String>,
    pub media_profiles: Vec<MediaProfile>,
}

pub ghost struct ServicesModel {
    pub cache_key: Seq<char>,
    pub ptz_xaddr: Seq<char>,
    pub media_xaddr: Option<Seq<char>>,
    pub media_profiles: Seq<ProfileModel>,
}

impl View for ResolvedServices {
    type V = ServicesModel;

    open spec fn view(&self) -> ServicesModel {
        ServicesModel {
            cache_key: self.cache_key@,
            ptz_xaddr: self.ptz_xaddr@,
            media_xaddr: option_model(self.media_xaddr),
            media_profiles: profile_models(self.media_profiles@),
        }
    }
}

fn copy_text(text: &Option<String>) -> (r: Option<String>)
    ensures
        option_model(r) == option_model(*text),
{
    match text {
        Some(inner) => Some(inner.clone()),
        None => None,
    }
}

fn copy_profiles(profiles: &Vec<MediaProfile>) -> (r: Vec<MediaProfile>)
    ensures
        profile_models(r@) == profile_models(profiles@),
{
    let mut out: Vec<MediaProfile> = Vec::new();
    let mut i: usize = 0;
    while i < profiles.len()
        invariant
            i <= profiles.len(),
            profile_models(out@) == profile_models(profiles@).take(i as int),
        decreases profiles.len() - i,
    {
        let copy = MediaProfile {
            token: profiles[i].token.clone(),
            ptz_configuration_token: copy_text(&profiles[i].ptz_configuration_token),
        };
        let ghost before = profile_models(out@);
        out.push(copy);
        proof {
            assert(profile_models(out@) =~= before.push(copy@));
            assert(profile_models(profiles@).take(i + 1) =~= profile_models(profiles@).take(
                i as int,
            ).push(profiles@[i as int]@));
        }
        i = i + 1;
    }
    proof {
        assert(profile_models(profiles@).take(i as int) =~= profile_models(profiles@));
    }
    out
}

impl ResolvedServices {
    /// A copy of the services.
    pub fn duplicate(&self) -> (r: Self)
        ensures
            r@ == self@,
    {
        ResolvedServices {
            cache_key: self.cache_key.clone(),
            ptz_xaddr: self.ptz_xaddr.clone(),
            media_xaddr: copy_text(&self.media_xaddr),
            media_profiles: copy_profiles(&self.media_profiles),
        }
    }
}

/// A message to send.
#[derive(Debug, Clone, PartialEq, Eq)]
pub struct SoapCall {
    pub url: String,
    pub action: String,
    pub body: String,
    /// How long to wait before it is sent.
    pub delay_ms: u64,
}

pub ghost struct SoapModel {
    pub url: Seq<char>,
    pub action: Seq<char>,
    pub body: Seq<char>,
    pub delay_ms: u64,
}

impl View for SoapCall {
    type V = SoapModel;

    open spec fn view(&self) -> SoapModel {
        SoapModel {
            url: self.url@,
            action: self.action@,
            body: self.body@,
            delay_ms: self.delay_ms,
        }
    }
}

/// The next step of an operation over ONVIF.
pub enum SoapStep<T> {
    /// The services of the camera are needed.
    Resolve,
    Send(SoapCall),
    Done(AppResult<T>),
}

pub ghost enum SoapStepModel<V> {
    Resolve,
    Send(SoapModel),
    Done(Result<V, ErrorModel>),
}

pub open spec fn soap_step_model<T: View>(step: SoapStep<T>) -> SoapStepModel<T::V> {
    match step {
        SoapStep::Resolve => SoapStepModel::Resolve,
        SoapStep::Send(call) => SoapStepModel::Send(call@),
        SoapStep::Done(result) => SoapStepModel::Done(result_model(result)),
    }
}

pub open spec fn soap_reply_models(replies: Seq<AppResult<String>>) -> Seq<
    Result<Seq<char>, ErrorModel>,
> {
    Seq::new(replies.len(), |i: int| result_model(replies[i]))
}

pub open spec fn plain_call(url: Seq<char>, action: Seq<char>, body: Seq<char>) -> SoapModel {
    SoapModel { url, action, body, delay_ms: 0 }
}

fn build_call(url: &str, action: &str, body: String) -> (r: SoapCall)
    ensures
        r@ == plain_call(url@, action@, body@),
{
    SoapCall { url: url.to_owned(), action: action.to_owned(), body, delay_ms: 0 }
}

/// Finding the services: those that are known for the configuration, else the addresses that
/// the camera gives, and its profiles unless the configuration names one.
pub open spec fn resolve_step(
    config: ConfigModel,
    cached: Option<ServicesModel>,
    replies: Seq<Result<Seq<char>, ErrorModel>>,
) -> SoapStepModel<ServicesModel> {
    match config_error(config) {
        Some(error) => SoapStepModel::Done(Err(error)),
        None => if cached matches Some(known) && known.cache_key == services_key(config) {
            SoapStepModel::Done(Ok(cached->0))
        } else if replies.len() == 0 {
            SoapStepModel::Send(
                plain_call(
                    config.device_service_url,
                    GET_CAPABILITIES_ACTION@,
                    GET_CAPABILITIES_BODY@,
                ),
            )
        } else {
            match replies[0] {
                Err(error) => SoapStepModel::Done(Err(error)),
                Ok(capabilities) => match service_xaddr(capabilities, "ptz"@) {
                    None => SoapStepModel::Done(
                        Err(
                            error_model(
                                ErrorKind::UnexpectedResponse,
                                "ONVIF GetCapabilities response did not include PTZ XAddr"@,
                            ),
                        ),
                    ),
                    Some(ptz_xaddr) => profiles_step(
                        config,
                        ptz_xaddr,
                        service_xaddr(capabilities, "media"@),
                        replies,
                    ),
                },
            }
        },
    }
}

/// Finding the services, once their addresses are known.
pub open spec fn profiles_step(
    config: ConfigModel,
    ptz_xaddr: Seq<char>,
    media_xaddr: Option<Seq<char>>,
    replies: Seq<Result<Seq<char>, ErrorModel>>,
) -> SoapStepModel<ServicesModel> {
    let found = |profiles: Seq<ProfileModel>|
        ServicesModel {
            cache_key: services_key(config),
            ptz_xaddr,
            media_xaddr,
            media_profiles: profiles,
        };
    if explicit_token(config) is Some {
        SoapStepModel::Done(Ok(found(Seq::empty())))
    } else {
        match media_xaddr {
            None => SoapStepModel::Done(
                Err(
                    error_model(
                        ErrorKind::UnexpectedResponse,
                        "ONVIF GetCapabilities response did not include Media XAddr"@,
                    ),
                ),
            ),
            Some(address) => if replies.len() == 1 {
                SoapStepModel::Send(
                    plain_call(address, GET_PROFILES_ACTION@, GET_PROFILES_BODY@),
                )
            } else {
                match replies[1] {
                    Err(error) => SoapStepModel::Done(Err(error)),
                    Ok(xml) => {
                        let profiles = profiles_from(xml, 0, Seq::empty());
                        if profiles.len() == 0 {
                            SoapStepModel::Done(
                                Err(
                                    error_model(
                                        ErrorKind::UnexpectedResponse,
                                        "ONVIF GetProfiles response did not include profile tokens"@,
                                    ),
                                ),
                            )
                        } else {
                            SoapStepModel::Done(Ok(found(profiles)))
                        }
                    },
                }
            },
        }
    }
}

pub open spec fn optional_services(cached: Option<&ResolvedServices>) -> Option<ServicesModel> {
    match cached {
        Some(services) => Some(services@),
        None => None,
    }
}

fn reply_xml<'a>(reply: &'a AppResult<String>) -> (r: AppResult<&'a str>)
    ensures
        match r {
            Ok(xml) => result_model(*reply) == Ok::<Seq<char>, ErrorModel>(xml@),
            Err(error) => result_model(*reply) == Err::<Seq<char>, ErrorModel>(error@),
        },
{
    match reply {
        Ok(xml) => Ok(xml.as_str()),
        Err(error) => Err(error.duplicate()),
    }
}

/// Finds the services of a camera.
pub fn resolve_services(
    config: &OnvifConfig,
    cached: Option<&ResolvedServices>,
    replies: &[AppResult<String>],
) -> (r: SoapStep<ResolvedServices>)
    ensures
        soap_step_model(r) == resolve_step(
            config@,
            optional_services(cached),
            soap_reply_models(replies@),
        ),
{
    if let Some(error) = validate_config(config) {
        return SoapStep::Done(Err(error));
    }
    let cache_key = build_cache_key(config);
    if let Some(known) = cached {
        if same_text(known.cache_key.as_str(), cache_key.as_str()) {
            return SoapStep::Done(Ok(known.duplicate()));
        }
    }
    if replies.len() == 0 {
        return SoapStep::Send(
            build_call(
                config.device_service_url.as_str(),
                GET_CAPABILITIES_ACTION,
                GET_CAPABILITIES_BODY.to_owned(),
            ),
        );
    }
    let capabilities = match reply_xml(&replies[0]) {
        Ok(xml) => xml,
        Err(error) => {
            return SoapStep::Done(Err(error));
        },
    };
    let ptz_xaddr = match extract_service_xaddr(capabilities, "ptz") {
        Some(address) => address,
        None => {
            return SoapStep::Done(
                Err(
                    AppError::new(
                        ErrorKind::UnexpectedResponse,
                        "ONVIF GetCapabilities response did not include PTZ XAddr",
                    ),
                ),
            );
        },
    };
    let media_xaddr = extract_service_xaddr(capabilities, "media");
    if explicit_profile_token(config).is_some() {
        let services = ResolvedServices {
            cache_key,
            ptz_xaddr,
            media_xaddr,
            media_profiles: Vec::new(),
        };
        proof {
            assert(services@.media_profiles =~= Seq::empty());
        }
        return SoapStep::Done(Ok(services));
    }
    let address = match copy_text(&media_xaddr) {
        Some(address) => address,
        None => {
            return SoapStep::Done(
                Err(
                    AppError::new(
                        ErrorKind::UnexpectedResponse,
                        "ONVIF GetCapabilities response did not include Media XAddr",
                    ),
                ),
            );
        },
    };
    if replies.len() == 1 {
        return SoapStep::Send(
            build_call(address.as_str(), GET_PROFILES_ACTION, GET_PROFILES_BODY.to_owned()),
        );
    }
    let media_profiles = match reply_xml(&replies[1]) {
        Ok(xml) => extract_media_profiles(xml),
        Err(error) => {
            return SoapStep::Done(Err(error));
        },
    };
    if media_profiles.is_empty() {
        return SoapStep::Done(
            Err(
                AppError::new(
                    ErrorKind::UnexpectedResponse,
                    "ONVIF GetProfiles response did not include profile tokens",
                ),
            ),
        );
    }
    SoapStep::Done(Ok(ResolvedServices { cache_key, ptz_xaddr, media_xaddr, media_profiles }))
}

// ---------------------------------------------------------------- tokens

/// The profile for a channel: the one that the configuration names, else the one in the
/// channel's place, else the first.
pub open spec fn profile_token_of(
    services: ServicesModel,
    channel: u8,
    explicit: Option<Seq<char>>,
) -> Result<Seq<char>, ErrorModel> {
    match explicit {
        Some(token) => Ok(token),
        None => if channel < services.media_profiles.len() {
            Ok(services.media_profiles[channel as int].token)
        } else if services.media_profiles.len() > 0 {
            Ok(services.media_profiles[0].token)
        } else {
            Err(
                error_model(
                    ErrorKind::UnexpectedResponse,
                    "ONVIF GetProfiles did not return any profile tokens"@,
                ),
            )
        },
    }
}

/// The configuration of the first profile with that token.
pub open spec fn configuration_of(profiles: Seq<ProfileModel>, token: Seq<char>) -> Option<Seq<char>>
    decreases profiles.len(),
{
    if profiles.len() == 0 {
        None
    } else if profiles[0].token == token {
        profiles[0].ptz_configuration_token
    } else {
        configuration_of(profiles.drop_first(), token)
    }
}

/// The first configuration of any profile.
pub open spec fn first_configuration(profiles: Seq<ProfileModel>) -> Option<Seq<char>>
    decreases profiles.len(),
{
    if profiles.len() == 0 {
        None
    } else if profiles[0].ptz_configuration_token is Some {
        profiles[0].ptz_configuration_token
    } else {
        first_configuration(profiles.drop_first())
    }
}

/// The configuration for a profile: its own, else that of the profile in the channel's place,
/// else the first that there is.
pub open spec fn configuration_token(
    profiles: Seq<ProfileModel>,
    profile_token: Seq<char>,
    channel: u8,
) -> Option<Seq<char>> {
    if configuration_of(profiles, profile_token) is Some {
        configuration_of(profiles, profile_token)
    } else if channel < profiles.len() && profiles[channel as int].ptz_configuration_token is Some {
        profiles[channel as int].ptz_configuration_token
    } else {
        first_configuration(profiles)
    }
}

fn find_configuration(profiles: &Vec<MediaProfile>, token: &str) -> (r: Option<String>)
    ensures
        option_model(r) == configuration_of(profile_models(profiles@), token@),
{
    let mut i: usize = 0;
    proof {
        assert(profile_models(profiles@).skip(0) =~= profile_models(profiles@));
    }
    while i < profiles.len()
        invariant
            i <= profiles.len(),
            configuration_of(profile_models(profiles@), token@) == configuration_of(
                profile_models(profiles@).skip(i as int),
                token@,
            ),
        decreases profiles.len() - i,
    {
        proof {
            let rest = profile_models(profiles@).skip(i as int);
            assert(rest[0] == profiles@[i as int]@);
            assert(rest.drop_first() =~= profile_models(profiles@).skip(i + 1));
        }
        if same_text(profiles[i].token.as_str(), token) {
            return copy_text(&profiles[i].ptz_configuration_token);
        }
        i = i + 1;
    }
    None
}

fn find_any_configuration(profiles: &Vec<MediaProfile>) -> (r: Option<String>)
    ensures
        option_model(r) == first_configuration(profile_models(profiles@)),
{
    let mut i: usize = 0;
    proof {
        assert(profile_models(profiles@).skip(0) =~= profile_models(profiles@));
    }
    while i < profiles.len()
        invariant
            i <= profiles.len(),
            first_configuration(profile_models(profiles@)) == first_configuration(
                profile_models(profiles@).skip(i as int),
            ),
        decreases profiles.len() - i,
    {
        proof {
            let rest = profile_models(profiles@).skip(i as int);
            assert(rest[0] == profiles@[i as int]@);
            assert(rest.drop_first() =~= profile_models(profiles@).skip(i + 1));
        }
        if profiles[i].ptz_configuration_token.is_some() {
            return copy_text(&profiles[i].ptz_configuration_token);
        }
        i = i + 1;
    }
    None
}

fn find_configuration_token(profiles: &Vec<MediaProfile>, profile_token: &str, channel: u8) -> (r:
    Option<String>)
    ensures
        option_model(r) == configuration_token(
            profile_models(profiles@),
            profile_token@,
            channel,
        ),
{
    let own = find_configuration(profiles, profile_token);
    if own.is_some() {
        return own;
    }
    let index: usize = channel as usize;
    if index < profiles.len() {
        proof {
            assert(profile_models(profiles@)[index as int] == profiles@[index as int]@);
        }
        if profiles[index].ptz_configuration_token.is_some() {
            return copy_text(&profiles[index].ptz_configuration_token);
        }
    }
    find_any_configuration(profiles)
}

impl ResolvedServices {
    /// The profile for a channel.
    pub fn profile_token_for_channel(&self, channel: u8, config: &OnvifConfig) -> (r: AppResult<
        String,
    >)
        ensures
            result_model(r) == profile_token_of(self@, channel, explicit_token(config@)),
    {
        if let Some(token) = explicit_profile_token(config) {
            return Ok(token);
        }
        let index: usize = channel as usize;
        if index < self.media_profiles.len() {
            return Ok(self.media_profiles[index].token.clone());
        }
        if self.media_profiles.len() > 0 {
            return Ok(self.media_profiles[0].token.clone());
        }
        Err(
            AppError::new(
                ErrorKind::UnexpectedResponse,
                "ONVIF GetProfiles did not return any profile tokens",
            ),
        )
    }

    /// The configuration for a profile.
    pub fn ptz_configuration_token_for(&self, profile_token: &str, channel: u8) -> (r: Option<
        String,
    >)
        ensures
            option_model(r) == configuration_token(self@.media_profiles, profile_token@, channel),
    {
        find_configuration_token(&self.media_profiles, profile_token, channel)
    }
}

/// Finding the configuration for a profile: among the profiles that are known, else among
/// those that the camera gives now.
pub open spec fn configuration_step(
    services: ServicesModel,
    profile_token: Seq<char>,
    channel: u8,
    replies: Seq<Result<Seq<char>, ErrorModel>>,
) -> SoapStepModel<Seq<char>> {
    match configuration_token(services.media_profiles, profile_token, channel) {
        Some(token) => SoapStepModel::Done(Ok(token)),
        None => match services.media_xaddr {
            None => SoapStepModel::Done(
                Err(
                    error_model(
                        ErrorKind::UnexpectedResponse,
                        "ONVIF GetConfigurationOptions requires Media XAddr to resolve a PTZ configuration token"@,
                    ),
                ),
            ),
            Some(address) => if replies.len() == 0 {
                SoapStepModel::Send(plain_call(address, GET_PROFILES_ACTION@, GET_PROFILES_BODY@))
            } else {
                match replies[0] {
                    Err(error) => SoapStepModel::Done(Err(error)),
                    Ok(xml) => match configuration_token(
                        profiles_from(xml, 0, Seq::empty()),
                        profile_token,
                        channel,
                    ) {
                        Some(token) => SoapStepModel::Done(Ok(token)),
                        None => SoapStepModel::Done(
                            Err(
                                error_model(
                                    ErrorKind::UnexpectedResponse,
                                    "ONVIF profile '"@ + profile_token
                                        + "' did not include a PTZ configuration token"@,
                                ),
                            ),
                        ),
                    },
                }
            },
        },
    }
}

fn resolve_ptz_configuration_token(
    services: &ResolvedServices,
    channel: u8,
    profile_token: &str,
    replies: &[AppResult<String>],
) -> (r: SoapStep<String>)
    ensures
        soap_step_model(r) == configuration_step(
            services@,
            profile_token@,
            channel,
            soap_reply_models(replies@),
        ),
{
    if let Some(token) = services.ptz_configuration_token_for(profile_token, channel) {
        return SoapStep::Done(Ok(token));
    }
    let address = match &services.media_xaddr {
        Some(address) => address,
        None => {
            return SoapStep::Done(
                Err(
                    AppError::new(
                        ErrorKind::UnexpectedResponse,
                        "ONVIF GetConfigurationOptions requires Media XAddr to resolve a PTZ configuration token",
                    ),
                ),
            );
        },
    };
    if replies.len() == 0 {
        return SoapStep::Send(
            build_call(address.as_str(), GET_PROFILES_ACTION, GET_PROFILES_BODY.to_owned()),
        );
    }
    let profiles = match reply_xml(&replies[0]) {
        Ok(xml) => extract_media_profiles(xml),
        Err(error) => {
            return SoapStep::Done(Err(error));
        },
    };
    match find_configuration_token(&profiles, profile_token, channel) {
        Some(token) => SoapStep::Done(Ok(token)),
        None => SoapStep::Done(
            Err(
                AppError::with_message(
                    ErrorKind::UnexpectedResponse,
                    join3(
                        "ONVIF profile '",
                        profile_token,
                        "' did not include a PTZ configuration token",
                    ),
                ),
            ),
        ),
    }
}

// ---------------------------------------------------------------- responses

#[derive(Debug, Clone, Copy, PartialEq, Eq, Structural)]
pub enum OnvifMoveStatus {
    Idle,
    Moving,
    Unknown,
}

impl View for OnvifMoveStatus {
    type V = OnvifMoveStatus;

    open spec fn view(&self) -> OnvifMoveStatus {
        *self
    }
}

/// The state of movement that a word names.
pub open spec fn move_status_named(raw: Seq<char>) -> OnvifMoveStatus {
    let word = lower(trim(raw));
    if word == "idle"@ {
        OnvifMoveStatus::Idle
    } else if word == "moving"@ {
        OnvifMoveStatus::Moving
    } else {
        OnvifMoveStatus::Unknown
    }
}

pub fn parse_move_status(raw_status: &str) -> (r: OnvifMoveStatus)
    ensures
        r == move_status_named(raw_status@),
{
    let trimmed = trim_text(raw_status);
    let word = lower_text(trimmed.as_str());
    if same_text(word.as_str(), "idle") {
        OnvifMoveStatus::Idle
    } else if same_text(word.as_str(), "moving") {
        OnvifMoveStatus::Moving
    } else {
        OnvifMoveStatus::Unknown
    }
}

/// What a status response says, its numbers as the texts in which they came.
#[derive(Debug, Clone, PartialEq, Eq)]
pub struct OnvifStatusFields {
    pub pan: Option<String>,
    pub tilt: Option<String>,
    pub zoom: Option<String>,
    pub pan_tilt_move_status: Option<OnvifMoveStatus>,
    pub zoom_move_status: Option<OnvifMoveStatus>,
    pub utc_time: Option<String>,
}

pub ghost struct StatusFieldsModel {
    pub pan: Option<Seq<char>>,
    pub tilt: Option<Seq<char>>,
    pub zoom: Option<Seq<char>>,
    pub pan_tilt_move_status: Option<OnvifMoveStatus>,
    pub zoom_move_status: Option<OnvifMoveStatus>,
    pub utc_time: Option<Seq<char>>,
}

impl View for OnvifStatusFields {
    type V = StatusFieldsModel;

    open spec fn view(&self) -> StatusFieldsModel {
        StatusFieldsModel {
            pan: option_model(self.pan),
            tilt: option_model(self.tilt),
            zoom: option_model(self.zoom),
            pan_tilt_move_status: self.pan_tilt_move_status,
            zoom_move_status: self.zoom_move_status,
            utc_time: option_model(self.utc_time),
        }
    }
}

/// An attribute of a tag inside another.
pub open spec fn nested_attribute(
    xml: Seq<char>,
    outer: Seq<char>,
    inner: Seq<char>,
    name: Seq<char>,
) -> Option<Seq<char>> {
    match inner_of(xml, outer) {
        Some(part) => tag_attribute(part, inner, name),
        None => None,
    }
}

/// The state of movement under a tag.
pub open spec fn nested_move_status(xml: Seq<char>, name: Seq<char>) -> Option<OnvifMoveStatus> {
    match inner_of(xml, "MoveStatus"@) {
        Some(part) => match text_of(part, name) {
            Some(word) => Some(move_status_named(word)),
            None => None,
        },
        None => None,
    }
}

/// What a status response says.
pub open spec fn status_fields(xml: Seq<char>) -> StatusFieldsModel {
    StatusFieldsModel {
        pan: nested_attribute(xml, "Position"@, "PanTilt"@, "x"@),
        tilt: nested_attribute(xml, "Position"@, "PanTilt"@, "y"@),
        zoom: nested_attribute(xml, "Position"@, "Zoom"@, "x"@),
        pan_tilt_move_status: nested_move_status(xml, "PanTilt"@),
        zoom_move_status: nested_move_status(xml, "Zoom"@),
        utc_time: text_of(xml, "UtcTime"@),
    }
}

fn read_move_status(part: &Option<String>, name: &str) -> (r: Option<OnvifMoveStatus>)
    ensures
        r == match option_model(*part) {
            Some(xml) => match text_of(xml, name@) {
                Some(word) => Some(move_status_named(word)),
                None => None,
            },
            None => None,
        },
{
    match part {
        Some(xml) => match extract_first_tag_text_by_local_name(xml.as_str(), name) {
            Some(word) => Some(parse_move_status(word.as_str())),
            None => None,
        },
        None => None,
    }
}

fn read_attribute(part: &Option<String>, inner: &str, name: &str) -> (r: Option<String>)
    ensures
        option_model(r) == match option_model(*part) {
            Some(xml) => tag_attribute(xml, inner@, name@),
            None => None,
        },
{
    match part {
        Some(xml) => extract_first_tag_attribute_by_local_name(xml.as_str(), inner, name),
        None => None,
    }
}

/// What a status response says.
pub fn parse_get_status_response(xml: &str) -> (r: OnvifStatusFields)
    ensures
        r@ == status_fields(xml@),
{
    let position = extract_first_tag_inner_by_local_name(xml, "Position");
    let movement = extract_first_tag_inner_by_local_name(xml, "MoveStatus");
    OnvifStatusFields {
        pan: read_attribute(&position, "PanTilt", "x"),
        tilt: read_attribute(&position, "PanTilt", "y"),
        zoom: read_attribute(&position, "Zoom", "x"),
        pan_tilt_move_status: read_move_status(&movement, "PanTilt"),
        zoom_move_status: read_move_status(&movement, "Zoom"),
        utc_time: extract_first_tag_text_by_local_name(xml, "UtcTime"),
    }
}

/// How the camera can be moved.
#[derive(Debug, Clone, PartialEq, Eq)]
pub struct OnvifPtzConfigurationOptions {
    pub supports_continuous_pan_tilt_velocity: bool,
    pub supports_relative_pan_tilt_translation: bool,
    pub supports_relative_pan_tilt_speed: bool,
    pub has_timeout_range: bool,
    pub timeout_min: Option<String>,
    pub timeout_max: Option<String>,
}

pub ghost struct OptionsModel {
    pub supports_continuous_pan_tilt_velocity: bool,
    pub supports_relative_pan_tilt_translation: bool,
    pub supports_relative_pan_tilt_speed: bool,
    pub has_timeout_range: bool,
    pub timeout_min: Option<Seq<char>>,
    pub timeout_max: Option<Seq<char>>,
}

impl View for OnvifPtzConfigurationOptions {
    type V = OptionsModel;

    open spec fn view(&self) -> OptionsModel {
        OptionsModel {
            supports_continuous_pan_tilt_velocity: self.supports_continuous_pan_tilt_velocity,
            supports_relative_pan_tilt_translation: self.supports_relative_pan_tilt_translation,
            supports_relative_pan_tilt_speed: self.supports_relative_pan_tilt_speed,
            has_timeout_range: self.has_timeout_range,
            timeout_min: option_model(self.timeout_min),
            timeout_max: option_model(self.timeout_max),
        }
    }
}

impl Default for OnvifPtzConfigurationOptions {
    fn default() -> (r: Self)
        ensures
            r@ == (OptionsModel {
                supports_continuous_pan_tilt_velocity: false,
                supports_relative_pan_tilt_translation: false,
                supports_relative_pan_tilt_speed: false,
                has_timeout_range: false,
                timeout_min: None,
                timeout_max: None,
            }),
    {
        OnvifPtzConfigurationOptions {
            supports_continuous_pan_tilt_velocity: false,
            supports_relative_pan_tilt_translation: false,
            supports_relative_pan_tilt_speed: false,
            has_timeout_range: false,
            timeout_min: None,
            timeout_max: None,
        }
    }
}

/// A bound of the timeout: in a tag of its own inside that of the timeout, else an attribute
/// of the timeout.
pub open spec fn timeout_bound(xml: Seq<char>, name: Seq<char>) -> Option<Seq<char>> {
    let inside = match inner_of(xml, "PTZTimeout"@) {
        Some(part) => text_of(part, name),
        None => None,
    };
    match inside {
        Some(text) => Some(text),
        None => tag_attribute(xml, "PTZTimeout"@, name),
    }
}

/// What an options response says.
pub open spec fn options_of(xml: Seq<char>) -> OptionsModel {
    OptionsModel {
        supports_continuous_pan_tilt_velocity: tag_named(
            xml,
            "ContinuousPanTiltVelocitySpace"@,
            0,
        ) is Some,
        supports_relative_pan_tilt_translation: tag_named(
            xml,
            "RelativePanTiltTranslationSpace"@,
            0,
        ) is Some,
        supports_relative_pan_tilt_speed: tag_named(xml, "PanTiltSpeedSpace"@, 0) is Some,
        has_timeout_range: inner_of(xml, "PTZTimeout"@) is Some || timeout_bound(xml, "Min"@) is Some
            || timeout_bound(xml, "Max"@) is Some,
        timeout_min: timeout_bound(xml, "Min"@),
        timeout_max: timeout_bound(xml, "Max"@),
    }
}

fn read_timeout_bound(xml: &str, range: &Option<String>, name: &str) -> (r: Option<String>)
    requires
        option_model(*range) == inner_of(xml@, "PTZTimeout"@),
    ensures
        option_model(r) == timeout_bound(xml@, name@),
{
    let inside = match range {
        Some(part) => extract_first_tag_text_by_local_name(part.as_str(), name),
        None => None,
    };
    if inside.is_some() {
        return inside;
    }
    extract_first_tag_attribute_by_local_name(xml, "PTZTimeout", name)
}

/// What an options response says.
pub fn parse_get_configuration_options_response(xml: &str) -> (r: OnvifPtzConfigurationOptions)
    ensures
        r@ == options_of(xml@),
{
    let range = extract_first_tag_inner_by_local_name(xml, "PTZTimeout");
    let timeout_min = read_timeout_bound(xml, &range, "Min");
    let timeout_max = read_timeout_bound(xml, &range, "Max");
    OnvifPtzConfigurationOptions {
        supports_continuous_pan_tilt_velocity: has_tag_with_local_name(
            xml,
            "ContinuousPanTiltVelocitySpace",
        ),
        supports_relative_pan_tilt_translation: has_tag_with_local_name(
            xml,
            "RelativePanTiltTranslationSpace",
        ),
        supports_relative_pan_tilt_speed: has_tag_with_local_name(xml, "PanTiltSpeedSpace"),
        has_timeout_range: range.is_some() || timeout_min.is_some() || timeout_max.is_some(),
        timeout_min,
        timeout_max,
    }
}

// ---------------------------------------------------------------- operations

/// A call on the movement service for a channel's profile.
pub open spec fn ptz_call(
    config: ConfigModel,
    channel: u8,
    services: Option<ServicesModel>,
    action: Seq<char>,
    body: spec_fn(Seq<char>) -> Seq<char>,
) -> Result<SoapModel, Option<ErrorModel>> {
    match services {
        None => Err(None),
        Some(known) => match profile_token_of(known, channel, explicit_token(config)) {
            Err(error) => Err(Some(error)),
            Ok(token) => Ok(plain_call(known.ptz_xaddr, action, body(token))),
        },
    }
}

/// Stopping: one message to the channel's profile.
pub open spec fn stop_soap_step(
    config: ConfigModel,
    channel: u8,
    services: Option<ServicesModel>,
    replies: Seq<Result<Seq<char>, ErrorModel>>,
) -> SoapStepModel<()> {
    match ptz_call(config, channel, services, STOP_ACTION@, |token: Seq<char>| stop_text(token)) {
        Err(None) => SoapStepModel::Resolve,
        Err(Some(error)) => SoapStepModel::Done(Err(error)),
        Ok(call) => if replies.len() == 0 {
            SoapStepModel::Send(call)
        } else {
            match replies[0] {
                Err(error) => SoapStepModel::Done(Err(error)),
                Ok(_) => SoapStepModel::Done(Ok(())),
            }
        },
    }
}

/// Stops the camera.
pub fn stop(
    config: &OnvifConfig,
    channel: u8,
    services: Option<&ResolvedServices>,
    replies: &[AppResult<String>],
) -> (r: SoapStep<()>)
    ensures
        soap_step_model(r) == stop_soap_step(
            config@,
            channel,
            optional_services(services),
            soap_reply_models(replies@),
        ),
{
    let known = match services {
        Some(known) => known,
        None => {
            return SoapStep::Resolve;
        },
    };
    let token = match known.profile_token_for_channel(channel, config) {
        Ok(token) => token,
        Err(error) => {
            return SoapStep::Done(Err(error));
        },
    };
    if replies.len() == 0 {
        return SoapStep::Send(
            build_call(known.ptz_xaddr.as_str(), STOP_ACTION, build_stop_body(token.as_str())),
        );
    }
    match &replies[0] {
        Ok(_) => SoapStep::Done(Ok(())),
        Err(error) => SoapStep::Done(Err(error.duplicate())),
    }
}

/// A movement: it is started with its duration as a timeout, and where it has a duration,
/// stopped after it. Speeds outside 1 to 64 and diagonals are refused.
pub open spec fn move_soap_step(
    config: ConfigModel,
    channel: u8,
    direction: PtzDirection,
    speed: u8,
    duration_ms: Option<u64>,
    services: Option<ServicesModel>,
    replies: Seq<Result<Seq<char>, ErrorModel>>,
) -> SoapStepModel<()> {
    if !(1 <= speed <= 64) {
        SoapStepModel::Done(
            Err(
                error_model(
                    ErrorKind::InvalidInput,
                    "speed must be in range 1..=64, got "@ + dec(speed as nat),
                ),
            ),
        )
    } else {
        match velocity_of(direction, speed) {
            Err(error) => SoapStepModel::Done(Err(error)),
            Ok((pan, tilt)) => match ptz_call(
                config,
                channel,
                services,
                CONTINUOUS_MOVE_ACTION@,
                |token: Seq<char>|
                    continuous_move_text(
                        token,
                        velocity_text(pan),
                        velocity_text(tilt),
                        match duration_ms {
                            Some(ms) => Some(duration_text(ms)),
                            None => None,
                        },
                    ),
            ) {
                Err(None) => SoapStepModel::Resolve,
                Err(Some(error)) => SoapStepModel::Done(Err(error)),
                Ok(call) => if replies.len() == 0 {
                    SoapStepModel::Send(call)
                } else {
                    match replies[0] {
                        Err(error) => SoapStepModel::Done(Err(error)),
                        Ok(_) => match duration_ms {
                            None => SoapStepModel::Done(Ok(())),
                            Some(ms) => match stop_soap_step(
                                config,
                                channel,
                                services,
                                replies.skip(1),
                            ) {
                                SoapStepModel::Send(stop) => SoapStepModel::Send(
                                    SoapModel { delay_ms: ms, ..stop },
                                ),
                                other => other,
                            },
                        },
                    }
                },
            },
        }
    }
}

/// Moves the camera.
pub fn continuous_move(
    config: &OnvifConfig,
    channel: u8,
    direction: PtzDirection,
    speed: u8,
    duration_ms: Option<u64>,
    services: Option<&ResolvedServices>,
    replies: &[AppResult<String>],
) -> (r: SoapStep<()>)
    ensures
        soap_step_model(r) == move_soap_step(
            config@,
            channel,
            direction,
            speed,
            duration_ms,
            optional_services(services),
            soap_reply_models(replies@),
        ),
{
    let speed = match PtzSpeed::new(speed) {
        Ok(speed) => speed,
        Err(error) => {
            return SoapStep::Done(Err(error));
        },
    };
    let (pan, tilt) = match velocity_from_direction(direction, speed.value()) {
        Ok(velocity) => velocity,
        Err(error) => {
            return SoapStep::Done(Err(error));
        },
    };
    let known = match services {
        Some(known) => known,
        None => {
            return SoapStep::Resolve;
        },
    };
    let token = match known.profile_token_for_channel(channel, config) {
        Ok(token) => token,
        Err(error) => {
            return SoapStep::Done(Err(error));
        },
    };
    if replies.len() == 0 {
        let timeout = match duration_ms {
            Some(ms) => Some(format_duration(ms)),
            None => None,
        };
        let body = build_continuous_move_body(
            token.as_str(),
            format_velocity(pan).as_str(),
            format_velocity(tilt).as_str(),
            timeout,
        );
        return SoapStep::Send(build_call(known.ptz_xaddr.as_str(), CONTINUOUS_MOVE_ACTION, body));
    }
    if let Err(error) = &replies[0] {
        return SoapStep::Done(Err(error.duplicate()));
    }
    let ms: u64 = match duration_ms {
        Some(ms) => ms,
        None => {
            return SoapStep::Done(Ok(()));
        },
    };
    let rest = vstd::slice::slice_subrange(replies, 1, replies.len());
    proof {
        assert(soap_reply_models(rest@) =~= soap_reply_models(replies@).skip(1));
    }
    match stop(config, channel, services, rest) {
        SoapStep::Send(call) => SoapStep::Send(
            SoapCall { url: call.url, action: call.action, body: call.body, delay_ms: ms },
        ),
        other => other,
    }
}

/// The status of a channel's profile: one message.
pub open spec fn status_soap_step(
    config: ConfigModel,
    channel: u8,
    services: Option<ServicesModel>,
    replies: Seq<Result<Seq<char>, ErrorModel>>,
) -> SoapStepModel<StatusFieldsModel> {
    match ptz_call(
        config,
        channel,
        services,
        GET_STATUS_ACTION@,
        |token: Seq<char>| get_status_text(token),
    ) {
        Err(None) => SoapStepModel::Resolve,
        Err(Some(error)) => SoapStepModel::Done(Err(error)),
        Ok(call) => if replies.len() == 0 {
            SoapStepModel::Send(call)
        } else {
            match replies[0] {
                Err(error) => SoapStepModel::Done(Err(error)),
                Ok(xml) => SoapStepModel::Done(Ok(status_fields(xml))),
            }
        },
    }
}

/// The status of a channel.
pub fn get_status(
    config: &OnvifConfig,
    channel: u8,
    services: Option<&ResolvedServices>,
    replies: &[AppResult<String>],
) -> (r: SoapStep<OnvifStatusFields>)
    ensures
        soap_step_model(r) == status_soap_step(
            config@,
            channel,
            optional_services(services),
            soap_reply_models(replies@),
        ),
{
    let known = match services {
        Some(known) => known,
        None => {
            return SoapStep::Resolve;
        },
    };
    let token = match known.profile_token_for_channel(channel, config) {
        Ok(token) => token,
        Err(error) => {
            return SoapStep::Done(Err(error));
        },
    };
    if replies.len() == 0 {
        return SoapStep::Send(
            build_call(
                known.ptz_xaddr.as_str(),
                GET_STATUS_ACTION,
                build_get_status_body(token.as_str()),
            ),
        );
    }
    match reply_xml(&replies[0]) {
        Ok(xml) => SoapStep::Done(Ok(parse_get_status_response(xml))),
        Err(error) => SoapStep::Done(Err(error)),
    }
}

/// How many answers finding the configuration took.
pub open spec fn configuration_answers(
    services: ServicesModel,
    profile_token: Seq<char>,
    channel: u8,
) -> int {
    if configuration_token(services.media_profiles, profile_token, channel) is Some {
        0
    } else {
        1
    }
}

/// The options of a channel's profile: its configuration is found, and one message asks for
/// its options.
pub open spec fn options_soap_step(
    config: ConfigModel,
    channel: u8,
    services: Option<ServicesModel>,
    replies: Seq<Result<Seq<char>, ErrorModel>>,
) -> SoapStepModel<OptionsModel> {
    match services {
        None => SoapStepModel::Resolve,
        Some(known) => match profile_token_of(known, channel, explicit_token(config)) {
            Err(error) => SoapStepModel::Done(Err(error)),
            Ok(token) => match configuration_step(known, token, channel, replies) {
                SoapStepModel::Resolve => SoapStepModel::Resolve,
                SoapStepModel::Send(call) => SoapStepModel::Send(call),
                SoapStepModel::Done(Err(error)) => SoapStepModel::Done(Err(error)),
                SoapStepModel::Done(Ok(configuration)) => {
                    let at = configuration_answers(known, token, channel);
                    if replies.len() <= at {
                        SoapStepModel::Send(
                            plain_call(
                                known.ptz_xaddr,
                                GET_CONFIGURATION_OPTIONS_ACTION@,
                                get_options_text(configuration),
                            ),
                        )
                    } else {
                        match replies[at] {
                            Err(error) => SoapStepModel::Done(Err(error)),
                            Ok(xml) => SoapStepModel::Done(Ok(options_of(xml))),
                        }
                    }
                },
            },
        },
    }
}

/// How the camera can be moved on a channel.
pub fn get_configuration_options(
    config: &OnvifConfig,
    channel: u8,
    services: Option<&ResolvedServices>,
    replies: &[AppResult<String>],
) -> (r: SoapStep<OnvifPtzConfigurationOptions>)
    ensures
        soap_step_model(r) == options_soap_step(
            config@,
            channel,
            optional_services(services),
            soap_reply_models(replies@),
        ),
{
    let known = match services {
        Some(known) => known,
        None => {
            return SoapStep::Resolve;
        },
    };
    let token = match known.profile_token_for_channel(channel, config) {
        Ok(token) => token,
        Err(error) => {
            return SoapStep::Done(Err(error));
        },
    };
    let at: usize = if known.ptz_configuration_token_for(token.as_str(), channel).is_some() {
        0
    } else {
        1
    };
    let configuration = match resolve_ptz_configuration_token(
        known,
        channel,
        token.as_str(),
        replies,
    ) {
        SoapStep::Resolve => {
            return SoapStep::Resolve;
        },
        SoapStep::Send(call) => {
            return SoapStep::Send(call);
        },
        SoapStep::Done(Err(error)) => {
            return SoapStep::Done(Err(error));
        },
        SoapStep::Done(Ok(configuration)) => configuration,
    };
    if replies.len() <= at {
        return SoapStep::Send(
            build_call(
                known.ptz_xaddr.as_str(),
                GET_CONFIGURATION_OPTIONS_ACTION,
                build_get_configuration_options_body(configuration.as_str()),
            ),
        );
    }
    match reply_xml(&replies[at]) {
        Ok(xml) => SoapStep::Done(Ok(parse_get_configuration_options_response(xml))),
        Err(error) => SoapStep::Done(Err(error)),
    }
}

/// A movement by a distance: one message, with its two parts as decimal texts.
pub open spec fn relative_soap_step(
    config: ConfigModel,
    channel: u8,
    pan: Seq<char>,
    tilt: Seq<char>,
    services: Option<ServicesModel>,
    replies: Seq<Result<Seq<char>, ErrorModel>>,
) -> SoapStepModel<()> {
    match ptz_call(
        config,
        channel,
        services,
        RELATIVE_MOVE_ACTION@,
        |token: Seq<char>| relative_move_text(token, pan, tilt),
    ) {
        Err(None) => SoapStepModel::Resolve,
        Err(Some(error)) => SoapStepModel::Done(Err(error)),
        Ok(call) => if replies.len() == 0 {
            SoapStepModel::Send(call)
        } else {
            match replies[0] {
                Err(error) => SoapStepModel::Done(Err(error)),
                Ok(_) => SoapStepModel::Done(Ok(())),
            }
        },
    }
}

/// Moves the camera by a distance, given as decimal texts.
pub fn relative_move(
    config: &OnvifConfig,
    channel: u8,
    pan: &str,
    tilt: &str,
    services: Option<&ResolvedServices>,
    replies: &[AppResult<String>],
) -> (r: SoapStep<()>)
    ensures
        soap_step_model(r) == relative_soap_step(
            config@,
            channel,
            pan@,
            tilt@,
            optional_services(services),
            soap_reply_models(replies@),
        ),
{
    let known = match services {
        Some(known) => known,
        None => {
            return SoapStep::Resolve;
        },
    };
    let token = match known.profile_token_for_channel(channel, config) {
        Ok(token) => token,
        Err(error) => {
            return SoapStep::Done(Err(error));
        },
    };
    if replies.len() == 0 {
        return SoapStep::Send(
            build_call(
                known.ptz_xaddr.as_str(),
                RELATIVE_MOVE_ACTION,
                build_relative_move_body(token.as_str(), pan, tilt),
            ),
        );
    }
    match &replies[0] {
        Ok(_) => SoapStep::Done(Ok(())),
        Err(error) => SoapStep::Done(Err(error.duplicate())),
    }
}

// ---------------------------------------------------------------- laws

/// Services that are known for a configuration are used as they are: nothing is asked.
pub proof fn law_known_services_are_reused(
    config: ConfigModel,
    known: ServicesModel,
    replies: Seq<Result<Seq<char>, ErrorModel>>,
)
    requires
        config_error(config) is None,
        known.cache_key == services_key(config),
    ensures
        resolve_step(config, Some(known), replies) == SoapStepModel::Done(
            Ok::<ServicesModel, ErrorModel>(known),
        ),
{
}

/// The services that are found belong to the configuration, and have a profile for every
/// channel or a configuration that names one.
pub proof fn law_found_services_serve_every_channel(
    config: ConfigModel,
    replies: Seq<Result<Seq<char>, ErrorModel>>,
    channel: u8,
)
    ensures
        resolve_step(config, None, replies) matches SoapStepModel::Done(Ok(services)) ==> {
            &&& services.cache_key == services_key(config)
            &&& profile_token_of(services, channel, explicit_token(config)) is Ok
        },
{
}

/// No two profiles have the same token, and none has an empty one.
pub open spec fn distinct_profiles(profiles: Seq<ProfileModel>) -> bool {
    &&& forall|i: int, j: int|
        0 <= i < j < profiles.len() ==> (#[trigger] profiles[i]).token != (#[trigger] profiles[j]).token
    &&& forall|i: int| 0 <= i < profiles.len() ==> (#[trigger] profiles[i]).token.len() > 0
}

/// A camera's profiles are listed once each, and with a token.
pub proof fn law_profiles_are_distinct(xml: Seq<char>, from: int, known: Seq<ProfileModel>)
    requires
        distinct_profiles(known),
    ensures
        distinct_profiles(profiles_from(xml, from, known)),
    decreases xml.len() - from,
{
    if let Some(tag) = next_tag(xml, from) {
        if from < tag.content_start <= xml.len() {
            let more = match profile_at(xml, tag, known) {
                Some(profile) => known.push(profile),
                None => known,
            };
            assert(distinct_profiles(more)) by {
                if let Some(profile) = profile_at(xml, tag, known) {
                    assert forall|i: int| 0 <= i < known.len() implies (#[trigger] known[i]).token
                        != profile.token by {}
                }
            }
            law_profiles_are_distinct(xml, tag.content_start, more);
        }
    }
}

} // verus!
