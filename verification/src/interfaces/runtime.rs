//! The settings of the process: what its environment variables say.
use crate::json::option_model;
use crate::model::{DeviceInfo, DeviceModel};
use crate::reolink::client::{Auth, AuthModel, Client, ClientModel, Sessions};
use crate::reolink::onvif::{ConfigModel, OnvifConfig, DEFAULT_REQUEST_TIMEOUT_MS};
use crate::text::{
    char_is_digit, char_to_lower, ends_with, ends_with_text, is_digit, is_space, join2, join3, lemma_trim_is_part, lower,
    lower_char, lower_text, parse_u16_text, parse_unsigned, same_text, slice_text, to_chars, trim,
    trim_text,
};
use vstd::prelude::*;

verus! {

pub const DEFAULT_ENDPOINT: &'static str = "https://camera.local";

pub const ENDPOINT_ENV: &'static str = "REOCLI_ENDPOINT";

pub const TOKEN_ENV: &'static str = "REOCLI_TOKEN";

pub const TOKEN_CACHE_PATH_ENV: &'static str = "REOCLI_TOKEN_CACHE_PATH";

pub const USER_ENV: &'static str = "REOCLI_USER";

pub const PASSWORD_ENV: &'static str = "REOCLI_PASSWORD";

pub const CALIBRATION_DIR_ENV: &'static str = "REOCLI_CALIBRATION_DIR";

pub const PTZ_BACKEND_ENV: &'static str = "REOCLI_PTZ_BACKEND";

pub const ONVIF_DEVICE_SERVICE_URL_ENV: &'static str = "REOCLI_ONVIF_DEVICE_SERVICE_URL";

pub const ONVIF_PROFILE_TOKEN_ENV: &'static str = "REOCLI_ONVIF_PROFILE_TOKEN";

pub const ONVIF_PORT_ENV: &'static str = "REOCLI_ONVIF_PORT";

pub const HOME_ENV: &'static str = "HOME";

pub const DEFAULT_USER: &'static str = "admin";

pub const DEFAULT_TOKEN_CACHE_SUBDIR: &'static str = ".reocli/tokens";

pub const DEFAULT_CALIBRATION_SUBDIR: &'static str = ".reocli/calibration";

pub const DEFAULT_ONVIF_PORT: u16 = 8000;

pub const UNKNOWN_KEY_COMPONENT: &'static str = "unknown";

/// From how many characters on a host or an address is no longer taken.
pub const MAX_ADDRESS_CHARS: usize = 0x100_0000;

/// The environment variables that the program reads, as they are set.
#[derive(Debug, Clone, PartialEq, Eq)]
pub struct Environment {
    pub endpoint: Option<String>,
    pub token: Option<String>,
    pub token_cache_path: Option<String>,
    pub user: Option<String>,
    pub password: Option<String>,
    pub calibration_dir: Option<String>,
    pub ptz_backend: Option<String>,
    pub onvif_device_service_url: Option<String>,
    pub onvif_profile_token: Option<String>,
    pub onvif_port: Option<String>,
    pub home: Option<String>,
}

pub ghost struct EnvironmentModel {
    pub endpoint: Option<Seq<char>>,
    pub token: Option<Seq<char>>,
    pub token_cache_path: Option<Seq<char>>,
    pub user: Option<Seq<char>>,
    pub password: Option<Seq<char>>,
    pub calibration_dir: Option<Seq<char>>,
    pub ptz_backend: Option<Seq<char>>,
    pub onvif_device_service_url: Option<Seq<char>>,
    pub onvif_profile_token: Option<Seq<char>>,
    pub onvif_port: Option<Seq<char>>,
    pub home: Option<Seq<char>>,
}

impl View for Environment {
    type V = EnvironmentModel;

    open spec fn view(&self) -> EnvironmentModel {
        EnvironmentModel {
            endpoint: option_model(self.endpoint),
            token: option_model(self.token),
            token_cache_path: option_model(self.token_cache_path),
            user: option_model(self.user),
            password: option_model(self.password),
            calibration_dir: option_model(self.calibration_dir),
            ptz_backend: option_model(self.ptz_backend),
            onvif_device_service_url: option_model(self.onvif_device_service_url),
            onvif_profile_token: option_model(self.onvif_profile_token),
            onvif_port: option_model(self.onvif_port),
            home: option_model(self.home),
        }
    }
}

/// How the camera is moved.
#[derive(Debug, Clone, Copy, PartialEq, Eq, Structural)]
pub enum PtzBackend {
    Cgi,
    OnvifContinuous,
}

// ---------------------------------------------------------------- values

/// A value without the space around it, where anything is left.
pub open spec fn trimmed_value(value: Option<Seq<char>>) -> Option<Seq<char>> {
    match value {
        Some(text) => if trim(text).len() == 0 {
            None
        } else {
            Some(trim(text))
        },
        None => None,
    }
}

/// A value, or what stands in for it.
pub open spec fn value_or(value: Option<Seq<char>>, other: Seq<char>) -> Seq<char> {
    match value {
        Some(text) => text,
        None => other,
    }
}

fn env_var_trimmed(value: &Option<String>) -> (r: Option<String>)
    ensures
        option_model(r) == trimmed_value(option_model(*value)),
{
    match value {
        Some(text) => {
            let trimmed = trim_text(text.as_str());
            if trimmed.as_str().is_empty() {
                None
            } else {
                Some(trimmed)
            }
        },
        None => None,
    }
}

fn text_or(value: Option<String>, other: &str) -> (r: String)
    ensures
        r@ == value_or(option_model(value), other@),
{
    match value {
        Some(text) => text,
        None => other.to_owned(),
    }
}

// ---------------------------------------------------------------- key components

pub open spec fn is_key_char(c: char) -> bool {
    is_digit(c) || 'a' <= c <= 'z' || 'A' <= c <= 'Z'
}

/// Letters in lower case and digits stay; each run of other characters is one underscore.
pub open spec fn key_chars(s: Seq<char>, after_separator: bool) -> Seq<char>
    decreases s.len(),
{
    if s.len() == 0 {
        Seq::empty()
    } else if is_key_char(s[0]) {
        seq![lower_char(s[0])] + key_chars(s.drop_first(), false)
    } else if after_separator {
        key_chars(s.drop_first(), true)
    } else {
        seq!['_'] + key_chars(s.drop_first(), true)
    }
}

/// The text without the underscores that it starts with.
pub open spec fn strip_start(s: Seq<char>) -> Seq<char>
    decreases s.len(),
{
    if s.len() > 0 && s[0] == '_' {
        strip_start(s.drop_first())
    } else {
        s
    }
}

/// The text without the underscores that it ends with.
pub open spec fn strip_end(s: Seq<char>) -> Seq<char>
    decreases s.len(),
{
    if s.len() > 0 && s.last() == '_' {
        strip_end(s.drop_last())
    } else {
        s
    }
}

/// A text as it stands in the name of a file.
pub open spec fn key_component(raw: Seq<char>) -> Seq<char> {
    let key = strip_end(strip_start(key_chars(trim(raw), false)));
    if key.len() == 0 {
        UNKNOWN_KEY_COMPONENT@
    } else {
        key
    }
}

fn strip_underscores(text: &str) -> (r: String)
    ensures
        r@ == strip_end(strip_start(text@)),
{
    let chars = to_chars(text);
    let mut from: usize = 0;
    proof {
        assert(chars@.skip(0) =~= chars@);
    }
    while from < chars.len() && chars[from] == '_'
        invariant
            from <= chars.len(),
            strip_start(chars@) == strip_start(chars@.skip(from as int)),
        decreases chars.len() - from,
    {
        proof {
            assert(chars@.skip(from as int).drop_first() =~= chars@.skip(from + 1));
        }
        from = from + 1;
    }
    proof {
        assert(from < chars.len() ==> chars@.skip(from as int)[0] == chars@[from as int]);
        assert(strip_start(chars@) == chars@.skip(from as int));
    }
    let mut to: usize = chars.len();
    while to > from && chars[to - 1] == '_'
        invariant
            from <= to <= chars.len(),
            strip_end(chars@.skip(from as int)) == strip_end(
                chars@.subrange(from as int, to as int),
            ),
        decreases to,
    {
        proof {
            assert(chars@.subrange(from as int, to as int).drop_last() =~= chars@.subrange(
                from as int,
                to - 1,
            ));
        }
        to = to - 1;
    }
    proof {
        assert(chars@.subrange(from as int, chars.len() as int) =~= chars@.skip(from as int));
        assert(to > from ==> chars@.subrange(from as int, to as int).last() == chars@[to - 1]);
    }
    slice_text(chars.as_slice(), from, to)
}

/// A text as it stands in the name of a file.
pub fn sanitize_key_component(raw: &str) -> (r: String)
    ensures
        r@ == key_component(raw@),
{
    let trimmed = trim_text(raw);
    let chars = to_chars(trimmed.as_str());
    let mut normalized = String::new();
    let mut previous_was_separator = false;
    let mut i: usize = 0;
    proof {
        assert(chars@.skip(0) =~= chars@);
        assert(normalized@ + key_chars(chars@, false) =~= key_chars(chars@, false));
    }
    while i < chars.len()
        invariant
            i <= chars.len(),
            normalized@ + key_chars(chars@.skip(i as int), previous_was_separator) == key_chars(
                chars@,
                false,
            ),
        decreases chars.len() - i,
    {
        let c = chars[i];
        let ghost before = normalized@;
        let ghost rest = chars@.skip(i as int);
        proof {
            assert(rest.drop_first() =~= chars@.skip(i + 1));
        }
        if char_is_digit(c) || ('a' <= c && c <= 'z') || ('A' <= c && c <= 'Z') {
            normalized.push(char_to_lower(c));
            previous_was_separator = false;
            proof {
                assert(before + (seq![lower_char(c)] + key_chars(chars@.skip(i + 1), false))
                    =~= before.push(lower_char(c)) + key_chars(chars@.skip(i + 1), false));
            }
        } else if !previous_was_separator {
            normalized.push('_');
            previous_was_separator = true;
            proof {
                assert(before + (seq!['_'] + key_chars(chars@.skip(i + 1), true)) =~= before.push(
                    '_',
                ) + key_chars(chars@.skip(i + 1), true));
            }
        }
        i = i + 1;
    }
    proof {
        assert(chars@.skip(i as int) =~= Seq::<char>::empty());
        assert(normalized@ + Seq::<char>::empty() =~= normalized@);
    }
    let key = strip_underscores(normalized.as_str());
    if key.as_str().is_empty() {
        UNKNOWN_KEY_COMPONENT.to_owned()
    } else {
        key
    }
}

// ---------------------------------------------------------------- paths

/// A path below a directory.
pub open spec fn path_below(dir: Seq<char>, name: Seq<char>) -> Seq<char> {
    if dir.len() == 0 || ends_with(dir, "/"@) {
        dir + name
    } else {
        dir + "/"@ + name
    }
}

pub fn join_path(dir: &str, name: &str) -> (r: String)
    ensures
        r@ == path_below(dir@, name@),
{
    if dir.is_empty() || ends_with_text(dir, "/") {
        join2(dir, name)
    } else {
        join3(dir, "/", name)
    }
}

pub open spec fn endpoint_of(env: EnvironmentModel) -> Seq<char> {
    value_or(env.endpoint, DEFAULT_ENDPOINT@)
}

/// The address of the camera.
pub fn endpoint_from_env(env: &Environment) -> (r: String)
    ensures
        r@ == endpoint_of(env@),
{
    match &env.endpoint {
        Some(endpoint) => endpoint.clone(),
        None => DEFAULT_ENDPOINT.to_owned(),
    }
}

/// The user whose abilities are asked for before a command is carried out.
pub open spec fn ability_user_of(env: EnvironmentModel) -> Seq<char> {
    value_or(trimmed_value(env.user), DEFAULT_USER@)
}

pub fn ability_user_from_env(env: &Environment) -> (r: String)
    ensures
        r@ == ability_user_of(env@),
{
    text_or(env_var_trimmed(&env.user), DEFAULT_USER)
}

/// The directory of the calibrations.
pub open spec fn calibration_dir_of(env: EnvironmentModel) -> Seq<char> {
    match trimmed_value(env.calibration_dir) {
        Some(dir) => dir,
        None => match trimmed_value(env.home) {
            Some(home) => path_below(home, DEFAULT_CALIBRATION_SUBDIR@),
            None => DEFAULT_CALIBRATION_SUBDIR@,
        },
    }
}

pub fn calibration_dir_from_env(env: &Environment) -> (r: String)
    ensures
        r@ == calibration_dir_of(env@),
{
    match env_var_trimmed(&env.calibration_dir) {
        Some(dir) => dir,
        None => match env_var_trimmed(&env.home) {
            Some(home) => join_path(home.as_str(), DEFAULT_CALIBRATION_SUBDIR),
            None => DEFAULT_CALIBRATION_SUBDIR.to_owned(),
        },
    }
}

/// What tells the calibration of one camera from that of another.
pub open spec fn camera_key_of(device: DeviceModel) -> Seq<char> {
    key_component(device.serial_number) + "__"@ + key_component(device.model) + "__"@
        + key_component(device.firmware)
}

pub fn calibration_camera_key(device_info: &DeviceInfo) -> (r: String)
    ensures
        r@ == camera_key_of(device_info@),
{
    let serial = sanitize_key_component(device_info.serial_number.as_str());
    let model = sanitize_key_component(device_info.model.as_str());
    let firmware = sanitize_key_component(device_info.firmware.as_str());
    let left = join3(serial.as_str(), "__", model.as_str());
    join3(left.as_str(), "__", firmware.as_str())
}

/// The file that holds the calibration of a camera.
pub open spec fn calibration_path_of(env: EnvironmentModel, device: DeviceModel) -> Seq<char> {
    path_below(calibration_dir_of(env), camera_key_of(device) + ".json"@)
}

pub fn calibration_file_path_for_camera(env: &Environment, device_info: &DeviceInfo) -> (r: String)
    ensures
        r@ == calibration_path_of(env@, device_info@),
{
    let dir = calibration_dir_from_env(env);
    let key = calibration_camera_key(device_info);
    let name = join2(key.as_str(), ".json");
    join_path(dir.as_str(), name.as_str())
}

/// The file that holds the token for the endpoint, where there is a place for it.
pub open spec fn token_path_of(env: EnvironmentModel) -> Option<Seq<char>> {
    match trimmed_value(env.token_cache_path) {
        Some(path) => Some(path),
        None => match trimmed_value(env.home) {
            Some(home) => Some(
                path_below(
                    path_below(home, DEFAULT_TOKEN_CACHE_SUBDIR@),
                    key_component(endpoint_of(env)) + ".token"@,
                ),
            ),
            None => None,
        },
    }
}

pub fn token_cache_path_from_env(env: &Environment) -> (r: Option<String>)
    ensures
        option_model(r) == token_path_of(env@),
{
    match env_var_trimmed(&env.token_cache_path) {
        Some(path) => Some(path),
        None => match env_var_trimmed(&env.home) {
            Some(home) => {
                let dir = join_path(home.as_str(), DEFAULT_TOKEN_CACHE_SUBDIR);
                let endpoint = endpoint_from_env(env);
                let key = sanitize_key_component(endpoint.as_str());
                let name = join2(key.as_str(), ".token");
                Some(join_path(dir.as_str(), name.as_str()))
            },
            None => None,
        },
    }
}

// ---------------------------------------------------------------- credentials

/// The user and the password, where a password is set.
pub open spec fn login_of(env: EnvironmentModel) -> Option<AuthModel> {
    match trimmed_value(env.password) {
        Some(password) => Some(
            AuthModel::UserPassword { user: value_or(trimmed_value(env.user), DEFAULT_USER@), password },
        ),
        None => None,
    }
}

/// The credentials that come first, and those to go back to: a token of the environment, a
/// token that was kept in a file, a user with a password, and none.
pub open spec fn auth_of(env: EnvironmentModel, kept_file: Option<Seq<char>>) -> (
    AuthModel,
    Option<AuthModel>,
) {
    match trimmed_value(env.token) {
        Some(token) => (AuthModel::Token(token), login_of(env)),
        None => match trimmed_value(kept_file) {
            Some(token) => (AuthModel::Token(token), login_of(env)),
            None => match login_of(env) {
                Some(login) => (login, None),
                None => (AuthModel::Anonymous, None),
            },
        },
    }
}

/// The credentials of the environment, given what the token file holds, where it was read.
pub fn auth_from_env(env: &Environment, kept_file: &Option<String>) -> (r: (Auth, Option<Auth>))
    ensures
        (r.0@, option_model(r.1)) == auth_of(env@, option_model(*kept_file)),
{
    let fallback_auth = match env_var_trimmed(&env.password) {
        Some(password) => {
            let user = text_or(env_var_trimmed(&env.user), DEFAULT_USER);
            Some(Auth::UserPassword { user, password })
        },
        None => None,
    };
    if let Some(token) = env_var_trimmed(&env.token) {
        return (Auth::Token(token), fallback_auth);
    }
    if let Some(token) = env_var_trimmed(kept_file) {
        return (Auth::Token(token), fallback_auth);
    }
    match fallback_auth {
        Some(auth) => (auth, None),
        None => (Auth::Anonymous, None),
    }
}

/// The client that the environment describes.
pub open spec fn client_of(
    env: EnvironmentModel,
    kept_file: Option<Seq<char>>,
    session: nat,
) -> ClientModel {
    ClientModel {
        endpoint: endpoint_of(env),
        auth: auth_of(env, kept_file).0,
        fallback_auth: auth_of(env, kept_file).1,
        allow_insecure_tls: true,
        token_cache_path: token_path_of(env),
        session,
    }
}

/// The client that the environment describes, with a session of its own, given what the
/// token file holds, where it was read.
pub fn client_from_env(
    sessions: &mut Sessions,
    env: &Environment,
    kept_file: &Option<String>,
) -> (r: Client)
    ensures
        final(sessions)@ == old(sessions)@.push(None),
        r@ == client_of(env@, option_model(*kept_file), old(sessions)@.len()),
{
    let endpoint = endpoint_from_env(env);
    let token_cache_path = token_cache_path_from_env(env);
    let (primary_auth, fallback_auth) = auth_from_env(env, kept_file);
    let client = Client::new(sessions, endpoint.as_str(), primary_auth);
    let client = match token_cache_path {
        Some(path) => client.with_token_cache_path(path),
        None => client,
    };
    match fallback_auth {
        Some(auth) => client.with_fallback_auth(auth),
        None => client,
    }
}

// ---------------------------------------------------------------- moving the camera

pub open spec fn backend_named(name: Seq<char>) -> PtzBackend {
    let word = lower(name);
    if word == "onvif"@ || word == "continuous"@ || word == "onvif_continuous"@ || word
        == "onvif-continuous"@ {
        PtzBackend::OnvifContinuous
    } else {
        PtzBackend::Cgi
    }
}

pub open spec fn backend_of(env: EnvironmentModel) -> PtzBackend {
    match trimmed_value(env.ptz_backend) {
        Some(name) => backend_named(name),
        None => PtzBackend::Cgi,
    }
}

/// How the environment wants the camera to be moved.
pub fn ptz_backend_from_env(env: &Environment) -> (r: PtzBackend)
    ensures
        r == backend_of(env@),
{
    match env_var_trimmed(&env.ptz_backend) {
        Some(name) => {
            let lowered = lower_text(name.as_str());
            let word = lowered.as_str();
            if same_text(word, "onvif") || same_text(word, "continuous") || same_text(
                word,
                "onvif_continuous",
            ) || same_text(word, "onvif-continuous") {
                PtzBackend::OnvifContinuous
            } else {
                PtzBackend::Cgi
            }
        },
        None => PtzBackend::Cgi,
    }
}

pub open spec fn onvif_port_of(env: EnvironmentModel) -> u16 {
    match trimmed_value(env.onvif_port) {
        Some(raw) => match parse_unsigned(raw, 65535) {
            Some(port) => if port > 0 {
                port as u16
            } else {
                DEFAULT_ONVIF_PORT
            },
            None => DEFAULT_ONVIF_PORT,
        },
        None => DEFAULT_ONVIF_PORT,
    }
}

fn onvif_port_from_env(env: &Environment) -> (r: u16)
    ensures
        r == onvif_port_of(env@),
{
    match env_var_trimmed(&env.onvif_port) {
        Some(raw) => match parse_u16_text(raw.as_str()) {
            Some(port) => if port > 0 {
                port
            } else {
                DEFAULT_ONVIF_PORT
            },
            None => DEFAULT_ONVIF_PORT,
        },
        None => DEFAULT_ONVIF_PORT,
    }
}

/// The host of an address, as `reqwest::Url` reads it.
pub uninterp spec fn host_of_url(url: Seq<char>) -> Option<Seq<char>>;

/// An address with its host replaced.
pub uninterp spec fn url_with_host(url: Seq<char>, host: Seq<char>) -> Option<Seq<char>>;

/// An address with its port replaced.
pub uninterp spec fn url_with_port(url: Seq<char>, port: u16) -> Option<Seq<char>>;

/// An address with its path replaced.
pub uninterp spec fn url_with_path(url: Seq<char>, path: Seq<char>) -> Option<Seq<char>>;

/// Calls `reqwest::Url::host_str` on the address. There is none where the text is not an
/// address or the address has no host. What the host is, is a function of the text alone.
#[verifier::external_body]
fn read_host(url: &str) -> (r: Option<String>)
    ensures
        option_model(r) == host_of_url(url@),
{
    reqwest::Url::parse(url).ok()?.host_str().map(|host| host.to_owned())
}

/// Calls `reqwest::Url::set_host` on the address and gives the address that comes of it.
/// There is none where the text is not an address or the host is refused. The result is a
/// function of the two texts alone. Their lengths are bounded, because an address of four
/// gigabytes makes the call panic.
#[verifier::external_body]
fn replace_host(url: &str, host: &str) -> (r: Option<String>)
    requires
        url@.len() < MAX_ADDRESS_CHARS,
        host@.len() < MAX_ADDRESS_CHARS,
    ensures
        option_model(r) == url_with_host(url@, host@),
{
    let mut parsed = reqwest::Url::parse(url).ok()?;
    parsed.set_host(Some(host)).ok()?;
    Some(parsed.to_string())
}

/// Calls `reqwest::Url::set_port` on the address and gives the address that comes of it.
/// There is none where the text is not an address or the address can have no port. The
/// result is a function of the text and the port alone. The length of the address is
/// bounded, because one of four gigabytes makes the call panic.
#[verifier::external_body]
fn replace_port(url: &str, port: u16) -> (r: Option<String>)
    requires
        url@.len() < MAX_ADDRESS_CHARS,
    ensures
        option_model(r) == url_with_port(url@, port),
{
    let mut parsed = reqwest::Url::parse(url).ok()?;
    parsed.set_port(Some(port)).ok()?;
    Some(parsed.to_string())
}

/// Calls `reqwest::Url::set_path` on the address and gives the address that comes of it.
/// There is none where the text is not an address. The result is a function of the two
/// texts alone. Their lengths are bounded, because an address of four gigabytes makes the
/// call panic.
#[verifier::external_body]
fn replace_path(url: &str, path: &str) -> (r: Option<String>)
    requires
        url@.len() < MAX_ADDRESS_CHARS,
        path@.len() < MAX_ADDRESS_CHARS,
    ensures
        option_model(r) == url_with_path(url@, path@),
{
    let mut parsed = reqwest::Url::parse(url).ok()?;
    parsed.set_path(path);
    Some(parsed.to_string())
}

/// The address of the device service of a host: its path below the given port.
pub open spec fn service_url_at(host: Seq<char>, onvif_port: u16) -> Option<Seq<char>> {
    match url_with_host("http://localhost"@, host) {
        None => None,
        Some(at_host) => match url_with_port(at_host, onvif_port) {
            None => None,
            Some(at_port) => url_with_path(at_port, "/onvif/device_service"@),
        },
    }
}

/// Neither the host nor an address on the way to that of the device service is too long to
/// be worked on.
pub open spec fn service_url_fits(host: Seq<char>, onvif_port: u16) -> bool {
    &&& host.len() < MAX_ADDRESS_CHARS
    &&& url_with_host("http://localhost"@, host) matches Some(at_host) ==> {
        &&& at_host.len() < MAX_ADDRESS_CHARS
        &&& url_with_port(at_host, onvif_port) matches Some(at_port) ==> at_port.len()
            < MAX_ADDRESS_CHARS
    }
}

/// The address of the device service of a host.
pub fn device_service_url_at(host: &str, onvif_port: u16) -> (r: Option<String>)
    requires
        service_url_fits(host@, onvif_port),
    ensures
        option_model(r) == service_url_at(host@, onvif_port),
{
    proof {
        reveal_strlit("http://localhost");
        reveal_strlit("/onvif/device_service");
    }
    match replace_host("http://localhost", host) {
        None => None,
        Some(at_host) => match replace_port(at_host.as_str(), onvif_port) {
            None => None,
            Some(at_port) => replace_path(at_port.as_str(), "/onvif/device_service"),
        },
    }
}

fn fits_service_url(host: &str, onvif_port: u16) -> (r: bool)
    ensures
        r == service_url_fits(host@, onvif_port),
{
    if host.unicode_len() >= MAX_ADDRESS_CHARS {
        return false;
    }
    proof {
        reveal_strlit("http://localhost");
    }
    match replace_host("http://localhost", host) {
        None => true,
        Some(at_host) => if at_host.as_str().unicode_len() >= MAX_ADDRESS_CHARS {
            false
        } else {
            match replace_port(at_host.as_str(), onvif_port) {
                None => true,
                Some(at_port) => at_port.as_str().unicode_len() < MAX_ADDRESS_CHARS,
            }
        },
    }
}

/// The address of the device service on the host of an endpoint.
pub open spec fn default_service_url(endpoint: Seq<char>, onvif_port: u16) -> Option<Seq<char>> {
    match host_of_url(endpoint) {
        Some(host) => service_url_at(host, onvif_port),
        None => None,
    }
}

/// The host of an endpoint, where it has one, is not too long for an address.
pub open spec fn default_service_url_fits(endpoint: Seq<char>, onvif_port: u16) -> bool {
    host_of_url(endpoint) matches Some(host) ==> service_url_fits(host, onvif_port)
}

/// The address of the device service on the host of an endpoint, where it is not too long to
/// be worked on.
pub open spec fn fitting_service_url(endpoint: Seq<char>, onvif_port: u16) -> Option<Seq<char>> {
    if default_service_url_fits(endpoint, onvif_port) {
        default_service_url(endpoint, onvif_port)
    } else {
        None
    }
}

/// The address of the device service on the host of an endpoint. There is none where the
/// host is too long to be worked on.
pub fn default_onvif_device_service_url(endpoint: &str, onvif_port: u16) -> (r: Option<String>)
    ensures
        option_model(r) == fitting_service_url(endpoint@, onvif_port),
{
    match read_host(endpoint) {
        Some(host) => if fits_service_url(host.as_str(), onvif_port) {
            device_service_url_at(host.as_str(), onvif_port)
        } else {
            None
        },
        None => None,
    }
}

/// How the ONVIF interface is reached, given the address that stands in where none is set.
pub open spec fn config_with(
    env: EnvironmentModel,
    default_url: Option<Seq<char>>,
) -> Option<ConfigModel> {
    let url = match trimmed_value(env.onvif_device_service_url) {
        Some(url) => Some(url),
        None => default_url,
    };
    match (trimmed_value(env.password), url) {
        (Some(password), Some(device_service_url)) => Some(
            ConfigModel {
                device_service_url,
                user_name: ability_user_of(env),
                password,
                profile_token: trimmed_value(env.onvif_profile_token),
                allow_insecure_tls: true,
                request_timeout_ms: DEFAULT_REQUEST_TIMEOUT_MS,
            },
        ),
        _ => None,
    }
}

/// How the ONVIF interface is reached, given the address that stands in where none is set.
pub fn onvif_config_with(env: &Environment, default_url: Option<String>) -> (r: Option<OnvifConfig>)
    ensures
        option_model(r) == config_with(env@, option_model(default_url)),
{
    let password = match env_var_trimmed(&env.password) {
        Some(password) => password,
        None => {
            return None;
        },
    };
    let user_name = ability_user_from_env(env);
    let profile_token = env_var_trimmed(&env.onvif_profile_token);
    let url = match env_var_trimmed(&env.onvif_device_service_url) {
        Some(url) => Some(url),
        None => default_url,
    };
    match url {
        Some(url) => Some(OnvifConfig::with_defaults(url, user_name, password, profile_token)),
        None => None,
    }
}

/// How the ONVIF interface is reached, where the environment says enough.
pub fn onvif_config_from_env(env: &Environment) -> (r: Option<OnvifConfig>)
    ensures
        option_model(r) == config_with(
            env@,
            fitting_service_url(endpoint_of(env@), onvif_port_of(env@)),
        ),
{
    let endpoint = endpoint_from_env(env);
    let port: u16 = onvif_port_from_env(env);
    onvif_config_with(env, default_onvif_device_service_url(endpoint.as_str(), port))
}

// ---------------------------------------------------------------- laws

/// A token of the environment comes before one that was kept in a file, and either comes
/// before a password.
pub proof fn law_tokens_come_first(env: EnvironmentModel, kept_file: Option<Seq<char>>)
    ensures
        trimmed_value(env.token) matches Some(token) ==> auth_of(env, kept_file).0
            == AuthModel::Token(token),
        trimmed_value(env.token) is None ==> (trimmed_value(kept_file) matches Some(token)
            ==> auth_of(env, kept_file).0 == AuthModel::Token(token)),
        auth_of(env, kept_file).0 is UserPassword ==> trimmed_value(env.token) is None
            && trimmed_value(kept_file) is None,
        auth_of(env, kept_file).0 is Anonymous <==> trimmed_value(env.token) is None
            && trimmed_value(kept_file) is None && trimmed_value(env.password) is None,
{
}

/// Where a token comes first and a password is set, the password is what is gone back to.
pub proof fn law_password_is_fallen_back_to(env: EnvironmentModel, kept_file: Option<Seq<char>>)
    ensures
        auth_of(env, kept_file).0 is Token ==> auth_of(env, kept_file).1 == login_of(env),
{
}

/// A user without a name is the administrator.
pub proof fn law_default_user_is_admin(env: EnvironmentModel)
    ensures
        trimmed_value(env.user) is None ==> ability_user_of(env) == "admin"@ && (login_of(
            env,
        ) matches Some(login) ==> login->user == "admin"@),
{
}

/// The characters of a component of a key.
pub open spec fn is_clean_char(c: char) -> bool {
    is_digit(c) || 'a' <= c <= 'z' || c == '_'
}

pub open spec fn is_clean(s: Seq<char>) -> bool {
    forall|i: int| 0 <= i < s.len() ==> is_clean_char(#[trigger] s[i])
}

/// No two underscores stand next to each other.
pub open spec fn has_single_underscores(s: Seq<char>) -> bool {
    forall|i: int| 0 <= i < s.len() - 1 ==> !(#[trigger] s[i] == '_' && s[i + 1] == '_')
}

/// A component of a key is never empty and holds only small letters, digits and
/// underscores, so that it is a name in its directory. It neither begins nor ends with an
/// underscore, and no two stand next to each other.
pub proof fn law_key_component_is_a_name(raw: Seq<char>)
    ensures
        key_component(raw).len() > 0,
        is_clean(key_component(raw)),
        key_component(raw)[0] != '_',
        key_component(raw).last() != '_',
        has_single_underscores(key_component(raw)),
{
    let chars = key_chars(trim(raw), false);
    lemma_key_chars_are_clean(trim(raw), false);
    lemma_key_chars_are_single(trim(raw), false);
    lemma_strip_start_keeps(chars);
    lemma_strip_end_keeps(strip_start(chars));
    reveal_strlit("unknown");
    let unknown = UNKNOWN_KEY_COMPONENT@;
    assert(unknown.len() == 7 && unknown[0] == 'u' && unknown[1] == 'n' && unknown[2] == 'k'
        && unknown[3] == 'n' && unknown[4] == 'o' && unknown[5] == 'w' && unknown[6] == 'n');
    assert forall|i: int| 0 <= i < unknown.len() implies unknown[i] != '_' by {
        assert(i == 0 || i == 1 || i == 2 || i == 3 || i == 4 || i == 5 || i == 6);
    }
}

/// Making a component of a key of one that is made already changes nothing.
pub proof fn law_key_component_is_idempotent(raw: Seq<char>)
    ensures
        key_component(key_component(raw)) == key_component(raw),
{
    let key = key_component(raw);
    law_key_component_is_a_name(raw);
    assert(is_clean_char(key[0]) && is_clean_char(key[key.len() - 1]));
    assert(!is_space(key[0]) && !is_space(key.last()));
    assert(trim(key) == key);
    lemma_key_chars_keep(key, false);
}

/// Of a text without a letter or a digit, the component of a key is "unknown".
pub proof fn law_nothing_is_unknown(raw: Seq<char>)
    requires
        forall|i: int| 0 <= i < raw.len() ==> !is_key_char(#[trigger] raw[i]),
    ensures
        key_component(raw) == "unknown"@,
{
    lemma_trim_is_part(raw);
    let s = trim(raw);
    assert forall|i: int| 0 <= i < s.len() implies !is_key_char(#[trigger] s[i]) by {
        let from = choose|from: int|
            0 <= from && from + s.len() <= raw.len() && s == #[trigger] raw.subrange(
                from,
                from + s.len(),
            );
        assert(s[i] == raw[from + i]);
    }
    lemma_no_key_chars(s, false);
    let chars = key_chars(s, false);
    if chars.len() > 0 {
        assert(chars.drop_first().len() == 0);
        assert(strip_start(chars.drop_first()).len() == 0);
    }
}

proof fn lemma_no_key_chars(s: Seq<char>, after_separator: bool)
    requires
        forall|i: int| 0 <= i < s.len() ==> !is_key_char(#[trigger] s[i]),
    ensures
        after_separator ==> key_chars(s, after_separator).len() == 0,
        key_chars(s, after_separator).len() == 0 || key_chars(s, after_separator) == seq!['_'],
    decreases s.len(),
{
    if s.len() > 0 {
        let rest = s.drop_first();
        assert forall|i: int| 0 <= i < rest.len() implies !is_key_char(#[trigger] rest[i]) by {
            assert(rest[i] == s[i + 1]);
        }
        lemma_no_key_chars(rest, true);
        assert(key_chars(rest, true) =~= Seq::empty());
        assert(seq!['_'] + key_chars(rest, true) =~= seq!['_']);
    }
}

/// A clean text with single underscores stays as it is.
proof fn lemma_key_chars_keep(s: Seq<char>, after_separator: bool)
    requires
        is_clean(s),
        has_single_underscores(s),
        after_separator && s.len() > 0 ==> s[0] != '_',
    ensures
        key_chars(s, after_separator) == s,
    decreases s.len(),
{
    if s.len() > 0 {
        let rest = s.drop_first();
        assert(is_clean_char(s[0]));
        assert forall|i: int| 0 <= i < rest.len() implies is_clean_char(#[trigger] rest[i]) by {
            assert(rest[i] == s[i + 1]);
        }
        assert forall|i: int| 0 <= i < rest.len() - 1 implies !(#[trigger] rest[i] == '_' && rest[i
            + 1] == '_') by {
            assert(rest[i] == s[i + 1]);
            assert(!(s[i + 1] == '_' && s[i + 2] == '_'));
        }
        if s[0] == '_' {
            assert(rest.len() > 0 ==> rest[0] == s[1]);
            assert(s.len() > 1 ==> !(s[0] == '_' && s[1] == '_'));
            lemma_key_chars_keep(rest, true);
            assert(seq!['_'] + rest =~= s);
        } else {
            lemma_key_chars_keep(rest, false);
            assert(lower_char(s[0]) == s[0]);
            assert(seq![s[0]] + rest =~= s);
        }
    } else {
        assert(s =~= Seq::empty());
    }
}

proof fn lemma_key_chars_are_single(s: Seq<char>, after_separator: bool)
    ensures
        has_single_underscores(key_chars(s, after_separator)),
        after_separator && key_chars(s, after_separator).len() > 0 ==> key_chars(
            s,
            after_separator,
        )[0] != '_',
    decreases s.len(),
{
    if s.len() > 0 {
        let rest = s.drop_first();
        lemma_key_chars_are_single(rest, false);
        lemma_key_chars_are_single(rest, true);
        let chars = key_chars(s, after_separator);
        assert forall|i: int| 0 <= i < chars.len() - 1 implies !(#[trigger] chars[i] == '_'
            && chars[i + 1] == '_') by {
            if is_key_char(s[0]) {
                let tail = key_chars(rest, false);
                if i > 0 {
                    assert(chars[i] == tail[i - 1] && chars[i + 1] == tail[i]);
                } else {
                    assert(chars[0] == lower_char(s[0]));
                }
            } else if !after_separator {
                let tail = key_chars(rest, true);
                if i > 0 {
                    assert(chars[i] == tail[i - 1] && chars[i + 1] == tail[i]);
                } else {
                    assert(chars[1] == tail[0]);
                }
            }
        }
    }
}

proof fn lemma_key_chars_are_clean(s: Seq<char>, after_separator: bool)
    ensures
        is_clean(key_chars(s, after_separator)),
    decreases s.len(),
{
    if s.len() > 0 {
        lemma_key_chars_are_clean(s.drop_first(), false);
        lemma_key_chars_are_clean(s.drop_first(), true);
        assert(is_key_char(s[0]) ==> is_clean_char(lower_char(s[0])));
    }
}

proof fn lemma_strip_start_keeps(s: Seq<char>)
    requires
        is_clean(s),
        has_single_underscores(s),
    ensures
        is_clean(strip_start(s)),
        has_single_underscores(strip_start(s)),
        strip_start(s).len() > 0 ==> strip_start(s)[0] != '_',
    decreases s.len(),
{
    if s.len() > 0 && s[0] == '_' {
        let rest = s.drop_first();
        assert forall|i: int| 0 <= i < rest.len() - 1 implies !(#[trigger] rest[i] == '_' && rest[i
            + 1] == '_') by {
            assert(rest[i] == s[i + 1]);
            assert(!(s[i + 1] == '_' && s[i + 2] == '_'));
        }
        assert forall|i: int| 0 <= i < rest.len() implies is_clean_char(#[trigger] rest[i]) by {
            assert(rest[i] == s[i + 1]);
        }
        lemma_strip_start_keeps(rest);
    }
}

proof fn lemma_strip_end_keeps(s: Seq<char>)
    requires
        is_clean(s),
        has_single_underscores(s),
        s.len() > 0 ==> s[0] != '_',
    ensures
        is_clean(strip_end(s)),
        has_single_underscores(strip_end(s)),
        strip_end(s).len() > 0 ==> strip_end(s)[0] != '_' && strip_end(s).last() != '_',
    decreases s.len(),
{
    if s.len() > 0 && s.last() == '_' {
        let rest = s.drop_last();
        assert forall|i: int| 0 <= i < rest.len() - 1 implies !(#[trigger] rest[i] == '_' && rest[i
            + 1] == '_') by {
            assert(!(s[i] == '_' && s[i + 1] == '_'));
        }
        assert forall|i: int| 0 <= i < rest.len() implies is_clean_char(#[trigger] rest[i]) by {
            assert(rest[i] == s[i]);
        }
        lemma_strip_end_keeps(rest);
    }
}

} // verus!
