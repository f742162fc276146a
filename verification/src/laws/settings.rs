//! Settings from the environment: which one is used for what.
use crate::interfaces::runtime::{
    ability_user_of, auth_of, backend_of, calibration_dir_of, calibration_path_of, camera_key_of,
    client_of, config_with, endpoint_of, is_key_char, key_chars, key_component, login_of,
    onvif_port_of, path_below, token_path_of, EnvironmentModel, PtzBackend,
};
use crate::model::DeviceModel;
use crate::reolink::client::AuthModel;
use crate::text::{dec, law_dec_reads_back, lower, lower_char, trim};
use vstd::prelude::*;

verus! {

/// A setting that is there, with something in it but for white space around it.
pub open spec fn is_set(value: Option<Seq<char>>, text: Seq<char>) -> bool {
    value matches Some(raw) && trim(raw) == text && text.len() > 0
}

/// A setting that is missing, or has nothing in it but white space.
pub open spec fn is_unset(value: Option<Seq<char>>) -> bool {
    value matches Some(raw) ==> trim(raw).len() == 0
}

/// The camera is where its setting says, as it stands, or at the usual place.
pub proof fn law_endpoint(env: EnvironmentModel)
    ensures
        (env.endpoint matches Some(text) ==> endpoint_of(env) == text),
        env.endpoint is None ==> endpoint_of(env) == "https://camera.local"@,
{
}

/// The user and the password are those of their own settings.
pub proof fn law_user_and_password(env: EnvironmentModel, user: Seq<char>, password: Seq<char>)
    ensures
        is_set(env.user, user) ==> ability_user_of(env) == user,
        is_unset(env.user) ==> ability_user_of(env) == "admin"@,
        is_set(env.user, user) && is_set(env.password, password) ==> login_of(env) == Some(
            AuthModel::UserPassword { user, password },
        ),
        is_unset(env.user) && is_set(env.password, password) ==> login_of(env) == Some(
            AuthModel::UserPassword { user: "admin"@, password },
        ),
        is_unset(env.password) ==> login_of(env) is None,
{
}

/// The token of the setting comes first, then the one that was kept, then the password, then
/// nothing at all.
pub proof fn law_credentials_by_rank(
    env: EnvironmentModel,
    kept_file: Option<Seq<char>>,
    token: Seq<char>,
    kept: Seq<char>,
)
    ensures
        is_set(env.token, token) ==> auth_of(env, kept_file) == (
            AuthModel::Token(token),
            login_of(env),
        ),
        is_unset(env.token) && is_set(kept_file, kept) ==> auth_of(env, kept_file) == (
            AuthModel::Token(kept),
            login_of(env),
        ),
        is_unset(env.token) && is_unset(kept_file) && login_of(env) is Some ==> auth_of(
            env,
            kept_file,
        ) == (login_of(env)->0, None::<AuthModel>),
        is_unset(env.token) && is_unset(kept_file) && is_unset(env.password) ==> auth_of(
            env,
            kept_file,
        ) == (AuthModel::Anonymous, None::<AuthModel>),
        client_of(env, kept_file, 0).endpoint == endpoint_of(env),
        client_of(env, kept_file, 0).auth == auth_of(env, kept_file).0,
        client_of(env, kept_file, 0).fallback_auth == auth_of(env, kept_file).1,
{
}

/// Files have the place that is set for them, and else one below the home.
pub proof fn law_places_of_files(env: EnvironmentModel, dir: Seq<char>, home: Seq<char>)
    ensures
        is_set(env.calibration_dir, dir) ==> calibration_dir_of(env) == dir,
        is_unset(env.calibration_dir) && is_set(env.home, home) && home.last() != '/'
            ==> calibration_dir_of(env) == home + "/"@ + ".reocli/calibration"@,
        is_unset(env.calibration_dir) && is_unset(env.home) ==> calibration_dir_of(env)
            == ".reocli/calibration"@,
        is_set(env.token_cache_path, dir) ==> token_path_of(env) == Some(dir),
        is_unset(env.token_cache_path) && is_unset(env.home) ==> token_path_of(env) is None,
        is_unset(env.token_cache_path) && is_set(env.home, home) && home.last() != '/'
            ==> token_path_of(env) == Some(
            path_below(
                home + "/"@ + ".reocli/tokens"@,
                key_component(endpoint_of(env)) + ".token"@,
            ),
        ),
{
    reveal_strlit("/");
    if home.len() > 0 && home.last() != '/' {
        assert(home.subrange(home.len() - 1, home.len() as int)[0] == home.last());
        assert("/"@[0] == '/');
    }
}

/// A camera is known by its serial number, its model and its firmware, in this order.
pub proof fn law_cameras_are_known_by(env: EnvironmentModel, device: DeviceModel)
    ensures
        camera_key_of(device) == key_component(device.serial_number) + "__"@ + key_component(
            device.model,
        ) + "__"@ + key_component(device.firmware),
        calibration_path_of(env, device) == path_below(
            calibration_dir_of(env),
            camera_key_of(device) + ".json"@,
        ),
{
}

/// A key holds the letters and digits of its text in their order, the letters small, and an
/// underline for what stands between them.
pub proof fn law_keys_keep_letters_and_digits(s: Seq<char>, c: char)
    requires
        is_key_char(c),
    ensures
        key_chars(seq![c] + s, false) == seq![lower_char(c)] + key_chars(s, false),
        key_chars(seq![c] + s, true) == seq![lower_char(c)] + key_chars(s, false),
        'A' <= c <= 'Z' ==> lower_char(c) as int - 'a' as int == c as int - 'A' as int,
        !('A' <= c <= 'Z') ==> lower_char(c) == c,
{
    assert((seq![c] + s)[0] == c);
    assert((seq![c] + s).drop_first() =~= s);
}

/// A file is put below a directory with one slash between them.
pub proof fn law_paths_are_joined(dir: Seq<char>, name: Seq<char>)
    ensures
        dir.len() == 0 ==> path_below(dir, name) =~= name,
        dir.len() > 0 && dir.last() == '/' ==> path_below(dir, name) == dir + name,
        dir.len() > 0 && dir.last() != '/' ==> path_below(dir, name) == dir + "/"@ + name,
{
    reveal_strlit("/");
    if dir.len() > 0 {
        assert(dir.subrange(dir.len() - 1, dir.len() as int) =~= seq![dir.last()]);
        assert("/"@ =~= seq!['/']);
        assert(seq![dir.last()][0] == dir.last() && seq!['/'][0] == '/');
    }
}

/// Movements go over ONVIF where the setting says so, and else over the camera's own
/// interface.
pub proof fn law_way_of_movements(env: EnvironmentModel, word: Seq<char>)
    ensures
        is_unset(env.ptz_backend) ==> backend_of(env) == PtzBackend::Cgi,
        is_set(env.ptz_backend, word) ==> (backend_of(env) == PtzBackend::OnvifContinuous
            <==> lower(word) == "onvif"@ || lower(word) == "continuous"@ || lower(word)
            == "onvif_continuous"@ || lower(word) == "onvif-continuous"@),
{
}

/// The port of ONVIF is the one that is set, if it is one, and else the usual one.
pub proof fn law_onvif_port_setting(env: EnvironmentModel, port: u16)
    ensures
        port > 0 && is_set(env.onvif_port, dec(port as nat)) ==> onvif_port_of(env) == port,
        is_set(env.onvif_port, dec(0)) ==> onvif_port_of(env) == 8000,
        is_unset(env.onvif_port) ==> onvif_port_of(env) == 8000,
{
    law_dec_reads_back(port as nat);
    law_dec_reads_back(0);
}

/// The configuration of ONVIF is made of the settings for the address, the user, the password
/// and the profile; without a password or an address there is none.
pub proof fn law_onvif_configuration(
    env: EnvironmentModel,
    default_url: Option<Seq<char>>,
    url: Seq<char>,
    password: Seq<char>,
    profile: Seq<char>,
)
    ensures
        is_set(env.onvif_device_service_url, url) && is_set(env.password, password) ==> (config_with(
            env,
            default_url,
        ) matches Some(config) && config.device_service_url == url && config.password == password
            && config.user_name == ability_user_of(env) && config.request_timeout_ms == 5000 && (
        is_set(env.onvif_profile_token, profile) ==> config.profile_token == Some(profile)) && (
        is_unset(env.onvif_profile_token) ==> config.profile_token is None)),
        is_unset(env.onvif_device_service_url) && is_set(env.password, password) && default_url
            == Some(url) ==> (config_with(env, default_url) matches Some(config)
            && config.device_service_url == url),
        is_unset(env.password) ==> config_with(env, default_url) is None,
        is_unset(env.onvif_device_service_url) && default_url is None ==> config_with(
            env,
            default_url,
        ) is None,
{
}

/// What is neither a letter nor a digit is an underline, and several of them one.
pub proof fn law_keys_have_single_separators(s: Seq<char>, c: char)
    requires
        !is_key_char(c),
    ensures
        key_chars(seq![c] + s, false) == seq!['_'] + key_chars(s, true),
        key_chars(seq![c] + s, true) == key_chars(s, true),
        is_key_char('a') && is_key_char('Z') && is_key_char('0') && is_key_char('9'),
        !is_key_char('-') && !is_key_char('.') && !is_key_char('/') && !is_key_char(':'),
        key_chars(Seq::empty(), true) =~= Seq::<char>::empty(),
{
    assert((seq![c] + s)[0] == c);
    assert((seq![c] + s).drop_first() =~= s);
}

/// A text of small letters and digits is its own key.
pub proof fn law_keys_of_plain_texts(s: Seq<char>)
    requires
        s.len() > 0,
        forall|i: int|
            0 <= i < s.len() ==> ('a' <= #[trigger] s[i] <= 'z' || '0' <= s[i] <= '9'),
    ensures
        key_component(s) == s,
{
    crate::laws::documents::law_white_space_is_trimmed(Seq::empty(), s, Seq::empty());
    assert(Seq::<char>::empty() + s + Seq::<char>::empty() =~= s);
    lemma_plain_key(s, false);
    assert(s[0] != '_' && s.last() != '_');
}

proof fn lemma_plain_key(s: Seq<char>, after_separator: bool)
    requires
        forall|i: int|
            0 <= i < s.len() ==> ('a' <= #[trigger] s[i] <= 'z' || '0' <= s[i] <= '9'),
    ensures
        key_chars(s, after_separator) == s,
    decreases s.len(),
{
    if s.len() > 0 {
        lemma_plain_key(s.drop_first(), false);
        assert(lower_char(s[0]) == s[0]);
        assert(seq![s[0]] + s.drop_first() =~= s);
    } else {
        assert(key_chars(s, after_separator) =~= s);
    }
}

} // verus!
