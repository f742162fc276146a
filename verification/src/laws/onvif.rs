//! Moving over ONVIF: which call is made, what it says, and what is read from an answer.
use crate::error::ErrorModel;
use crate::model::PtzDirection;
use crate::reolink::client::HttpReplyModel;
use crate::reolink::onvif::{
    configuration_token, duration_text, explicit_token, move_soap_step, move_status_named,
    options_of, options_soap_step, profile_token_of, relative_soap_step, resolve_step,
    service_address, soap_result, status_fields, status_soap_step, stop_soap_step, three_digits,
    velocity_of, velocity_text, ConfigModel, OnvifMoveStatus, ProfileModel, ServicesModel,
    SoapStepModel,
};
use crate::reolink::xml::{escaped, inner_of, tag_attribute, tag_named, text_of};
use crate::text::{contains, dec, lower, trim};
use vstd::prelude::*;

verus! {

// ---------------------------------------------------------------- numbers

/// The digits of a number below a thousand, the highest first.
pub proof fn law_three_digits_are_the_number(n: nat)
    requires
        n < 1000,
    ensures
        three_digits(n).len() == 3,
        100 * (three_digits(n)[0] as int - '0' as int) + 10 * (three_digits(n)[1] as int
            - '0' as int) + (three_digits(n)[2] as int - '0' as int) == n,
        forall|i: int| 0 <= i < 3 ==> '0' <= #[trigger] three_digits(n)[i] <= '9',
{
}

/// A velocity in sixty-fourths is written as a decimal with six places: the whole and the
/// places together are its millionths, and a minus stands before it exactly where it is
/// negative.
pub proof fn law_velocity_is_written_exactly(sixty_fourths: int)
    requires
        -64 <= sixty_fourths <= 64,
    ensures
        ({
            let n = if sixty_fourths < 0 {
                -sixty_fourths
            } else {
                sixty_fourths
            };
            exists|whole: nat, thousandths: nat, millionths: nat|
                whole * 1000000 + thousandths * 1000 + millionths == n * 1000000 / 64 && thousandths
                    < 1000 && millionths < 1000 && velocity_text(sixty_fourths) == (if sixty_fourths
                    < 0 {
                    "-"@
                } else {
                    ""@
                }) + #[trigger] dec(whole) + "."@ + #[trigger] three_digits(thousandths)
                    + #[trigger] three_digits(millionths)
        }),
{
    let n = if sixty_fourths < 0 {
        -sixty_fourths
    } else {
        sixty_fourths
    };
    let all = n * 15625;
    let whole = (all / 1000000) as nat;
    let thousandths = (all / 1000 % 1000) as nat;
    let millionths = (all % 1000) as nat;
    assert(n * 1000000 / 64 == all);
    reveal_strlit("");
    assert(""@ =~= Seq::<char>::empty());
    assert(dec(whole).len() >= 0 && three_digits(thousandths).len() == 3 && three_digits(
        millionths,
    ).len() == 3);
    assert(whole * 1000000 + thousandths * 1000 + millionths == all);
}

/// Turning a velocity round puts a minus before it.
pub proof fn law_velocity_mirrors(sixty_fourths: int)
    requires
        sixty_fourths > 0,
    ensures
        velocity_text(-sixty_fourths) =~= "-"@ + velocity_text(sixty_fourths),
{
}

/// A movement to the right has a positive pan velocity and one to the left the same with a
/// minus; upwards the tilt velocity is positive and downwards negative. The other axis stands
/// still, and the size is the speed. Movements along both axes are refused.
pub proof fn law_velocity_points_where_the_direction_does(direction: PtzDirection, speed: u8)
    requires
        1 <= speed <= 64,
    ensures
        direction == PtzDirection::Right ==> velocity_of(direction, speed) == Ok::<
            (int, int),
            ErrorModel,
        >((speed as int, 0int)),
        direction == PtzDirection::Left ==> velocity_of(direction, speed) == Ok::<
            (int, int),
            ErrorModel,
        >((-(speed as int), 0int)),
        direction == PtzDirection::Up ==> velocity_of(direction, speed) == Ok::<
            (int, int),
            ErrorModel,
        >((0int, speed as int)),
        direction == PtzDirection::Down ==> velocity_of(direction, speed) == Ok::<
            (int, int),
            ErrorModel,
        >((0int, -(speed as int))),
        velocity_of(PtzDirection::LeftUp, speed) is Err,
        velocity_of(PtzDirection::LeftDown, speed) is Err,
        velocity_of(PtzDirection::RightUp, speed) is Err,
        velocity_of(PtzDirection::RightDown, speed) is Err,
{
}

/// A duration is written in seconds, with three places where it is not whole.
pub proof fn law_durations_are_written_in_seconds(duration_ms: u64)
    ensures
        exists|seconds: nat, rest: nat|
            seconds * 1000 + rest == duration_ms && rest < 1000 && duration_text(duration_ms)
                == "PT"@ + #[trigger] dec(seconds) + (if rest == 0 {
                ""@
            } else {
                "."@ + #[trigger] three_digits(rest)
            }) + "S"@,
{
    let seconds = (duration_ms / 1000) as nat;
    let rest = (duration_ms % 1000) as nat;
    reveal_strlit("");
    assert(""@ =~= Seq::<char>::empty());
    assert(dec(seconds).len() >= 0 && three_digits(rest).len() == 3);
    assert("PT"@ + dec(seconds) + ""@ + "S"@ =~= "PT"@ + dec(seconds) + "S"@);
    assert("PT"@ + dec(seconds) + ("."@ + three_digits(rest)) + "S"@ =~= "PT"@ + dec(seconds)
        + "."@ + three_digits(rest) + "S"@);
}

// ---------------------------------------------------------------- calls

/// The token that a call names: the one that was configured, else that of the channel's own
/// profile, else that of the first.
pub proof fn law_profile_is_of_the_channel(services: ServicesModel, channel: u8, token: Seq<char>)
    ensures
        profile_token_of(services, channel, Some(token)) == Ok::<Seq<char>, ErrorModel>(token),
        channel < services.media_profiles.len() ==> profile_token_of(services, channel, None)
            == Ok::<Seq<char>, ErrorModel>(services.media_profiles[channel as int].token),
        0 < services.media_profiles.len() <= channel ==> profile_token_of(services, channel, None)
            == Ok::<Seq<char>, ErrorModel>(services.media_profiles[0].token),
        services.media_profiles.len() == 0 ==> profile_token_of(services, channel, None) is Err,
{
}

/// A call goes to the address of the movements, at once.
pub open spec fn goes_out(
    step: SoapStepModel<()>,
    services: ServicesModel,
    delay_ms: u64,
    action: Seq<char>,
    body: Seq<char>,
) -> bool {
    step matches SoapStepModel::Send(call) && call.url == services.ptz_xaddr && call.delay_ms
        == delay_ms && call.action == action && call.body == body
}

/// The call that starts a movement: with the velocity of its direction in its own place, pan
/// before tilt, and with its duration if it has one.
pub proof fn law_movement_over_onvif(
    config: ConfigModel,
    channel: u8,
    direction: PtzDirection,
    speed: u8,
    duration_ms: Option<u64>,
    services: ServicesModel,
    token: Seq<char>,
)
    requires
        1 <= speed <= 64,
        profile_token_of(services, channel, explicit_token(config)) == Ok::<Seq<char>, ErrorModel>(
            token,
        ),
        direction == PtzDirection::Left || direction == PtzDirection::Right || direction
            == PtzDirection::Up || direction == PtzDirection::Down,
    ensures
        ({
            let v = velocity_text(speed as int);
            let minus = velocity_text(-(speed as int));
            let still = velocity_text(0);
            let timeout = match duration_ms {
                Some(ms) => "<tptz:Timeout>"@ + duration_text(ms) + "</tptz:Timeout>"@,
                None => Seq::empty(),
            };
            goes_out(
                move_soap_step(
                    config,
                    channel,
                    direction,
                    speed,
                    duration_ms,
                    Some(services),
                    Seq::empty(),
                ),
                services,
                0,
                "http://www.onvif.org/ver20/ptz/wsdl/ContinuousMove"@,
                "<tptz:ContinuousMove xmlns:tptz=\"http://www.onvif.org/ver20/ptz/wsdl\"><tptz:ProfileToken>"@
                    + escaped(token) + "</tptz:ProfileToken><tptz:Velocity><tt:PanTilt x=\""@ + (
                if direction == PtzDirection::Right {
                    v
                } else if direction == PtzDirection::Left {
                    minus
                } else {
                    still
                }) + "\" y=\""@ + (if direction == PtzDirection::Up {
                    v
                } else if direction == PtzDirection::Down {
                    minus
                } else {
                    still
                }) + "\"/></tptz:Velocity>"@ + timeout + "</tptz:ContinuousMove>"@,
            )
        }),
{
    law_velocity_points_where_the_direction_does(direction, speed);
}

/// The call that stops the camera: at once where it was asked for, and after its duration
/// where it ends a movement.
pub proof fn law_stop_over_onvif(
    config: ConfigModel,
    channel: u8,
    direction: PtzDirection,
    speed: u8,
    duration_ms: u64,
    services: ServicesModel,
    token: Seq<char>,
    answer: Seq<char>,
)
    requires
        1 <= speed <= 64,
        profile_token_of(services, channel, explicit_token(config)) == Ok::<Seq<char>, ErrorModel>(
            token,
        ),
        direction == PtzDirection::Left || direction == PtzDirection::Right || direction
            == PtzDirection::Up || direction == PtzDirection::Down,
    ensures
        ({
            let body = "<tptz:Stop xmlns:tptz=\"http://www.onvif.org/ver20/ptz/wsdl\"><tptz:ProfileToken>"@
                + escaped(token)
                + "</tptz:ProfileToken><tptz:PanTilt>true</tptz:PanTilt><tptz:Zoom>false</tptz:Zoom></tptz:Stop>"@;
            let action = "http://www.onvif.org/ver20/ptz/wsdl/Stop"@;
            &&& goes_out(
                stop_soap_step(config, channel, Some(services), Seq::empty()),
                services,
                0,
                action,
                body,
            )
            &&& goes_out(
                move_soap_step(
                    config,
                    channel,
                    direction,
                    speed,
                    Some(duration_ms),
                    Some(services),
                    seq![Ok(answer)],
                ),
                services,
                duration_ms,
                action,
                body,
            )
            &&& move_soap_step(
                config,
                channel,
                direction,
                speed,
                None,
                Some(services),
                seq![Ok(answer)],
            ) == SoapStepModel::Done(Ok::<(), ErrorModel>(()))
        }),
{
    law_velocity_points_where_the_direction_does(direction, speed);
    let replies = seq![Ok::<Seq<char>, ErrorModel>(answer)];
    assert(replies[0] == Ok::<Seq<char>, ErrorModel>(answer));
    assert(replies.skip(1).len() == 0);
}

/// The call that moves by a distance: pan before tilt, in the distance and in the speed.
pub proof fn law_distances_over_onvif(
    config: ConfigModel,
    channel: u8,
    pan: Seq<char>,
    tilt: Seq<char>,
    services: ServicesModel,
    token: Seq<char>,
)
    requires
        profile_token_of(services, channel, explicit_token(config)) == Ok::<Seq<char>, ErrorModel>(
            token,
        ),
    ensures
        goes_out(
            relative_soap_step(config, channel, pan, tilt, Some(services), Seq::empty()),
            services,
            0,
            "http://www.onvif.org/ver20/ptz/wsdl/RelativeMove"@,
            "<tptz:RelativeMove xmlns:tptz=\"http://www.onvif.org/ver20/ptz/wsdl\"><tptz:ProfileToken>"@
                + escaped(token) + "</tptz:ProfileToken><tptz:Translation><tt:PanTilt x=\""@ + pan
                + "\" y=\""@ + tilt
                + "\"/></tptz:Translation><tptz:Speed><tt:PanTilt x=\""@ + pan + "\" y=\""@ + tilt
                + "\"/></tptz:Speed></tptz:RelativeMove>"@,
        ),
{
}

/// The camera is asked for its status under the channel's token, and the answer is read.
pub proof fn law_status_over_onvif(
    config: ConfigModel,
    channel: u8,
    services: ServicesModel,
    token: Seq<char>,
    xml: Seq<char>,
)
    requires
        profile_token_of(services, channel, explicit_token(config)) == Ok::<Seq<char>, ErrorModel>(
            token,
        ),
    ensures
        status_soap_step(config, channel, Some(services), Seq::empty()) matches SoapStepModel::Send(
            call,
        ) && call.url == services.ptz_xaddr && call.delay_ms == 0 && call.action
            == "http://www.onvif.org/ver20/ptz/wsdl/GetStatus"@ && call.body
            == "<tptz:GetStatus xmlns:tptz=\"http://www.onvif.org/ver20/ptz/wsdl\"><tptz:ProfileToken>"@
            + escaped(token) + "</tptz:ProfileToken></tptz:GetStatus>"@,
        status_soap_step(config, channel, Some(services), seq![Ok(xml)]) == SoapStepModel::Done(
            Ok::<_, ErrorModel>(status_fields(xml)),
        ),
        status_soap_step(config, channel, None, Seq::empty()) is Resolve,
{
    let replies = seq![Ok::<Seq<char>, ErrorModel>(xml)];
    assert(replies[0] == Ok::<Seq<char>, ErrorModel>(xml));
}

// ---------------------------------------------------------------- answers

/// Pan is the `x` of the position and tilt its `y`; the zoom stands apart. Each movement is
/// that of its own part.
pub proof fn law_status_is_read(xml: Seq<char>, position: Seq<char>, movement: Seq<char>)
    requires
        inner_of(xml, "Position"@) == Some(position),
        inner_of(xml, "MoveStatus"@) == Some(movement),
    ensures
        status_fields(xml).pan == tag_attribute(position, "PanTilt"@, "x"@),
        status_fields(xml).tilt == tag_attribute(position, "PanTilt"@, "y"@),
        status_fields(xml).zoom == tag_attribute(position, "Zoom"@, "x"@),
        (text_of(movement, "PanTilt"@) matches Some(word) ==> status_fields(
            xml,
        ).pan_tilt_move_status == Some(move_status_named(word))),
        (text_of(movement, "Zoom"@) matches Some(word) ==> status_fields(xml).zoom_move_status
            == Some(move_status_named(word))),
        text_of(movement, "PanTilt"@) is None ==> status_fields(xml).pan_tilt_move_status is None,
        text_of(movement, "Zoom"@) is None ==> status_fields(xml).zoom_move_status is None,
        status_fields(xml).utc_time == text_of(xml, "UtcTime"@),
{
}

/// The words for a movement, whatever their capitals and the white space around them.
pub proof fn law_movement_words(raw: Seq<char>)
    ensures
        lower(trim(raw)) == "idle"@ ==> move_status_named(raw) == OnvifMoveStatus::Idle,
        lower(trim(raw)) == "moving"@ ==> move_status_named(raw) == OnvifMoveStatus::Moving,
        lower(trim(raw)) != "idle"@ && lower(trim(raw)) != "moving"@ ==> move_status_named(raw)
            == OnvifMoveStatus::Unknown,
{
    reveal_strlit("idle");
    reveal_strlit("moving");
    assert("idle"@.len() != "moving"@.len());
}

/// What the camera can do is read from the spaces that it lists.
pub proof fn law_options_are_read(xml: Seq<char>)
    ensures
        options_of(xml).supports_continuous_pan_tilt_velocity <==> tag_named(
            xml,
            "ContinuousPanTiltVelocitySpace"@,
            0,
        ) is Some,
        options_of(xml).supports_relative_pan_tilt_translation <==> tag_named(
            xml,
            "RelativePanTiltTranslationSpace"@,
            0,
        ) is Some,
        options_of(xml).supports_relative_pan_tilt_speed <==> tag_named(
            xml,
            "PanTiltSpeedSpace"@,
            0,
        ) is Some,
        (inner_of(xml, "PTZTimeout"@) matches Some(part) ==> options_of(xml).has_timeout_range && (
        text_of(part, "Min"@) is Some ==> options_of(xml).timeout_min == text_of(part, "Min"@)) && (
        text_of(part, "Max"@) is Some ==> options_of(xml).timeout_max == text_of(part, "Max"@))),
        inner_of(xml, "PTZTimeout"@) is None ==> options_of(xml).timeout_min == tag_attribute(
            xml,
            "PTZTimeout"@,
            "Min"@,
        ) && options_of(xml).timeout_max == tag_attribute(xml, "PTZTimeout"@, "Max"@),
{
}

/// The configuration of a profile is its own, else that of the channel's profile, else the
/// first that there is.
pub proof fn law_configuration_is_of_the_profile(
    profiles: Seq<ProfileModel>,
    k: int,
    channel: u8,
    token: Seq<char>,
)
    requires
        0 <= k < profiles.len(),
        profiles[k].ptz_configuration_token == Some(token),
        forall|i: int| 0 <= i < k ==> (#[trigger] profiles[i]).token != profiles[k].token,
    ensures
        configuration_token(profiles, profiles[k].token, channel) == Some(token),
    decreases profiles.len(),
{
    lemma_configuration_of(profiles, k);
}

proof fn lemma_configuration_of(profiles: Seq<ProfileModel>, k: int)
    requires
        0 <= k < profiles.len(),
        forall|i: int| 0 <= i < k ==> (#[trigger] profiles[i]).token != profiles[k].token,
    ensures
        crate::reolink::onvif::configuration_of(profiles, profiles[k].token)
            == profiles[k].ptz_configuration_token,
    decreases k,
{
    if k > 0 {
        let rest = profiles.drop_first();
        assert(profiles[0].token != profiles[k].token);
        assert forall|i: int| 0 <= i < k - 1 implies (#[trigger] rest[i]).token != rest[k - 1].token by {
            assert(rest[i] == profiles[i + 1]);
        }
        lemma_configuration_of(rest, k - 1);
    }
}

/// The address of a service is the first that holds its name, whatever its capitals.
pub proof fn law_address_is_of_the_service(values: Seq<Seq<char>>, keyword: Seq<char>, k: int)
    requires
        0 <= k < values.len(),
        contains(lower(values[k]), keyword),
        forall|i: int| 0 <= i < k ==> !contains(lower(#[trigger] values[i]), keyword),
    ensures
        service_address(values, keyword) == Some(values[k]),
    decreases k,
{
    if k > 0 {
        let rest = values.drop_first();
        assert(!contains(lower(values[0]), keyword));
        assert forall|i: int| 0 <= i < k - 1 implies !contains(lower(#[trigger] rest[i]), keyword) by {
            assert(rest[i] == values[i + 1]);
        }
        assert(rest[k - 1] == values[k]);
        law_address_is_of_the_service(rest, keyword, k - 1);
    }
}

/// The services that are found: movements at the address for `ptz`, profiles at the one for
/// `media`; where a token was configured, no profiles are asked for.
pub proof fn law_services_are_found(
    config: ConfigModel,
    capabilities: Seq<char>,
    ptz: Seq<char>,
    media: Seq<char>,
)
    requires
        trim(config.device_service_url).len() > 0,
        trim(config.user_name).len() > 0,
        config.password.len() > 0,
        crate::reolink::onvif::service_xaddr(capabilities, "ptz"@) == Some(ptz),
        crate::reolink::onvif::service_xaddr(capabilities, "media"@) == Some(media),
    ensures
        resolve_step(config, None, Seq::empty()) matches SoapStepModel::Send(call) && call.url
            == config.device_service_url && call.action
            == "http://www.onvif.org/ver10/device/wsdl/GetCapabilities"@,
        explicit_token(config) is Some ==> (resolve_step(config, None, seq![Ok(capabilities)])
            matches SoapStepModel::Done(Ok(services)) && services.ptz_xaddr == ptz
            && services.media_xaddr == Some(media)),
        explicit_token(config) is None ==> (resolve_step(config, None, seq![Ok(capabilities)])
            matches SoapStepModel::Send(call) && call.url == media && call.action
            == "http://www.onvif.org/ver10/media/wsdl/GetProfiles"@),
{
    let replies = seq![Ok::<Seq<char>, ErrorModel>(capabilities)];
    assert(replies[0] == Ok::<Seq<char>, ErrorModel>(capabilities));
}

/// An answer is good where its status is of the two hundreds and it holds no fault.
pub proof fn law_answers_are_told_from_failures(
    action: Seq<char>,
    status: u16,
    status_text: Seq<char>,
    body: Seq<char>,
)
    ensures
        !(200 <= status <= 299) ==> soap_result(
            action,
            HttpReplyModel::Answered { status, status_text, body },
        ) is Err,
        200 <= status <= 299 && !contains(body, ":Fault"@) && !contains(body, "<Fault>"@)
            ==> soap_result(action, HttpReplyModel::Answered { status, status_text, body }) == Ok::<
            Seq<char>,
            ErrorModel,
        >(body),
        200 <= status <= 299 && (contains(body, ":Fault"@) || contains(body, "<Fault>"@))
            ==> soap_result(action, HttpReplyModel::Answered { status, status_text, body }) is Err,
        soap_result(action, HttpReplyModel::SendFailed(body)) is Err,
        soap_result(action, HttpReplyModel::BodyFailed(body)) is Err,
        soap_result(action, HttpReplyModel::ClientFailed(body)) is Err,
{
}

// ---------------------------------------------------------------- texts

/// Text is escaped letter by letter.
pub proof fn law_text_is_escaped_letter_by_letter(a: Seq<char>, b: Seq<char>)
    ensures
        escaped(a + b) == escaped(a) + escaped(b),
    decreases b.len(),
{
    if b.len() == 0 {
        assert(a + b =~= a);
    } else {
        law_text_is_escaped_letter_by_letter(a, b.drop_last());
        assert((a + b).drop_last() =~= a + b.drop_last());
        assert(escaped(a + b) =~= escaped(a) + escaped(b));
    }
}

/// The letters that mean something in a document are written by name, and all others as they
/// are.
pub proof fn law_letters_are_escaped_by_name(c: char)
    ensures
        escaped(seq!['&']) =~= "&amp;"@,
        escaped(seq!['<']) =~= "&lt;"@,
        escaped(seq!['>']) =~= "&gt;"@,
        escaped(seq!['"']) =~= "&quot;"@,
        escaped(seq!['\'']) =~= "&apos;"@,
        c != '&' && c != '<' && c != '>' && c != '"' && c != '\'' ==> escaped(seq![c]) =~= seq![c],
{
    reveal_with_fuel(escaped, 2);
    assert(seq!['&'].drop_last() =~= Seq::<char>::empty());
    assert(seq!['<'].drop_last() =~= Seq::<char>::empty());
    assert(seq!['>'].drop_last() =~= Seq::<char>::empty());
    assert(seq!['"'].drop_last() =~= Seq::<char>::empty());
    assert(seq!['\''].drop_last() =~= Seq::<char>::empty());
    assert(seq![c].drop_last() =~= Seq::<char>::empty());
}

// ---------------------------------------------------------------- more on calls

/// A speed beyond what there is counts as the nearest that there is.
pub proof fn law_speeds_beyond_the_limits(speed: u8)
    ensures
        speed > 64 ==> velocity_of(PtzDirection::Right, speed) == velocity_of(
            PtzDirection::Right,
            64,
        ) && velocity_of(PtzDirection::Down, speed) == velocity_of(PtzDirection::Down, 64),
        velocity_of(PtzDirection::Left, 0) == velocity_of(PtzDirection::Left, 1),
        velocity_of(PtzDirection::Up, 0) == velocity_of(PtzDirection::Up, 1),
{
}

/// A movement that the camera refuses is not stopped, and its error is the outcome; so is
/// that of a stop.
pub proof fn law_refusals_over_onvif(
    config: ConfigModel,
    channel: u8,
    direction: PtzDirection,
    speed: u8,
    duration_ms: u64,
    services: ServicesModel,
    token: Seq<char>,
    answer: Seq<char>,
    error: ErrorModel,
)
    requires
        1 <= speed <= 64,
        profile_token_of(services, channel, explicit_token(config)) == Ok::<Seq<char>, ErrorModel>(
            token,
        ),
        direction == PtzDirection::Left || direction == PtzDirection::Right || direction
            == PtzDirection::Up || direction == PtzDirection::Down,
    ensures
        move_soap_step(
            config,
            channel,
            direction,
            speed,
            Some(duration_ms),
            Some(services),
            seq![Err(error)],
        ) == SoapStepModel::Done(Err::<(), ErrorModel>(error)),
        move_soap_step(
            config,
            channel,
            direction,
            speed,
            Some(duration_ms),
            Some(services),
            seq![Ok(answer), Err(error)],
        ) == SoapStepModel::Done(Err::<(), ErrorModel>(error)),
        move_soap_step(
            config,
            channel,
            direction,
            speed,
            Some(duration_ms),
            Some(services),
            seq![Ok(answer), Ok(answer)],
        ) == SoapStepModel::Done(Ok::<(), ErrorModel>(())),
        stop_soap_step(config, channel, Some(services), seq![Err(error)]) == SoapStepModel::Done(
            Err::<(), ErrorModel>(error),
        ),
        stop_soap_step(config, channel, Some(services), seq![Ok(answer)]) == SoapStepModel::Done(
            Ok::<(), ErrorModel>(()),
        ),
{
    law_velocity_points_where_the_direction_does(direction, speed);
    let bad = Err::<Seq<char>, ErrorModel>(error);
    let good = Ok::<Seq<char>, ErrorModel>(answer);
    assert(seq![bad][0] == bad);
    assert(seq![good][0] == good);
    assert(seq![good, bad][0] == good && seq![good, bad].skip(1)[0] == bad);
    assert(seq![good, good][0] == good && seq![good, good].skip(1)[0] == good);
}

/// What the camera can do is asked for under the configuration of the channel's profile, and
/// read from the answer.
pub proof fn law_options_over_onvif(
    config: ConfigModel,
    channel: u8,
    services: ServicesModel,
    token: Seq<char>,
    configuration: Seq<char>,
    xml: Seq<char>,
)
    requires
        profile_token_of(services, channel, explicit_token(config)) == Ok::<Seq<char>, ErrorModel>(
            token,
        ),
        configuration_token(services.media_profiles, token, channel) == Some(configuration),
    ensures
        options_soap_step(config, channel, Some(services), Seq::empty())
            matches SoapStepModel::Send(call) && call.url == services.ptz_xaddr && call.delay_ms == 0
            && call.action == "http://www.onvif.org/ver20/ptz/wsdl/GetConfigurationOptions"@
            && call.body
            == "<tptz:GetConfigurationOptions xmlns:tptz=\"http://www.onvif.org/ver20/ptz/wsdl\"><tptz:ConfigurationToken>"@
            + escaped(configuration)
            + "</tptz:ConfigurationToken></tptz:GetConfigurationOptions>"@,
        options_soap_step(config, channel, Some(services), seq![Ok(xml)]) == SoapStepModel::Done(
            Ok::<_, ErrorModel>(options_of(xml)),
        ),
        options_soap_step(config, channel, None, Seq::empty()) is Resolve,
{
    let replies = seq![Ok::<Seq<char>, ErrorModel>(xml)];
    assert(replies[0] == Ok::<Seq<char>, ErrorModel>(xml));
}

/// Where a profile has no configuration of its own, that of the channel's profile is used, and
/// where that has none either, the first that there is.
pub proof fn law_configurations_by_rank(
    profiles: Seq<ProfileModel>,
    token: Seq<char>,
    channel: u8,
    configuration: Seq<char>,
)
    requires
        forall|i: int| 0 <= i < profiles.len() ==> (#[trigger] profiles[i]).token != token,
    ensures
        channel < profiles.len() && profiles[channel as int].ptz_configuration_token == Some(
            configuration,
        ) ==> configuration_token(profiles, token, channel) == Some(configuration),
        profiles.len() > 0 && channel >= profiles.len() && profiles[0].ptz_configuration_token
            == Some(configuration) ==> configuration_token(profiles, token, channel) == Some(
            configuration,
        ),
{
    lemma_no_configuration(profiles, token);
}

proof fn lemma_no_configuration(profiles: Seq<ProfileModel>, token: Seq<char>)
    requires
        forall|i: int| 0 <= i < profiles.len() ==> (#[trigger] profiles[i]).token != token,
    ensures
        crate::reolink::onvif::configuration_of(profiles, token) is None,
    decreases profiles.len(),
{
    if profiles.len() > 0 {
        let rest = profiles.drop_first();
        assert(profiles[0].token != token);
        assert forall|i: int| 0 <= i < rest.len() implies (#[trigger] rest[i]).token != token by {
            assert(rest[i] == profiles[i + 1]);
        }
        lemma_no_configuration(rest, token);
    }
}

/// A profile that is listed has the token of its tag, and the configuration inside it.
pub proof fn law_profiles_are_read(
    xml: Seq<char>,
    tag: crate::reolink::xml::TagModel,
    known: Seq<ProfileModel>,
    token: Seq<char>,
    inner: Seq<char>,
)
    requires
        crate::json::same_name(crate::reolink::xml::local_part(tag.name), "Profiles"@),
        crate::reolink::xml::attribute_value(tag.body, "token"@) == Some(token),
        token.len() > 0,
        forall|i: int| 0 <= i < known.len() ==> (#[trigger] known[i]).token != token,
        !tag.self_closing,
        crate::reolink::xml::tag_content(xml, tag) == Some(inner),
    ensures
        crate::reolink::onvif::profile_at(xml, tag, known) matches Some(profile) && profile.token
            == token && profile.ptz_configuration_token == tag_attribute(
            inner,
            "PTZConfiguration"@,
            "token"@,
        ),
{
}

// ---------------------------------------------------------------- signing

/// What is sent to prove the password: the nonce, the moment and the password are digested in
/// this order, and the password itself is not sent.
pub proof fn law_password_is_proved(
    user: Seq<char>,
    password: Seq<char>,
    created: Seq<char>,
    nonce: Seq<u8>,
)
    ensures
        crate::reolink::onvif::security_header(user, password, created, nonce)
            == "<wsse:Security s:mustUnderstand=\"1\"><wsse:UsernameToken><wsse:Username>"@ + escaped(
            user,
        )
            + "</wsse:Username><wsse:Password Type=\"http://docs.oasis-open.org/wss/2004/01/oasis-200401-wss-username-token-profile-1.0#PasswordDigest\">"@
            + crate::reolink::media::base64_text(
            crate::reolink::onvif::sha1_of(
                nonce + vstd::utf8::encode_utf8(created) + vstd::utf8::encode_utf8(password),
            ),
        )
            + "</wsse:Password><wsse:Nonce EncodingType=\"http://docs.oasis-open.org/wss/2004/01/oasis-200401-wss-soap-message-security-1.0#Base64Binary\">"@
            + crate::reolink::media::base64_text(nonce) + "</wsse:Nonce><wsu:Created>"@ + created
            + "</wsu:Created></wsse:UsernameToken></wsse:Security>"@,
{
}

/// The value of bytes, the highest first.
pub open spec fn bytes_value(bytes: Seq<u8>) -> int
    decreases bytes.len(),
{
    if bytes.len() == 0 {
        0
    } else {
        256 * bytes_value(bytes.drop_last()) + bytes.last()
    }
}

/// A number is written in bytes, the highest first; read as such, they are the number.
pub proof fn law_bytes_are_the_number(n: nat, len: nat)
    requires
        n < vstd::arithmetic::power2::pow2(8 * len),
    ensures
        crate::reolink::onvif::be_bytes(n, len).len() == len,
        bytes_value(crate::reolink::onvif::be_bytes(n, len)) == n,
    decreases len,
{
    vstd::arithmetic::power2::lemma2_to64();
    if len > 0 {
        let less = (len - 1) as nat;
        vstd::arithmetic::power2::lemma_pow2_adds(8, 8 * less);
        let p = vstd::arithmetic::power2::pow2(8 * less);
        assert(n / 256 < p) by (nonlinear_arith)
            requires
                n < 256 * p,
        ;
        law_bytes_are_the_number(n / 256, less);
        let bytes = crate::reolink::onvif::be_bytes(n, len);
        assert(bytes.drop_last() =~= crate::reolink::onvif::be_bytes(n / 256, less));
    }
}

/// A document has its header before its body, and its kind names the action.
pub proof fn law_documents_are_wrapped(header: Seq<char>, body: Seq<char>, action: Seq<char>)
    ensures
        crate::reolink::onvif::envelope_text(header, body)
            == "<?xml version=\"1.0\" encoding=\"UTF-8\"?><s:Envelope xmlns:s=\"http://www.w3.org/2003/05/soap-envelope\" xmlns:wsse=\"http://docs.oasis-open.org/wss/2004/01/oasis-200401-wss-wssecurity-secext-1.0.xsd\" xmlns:wsu=\"http://docs.oasis-open.org/wss/2004/01/oasis-200401-wss-wssecurity-utility-1.0.xsd\" xmlns:tt=\"http://www.onvif.org/ver10/schema\"><s:Header>"@
            + header + "</s:Header><s:Body>"@ + body + "</s:Body></s:Envelope>"@,
        crate::reolink::onvif::content_type_text(action)
            == "application/soap+xml; charset=utf-8; action=\""@ + action + "\""@,
{
}

} // verus!
