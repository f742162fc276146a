//! The status of a channel as a whole, and its stored positions.
use crate::command::{CgiCommand, ResponseModel};
use crate::error::ErrorModel;
use crate::exchange::StepModel;
use crate::json::{tree_get, tree_get2, JsonTree};
use crate::laws::answers::{
    is_answer, is_integer, is_plain_value, lemma_answer, lemma_asked_in_order, lemma_asked_in_vain,
};
use crate::laws::status::is_of_other_channel;
use crate::model::{blank_status, NumericRange, StatusModel};
use crate::reolink::ptz::{
    fits_channel, number_by_keys, optional_payload, presets_step, status_step, with_check_state,
    with_position, with_presets, with_zoom_focus, NumberField, NumberOf,
};
use vstd::prelude::*;

verus! {

/// A request asks for something of the channel.
pub open spec fn asks_about(step: StepModel<StatusModel>, command: CgiCommand, channel: u8) -> bool {
    step matches StepModel::Send(request) && request.command == command && request.params.channel
        == Some(channel) && request.params.payload is None
}

/// The zoom and focus, the stored positions and the calibration of a channel are asked for in
/// turn, after its position.
pub proof fn law_status_is_asked_for_in_turn(
    channel: u8,
    first: Result<ResponseModel, ErrorModel>,
    second: Result<ResponseModel, ErrorModel>,
    third: Result<ResponseModel, ErrorModel>,
)
    requires
        optional_payload(CgiCommand::GetPtzCurPos, first) is Ok,
        optional_payload(CgiCommand::GetZoomFocus, second) is Ok,
        optional_payload(CgiCommand::GetPtzPreset, third) is Ok,
    ensures
        status_step(channel, Seq::empty()) matches StepModel::Send(request) && request.command
            == CgiCommand::GetPtzCurPos,
        asks_about(status_step(channel, seq![first]), CgiCommand::GetZoomFocus, channel),
        asks_about(status_step(channel, seq![first, second]), CgiCommand::GetPtzPreset, channel),
        asks_about(
            status_step(channel, seq![first, second, third]),
            CgiCommand::GetPtzCheckState,
            channel,
        ),
{
    assert(seq![first][0] == first);
    assert(seq![first, second][0] == first && seq![first, second][1] == second);
    assert(seq![first, second, third][0] == first && seq![first, second, third][1] == second
        && seq![first, second, third][2] == third);
}

/// An answer that the camera gave without an error is taken, and one with another code than
/// zero is passed over.
pub proof fn law_answers_are_taken_or_passed_over(raw_json: Seq<char>, entry: JsonTree, code: i64)
    requires
        is_answer(raw_json, "GetZoomFocus"@, entry),
        tree_get(entry, "code"@) matches Some(raw) && is_integer(raw, code as int),
    ensures
        code == 0 ==> optional_payload(
            CgiCommand::GetZoomFocus,
            Ok(ResponseModel { command: CgiCommand::GetZoomFocus, raw_json }),
        ) == Ok::<Option<JsonTree>, ErrorModel>(Some(entry)),
        code != 0 ==> optional_payload(
            CgiCommand::GetZoomFocus,
            Ok(ResponseModel { command: CgiCommand::GetZoomFocus, raw_json }),
        ) == Ok::<Option<JsonTree>, ErrorModel>(None),
{
    lemma_answer(entry, CgiCommand::GetZoomFocus);
}

/// Each part of the status comes from the answer to its own request.
pub proof fn law_status_is_made_of_the_answers(
    channel: u8,
    replies: Seq<Result<ResponseModel, ErrorModel>>,
    position: JsonTree,
    zoom_focus: JsonTree,
    presets: JsonTree,
    check_state: JsonTree,
)
    requires
        replies.len() == 4,
        optional_payload(CgiCommand::GetPtzCurPos, replies[0]) == Ok::<
            Option<JsonTree>,
            ErrorModel,
        >(Some(position)),
        optional_payload(CgiCommand::GetZoomFocus, replies[1]) == Ok::<
            Option<JsonTree>,
            ErrorModel,
        >(Some(zoom_focus)),
        optional_payload(CgiCommand::GetPtzPreset, replies[2]) == Ok::<
            Option<JsonTree>,
            ErrorModel,
        >(Some(presets)),
        optional_payload(CgiCommand::GetPtzCheckState, replies[3]) == Ok::<
            Option<JsonTree>,
            ErrorModel,
        >(Some(check_state)),
        with_position(blank_status(channel), channel, position).pan_position is Some,
    ensures
        ({
            let blank = blank_status(channel);
            status_step(channel, replies) matches StepModel::Done(Ok(status)) && {
                &&& status.channel == channel
                &&& status.pan_position == with_position(blank, channel, position).pan_position
                &&& status.tilt_position == with_position(blank, channel, position).tilt_position
                &&& status.pan_range == with_position(blank, channel, position).pan_range
                &&& status.tilt_range == with_position(blank, channel, position).tilt_range
                &&& status.zoom_position == with_zoom_focus(blank, channel, zoom_focus).zoom_position
                &&& status.focus_position == with_zoom_focus(
                    blank,
                    channel,
                    zoom_focus,
                ).focus_position
                &&& status.zoom_range == with_zoom_focus(blank, channel, zoom_focus).zoom_range
                &&& status.focus_range == with_zoom_focus(blank, channel, zoom_focus).focus_range
                &&& status.enabled_presets == with_presets(blank, channel, presets).enabled_presets
                &&& status.preset_range == with_presets(blank, channel, presets).preset_range
                &&& status.calibration_state == with_check_state(
                    blank,
                    check_state,
                ).calibration_state
            }
        }),
{
}

/// Where nothing is known, nothing is there.
pub proof fn law_blank_status(channel: u8)
    ensures
        blank_status(channel).channel == channel,
        blank_status(channel).pan_position is None && blank_status(channel).tilt_position is None,
        blank_status(channel).zoom_position is None && blank_status(channel).focus_position is None,
        blank_status(channel).pan_range is None && blank_status(channel).tilt_range is None,
        blank_status(channel).zoom_range is None && blank_status(channel).focus_range is None,
        blank_status(channel).calibration_state is None,
        blank_status(channel).enabled_presets.len() == 0,
{
}

// ---------------------------------------------------------------- other channels, other names

/// A position that is that of another channel is not taken.
pub proof fn law_other_channels_are_passed_over(
    status: StatusModel,
    channel: u8,
    payload: JsonTree,
    members: Seq<(Seq<char>, JsonTree)>,
)
    requires
        tree_get2(payload, "value"@, "PtzCurPos"@) == Some(JsonTree::Object(members)),
        is_of_other_channel(JsonTree::Object(members), channel),
        forall|i: int| 0 <= i < members.len() ==> is_plain_value(#[trigger] members[i].1),
    ensures
        with_position(status, channel, payload).pan_position == status.pan_position,
        with_position(status, channel, payload).tilt_position == status.tilt_position,
{
    let part = JsonTree::Object(members);
    assert(!fits_channel(part, channel));
    lemma_asked_in_vain(NumberOf { field: NumberField::Pan, channel: Some(channel) }, members);
    lemma_asked_in_vain(NumberOf { field: NumberField::Tilt, channel: Some(channel) }, members);
}

/// An object of plain values.
pub open spec fn holds_plain_values(item: JsonTree) -> bool {
    item matches JsonTree::Object(members) && forall|i: int|
        0 <= i < members.len() ==> is_plain_value(#[trigger] members[i].1)
}

/// Of the positions of several channels, the one of the channel that was asked about is taken.
pub proof fn law_position_of_the_channel_is_picked(
    status: StatusModel,
    channel: u8,
    payload: JsonTree,
    items: Seq<JsonTree>,
    k: int,
)
    requires
        tree_get2(payload, "value"@, "PtzCurPos"@) == Some(JsonTree::Array(items)),
        0 <= k < items.len(),
        forall|j: int|
            0 <= j < k ==> is_of_other_channel(#[trigger] items[j], channel) && holds_plain_values(
                items[j],
            ),
        number_by_keys(items[k], Some(channel), NumberField::Pan) is Some,
        number_by_keys(items[k], Some(channel), NumberField::Tilt) is Some,
        status.pan_position is None && status.tilt_position is None,
    ensures
        with_position(status, channel, payload).pan_position == number_by_keys(
            items[k],
            Some(channel),
            NumberField::Pan,
        ),
        with_position(status, channel, payload).tilt_position == number_by_keys(
            items[k],
            Some(channel),
            NumberField::Tilt,
        ),
{
    let pan = NumberOf { field: NumberField::Pan, channel: Some(channel) };
    let tilt = NumberOf { field: NumberField::Tilt, channel: Some(channel) };
    assert forall|j: int| 0 <= j < k implies crate::json::search_tree(pan, #[trigger] items[j]) is None by {
        assert(is_of_other_channel(items[j], channel));
        assert(!fits_channel(items[j], channel));
        lemma_asked_in_vain(pan, items[j]->Object_0);
    }
    assert forall|j: int| 0 <= j < k implies crate::json::search_tree(tilt, #[trigger] items[j]) is None by {
        assert(is_of_other_channel(items[j], channel));
        assert(!fits_channel(items[j], channel));
        lemma_asked_in_vain(tilt, items[j]->Object_0);
    }
    lemma_asked_in_order(pan, items, k);
    lemma_asked_in_order(tilt, items, k);
}

// ---------------------------------------------------------------- stored positions

/// The range of the stored positions is the one that stands for their numbers.
pub proof fn law_range_of_stored_positions(
    status: StatusModel,
    channel: u8,
    payload: JsonTree,
    part: JsonTree,
    range: NumericRange,
)
    requires
        status.preset_range is None,
        tree_get2(payload, "range"@, "PtzPreset"@) == Some(part),
        tree_get2(part, "id"@, "min"@) matches Some(raw) && is_integer(raw, range.min as int),
        tree_get2(part, "id"@, "max"@) matches Some(raw) && is_integer(raw, range.max as int),
    ensures
        with_presets(status, channel, payload).preset_range == Some(range),
        with_presets(status, channel, payload).pan_position == status.pan_position,
        with_presets(status, channel, payload).zoom_range == status.zoom_range,
{
    crate::laws::status::law_bounds_are_read(
        tree_get(part, "id"@)->0,
        range.min,
        range.max,
    );
}

/// The stored positions of a channel are asked for by its number.
pub proof fn law_stored_positions_are_asked_for(channel: u8)
    ensures
        presets_step(channel, Seq::empty()) matches StepModel::Send(request) && request.command
            == CgiCommand::GetPtzPreset && request.params.channel == Some(channel),
{
}

/// A status that says nothing is an error, and any other is not.
pub proof fn law_empty_status_is_an_error(status: StatusModel)
    ensures
        status == blank_status(status.channel) <==> crate::reolink::ptz::status_result(
            status,
        ) is Err,
        status.pan_position is Some || status.zoom_position is Some || status.zoom_range is Some
            || status.calibration_state is Some || status.enabled_presets.len() > 0
            ==> crate::reolink::ptz::status_result(status) == Ok::<StatusModel, ErrorModel>(status),
{
}

/// A stored position is listed with its own name, if it is enabled, has a number above zero
/// and is of the channel.
pub proof fn law_stored_positions_have_their_names(
    items: Seq<JsonTree>,
    channel: u8,
    k: int,
    id: u8,
    name: Seq<char>,
    below: int,
)
    requires
        forall|i: int|
            0 <= i < items.len() ==> crate::laws::status::is_stored_position(#[trigger] items[i]),
        0 <= k < items.len(),
        crate::laws::status::is_enabled_position(items[k], channel, id),
        forall|i: int|
            0 <= i < k ==> !crate::laws::status::is_enabled_position(
                #[trigger] items[i],
                channel,
                id,
            ),
        tree_get(items[k], "name"@) == Some(JsonTree::Text(name)),
        crate::text::trim(name).len() > 0,
        0 < id < below <= 256,
    ensures
        crate::reolink::ptz::presets_below(JsonTree::Array(items), channel, below).contains(
            (id, Some(name)),
        ),
    decreases below,
{
    let tree = JsonTree::Array(items);
    let list = crate::reolink::ptz::presets_below(tree, channel, below);
    if below - 1 == id {
        let probe = crate::reolink::ptz::PresetNameOf { channel, id };
        crate::laws::status::lemma_items_list(items, channel, id);
        assert forall|j: int| 0 <= j < k implies crate::json::search_tree(probe, #[trigger] items[j]) is None by {
            assert(crate::laws::status::is_stored_position(items[j]));
            crate::laws::status::lemma_position_lists(items[j], channel, id);
            lemma_asked_in_vain(probe, items[j]->Object_0);
        }
        assert(crate::laws::status::is_stored_position(items[k]));
        crate::laws::status::lemma_position_lists(items[k], channel, id);
        lemma_position_is_enabled(items[k], channel, id);
        crate::laws::answers::lemma_asked_first(probe, items[k]);
        lemma_asked_in_order(probe, items, k);
        let before = crate::reolink::ptz::presets_below(tree, channel, below - 1);
        assert(list[before.len() as int] == (id, Some(name)));
    } else {
        law_stored_positions_have_their_names(items, channel, k, id, name, below - 1);
        let before = crate::reolink::ptz::presets_below(tree, channel, below - 1);
        let at = choose|i: int| 0 <= i < before.len() && before[i] == (id, Some(name));
        assert(list[at] == (id, Some(name)));
    }
}

proof fn lemma_position_is_enabled(item: JsonTree, channel: u8, id: u8)
    requires
        crate::laws::status::is_stored_position(item),
        crate::laws::status::is_enabled_position(item, channel, id),
    ensures
        crate::reolink::ptz::is_enabled_preset(item, channel, id as int),
{
}

} // verus!
