//! The status of a channel: where the camera looks, and how far it can go.
use crate::command::{CgiCommand, ResponseModel};
use crate::error::ErrorModel;
use crate::exchange::StepModel;
use crate::json::{display_of_json, same_name, tree_get, tree_get2, JsonTree};
use crate::laws::answers::{
    is_accepted, is_answer, is_count, is_integer, law_members_are_found, lemma_answer,
    lemma_asked_first,
};
use crate::model::{blank_status, NumericRange, StatusModel};
use crate::reolink::ptz::{
    bounds_at, fits_channel, number_among, number_by_keys, number_in_section, number_named,
    position_step, preset_ids, range_among, range_by_keys, range_named, range_of, section_among,
    section_named, with_check_state, with_position, with_zoom_focus, NumberField, NumberOf,
    RangeField, SectionOf,
};
use crate::text::lower;
use vstd::prelude::*;

verus! {

/// The names differ, whatever their capitals.
proof fn lemma_names_differ()
    ensures
        lower("pan"@) != lower("Ppos"@),
        lower("pan"@) != lower("pPos"@),
        lower("Tpos"@) != lower("Ppos"@),
        lower("Tpos"@) != lower("pPos"@),
        lower("Tpos"@) != lower("pan"@),
        lower("tPos"@) != lower("Ppos"@),
        lower("tPos"@) != lower("pPos"@),
        lower("tPos"@) != lower("pan"@),
        lower("tilt"@) != lower("Ppos"@),
        lower("tilt"@) != lower("pPos"@),
        lower("tilt"@) != lower("pan"@),
        lower("tilt"@) != lower("Tpos"@),
        lower("tilt"@) != lower("tPos"@),
        lower("zoom"@) != lower("Ppos"@),
        lower("zoom"@) != lower("pPos"@),
        lower("zoom"@) != lower("pan"@),
        lower("zoom"@) != lower("Tpos"@),
        lower("zoom"@) != lower("tPos"@),
        lower("zoom"@) != lower("tilt"@),
        lower("focus"@) != lower("Ppos"@),
        lower("focus"@) != lower("pPos"@),
        lower("focus"@) != lower("pan"@),
        lower("focus"@) != lower("Tpos"@),
        lower("focus"@) != lower("tPos"@),
        lower("focus"@) != lower("tilt"@),
        lower("focus"@) != lower("zoom"@),
        lower("zoomPos"@) != lower("Ppos"@),
        lower("zoomPos"@) != lower("pPos"@),
        lower("zoomPos"@) != lower("pan"@),
        lower("zoomPos"@) != lower("Tpos"@),
        lower("zoomPos"@) != lower("tPos"@),
        lower("zoomPos"@) != lower("tilt"@),
        lower("zoomPos"@) != lower("zoom"@),
        lower("zoomPos"@) != lower("focus"@),
        lower("Zpos"@) != lower("Ppos"@),
        lower("Zpos"@) != lower("pPos"@),
        lower("Zpos"@) != lower("pan"@),
        lower("Zpos"@) != lower("Tpos"@),
        lower("Zpos"@) != lower("tPos"@),
        lower("Zpos"@) != lower("tilt"@),
        lower("Zpos"@) != lower("zoom"@),
        lower("Zpos"@) != lower("focus"@),
        lower("Zpos"@) != lower("zoomPos"@),
        lower("focusPos"@) != lower("Ppos"@),
        lower("focusPos"@) != lower("pPos"@),
        lower("focusPos"@) != lower("pan"@),
        lower("focusPos"@) != lower("Tpos"@),
        lower("focusPos"@) != lower("tPos"@),
        lower("focusPos"@) != lower("tilt"@),
        lower("focusPos"@) != lower("zoom"@),
        lower("focusPos"@) != lower("focus"@),
        lower("focusPos"@) != lower("zoomPos"@),
        lower("focusPos"@) != lower("Zpos"@),
        lower("pos"@) != lower("Ppos"@),
        lower("pos"@) != lower("pPos"@),
        lower("pos"@) != lower("pan"@),
        lower("pos"@) != lower("Tpos"@),
        lower("pos"@) != lower("tPos"@),
        lower("pos"@) != lower("tilt"@),
        lower("pos"@) != lower("zoom"@),
        lower("pos"@) != lower("focus"@),
        lower("pos"@) != lower("zoomPos"@),
        lower("pos"@) != lower("Zpos"@),
        lower("pos"@) != lower("focusPos"@),
        lower("PtzCheckState"@) != lower("Ppos"@),
        lower("PtzCheckState"@) != lower("pPos"@),
        lower("PtzCheckState"@) != lower("pan"@),
        lower("PtzCheckState"@) != lower("Tpos"@),
        lower("PtzCheckState"@) != lower("tPos"@),
        lower("PtzCheckState"@) != lower("tilt"@),
        lower("PtzCheckState"@) != lower("zoom"@),
        lower("PtzCheckState"@) != lower("focus"@),
        lower("PtzCheckState"@) != lower("zoomPos"@),
        lower("PtzCheckState"@) != lower("Zpos"@),
        lower("PtzCheckState"@) != lower("focusPos"@),
        lower("PtzCheckState"@) != lower("pos"@),
{
    reveal_strlit("Ppos");
    reveal_strlit("pPos");
    reveal_strlit("pan");
    reveal_strlit("Tpos");
    reveal_strlit("tPos");
    reveal_strlit("tilt");
    reveal_strlit("zoom");
    reveal_strlit("focus");
    reveal_strlit("zoomPos");
    reveal_strlit("Zpos");
    reveal_strlit("focusPos");
    reveal_strlit("pos");
    reveal_strlit("PtzCheckState");
    assert(lower("pan"@).len() != lower("Ppos"@).len());
    assert(lower("pan"@).len() != lower("pPos"@).len());
    assert(lower("Tpos"@)[0] != lower("Ppos"@)[0]);
    assert(lower("Tpos"@)[0] != lower("pPos"@)[0]);
    assert(lower("Tpos"@).len() != lower("pan"@).len());
    assert(lower("tPos"@)[0] != lower("Ppos"@)[0]);
    assert(lower("tPos"@)[0] != lower("pPos"@)[0]);
    assert(lower("tPos"@).len() != lower("pan"@).len());
    assert(lower("tilt"@)[0] != lower("Ppos"@)[0]);
    assert(lower("tilt"@)[0] != lower("pPos"@)[0]);
    assert(lower("tilt"@).len() != lower("pan"@).len());
    assert(lower("tilt"@)[1] != lower("Tpos"@)[1]);
    assert(lower("tilt"@)[1] != lower("tPos"@)[1]);
    assert(lower("zoom"@)[0] != lower("Ppos"@)[0]);
    assert(lower("zoom"@)[0] != lower("pPos"@)[0]);
    assert(lower("zoom"@).len() != lower("pan"@).len());
    assert(lower("zoom"@)[0] != lower("Tpos"@)[0]);
    assert(lower("zoom"@)[0] != lower("tPos"@)[0]);
    assert(lower("zoom"@)[0] != lower("tilt"@)[0]);
    assert(lower("focus"@).len() != lower("Ppos"@).len());
    assert(lower("focus"@).len() != lower("pPos"@).len());
    assert(lower("focus"@).len() != lower("pan"@).len());
    assert(lower("focus"@).len() != lower("Tpos"@).len());
    assert(lower("focus"@).len() != lower("tPos"@).len());
    assert(lower("focus"@).len() != lower("tilt"@).len());
    assert(lower("focus"@).len() != lower("zoom"@).len());
    assert(lower("zoomPos"@).len() != lower("Ppos"@).len());
    assert(lower("zoomPos"@).len() != lower("pPos"@).len());
    assert(lower("zoomPos"@).len() != lower("pan"@).len());
    assert(lower("zoomPos"@).len() != lower("Tpos"@).len());
    assert(lower("zoomPos"@).len() != lower("tPos"@).len());
    assert(lower("zoomPos"@).len() != lower("tilt"@).len());
    assert(lower("zoomPos"@).len() != lower("zoom"@).len());
    assert(lower("zoomPos"@).len() != lower("focus"@).len());
    assert(lower("Zpos"@)[0] != lower("Ppos"@)[0]);
    assert(lower("Zpos"@)[0] != lower("pPos"@)[0]);
    assert(lower("Zpos"@).len() != lower("pan"@).len());
    assert(lower("Zpos"@)[0] != lower("Tpos"@)[0]);
    assert(lower("Zpos"@)[0] != lower("tPos"@)[0]);
    assert(lower("Zpos"@)[0] != lower("tilt"@)[0]);
    assert(lower("Zpos"@)[1] != lower("zoom"@)[1]);
    assert(lower("Zpos"@).len() != lower("focus"@).len());
    assert(lower("Zpos"@).len() != lower("zoomPos"@).len());
    assert(lower("focusPos"@).len() != lower("Ppos"@).len());
    assert(lower("focusPos"@).len() != lower("pPos"@).len());
    assert(lower("focusPos"@).len() != lower("pan"@).len());
    assert(lower("focusPos"@).len() != lower("Tpos"@).len());
    assert(lower("focusPos"@).len() != lower("tPos"@).len());
    assert(lower("focusPos"@).len() != lower("tilt"@).len());
    assert(lower("focusPos"@).len() != lower("zoom"@).len());
    assert(lower("focusPos"@).len() != lower("focus"@).len());
    assert(lower("focusPos"@).len() != lower("zoomPos"@).len());
    assert(lower("focusPos"@).len() != lower("Zpos"@).len());
    assert(lower("pos"@).len() != lower("Ppos"@).len());
    assert(lower("pos"@).len() != lower("pPos"@).len());
    assert(lower("pos"@)[1] != lower("pan"@)[1]);
    assert(lower("pos"@).len() != lower("Tpos"@).len());
    assert(lower("pos"@).len() != lower("tPos"@).len());
    assert(lower("pos"@).len() != lower("tilt"@).len());
    assert(lower("pos"@).len() != lower("zoom"@).len());
    assert(lower("pos"@).len() != lower("focus"@).len());
    assert(lower("pos"@).len() != lower("zoomPos"@).len());
    assert(lower("pos"@).len() != lower("Zpos"@).len());
    assert(lower("pos"@).len() != lower("focusPos"@).len());
    assert(lower("PtzCheckState"@).len() != lower("Ppos"@).len());
    assert(lower("PtzCheckState"@).len() != lower("pPos"@).len());
    assert(lower("PtzCheckState"@).len() != lower("pan"@).len());
    assert(lower("PtzCheckState"@).len() != lower("Tpos"@).len());
    assert(lower("PtzCheckState"@).len() != lower("tPos"@).len());
    assert(lower("PtzCheckState"@).len() != lower("tilt"@).len());
    assert(lower("PtzCheckState"@).len() != lower("zoom"@).len());
    assert(lower("PtzCheckState"@).len() != lower("focus"@).len());
    assert(lower("PtzCheckState"@).len() != lower("zoomPos"@).len());
    assert(lower("PtzCheckState"@).len() != lower("Zpos"@).len());
    assert(lower("PtzCheckState"@).len() != lower("focusPos"@).len());
    assert(lower("PtzCheckState"@).len() != lower("pos"@).len());
}

/// The names of channels differ.
proof fn lemma_keys_differ()
    ensures
        "channelId"@ != "channel"@,
        "channelNo"@ != "channel"@,
        "channelNo"@ != "channelId"@,
        "value"@ != "channel"@,
        "value"@ != "channelId"@,
        "value"@ != "channelNo"@,
        "range"@ != "channel"@,
        "range"@ != "channelId"@,
        "range"@ != "channelNo"@,
        "range"@ != "value"@,
        "code"@ != "channel"@,
        "code"@ != "channelId"@,
        "code"@ != "channelNo"@,
        "code"@ != "value"@,
        "code"@ != "range"@,
        "cmd"@ != "channel"@,
        "cmd"@ != "channelId"@,
        "cmd"@ != "channelNo"@,
        "cmd"@ != "value"@,
        "cmd"@ != "range"@,
        "cmd"@ != "code"@,
        "PtzCurPos"@ != "channel"@,
        "PtzCurPos"@ != "channelId"@,
        "PtzCurPos"@ != "channelNo"@,
        "PtzCurPos"@ != "value"@,
        "PtzCurPos"@ != "range"@,
        "PtzCurPos"@ != "code"@,
        "PtzCurPos"@ != "cmd"@,
        "ZoomFocus"@ != "channel"@,
        "ZoomFocus"@ != "channelId"@,
        "ZoomFocus"@ != "channelNo"@,
        "ZoomFocus"@ != "value"@,
        "ZoomFocus"@ != "range"@,
        "ZoomFocus"@ != "code"@,
        "ZoomFocus"@ != "cmd"@,
        "ZoomFocus"@ != "PtzCurPos"@,
        "PtzPreset"@ != "channel"@,
        "PtzPreset"@ != "channelId"@,
        "PtzPreset"@ != "channelNo"@,
        "PtzPreset"@ != "value"@,
        "PtzPreset"@ != "range"@,
        "PtzPreset"@ != "code"@,
        "PtzPreset"@ != "cmd"@,
        "PtzPreset"@ != "PtzCurPos"@,
        "PtzPreset"@ != "ZoomFocus"@,
        "id"@ != "channel"@,
        "id"@ != "channelId"@,
        "id"@ != "channelNo"@,
        "id"@ != "value"@,
        "id"@ != "range"@,
        "id"@ != "code"@,
        "id"@ != "cmd"@,
        "id"@ != "PtzCurPos"@,
        "id"@ != "ZoomFocus"@,
        "id"@ != "PtzPreset"@,
        "enable"@ != "channel"@,
        "enable"@ != "channelId"@,
        "enable"@ != "channelNo"@,
        "enable"@ != "value"@,
        "enable"@ != "range"@,
        "enable"@ != "code"@,
        "enable"@ != "cmd"@,
        "enable"@ != "PtzCurPos"@,
        "enable"@ != "ZoomFocus"@,
        "enable"@ != "PtzPreset"@,
        "enable"@ != "id"@,
        "min"@ != "channel"@,
        "min"@ != "channelId"@,
        "min"@ != "channelNo"@,
        "min"@ != "value"@,
        "min"@ != "range"@,
        "min"@ != "code"@,
        "min"@ != "cmd"@,
        "min"@ != "PtzCurPos"@,
        "min"@ != "ZoomFocus"@,
        "min"@ != "PtzPreset"@,
        "min"@ != "id"@,
        "min"@ != "enable"@,
        "max"@ != "channel"@,
        "max"@ != "channelId"@,
        "max"@ != "channelNo"@,
        "max"@ != "value"@,
        "max"@ != "range"@,
        "max"@ != "code"@,
        "max"@ != "cmd"@,
        "max"@ != "PtzCurPos"@,
        "max"@ != "ZoomFocus"@,
        "max"@ != "PtzPreset"@,
        "max"@ != "id"@,
        "max"@ != "enable"@,
        "max"@ != "min"@,
{
    reveal_strlit("channel");
    reveal_strlit("channelId");
    reveal_strlit("channelNo");
    reveal_strlit("value");
    reveal_strlit("range");
    reveal_strlit("code");
    reveal_strlit("cmd");
    reveal_strlit("PtzCurPos");
    reveal_strlit("ZoomFocus");
    reveal_strlit("PtzPreset");
    reveal_strlit("id");
    reveal_strlit("enable");
    reveal_strlit("min");
    reveal_strlit("max");
    assert("channelId"@.len() != "channel"@.len());
    assert("channelNo"@.len() != "channel"@.len());
    assert("channelNo"@[7] != "channelId"@[7]);
    assert("value"@.len() != "channel"@.len());
    assert("value"@.len() != "channelId"@.len());
    assert("value"@.len() != "channelNo"@.len());
    assert("range"@.len() != "channel"@.len());
    assert("range"@.len() != "channelId"@.len());
    assert("range"@.len() != "channelNo"@.len());
    assert("range"@[0] != "value"@[0]);
    assert("code"@.len() != "channel"@.len());
    assert("code"@.len() != "channelId"@.len());
    assert("code"@.len() != "channelNo"@.len());
    assert("code"@.len() != "value"@.len());
    assert("code"@.len() != "range"@.len());
    assert("cmd"@.len() != "channel"@.len());
    assert("cmd"@.len() != "channelId"@.len());
    assert("cmd"@.len() != "channelNo"@.len());
    assert("cmd"@.len() != "value"@.len());
    assert("cmd"@.len() != "range"@.len());
    assert("cmd"@.len() != "code"@.len());
    assert("PtzCurPos"@.len() != "channel"@.len());
    assert("PtzCurPos"@[0] != "channelId"@[0]);
    assert("PtzCurPos"@[0] != "channelNo"@[0]);
    assert("PtzCurPos"@.len() != "value"@.len());
    assert("PtzCurPos"@.len() != "range"@.len());
    assert("PtzCurPos"@.len() != "code"@.len());
    assert("PtzCurPos"@.len() != "cmd"@.len());
    assert("ZoomFocus"@.len() != "channel"@.len());
    assert("ZoomFocus"@[0] != "channelId"@[0]);
    assert("ZoomFocus"@[0] != "channelNo"@[0]);
    assert("ZoomFocus"@.len() != "value"@.len());
    assert("ZoomFocus"@.len() != "range"@.len());
    assert("ZoomFocus"@.len() != "code"@.len());
    assert("ZoomFocus"@.len() != "cmd"@.len());
    assert("ZoomFocus"@[0] != "PtzCurPos"@[0]);
    assert("PtzPreset"@.len() != "channel"@.len());
    assert("PtzPreset"@[0] != "channelId"@[0]);
    assert("PtzPreset"@[0] != "channelNo"@[0]);
    assert("PtzPreset"@.len() != "value"@.len());
    assert("PtzPreset"@.len() != "range"@.len());
    assert("PtzPreset"@.len() != "code"@.len());
    assert("PtzPreset"@.len() != "cmd"@.len());
    assert("PtzPreset"@[3] != "PtzCurPos"@[3]);
    assert("PtzPreset"@[0] != "ZoomFocus"@[0]);
    assert("id"@.len() != "channel"@.len());
    assert("id"@.len() != "channelId"@.len());
    assert("id"@.len() != "channelNo"@.len());
    assert("id"@.len() != "value"@.len());
    assert("id"@.len() != "range"@.len());
    assert("id"@.len() != "code"@.len());
    assert("id"@.len() != "cmd"@.len());
    assert("id"@.len() != "PtzCurPos"@.len());
    assert("id"@.len() != "ZoomFocus"@.len());
    assert("id"@.len() != "PtzPreset"@.len());
    assert("enable"@.len() != "channel"@.len());
    assert("enable"@.len() != "channelId"@.len());
    assert("enable"@.len() != "channelNo"@.len());
    assert("enable"@.len() != "value"@.len());
    assert("enable"@.len() != "range"@.len());
    assert("enable"@.len() != "code"@.len());
    assert("enable"@.len() != "cmd"@.len());
    assert("enable"@.len() != "PtzCurPos"@.len());
    assert("enable"@.len() != "ZoomFocus"@.len());
    assert("enable"@.len() != "PtzPreset"@.len());
    assert("enable"@.len() != "id"@.len());
    assert("min"@.len() != "channel"@.len());
    assert("min"@.len() != "channelId"@.len());
    assert("min"@.len() != "channelNo"@.len());
    assert("min"@.len() != "value"@.len());
    assert("min"@.len() != "range"@.len());
    assert("min"@.len() != "code"@.len());
    assert("min"@[0] != "cmd"@[0]);
    assert("min"@.len() != "PtzCurPos"@.len());
    assert("min"@.len() != "ZoomFocus"@.len());
    assert("min"@.len() != "PtzPreset"@.len());
    assert("min"@.len() != "id"@.len());
    assert("min"@.len() != "enable"@.len());
    assert("max"@.len() != "channel"@.len());
    assert("max"@.len() != "channelId"@.len());
    assert("max"@.len() != "channelNo"@.len());
    assert("max"@.len() != "value"@.len());
    assert("max"@.len() != "range"@.len());
    assert("max"@.len() != "code"@.len());
    assert("max"@[0] != "cmd"@[0]);
    assert("max"@.len() != "PtzCurPos"@.len());
    assert("max"@.len() != "ZoomFocus"@.len());
    assert("max"@.len() != "PtzPreset"@.len());
    assert("max"@.len() != "id"@.len());
    assert("max"@.len() != "enable"@.len());
    assert("max"@[1] != "min"@[1]);
}


/// An object says nothing of a channel, or names the given one.
pub open spec fn is_of_channel(part: JsonTree, channel: u8) -> bool {
    ||| tree_get(part, "channel"@) is None && tree_get(part, "channelId"@) is None && tree_get(
        part,
        "channelNo"@,
    ) is None
    ||| tree_get(part, "channel"@) matches Some(raw) && is_count(raw, channel as int)
}

/// An object names another channel than the given one, and no other way.
pub open spec fn is_of_other_channel(part: JsonTree, channel: u8) -> bool {
    &&& tree_get(part, "channel"@) matches Some(raw) && exists|n: int|
        n != channel && is_count(raw, n)
    &&& tree_get(part, "channelId"@) is None
    &&& tree_get(part, "channelNo"@) is None
}

pub open spec fn is_pan_name(name: Seq<char>) -> bool {
    same_name(name, "Ppos"@) || same_name(name, "pan"@)
}

pub open spec fn is_tilt_name(name: Seq<char>) -> bool {
    same_name(name, "Tpos"@) || same_name(name, "tilt"@)
}

/// The only member with such a name is this one, and it is that integer.
pub open spec fn is_only(
    members: Seq<(Seq<char>, JsonTree)>,
    named: spec_fn(Seq<char>) -> bool,
    k: int,
    n: int,
) -> bool {
    &&& 0 <= k < members.len()
    &&& named(members[k].0)
    &&& is_integer(members[k].1, n)
    &&& forall|j: int| 0 <= j < members.len() && j != k ==> !named(#[trigger] members[j].0)
}

proof fn lemma_number_among(members: Seq<(Seq<char>, JsonTree)>, field: NumberField, k: int, n: i64)
    requires
        0 <= k < members.len(),
        number_named(field, members[k].0),
        is_integer(members[k].1, n as int),
        forall|j: int| 0 <= j < k ==> !number_named(field, #[trigger] members[j].0),
    ensures
        number_among(members, field) == Some(n),
    decreases k,
{
    if k > 0 {
        let rest = members.drop_first();
        assert(!number_named(field, members[0].0));
        assert forall|j: int| 0 <= j < k - 1 implies !number_named(field, #[trigger] rest[j].0) by {
            assert(rest[j] == members[j + 1]);
        }
        lemma_number_among(rest, field, k - 1, n);
    }
}

proof fn lemma_no_number(members: Seq<(Seq<char>, JsonTree)>, field: NumberField)
    requires
        forall|j: int| 0 <= j < members.len() ==> !number_named(field, #[trigger] members[j].0),
    ensures
        number_among(members, field) is None,
    decreases members.len(),
{
    if members.len() > 0 {
        let rest = members.drop_first();
        assert(!number_named(field, members[0].0));
        assert forall|j: int| 0 <= j < rest.len() implies !number_named(field, #[trigger] rest[j].0) by {
            assert(rest[j] == members[j + 1]);
        }
        lemma_no_number(rest, field);
    }
}

proof fn lemma_of_channel(part: JsonTree, channel: u8)
    requires
        is_of_channel(part, channel),
    ensures
        fits_channel(part, channel),
{
}

/// The pan and tilt counts of a position are those under their own names, whatever the other
/// members of the position say.
pub proof fn law_position_is_read(
    status: StatusModel,
    channel: u8,
    payload: JsonTree,
    members: Seq<(Seq<char>, JsonTree)>,
    pan: (int, i64),
    tilt: (int, i64),
)
    requires
        tree_get2(payload, "value"@, "PtzCurPos"@) == Some(JsonTree::Object(members)),
        is_of_channel(JsonTree::Object(members), channel),
        is_only(members, |name: Seq<char>| is_pan_name(name), pan.0, pan.1 as int),
        is_only(members, |name: Seq<char>| is_tilt_name(name), tilt.0, tilt.1 as int),
    ensures
        status.pan_position is None ==> with_position(status, channel, payload).pan_position
            == Some(pan.1),
        status.tilt_position is None ==> with_position(status, channel, payload).tilt_position
            == Some(tilt.1),
        with_position(status, channel, payload).channel == status.channel,
        with_position(status, channel, payload).zoom_position == status.zoom_position,
        with_position(status, channel, payload).focus_position == status.focus_position,
        with_position(status, channel, payload).enabled_presets == status.enabled_presets,
        with_position(status, channel, payload).calibration_state == status.calibration_state,
{
    let part = JsonTree::Object(members);
    lemma_names_differ();
    lemma_of_channel(part, channel);
    assert(lower("Ppos"@) =~= lower("pPos"@)) by {
        reveal_strlit("Ppos");
        reveal_strlit("pPos");
    }
    assert(lower("Tpos"@) =~= lower("tPos"@)) by {
        reveal_strlit("Tpos");
        reveal_strlit("tPos");
    }
    assert forall|j: int| 0 <= j < members.len() && j != pan.0 implies !number_named(
        NumberField::Pan,
        #[trigger] members[j].0,
    ) by {
        assert(!is_pan_name(members[j].0));
    }
    assert forall|j: int| 0 <= j < members.len() && j != tilt.0 implies !number_named(
        NumberField::Tilt,
        #[trigger] members[j].0,
    ) by {
        assert(!is_tilt_name(members[j].0));
    }
    lemma_number_among(members, NumberField::Pan, pan.0, pan.1);
    lemma_number_among(members, NumberField::Tilt, tilt.0, tilt.1);
    lemma_asked_first(NumberOf { field: NumberField::Pan, channel: Some(channel) }, part);
    lemma_asked_first(NumberOf { field: NumberField::Tilt, channel: Some(channel) }, part);
}

/// The camera that is asked for its position answers with the counts, and those are its
/// position.
pub proof fn law_position_is_what_the_camera_says(
    channel: u8,
    raw_json: Seq<char>,
    entry: JsonTree,
    members: Seq<(Seq<char>, JsonTree)>,
    pan: (int, i64),
    tilt: (int, i64),
)
    requires
        is_answer(raw_json, "GetPtzCurPos"@, entry),
        is_accepted(entry),
        tree_get2(entry, "value"@, "PtzCurPos"@) == Some(JsonTree::Object(members)),
        is_of_channel(JsonTree::Object(members), channel),
        is_only(members, |name: Seq<char>| is_pan_name(name), pan.0, pan.1 as int),
        is_only(members, |name: Seq<char>| is_tilt_name(name), tilt.0, tilt.1 as int),
    ensures
        position_step(
            channel,
            seq![Ok(ResponseModel { command: CgiCommand::GetPtzCurPos, raw_json })],
        ) matches StepModel::Done(Ok(status)) && status.channel == channel && status.pan_position
            == Some(pan.1) && status.tilt_position == Some(tilt.1),
{
    lemma_answer(entry, CgiCommand::GetPtzCurPos);
    let reply = Ok::<ResponseModel, ErrorModel>(
        ResponseModel { command: CgiCommand::GetPtzCurPos, raw_json },
    );
    assert(seq![reply][0] == reply);
    law_position_is_read(blank_status(channel), channel, entry, members, pan, tilt);
}

/// A request for the position says so, and for which channel.
pub proof fn law_position_is_asked_for(channel: u8)
    ensures
        position_step(channel, Seq::empty()) matches StepModel::Send(request) && request.command
            == CgiCommand::GetPtzCurPos && request.action == 0 && exists|payload: JsonTree|
            request.params.payload == Some(#[trigger] display_of_json(payload)) && (tree_get2(
                payload,
                "PtzCurPos"@,
                "channel"@,
            ) matches Some(raw) && is_count(raw, channel as int)),
{
    let inner = crate::json::tree_with(
        crate::json::empty_tree(),
        "channel"@,
        crate::json::unsigned_tree(channel as u64),
    );
    let payload = crate::json::tree_with(crate::json::empty_tree(), "PtzCurPos"@, inner);
    law_members_are_found(
        crate::json::empty_tree(),
        "channel"@,
        crate::json::unsigned_tree(channel as u64),
        "channel"@,
    );
    law_members_are_found(crate::json::empty_tree(), "PtzCurPos"@, inner, "channel"@);
    let request = position_step(channel, Seq::empty())->Send_0;
    assert(request.params.payload == Some(display_of_json(payload)));
}

// ---------------------------------------------------------------- ranges

/// A range with `min` and `max` is read as it stands: the one is not taken for the other.
pub proof fn law_bounds_are_read(tree: JsonTree, min: i64, max: i64)
    requires
        tree_get(tree, "min"@) matches Some(raw) && is_integer(raw, min as int),
        tree_get(tree, "max"@) matches Some(raw) && is_integer(raw, max as int),
    ensures
        range_of(tree) == Some(NumericRange { min, max }),
{
    assert(tree is Object);
    assert(bounds_at(tree) == Some(NumericRange { min, max }));
}

/// A list of two integers is a range from the first to the second.
pub proof fn law_lists_are_ranges(items: Seq<JsonTree>, min: i64, max: i64)
    requires
        items.len() >= 2,
        is_integer(items[0], min as int),
        is_integer(items[1], max as int),
    ensures
        range_of(JsonTree::Array(items)) == Some(NumericRange { min, max }),
{
}

/// A value describes a range by `min` and `max`, itself or under `pos`.
pub open spec fn describes(tree: JsonTree, range: NumericRange) -> bool {
    ||| {
        &&& tree_get(tree, "min"@) matches Some(raw) && is_integer(raw, range.min as int)
        &&& tree_get(tree, "max"@) matches Some(raw) && is_integer(raw, range.max as int)
    }
    ||| {
        &&& tree_get(tree, "min"@) is None
        &&& tree_get2(tree, "pos"@, "min"@) matches Some(raw) && is_integer(raw, range.min as int)
        &&& tree_get2(tree, "pos"@, "max"@) matches Some(raw) && is_integer(raw, range.max as int)
    }
}

proof fn lemma_range_under(members: Seq<(Seq<char>, JsonTree)>, name: Seq<char>, value: JsonTree)
    requires
        crate::json::member_named(members, name) == Some(value),
    ensures
        crate::reolink::ptz::range_under(members, name) == range_of(value),
    decreases members.len(),
{
    if members[0].0 != name {
        lemma_range_under(members.drop_first(), name, value);
    }
}

proof fn lemma_described(tree: JsonTree, range: NumericRange)
    requires
        describes(tree, range),
    ensures
        range_of(tree) == Some(range),
{
    if tree_get(tree, "min"@) is Some {
        law_bounds_are_read(tree, range.min, range.max);
    } else {
        let inner = tree_get(tree, "pos"@)->0;
        law_bounds_are_read(inner, range.min, range.max);
        lemma_range_under(tree->Object_0, "pos"@, inner);
    }
}

proof fn lemma_range_among(
    members: Seq<(Seq<char>, JsonTree)>,
    field: RangeField,
    k: int,
    range: NumericRange,
)
    requires
        0 <= k < members.len(),
        range_named(field, members[k].0),
        range_of(members[k].1) == Some(range),
        forall|j: int| 0 <= j < k ==> !range_named(field, #[trigger] members[j].0),
    ensures
        range_among(members, field) == Some(range),
    decreases k,
{
    if k > 0 {
        let rest = members.drop_first();
        assert(!range_named(field, members[0].0));
        assert forall|j: int| 0 <= j < k - 1 implies !range_named(field, #[trigger] rest[j].0) by {
            assert(rest[j] == members[j + 1]);
        }
        lemma_range_among(rest, field, k - 1, range);
    }
}

/// The only member with such a name is this one, and it describes that range.
pub open spec fn is_only_range(
    members: Seq<(Seq<char>, JsonTree)>,
    named: spec_fn(Seq<char>) -> bool,
    k: int,
    range: NumericRange,
) -> bool {
    &&& 0 <= k < members.len()
    &&& named(members[k].0)
    &&& describes(members[k].1, range)
    &&& forall|j: int| 0 <= j < members.len() && j != k ==> !named(#[trigger] members[j].0)
}

proof fn lemma_range_is_found(
    members: Seq<(Seq<char>, JsonTree)>,
    field: RangeField,
    named: spec_fn(Seq<char>) -> bool,
    k: int,
    range: NumericRange,
)
    requires
        is_only_range(members, named, k, range),
        forall|name: Seq<char>| #[trigger] named(name) <==> range_named(field, name),
    ensures
        range_by_keys(JsonTree::Object(members), field) == Some(range),
{
    lemma_described(members[k].1, range);
    assert(named(members[k].0));
    assert forall|j: int| 0 <= j < k implies !range_named(field, #[trigger] members[j].0) by {
        assert(!named(members[j].0));
    }
    lemma_range_among(members, field, k, range);
    lemma_asked_first(field, JsonTree::Object(members));
}

/// The ranges of pan and tilt are those under their own names.
pub proof fn law_position_ranges_are_read(
    status: StatusModel,
    channel: u8,
    payload: JsonTree,
    members: Seq<(Seq<char>, JsonTree)>,
    pan: (int, NumericRange),
    tilt: (int, NumericRange),
)
    requires
        tree_get(payload, "range"@) == Some(JsonTree::Object(members)),
        is_only_range(members, |name: Seq<char>| is_pan_name(name), pan.0, pan.1),
        is_only_range(members, |name: Seq<char>| is_tilt_name(name), tilt.0, tilt.1),
    ensures
        status.pan_range is None ==> with_position(status, channel, payload).pan_range == Some(
            pan.1,
        ),
        status.tilt_range is None ==> with_position(status, channel, payload).tilt_range == Some(
            tilt.1,
        ),
{
    assert(lower("Ppos"@) =~= lower("pPos"@)) by {
        reveal_strlit("Ppos");
        reveal_strlit("pPos");
    }
    assert(lower("Tpos"@) =~= lower("tPos"@)) by {
        reveal_strlit("Tpos");
        reveal_strlit("tPos");
    }
    lemma_range_is_found(
        members,
        RangeField::Pan,
        |name: Seq<char>| is_pan_name(name),
        pan.0,
        pan.1,
    );
    lemma_range_is_found(
        members,
        RangeField::Tilt,
        |name: Seq<char>| is_tilt_name(name),
        tilt.0,
        tilt.1,
    );
}

/// The range of the zoom is that of the zoom section, whatever the focus section says, and
/// the range of the focus is that of the focus section. Where a payload has the part
/// `ZoomFocus`, the sections stand there.
pub proof fn law_zoom_and_focus_ranges_are_their_own(
    status: StatusModel,
    channel: u8,
    payload: JsonTree,
    members: Seq<(Seq<char>, JsonTree)>,
    zoom: (int, NumericRange),
    focus: (int, NumericRange),
)
    requires
        tree_get2(payload, "range"@, "ZoomFocus"@) == Some(JsonTree::Object(members)) || (tree_get(
            payload,
            "range"@,
        ) == Some(JsonTree::Object(members)) && tree_get2(payload, "range"@, "ZoomFocus"@) is None),
    ensures
        status.zoom_range is None && is_only_range(
            members,
            |name: Seq<char>| same_name(name, "zoom"@),
            zoom.0,
            zoom.1,
        ) ==> with_zoom_focus(status, channel, payload).zoom_range == Some(zoom.1),
        status.focus_range is None && is_only_range(
            members,
            |name: Seq<char>| same_name(name, "focus"@),
            focus.0,
            focus.1,
        ) ==> with_zoom_focus(status, channel, payload).focus_range == Some(focus.1),
{
    let is_zoom = |name: Seq<char>| same_name(name, "zoom"@);
    let is_focus = |name: Seq<char>| same_name(name, "focus"@);
    if is_only_range(members, is_zoom, zoom.0, zoom.1) {
        lemma_range_is_found(members, RangeField::ZoomSection, is_zoom, zoom.0, zoom.1);
    }
    if is_only_range(members, is_focus, focus.0, focus.1) {
        lemma_range_is_found(members, RangeField::FocusSection, is_focus, focus.0, focus.1);
    }
}

// ---------------------------------------------------------------- zoom and focus

proof fn lemma_section_among(
    members: Seq<(Seq<char>, JsonTree)>,
    channel: u8,
    field: NumberField,
    k: int,
    n: i64,
)
    requires
        0 <= k < members.len(),
        section_named(field, members[k].0),
        number_by_keys(members[k].1, Some(channel), field) == Some(n),
        forall|j: int| 0 <= j < k ==> !section_named(field, #[trigger] members[j].0),
    ensures
        section_among(members, channel, field) == Some(n),
    decreases k,
{
    if k > 0 {
        let rest = members.drop_first();
        assert(!section_named(field, members[0].0));
        assert forall|j: int| 0 <= j < k - 1 implies !section_named(field, #[trigger] rest[j].0) by {
            assert(rest[j] == members[j + 1]);
        }
        lemma_section_among(rest, channel, field, k - 1, n);
    }
}

/// The only section with that name holds one position, which is that integer.
pub open spec fn is_only_section(
    members: Seq<(Seq<char>, JsonTree)>,
    word: Seq<char>,
    channel: u8,
    k: int,
    n: int,
) -> bool {
    &&& 0 <= k < members.len()
    &&& same_name(members[k].0, word)
    &&& members[k].1 matches JsonTree::Object(inner) && is_of_channel(members[k].1, channel)
        && inner.len() == 1 && same_name(inner[0].0, "pos"@) && is_integer(inner[0].1, n)
    &&& forall|j: int| 0 <= j < members.len() && j != k ==> !same_name(#[trigger] members[j].0, word)
}

proof fn lemma_section_is_found(
    members: Seq<(Seq<char>, JsonTree)>,
    channel: u8,
    field: NumberField,
    word: Seq<char>,
    k: int,
    n: i64,
)
    requires
        is_only_section(members, word, channel, k, n as int),
        forall|name: Seq<char>| #[trigger] section_named(field, name) <==> same_name(name, word),
        forall|name: Seq<char>| same_name(name, "pos"@) ==> #[trigger] number_named(field, name),
    ensures
        number_in_section(JsonTree::Object(members), channel, field) == Some(n),
{
    let inner = members[k].1->Object_0;
    lemma_of_channel(members[k].1, channel);
    assert(number_named(field, inner[0].0));
    lemma_number_among(inner, field, 0, n);
    lemma_asked_first(NumberOf { field, channel: Some(channel) }, members[k].1);
    assert(section_named(field, members[k].0));
    assert forall|j: int| 0 <= j < k implies !section_named(field, #[trigger] members[j].0) by {
        assert(!same_name(members[j].0, word));
    }
    lemma_section_among(members, channel, field, k, n);
    lemma_asked_first(SectionOf { field, channel }, JsonTree::Object(members));
}

/// The zoom is that of the zoom section, and the focus that of the focus section.
pub proof fn law_zoom_and_focus_are_their_own(
    status: StatusModel,
    channel: u8,
    payload: JsonTree,
    members: Seq<(Seq<char>, JsonTree)>,
    zoom: (int, i64),
    focus: (int, i64),
)
    requires
        tree_get2(payload, "value"@, "ZoomFocus"@) == Some(JsonTree::Object(members)),
    ensures
        status.zoom_position is None && is_only_section(
            members,
            "zoom"@,
            channel,
            zoom.0,
            zoom.1 as int,
        ) ==> with_zoom_focus(status, channel, payload).zoom_position == Some(zoom.1),
        status.focus_position is None && is_only_section(
            members,
            "focus"@,
            channel,
            focus.0,
            focus.1 as int,
        ) ==> with_zoom_focus(status, channel, payload).focus_position == Some(focus.1),
        with_zoom_focus(status, channel, payload).pan_position == status.pan_position,
        with_zoom_focus(status, channel, payload).tilt_position == status.tilt_position,
        with_zoom_focus(status, channel, payload).channel == status.channel,
{
    if is_only_section(members, "zoom"@, channel, zoom.0, zoom.1 as int) {
        lemma_section_is_found(
            members,
            channel,
            NumberField::ZoomSection,
            "zoom"@,
            zoom.0,
            zoom.1,
        );
    }
    if is_only_section(members, "focus"@, channel, focus.0, focus.1 as int) {
        lemma_section_is_found(
            members,
            channel,
            NumberField::FocusSection,
            "focus"@,
            focus.0,
            focus.1,
        );
    }
}

// ---------------------------------------------------------------- calibration and presets

/// The calibration state is the number under `PtzCheckState`, and 2 of it means calibrated.
pub proof fn law_check_state_is_read(status: StatusModel, payload: JsonTree, members: Seq<(Seq<char>, JsonTree)>, k: int, n: i64)
    requires
        tree_get(payload, "value"@) == Some(JsonTree::Object(members)),
        is_only(members, |name: Seq<char>| same_name(name, "PtzCheckState"@), k, n as int),
        status.calibration_state is None,
    ensures
        with_check_state(status, payload).calibration_state == Some(n),
        crate::model::calibrated_state(with_check_state(status, payload)) == Some(n == 2),
{
    let named = |name: Seq<char>| same_name(name, "PtzCheckState"@);
    assert(named(members[k].0));
    assert forall|j: int| 0 <= j < members.len() && j != k implies !number_named(
        NumberField::CheckState,
        #[trigger] members[j].0,
    ) by {
        assert(!named(members[j].0));
    }
    lemma_number_among(members, NumberField::CheckState, k, n);
    lemma_asked_first(
        NumberOf { field: NumberField::CheckState, channel: None },
        JsonTree::Object(members),
    );
}

/// Of a list of stored positions, those are kept that are enabled, and no others: each by its
/// own number, and only those of the channel.
pub proof fn law_enabled_presets_are_listed(items: Seq<JsonTree>, channel: u8, id: u8)
    requires
        forall|i: int| 0 <= i < items.len() ==> is_stored_position(#[trigger] items[i]),
    ensures
        preset_ids(JsonTree::Array(items), channel, 256).contains(id) <==> exists|i: int|
            0 <= i < items.len() && is_enabled_position(#[trigger] items[i], channel, id),
{
    crate::reolink::ptz::law_presets_ascend(JsonTree::Array(items), channel, 256);
    assert(preset_ids(JsonTree::Array(items), channel, 256).contains(id)
        <==> crate::reolink::ptz::lists_preset(JsonTree::Array(items), channel, id as int));
    lemma_items_list(items, channel, id);
}

/// An object with a number, a flag and maybe a channel and a name, all of them plain values.
pub open spec fn is_stored_position(item: JsonTree) -> bool {
    &&& item matches JsonTree::Object(members) && forall|i: int|
        0 <= i < members.len() ==> crate::laws::answers::is_plain_value(#[trigger] members[i].1)
    &&& tree_get(item, "id"@) matches Some(raw) && raw is Number
    &&& tree_get(item, "enable"@) matches Some(raw) && (raw is Number || raw is Bool)
    &&& tree_get(item, "channel"@) matches Some(raw) ==> raw is Number
    &&& tree_get(item, "channelId"@) is None
    &&& tree_get(item, "channelNo"@) is None
}

/// A stored position is enabled, has that number, and is of that channel or of none.
pub open spec fn is_enabled_position(item: JsonTree, channel: u8, id: u8) -> bool {
    &&& tree_get(item, "id"@) matches Some(raw) && is_count(raw, id as int)
    &&& tree_get(item, "enable"@) matches Some(raw) && (raw == JsonTree::Bool(true) || exists|n: int|
        n > 0 && is_integer(raw, n))
    &&& tree_get(item, "channel"@) matches Some(raw) ==> is_count(raw, channel as int)
}

pub proof fn lemma_position_lists(item: JsonTree, channel: u8, id: u8)
    requires
        is_stored_position(item),
    ensures
        crate::reolink::ptz::lists_preset(item, channel, id as int) <==> is_enabled_position(
            item,
            channel,
            id,
        ),
{
    let members = item->Object_0;
    lemma_plain_members_list_nothing(members, channel, id);
    let enable = tree_get(item, "enable"@)->0;
    if let JsonTree::Number { signed: Some(m), .. } = enable {
        assert(is_integer(enable, m as int));
    }
}

proof fn lemma_plain_members_list_nothing(members: Seq<(Seq<char>, JsonTree)>, channel: u8, id: u8)
    requires
        forall|i: int|
            0 <= i < members.len() ==> crate::laws::answers::is_plain_value(#[trigger] members[i].1),
    ensures
        !crate::reolink::ptz::members_list_preset(members, channel, id as int),
    decreases members.len(),
{
    if members.len() > 0 {
        let rest = members.drop_first();
        assert(crate::laws::answers::is_plain_value(members[0].1));
        assert(!crate::reolink::ptz::lists_preset(members[0].1, channel, id as int));
        assert forall|i: int| 0 <= i < rest.len() implies crate::laws::answers::is_plain_value(
            #[trigger] rest[i].1,
        ) by {
            assert(rest[i] == members[i + 1]);
        }
        lemma_plain_members_list_nothing(rest, channel, id);
    }
}

pub proof fn lemma_items_list(items: Seq<JsonTree>, channel: u8, id: u8)
    requires
        forall|i: int| 0 <= i < items.len() ==> is_stored_position(#[trigger] items[i]),
    ensures
        crate::reolink::ptz::items_list_preset(items, channel, id as int) <==> exists|i: int|
            0 <= i < items.len() && is_enabled_position(#[trigger] items[i], channel, id),
    decreases items.len(),
{
    if items.len() > 0 {
        let rest = items.drop_first();
        assert(is_stored_position(items[0]));
        lemma_position_lists(items[0], channel, id);
        assert forall|i: int| 0 <= i < rest.len() implies is_stored_position(#[trigger] rest[i]) by {
            assert(rest[i] == items[i + 1]);
        }
        lemma_items_list(rest, channel, id);
        if exists|i: int| 0 <= i < rest.len() && is_enabled_position(#[trigger] rest[i], channel, id) {
            let i = choose|i: int|
                0 <= i < rest.len() && is_enabled_position(#[trigger] rest[i], channel, id);
            assert(items[i + 1] == rest[i]);
        }
        if exists|i: int| 0 <= i < items.len() && is_enabled_position(#[trigger] items[i], channel, id) {
            let i = choose|i: int|
                0 <= i < items.len() && is_enabled_position(#[trigger] items[i], channel, id);
            if i > 0 {
                assert(rest[i - 1] == items[i]);
            }
        }
    }
}

// ---------------------------------------------------------------- without sections

/// Where there are no sections, the zoom and the focus are the numbers under their own names.
pub proof fn law_zoom_and_focus_without_sections(
    status: StatusModel,
    channel: u8,
    payload: JsonTree,
    members: Seq<(Seq<char>, JsonTree)>,
    zoom: (int, i64),
    focus: (int, i64),
)
    requires
        tree_get2(payload, "value"@, "ZoomFocus"@) == Some(JsonTree::Object(members)),
        is_of_channel(JsonTree::Object(members), channel),
        forall|i: int|
            0 <= i < members.len() ==> crate::laws::answers::is_plain_value(#[trigger] members[i].1),
        forall|i: int|
            0 <= i < members.len() ==> !same_name(#[trigger] members[i].0, "zoom"@) && !same_name(
                members[i].0,
                "focus"@,
            ),
        is_only(
            members,
            |name: Seq<char>| same_name(name, "zoomPos"@) || same_name(name, "Zpos"@),
            zoom.0,
            zoom.1 as int,
        ),
        is_only(members, |name: Seq<char>| same_name(name, "focusPos"@), focus.0, focus.1 as int),
    ensures
        status.zoom_position is None ==> with_zoom_focus(status, channel, payload).zoom_position
            == Some(zoom.1),
        status.focus_position is None ==> with_zoom_focus(status, channel, payload).focus_position
            == Some(focus.1),
{
    let part = JsonTree::Object(members);
    let is_zoom = |name: Seq<char>| same_name(name, "zoomPos"@) || same_name(name, "Zpos"@);
    let is_focus = |name: Seq<char>| same_name(name, "focusPos"@);
    lemma_of_channel(part, channel);
    lemma_no_section(members, channel, NumberField::ZoomSection);
    lemma_no_section(members, channel, NumberField::FocusSection);
    crate::laws::answers::lemma_asked_in_vain(
        SectionOf { field: NumberField::ZoomSection, channel },
        members,
    );
    crate::laws::answers::lemma_asked_in_vain(
        SectionOf { field: NumberField::FocusSection, channel },
        members,
    );
    assert(is_zoom(members[zoom.0].0) && is_focus(members[focus.0].0));
    assert forall|j: int| 0 <= j < members.len() && j != zoom.0 implies !number_named(
        NumberField::Zoom,
        #[trigger] members[j].0,
    ) by {
        assert(!is_zoom(members[j].0));
    }
    assert forall|j: int| 0 <= j < members.len() && j != focus.0 implies !number_named(
        NumberField::Focus,
        #[trigger] members[j].0,
    ) by {
        assert(!is_focus(members[j].0));
    }
    lemma_number_among(members, NumberField::Zoom, zoom.0, zoom.1);
    lemma_number_among(members, NumberField::Focus, focus.0, focus.1);
    lemma_asked_first(NumberOf { field: NumberField::Zoom, channel: Some(channel) }, part);
    lemma_asked_first(NumberOf { field: NumberField::Focus, channel: Some(channel) }, part);
}

proof fn lemma_no_section(members: Seq<(Seq<char>, JsonTree)>, channel: u8, field: NumberField)
    requires
        forall|i: int| 0 <= i < members.len() ==> !section_named(field, #[trigger] members[i].0),
    ensures
        section_among(members, channel, field) is None,
    decreases members.len(),
{
    if members.len() > 0 {
        let rest = members.drop_first();
        assert(!section_named(field, members[0].0));
        assert forall|i: int| 0 <= i < rest.len() implies !section_named(field, #[trigger] rest[i].0) by {
            assert(rest[i] == members[i + 1]);
        }
        lemma_no_section(rest, channel, field);
    }
}

/// The same of their ranges.
pub proof fn law_zoom_and_focus_ranges_without_sections(
    status: StatusModel,
    channel: u8,
    payload: JsonTree,
    members: Seq<(Seq<char>, JsonTree)>,
    zoom: (int, NumericRange),
    focus: (int, NumericRange),
)
    requires
        tree_get2(payload, "range"@, "ZoomFocus"@) == Some(JsonTree::Object(members)),
        range_by_keys(JsonTree::Object(members), RangeField::ZoomSection) is None,
        range_by_keys(JsonTree::Object(members), RangeField::FocusSection) is None,
        is_only_range(
            members,
            |name: Seq<char>| same_name(name, "zoomPos"@) || same_name(name, "Zpos"@),
            zoom.0,
            zoom.1,
        ),
        is_only_range(members, |name: Seq<char>| same_name(name, "focusPos"@), focus.0, focus.1),
    ensures
        status.zoom_range is None ==> with_zoom_focus(status, channel, payload).zoom_range == Some(
            zoom.1,
        ),
        status.focus_range is None ==> with_zoom_focus(status, channel, payload).focus_range
            == Some(focus.1),
{
    let is_zoom = |name: Seq<char>| same_name(name, "zoomPos"@) || same_name(name, "Zpos"@);
    let is_focus = |name: Seq<char>| same_name(name, "focusPos"@);
    lemma_range_is_found(members, RangeField::Zoom, is_zoom, zoom.0, zoom.1);
    lemma_range_is_found(members, RangeField::Focus, is_focus, focus.0, focus.1);
}

/// What is known of a status stays, whatever an answer says.
pub proof fn law_what_is_known_stays(status: StatusModel, channel: u8, payload: JsonTree)
    ensures
        status.pan_position is Some ==> with_position(status, channel, payload).pan_position
            == status.pan_position,
        status.tilt_position is Some ==> with_position(status, channel, payload).tilt_position
            == status.tilt_position,
        status.pan_range is Some ==> with_position(status, channel, payload).pan_range
            == status.pan_range,
        status.tilt_range is Some ==> with_position(status, channel, payload).tilt_range
            == status.tilt_range,
        status.zoom_position is Some ==> with_zoom_focus(status, channel, payload).zoom_position
            == status.zoom_position,
        status.focus_position is Some ==> with_zoom_focus(status, channel, payload).focus_position
            == status.focus_position,
        status.zoom_range is Some ==> with_zoom_focus(status, channel, payload).zoom_range
            == status.zoom_range,
        status.focus_range is Some ==> with_zoom_focus(status, channel, payload).focus_range
            == status.focus_range,
        status.calibration_state is Some ==> with_check_state(status, payload) == status,
{
}

} // verus!
