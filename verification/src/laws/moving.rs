//! Requests that move the camera, and what they say.
use crate::command::CgiCommand;
use crate::error::ErrorModel;
use crate::json::{
    display_of_json, empty_tree, tree_get, tree_with, unsigned_tree, JsonTree,
};
use crate::laws::answers::{is_answer, is_count, is_integer, law_members_are_found, lemma_answer};
use crate::model::{direction_named, direction_op, PtzDirection};
use crate::command::ResponseModel;
use crate::reolink::ptz::{
    control_result, goto_step, move_step, operation_tree, stop_step, MoveModel,
};
use vstd::prelude::*;

verus! {

/// The names of the members differ.
proof fn lemma_keys_differ()
    ensures
        "op"@ != "channel"@,
        "speed"@ != "channel"@,
        "speed"@ != "op"@,
        "id"@ != "channel"@,
        "id"@ != "op"@,
        "id"@ != "speed"@,
{
    reveal_strlit("channel");
    reveal_strlit("op");
    reveal_strlit("speed");
    reveal_strlit("id");
    assert("op"@.len() != "channel"@.len());
    assert("speed"@.len() != "channel"@.len());
    assert("speed"@.len() != "op"@.len());
    assert("id"@.len() != "channel"@.len());
    assert("id"@[0] != "op"@[0]);
    assert("id"@.len() != "speed"@.len());
}


/// A request of the camera carries the text of this object.
pub open spec fn carries(step: MoveModel, delay_ms: u64, payload: JsonTree) -> bool {
    step matches MoveModel::Send { delay_ms: delay, request } && delay == delay_ms
        && request.command == CgiCommand::PtzCtrl && request.action == 0
        && request.params.payload == Some(display_of_json(payload)) && request.params.channel is None
        && request.params.user_name is None
}

/// The object names the operation and the channel.
pub open spec fn asks_for(payload: JsonTree, channel: u8, op: Seq<char>) -> bool {
    &&& tree_get(payload, "channel"@) matches Some(raw) && is_count(raw, channel as int)
    &&& tree_get(payload, "op"@) == Some(JsonTree::Text(op))
}

/// What each direction is called.
pub open spec fn is_called(direction: PtzDirection, op: Seq<char>) -> bool {
    match direction {
        PtzDirection::Left => op == "Left"@,
        PtzDirection::Right => op == "Right"@,
        PtzDirection::Up => op == "Up"@,
        PtzDirection::Down => op == "Down"@,
        PtzDirection::LeftUp => op == "LeftUp"@,
        PtzDirection::LeftDown => op == "LeftDown"@,
        PtzDirection::RightUp => op == "RightUp"@,
        PtzDirection::RightDown => op == "RightDown"@,
    }
}

proof fn lemma_operation(channel: u8, op: Seq<char>)
    ensures
        asks_for(operation_tree(channel, op), channel, op),
        operation_tree(channel, op) is Object,
{
    lemma_keys_differ();
    let number = unsigned_tree(channel as u64);
    let first = tree_with(empty_tree(), "channel"@, number);
    law_members_are_found(empty_tree(), "channel"@, number, "op"@);
    law_members_are_found(first, "op"@, JsonTree::Text(op), "channel"@);
}

proof fn lemma_operation_with(channel: u8, op: Seq<char>, name: Seq<char>, value: u64)
    requires
        name != "channel"@,
        name != "op"@,
    ensures
        asks_for(tree_with(operation_tree(channel, op), name, unsigned_tree(value)), channel, op),
        tree_get(tree_with(operation_tree(channel, op), name, unsigned_tree(value)), name)
            matches Some(raw) && is_count(raw, value as int),
{
    lemma_operation(channel, op);
    let object = operation_tree(channel, op);
    law_members_are_found(object, name, unsigned_tree(value), "channel"@);
    law_members_are_found(object, name, unsigned_tree(value), "op"@);
}

/// The request that starts a movement names the direction that was asked for: its operation,
/// read as a direction, gives that direction back, and its channel and its speed are those
/// that were given.
pub proof fn law_movement_goes_where_it_was_asked_to(
    channel: u8,
    direction: PtzDirection,
    speed: u8,
    duration_ms: Option<u64>,
)
    requires
        1 <= speed <= 64,
    ensures
        exists|payload: JsonTree, op: Seq<char>|
            {
                &&& #[trigger] carries(
                    move_step(channel, direction, speed, duration_ms, Seq::empty()),
                    0,
                    payload,
                )
                &&& #[trigger] asks_for(payload, channel, op)
                &&& direction_named(op) == Some(direction)
                &&& is_called(direction, op)
                &&& tree_get(payload, "speed"@) matches Some(raw) && is_count(raw, speed as int)
            },
{
    lemma_keys_differ();
    let op = direction_op(direction);
    let payload = tree_with(operation_tree(channel, op), "speed"@, unsigned_tree(speed as u64));
    lemma_operation_with(channel, op, "speed"@, speed as u64);
    crate::model::law_direction_reads_back(direction);
    assert(carries(move_step(channel, direction, speed, duration_ms, Seq::empty()), 0, payload));
    assert(asks_for(payload, channel, op));
}

/// A speed that the camera does not have is refused, and nothing is sent.
pub proof fn law_other_speeds_are_refused(
    channel: u8,
    direction: PtzDirection,
    speed: u8,
    duration_ms: Option<u64>,
    replies: Seq<Result<ResponseModel, ErrorModel>>,
)
    ensures
        speed == 0 || speed > 64 ==> (move_step(channel, direction, speed, duration_ms, replies)
            matches MoveModel::Done(Err(error)) && error.kind
            == crate::error::ErrorKind::InvalidInput),
        replies.len() == 0 && 1 <= speed <= 64 ==> move_step(
            channel,
            direction,
            speed,
            duration_ms,
            replies,
        ) is Send,
{
}

/// The request that stops the camera says so, and to which channel; it is sent at once where
/// it was asked for, and after its duration where it ends a movement.
pub proof fn law_stop_says_stop(
    channel: u8,
    direction: PtzDirection,
    speed: u8,
    duration_ms: u64,
    reply: Result<ResponseModel, ErrorModel>,
)
    ensures
        exists|payload: JsonTree| #[trigger]
            carries(stop_step(channel, Seq::empty()), 0, payload) && asks_for(
                payload,
                channel,
                "Stop"@,
            ),
        1 <= speed <= 64 && control_result(reply) is Ok ==> exists|payload: JsonTree| #[trigger]
            carries(
                move_step(channel, direction, speed, Some(duration_ms), seq![reply]),
                duration_ms,
                payload,
            ) && asks_for(payload, channel, "Stop"@),
{
    let payload = operation_tree(channel, "Stop"@);
    lemma_operation(channel, "Stop"@);
    assert(carries(stop_step(channel, Seq::empty()), 0, payload));
    if 1 <= speed <= 64 && control_result(reply) is Ok {
        assert(seq![reply][0] == reply);
        assert(carries(
            move_step(channel, direction, speed, Some(duration_ms), seq![reply]),
            duration_ms,
            payload,
        ));
    }
}

/// A movement without a duration is over once the camera has taken it, and one with a
/// duration once the camera has taken the stop.
pub proof fn law_movements_end(
    channel: u8,
    direction: PtzDirection,
    speed: u8,
    duration_ms: u64,
    started: Result<ResponseModel, ErrorModel>,
    stopped: Result<ResponseModel, ErrorModel>,
)
    requires
        1 <= speed <= 64,
    ensures
        move_step(channel, direction, speed, None, seq![started]) == MoveModel::Done(
            control_result(started),
        ),
        control_result(started) is Ok ==> move_step(
            channel,
            direction,
            speed,
            Some(duration_ms),
            seq![started, stopped],
        ) == MoveModel::Done(control_result(stopped)),
        control_result(started) is Err ==> move_step(
            channel,
            direction,
            speed,
            Some(duration_ms),
            seq![started],
        ) == MoveModel::Done(control_result(started)),
{
    assert(seq![started][0] == started);
    assert(seq![started, stopped][0] == started);
    assert(seq![started, stopped][1] == stopped);
}

/// The request that moves to a stored position names its number.
pub proof fn law_stored_position_is_named(channel: u8, preset_id: u8)
    requires
        preset_id > 0,
    ensures
        exists|payload: JsonTree|
            {
                &&& #[trigger] carries(goto_step(channel, preset_id, Seq::empty()), 0, payload)
                &&& asks_for(payload, channel, "ToPos"@)
                &&& tree_get(payload, "id"@) matches Some(raw) && is_count(raw, preset_id as int)
            },
{
    lemma_keys_differ();
    let payload = tree_with(
        operation_tree(channel, "ToPos"@),
        "id"@,
        unsigned_tree(preset_id as u64),
    );
    lemma_operation_with(channel, "ToPos"@, "id"@, preset_id as u64);
    assert(carries(goto_step(channel, preset_id, Seq::empty()), 0, payload));
}

/// An answer whose code is zero is a success; any other code is not, nor is an answer without
/// one.
pub proof fn law_codes_decide(raw_json: Seq<char>, entry: JsonTree, command: CgiCommand, code: i64)
    requires
        is_answer(raw_json, "PtzCtrl"@, entry),
    ensures
        tree_get(entry, "code"@) is None ==> control_result(
            Ok(ResponseModel { command, raw_json }),
        ) is Err,
        (tree_get(entry, "code"@) matches Some(raw) && is_integer(raw, code as int)) ==> ((code == 0)
            <==> control_result(Ok(ResponseModel { command, raw_json })) is Ok),
{
    lemma_answer(entry, CgiCommand::PtzCtrl);
}

} // verus!
