//! Where the camera looks, its stored positions, and how it is moved.
use crate::command::{
    channel_params, payload_params, request_model, CgiCommand, CommandRequest, RequestModel,
    ResponseModel,
};
use crate::error::{error_model, result_model, AppError, AppResult, ErrorKind, ErrorModel};
use crate::exchange::{reply_models, reply_text, step_model, CgiReply, Step, StepModel};
use crate::json::{
    command_payload, display_of_json, display_value, empty_object, empty_tree, find_command_payload,
    is_same_name, item_trees, lemma_item_trees, lemma_member_trees, member_trees, option_model,
    or_tree, parse_response_json, payload_or_all, payload_or_whole, response_tree, same_name,
    search, search_tree, tree_enabled, tree_get, tree_get2, tree_int, tree_u8, tree_with,
    unsigned_tree, value_from_text, value_from_u64, with_member, Json, JsonTree, Probe,
};
use crate::model::{
    blank_status, direction_op, NumericRange, PresetId, PtzDirection, PtzPreset, PtzSpeed,
    PtzStatus, StatusModel,
};
use crate::reolink::client::filled_text;
use crate::reolink::network::{code_error, ensure_code_ok};
use crate::text::{dec, dec_u64, is_blank, join2, same_text};
use vstd::prelude::*;

verus! {

// ---------------------------------------------------------------- channels

pub open spec fn has_member(tree: JsonTree, name: Seq<char>) -> bool {
    tree_get(tree, name) is Some
}

pub open spec fn member_channel_is(tree: JsonTree, name: Seq<char>, channel: u8) -> bool {
    match tree_get(tree, name) {
        Some(value) => tree_u8(value) == Some(channel as int),
        None => false,
    }
}

/// The object names no channel, or this one.
pub open spec fn fits_channel(tree: JsonTree, channel: u8) -> bool {
    ||| !has_member(tree, "channel"@) && !has_member(tree, "channelId"@) && !has_member(
        tree,
        "channelNo"@,
    )
    ||| member_channel_is(tree, "channel"@, channel)
    ||| member_channel_is(tree, "channelId"@, channel)
    ||| member_channel_is(tree, "channelNo"@, channel)
}

fn member_is_channel(value: &Json, name: &str, channel: u8) -> (r: bool)
    ensures
        r == member_channel_is(value@, name@, channel),
{
    match value.get(name) {
        Some(inner) => match inner.as_byte() {
            Some(n) => n == channel,
            None => false,
        },
        None => false,
    }
}

fn object_fits_channel(value: &Json, channel: u8) -> (r: bool)
    ensures
        r == fits_channel(value@, channel),
{
    let named = value.get("channel").is_some() || value.get("channelId").is_some() || value.get(
        "channelNo",
    ).is_some();
    !named || member_is_channel(value, "channel", channel) || member_is_channel(
        value,
        "channelId",
        channel,
    ) || member_is_channel(value, "channelNo", channel)
}

// ---------------------------------------------------------------- numbers

/// A number that a response may hold.
#[derive(Debug, Clone, Copy, PartialEq, Eq, Structural)]
pub enum NumberField {
    Pan,
    Tilt,
    Zoom,
    Focus,
    ZoomSection,
    FocusSection,
    CheckState,
}

/// The names under which a number is looked for.
pub open spec fn number_named(field: NumberField, name: Seq<char>) -> bool {
    match field {
        NumberField::Pan => same_name(name, "Ppos"@) || same_name(name, "pPos"@) || same_name(
            name,
            "pan"@,
        ),
        NumberField::Tilt => same_name(name, "Tpos"@) || same_name(name, "tPos"@) || same_name(
            name,
            "tilt"@,
        ),
        NumberField::Zoom => same_name(name, "zoomPos"@) || same_name(name, "Zpos"@),
        NumberField::Focus => same_name(name, "focusPos"@),
        NumberField::ZoomSection => same_name(name, "pos"@) || same_name(name, "zoomPos"@),
        NumberField::FocusSection => same_name(name, "pos"@) || same_name(name, "focusPos"@),
        NumberField::CheckState => same_name(name, "PtzCheckState"@),
    }
}

/// The first member with one of the field's names whose value is an integer.
pub open spec fn number_among(members: Seq<(Seq<char>, JsonTree)>, field: NumberField) -> Option<i64>
    decreases members.len(),
{
    if members.len() == 0 {
        None
    } else if number_named(field, members[0].0) && tree_i64(members[0].1) is Some {
        tree_i64(members[0].1)
    } else {
        number_among(members.drop_first(), field)
    }
}

/// An integer value in the range of `i64`.
pub open spec fn tree_i64(tree: JsonTree) -> Option<i64> {
    match tree_int(tree) {
        Some(n) => Some(n as i64),
        None => None,
    }
}

fn to_i64(value: &Json) -> (r: Option<i64>)
    ensures
        r == tree_i64(value@),
{
    value.as_int()
}

/// Asks an object that fits a channel, where one is given, for a number.
pub struct NumberOf {
    pub field: NumberField,
    pub channel: Option<u8>,
}

impl NumberField {
    fn is_named(self, name: &str) -> (r: bool)
        ensures
            r == number_named(self, name@),
    {
        match self {
            NumberField::Pan => is_same_name(name, "Ppos") || is_same_name(name, "pPos")
                || is_same_name(name, "pan"),
            NumberField::Tilt => is_same_name(name, "Tpos") || is_same_name(name, "tPos")
                || is_same_name(name, "tilt"),
            NumberField::Zoom => is_same_name(name, "zoomPos") || is_same_name(name, "Zpos"),
            NumberField::Focus => is_same_name(name, "focusPos"),
            NumberField::ZoomSection => is_same_name(name, "pos") || is_same_name(name, "zoomPos"),
            NumberField::FocusSection => is_same_name(name, "pos") || is_same_name(
                name,
                "focusPos",
            ),
            NumberField::CheckState => is_same_name(name, "PtzCheckState"),
        }
    }
}

impl Probe for NumberOf {
    type Out = i64;

    open spec fn hit(&self, object: JsonTree) -> Option<i64> {
        match object {
            JsonTree::Object(members) => if self.channel matches Some(channel) && !fits_channel(
                object,
                channel,
            ) {
                None
            } else {
                number_among(members, self.field)
            },
            _ => None,
        }
    }

    fn probe(&self, object: &Json) -> (r: Option<i64>) {
        match object {
            Json::Object(members) => {
                if let Some(channel) = self.channel {
                    if !object_fits_channel(object, channel) {
                        return None;
                    }
                }
                proof {
                    lemma_member_trees(members@);
                    assert(member_trees(members@).skip(0) =~= member_trees(members@));
                }
                let mut i: usize = 0;
                while i < members.len()
                    invariant
                        i <= members.len(),
                        member_trees(members@).len() == members.len(),
                        forall|k: int|
                            0 <= k < members.len() ==> #[trigger] member_trees(members@)[k] == (
                                members@[k].0@,
                                members@[k].1@,
                            ),
                        self.hit(object@) == number_among(
                            member_trees(members@).skip(i as int),
                            self.field,
                        ),
                    decreases members.len() - i,
                {
                    proof {
                        let rest = member_trees(members@).skip(i as int);
                        assert(rest[0] == member_trees(members@)[i as int]);
                        assert(rest.drop_first() =~= member_trees(members@).skip(i + 1));
                    }
                    if self.field.is_named(members[i].0.as_str()) {
                        let number = to_i64(&members[i].1);
                        if number.is_some() {
                            return number;
                        }
                    }
                    i = i + 1;
                }
                None
            },
            _ => None,
        }
    }
}

/// The first number of a field anywhere in a tree, in the objects that fit the channel.
pub open spec fn number_by_keys(tree: JsonTree, channel: Option<u8>, field: NumberField) -> Option<
    i64,
> {
    search_tree(NumberOf { field, channel }, tree)
}

fn find_number_by_keys(value: &Json, channel: Option<u8>, field: NumberField) -> (r: Option<i64>)
    ensures
        r == number_by_keys(value@, channel, field),
{
    let found = search(&NumberOf { field, channel }, value);
    proof {
        assert(option_model(found) == found);
    }
    found
}

/// The section that holds a number, by the name of its member.
pub open spec fn section_named(field: NumberField, name: Seq<char>) -> bool {
    match field {
        NumberField::ZoomSection => same_name(name, "zoom"@),
        NumberField::FocusSection => same_name(name, "focus"@),
        _ => false,
    }
}

/// The first section among the members that holds the number.
pub open spec fn section_among(
    members: Seq<(Seq<char>, JsonTree)>,
    channel: u8,
    field: NumberField,
) -> Option<i64>
    decreases members.len(),
{
    if members.len() == 0 {
        None
    } else if section_named(field, members[0].0) && number_by_keys(
        members[0].1,
        Some(channel),
        field,
    ) is Some {
        number_by_keys(members[0].1, Some(channel), field)
    } else {
        section_among(members.drop_first(), channel, field)
    }
}

/// Asks an object for a number in one of its sections.
pub struct SectionOf {
    pub field: NumberField,
    pub channel: u8,
}

fn is_section(field: NumberField, name: &str) -> (r: bool)
    ensures
        r == section_named(field, name@),
{
    match field {
        NumberField::ZoomSection => is_same_name(name, "zoom"),
        NumberField::FocusSection => is_same_name(name, "focus"),
        _ => false,
    }
}

impl Probe for SectionOf {
    type Out = i64;

    open spec fn hit(&self, object: JsonTree) -> Option<i64> {
        match object {
            JsonTree::Object(members) => section_among(members, self.channel, self.field),
            _ => None,
        }
    }

    fn probe(&self, object: &Json) -> (r: Option<i64>) {
        match object {
            Json::Object(members) => {
                proof {
                    lemma_member_trees(members@);
                    assert(member_trees(members@).skip(0) =~= member_trees(members@));
                }
                let mut i: usize = 0;
                while i < members.len()
                    invariant
                        i <= members.len(),
                        member_trees(members@).len() == members.len(),
                        forall|k: int|
                            0 <= k < members.len() ==> #[trigger] member_trees(members@)[k] == (
                                members@[k].0@,
                                members@[k].1@,
                            ),
                        self.hit(object@) == section_among(
                            member_trees(members@).skip(i as int),
                            self.channel,
                            self.field,
                        ),
                    decreases members.len() - i,
                {
                    proof {
                        let rest = member_trees(members@).skip(i as int);
                        assert(rest[0] == member_trees(members@)[i as int]);
                        assert(rest.drop_first() =~= member_trees(members@).skip(i + 1));
                    }
                    if is_section(self.field, members[i].0.as_str()) {
                        let number = find_number_by_keys(
                            &members[i].1,
                            Some(self.channel),
                            self.field,
                        );
                        if number.is_some() {
                            return number;
                        }
                    }
                    i = i + 1;
                }
                None
            },
            _ => None,
        }
    }
}

/// The first number in a section anywhere in a tree.
pub open spec fn number_in_section(tree: JsonTree, channel: u8, field: NumberField) -> Option<i64> {
    search_tree(SectionOf { field, channel }, tree)
}

fn find_number_in_section(value: &Json, channel: u8, field: NumberField) -> (r: Option<i64>)
    ensures
        r == number_in_section(value@, channel, field),
{
    let found = search(&SectionOf { field, channel }, value);
    proof {
        assert(option_model(found) == found);
    }
    found
}

// ---------------------------------------------------------------- ranges

impl View for NumericRange {
    type V = NumericRange;

    open spec fn view(&self) -> NumericRange {
        *self
    }
}

/// The integers under two names, as a range.
pub open spec fn bounds_at(tree: JsonTree) -> Option<NumericRange> {
    match (tree_get(tree, "min"@), tree_get(tree, "max"@)) {
        (Some(min), Some(max)) => bounds_of(min, max),
        _ => None,
    }
}

/// Two integers, as a range.
pub open spec fn bounds_of(min: JsonTree, max: JsonTree) -> Option<NumericRange> {
    match (tree_i64(min), tree_i64(max)) {
        (Some(min), Some(max)) => Some(NumericRange { min, max }),
        _ => None,
    }
}

/// The range that a value describes: an object with `min` and `max`, or else the range under
/// `pos`, under `range`, or under any other member; or the first two items of a list.
pub open spec fn range_of(tree: JsonTree) -> Option<NumericRange>
    decreases tree,
{
    match tree {
        JsonTree::Object(members) => match bounds_at(tree) {
            Some(range) => Some(range),
            None => match range_under(members, "pos"@) {
                Some(range) => Some(range),
                None => match range_under(members, "range"@) {
                    Some(range) => Some(range),
                    None => first_range(members),
                },
            },
        },
        JsonTree::Array(items) => if items.len() >= 2 {
            bounds_of(items[0], items[1])
        } else {
            None
        },
        _ => None,
    }
}

/// The range that the member of a name describes.
pub open spec fn range_under(members: Seq<(Seq<char>, JsonTree)>, name: Seq<char>) -> Option<
    NumericRange,
>
    decreases members,
{
    if members.len() == 0 {
        None
    } else if members[0].0 == name {
        range_of(members[0].1)
    } else {
        range_under(members.drop_first(), name)
    }
}

/// The first range that a member describes.
pub open spec fn first_range(members: Seq<(Seq<char>, JsonTree)>) -> Option<NumericRange>
    decreases members,
{
    if members.len() == 0 {
        None
    } else {
        match range_of(members[0].1) {
            Some(range) => Some(range),
            None => first_range(members.drop_first()),
        }
    }
}

fn read_bounds(min: &Json, max: &Json) -> (r: Option<NumericRange>)
    ensures
        r == bounds_of(min@, max@),
{
    match (to_i64(min), to_i64(max)) {
        (Some(min), Some(max)) => Some(NumericRange { min, max }),
        _ => None,
    }
}

fn read_min_max(value: &Json) -> (r: Option<NumericRange>)
    ensures
        r == bounds_at(value@),
{
    match (value.get("min"), value.get("max")) {
        (Some(min), Some(max)) => read_bounds(min, max),
        _ => None,
    }
}

/// The range that a value describes.
pub fn parse_numeric_range(value: &Json) -> (r: Option<NumericRange>)
    ensures
        r == range_of(value@),
    decreases value, 1int,
{
    match value {
        Json::Object(members) => {
            let bounds = read_min_max(value);
            if bounds.is_some() {
                return bounds;
            }
            proof {
                lemma_member_trees(members@);
            }
            let found = range_of_member(value, members, "pos");
            if found.is_some() {
                return found;
            }
            let found = range_of_member(value, members, "range");
            if found.is_some() {
                return found;
            }
            proof {
                assert(member_trees(members@).skip(0) =~= member_trees(members@));
            }
            let mut i: usize = 0;
            while i < members.len()
                invariant
                    i <= members.len(),
                    *value == Json::Object(*members),
                    member_trees(members@).len() == members.len(),
                    forall|k: int|
                        0 <= k < members.len() ==> #[trigger] member_trees(members@)[k] == (
                            members@[k].0@,
                            members@[k].1@,
                        ),
                    range_of(value@) == first_range(member_trees(members@).skip(i as int)),
                decreases members.len() - i,
            {
                proof {
                    let rest = member_trees(members@).skip(i as int);
                    assert(rest[0] == member_trees(members@)[i as int]);
                    assert(rest.drop_first() =~= member_trees(members@).skip(i + 1));
                    assert(decreases_to!(value => members@[i as int].1));
                }
                let found = parse_numeric_range(&members[i].1);
                if found.is_some() {
                    return found;
                }
                i = i + 1;
            }
            None
        },
        Json::Array(items) => {
            proof {
                lemma_item_trees(items@);
            }
            if items.len() >= 2 {
                read_bounds(&items[0], &items[1])
            } else {
                None
            }
        },
        _ => None,
    }
}

fn range_of_member(value: &Json, members: &Vec<(String, Json)>, name: &str) -> (r: Option<
    NumericRange,
>)
    requires
        *value == Json::Object(*members),
    ensures
        r == range_under(member_trees(members@), name@),
    decreases value, 0int,
{
    proof {
        lemma_member_trees(members@);
        assert(member_trees(members@).skip(0) =~= member_trees(members@));
    }
    let mut i: usize = 0;
    while i < members.len()
        invariant
            i <= members.len(),
            *value == Json::Object(*members),
            member_trees(members@).len() == members.len(),
            forall|k: int|
                0 <= k < members.len() ==> #[trigger] member_trees(members@)[k] == (
                    members@[k].0@,
                    members@[k].1@,
                ),
            range_under(member_trees(members@), name@) == range_under(
                member_trees(members@).skip(i as int),
                name@,
            ),
        decreases members.len() - i,
    {
        proof {
            let rest = member_trees(members@).skip(i as int);
            assert(rest[0] == member_trees(members@)[i as int]);
            assert(rest.drop_first() =~= member_trees(members@).skip(i + 1));
            assert(decreases_to!(value => value->Object_0@[i as int].1));
        }
        if same_text(members[i].0.as_str(), name) {
            return parse_numeric_range(&members[i].1);
        }
        i = i + 1;
    }
    None
}

/// A range that a response may hold.
#[derive(Debug, Clone, Copy, PartialEq, Eq, Structural)]
pub enum RangeField {
    Pan,
    Tilt,
    ZoomSection,
    Zoom,
    FocusSection,
    Focus,
    Preset,
}

/// The names under which a range is looked for.
pub open spec fn range_named(field: RangeField, name: Seq<char>) -> bool {
    match field {
        RangeField::Pan => same_name(name, "Ppos"@) || same_name(name, "pPos"@) || same_name(
            name,
            "pan"@,
        ),
        RangeField::Tilt => same_name(name, "Tpos"@) || same_name(name, "tPos"@) || same_name(
            name,
            "tilt"@,
        ),
        RangeField::ZoomSection => same_name(name, "zoom"@),
        RangeField::Zoom => same_name(name, "zoomPos"@) || same_name(name, "Zpos"@),
        RangeField::FocusSection => same_name(name, "focus"@),
        RangeField::Focus => same_name(name, "focusPos"@),
        RangeField::Preset => same_name(name, "id"@),
    }
}

/// The first member with one of the field's names whose value describes a range.
pub open spec fn range_among(members: Seq<(Seq<char>, JsonTree)>, field: RangeField) -> Option<
    NumericRange,
>
    decreases members.len(),
{
    if members.len() == 0 {
        None
    } else if range_named(field, members[0].0) && range_of(members[0].1) is Some {
        range_of(members[0].1)
    } else {
        range_among(members.drop_first(), field)
    }
}

impl RangeField {
    fn is_named(self, name: &str) -> (r: bool)
        ensures
            r == range_named(self, name@),
    {
        match self {
            RangeField::Pan => is_same_name(name, "Ppos") || is_same_name(name, "pPos")
                || is_same_name(name, "pan"),
            RangeField::Tilt => is_same_name(name, "Tpos") || is_same_name(name, "tPos")
                || is_same_name(name, "tilt"),
            RangeField::ZoomSection => is_same_name(name, "zoom"),
            RangeField::Zoom => is_same_name(name, "zoomPos") || is_same_name(name, "Zpos"),
            RangeField::FocusSection => is_same_name(name, "focus"),
            RangeField::Focus => is_same_name(name, "focusPos"),
            RangeField::Preset => is_same_name(name, "id"),
        }
    }
}

impl Probe for RangeField {
    type Out = NumericRange;

    open spec fn hit(&self, object: JsonTree) -> Option<NumericRange> {
        match object {
            JsonTree::Object(members) => range_among(members, *self),
            _ => None,
        }
    }

    fn probe(&self, object: &Json) -> (r: Option<NumericRange>) {
        match object {
            Json::Object(members) => {
                proof {
                    lemma_member_trees(members@);
                    assert(member_trees(members@).skip(0) =~= member_trees(members@));
                }
                let mut i: usize = 0;
                while i < members.len()
                    invariant
                        i <= members.len(),
                        member_trees(members@).len() == members.len(),
                        forall|k: int|
                            0 <= k < members.len() ==> #[trigger] member_trees(members@)[k] == (
                                members@[k].0@,
                                members@[k].1@,
                            ),
                        self.hit(object@) == range_among(
                            member_trees(members@).skip(i as int),
                            *self,
                        ),
                    decreases members.len() - i,
                {
                    proof {
                        let rest = member_trees(members@).skip(i as int);
                        assert(rest[0] == member_trees(members@)[i as int]);
                        assert(rest.drop_first() =~= member_trees(members@).skip(i + 1));
                    }
                    if self.is_named(members[i].0.as_str()) {
                        let range = parse_numeric_range(&members[i].1);
                        if range.is_some() {
                            return range;
                        }
                    }
                    i = i + 1;
                }
                None
            },
            _ => None,
        }
    }
}

/// The first range of a field anywhere in a tree.
pub open spec fn range_by_keys(tree: JsonTree, field: RangeField) -> Option<NumericRange> {
    search_tree(field, tree)
}

fn find_range_by_keys(value: &Json, field: RangeField) -> (r: Option<NumericRange>)
    ensures
        r == range_by_keys(value@, field),
{
    let found = search(&field, value);
    proof {
        assert(option_model(found) == found);
    }
    found
}

pub open spec fn or_range(first: Option<NumericRange>, second: Option<NumericRange>) -> Option<
    NumericRange,
> {
    match first {
        Some(range) => Some(range),
        None => second,
    }
}

pub open spec fn or_number(first: Option<i64>, second: Option<i64>) -> Option<i64> {
    match first {
        Some(number) => Some(number),
        None => second,
    }
}

// ---------------------------------------------------------------- presets

/// The object is a preset of the channel that is enabled, and this is its number.
pub open spec fn is_enabled_preset(tree: JsonTree, channel: u8, id: int) -> bool {
    &&& fits_channel(tree, channel)
    &&& tree_get(tree, "id"@) matches Some(raw) && tree_u8(raw) == Some(id)
    &&& tree_get(tree, "enable"@) matches Some(raw) && tree_enabled(raw) == Some(true)
}

/// A tree holds an enabled preset of the channel with that number.
pub open spec fn lists_preset(tree: JsonTree, channel: u8, id: int) -> bool
    decreases tree,
{
    match tree {
        JsonTree::Array(items) => items_list_preset(items, channel, id),
        JsonTree::Object(members) => is_enabled_preset(tree, channel, id) || members_list_preset(
            members,
            channel,
            id,
        ),
        _ => false,
    }
}

pub open spec fn items_list_preset(items: Seq<JsonTree>, channel: u8, id: int) -> bool
    decreases items,
{
    items.len() > 0 && (lists_preset(items[0], channel, id) || items_list_preset(
        items.drop_first(),
        channel,
        id,
    ))
}

pub open spec fn members_list_preset(
    members: Seq<(Seq<char>, JsonTree)>,
    channel: u8,
    id: int,
) -> bool
    decreases members,
{
    members.len() > 0 && (lists_preset(members[0].1, channel, id) || members_list_preset(
        members.drop_first(),
        channel,
        id,
    ))
}

/// The numbers below a bound of the enabled presets of a channel, in ascending order.
pub open spec fn preset_ids(tree: JsonTree, channel: u8, below: int) -> Seq<u8>
    decreases below,
{
    if below <= 0 {
        Seq::empty()
    } else if lists_preset(tree, channel, below - 1) {
        preset_ids(tree, channel, below - 1).push((below - 1) as u8)
    } else {
        preset_ids(tree, channel, below - 1)
    }
}

/// The number of the enabled preset that an object is.
fn enabled_preset_id(value: &Json, channel: u8) -> (r: Option<u8>)
    ensures
        forall|id: int| #[trigger]
            is_enabled_preset(value@, channel, id) == (r matches Some(n) && n == id),
{
    if !object_fits_channel(value, channel) {
        return None;
    }
    match (value.get("id"), value.get("enable")) {
        (Some(id_raw), Some(enable_raw)) => match enable_raw.as_enabled() {
            Some(flag) => if flag {
                id_raw.as_byte()
            } else {
                None
            },
            None => None,
        },
        _ => None,
    }
}

/// Marks the numbers of the enabled presets of a channel.
fn mark_presets(value: &Json, channel: u8, marks: &mut Vec<bool>)
    requires
        old(marks).len() == 256,
    ensures
        final(marks).len() == 256,
        forall|id: int|
            0 <= id < 256 ==> #[trigger] final(marks)@[id] == (old(marks)@[id] || lists_preset(
                value@,
                channel,
                id,
            )),
    decreases value,
{
    let ghost start = marks@;
    match value {
        Json::Array(items) => {
            let ghost trees = item_trees(items@);
            proof {
                lemma_item_trees(items@);
                assert(trees.skip(0) =~= trees);
            }
            let mut i: usize = 0;
            while i < items.len()
                invariant
                    i <= items.len(),
                    marks.len() == 256,
                    start.len() == 256,
                    *value == Json::Array(*items),
                    trees == item_trees(items@),
                    trees.len() == items.len(),
                    forall|k: int| 0 <= k < items.len() ==> #[trigger] trees[k] == items@[k]@,
                    forall|id: int|
                        0 <= id < 256 ==> (#[trigger] marks@[id] || items_list_preset(
                            trees.skip(i as int),
                            channel,
                            id,
                        )) == (start[id] || lists_preset(value@, channel, id)),
                decreases items.len() - i,
            {
                let ghost rest = trees.skip(i as int);
                let ghost next = trees.skip(i + 1);
                let ghost before = marks@;
                proof {
                    assert(rest[0] == trees[i as int]);
                    assert(rest.drop_first() =~= next);
                    assert(decreases_to!(value => value->Array_0@[i as int]));
                }
                mark_presets(&items[i], channel, marks);
                i = i + 1;
                proof {
                    assert(next == trees.skip(i as int));
                    assert forall|id: int| 0 <= id < 256 implies (#[trigger] marks@[id]
                        || items_list_preset(trees.skip(i as int), channel, id)) == (start[id] || lists_preset(
                        value@,
                        channel,
                        id,
                    )) by {
                        assert(marks@[id] == (before[id] || lists_preset(rest[0], channel, id)));
                        assert(items_list_preset(rest, channel, id) == (lists_preset(
                            rest[0],
                            channel,
                            id,
                        ) || items_list_preset(next, channel, id)));
                    }
                }
            }
        },
        Json::Object(members) => {
            let own = enabled_preset_id(value, channel);
            if let Some(id) = own {
                marks.set(id as usize, true);
            }
            let ghost trees = member_trees(members@);
            proof {
                lemma_member_trees(members@);
                assert(trees.skip(0) =~= trees);
                assert forall|id: int| 0 <= id < 256 implies (#[trigger] marks@[id]
                    || members_list_preset(trees.skip(0), channel, id)) == (start[id]
                    || lists_preset(value@, channel, id)) by {
                    assert(is_enabled_preset(value@, channel, id) == (own matches Some(n) && n
                        == id));
                }
            }
            let mut i: usize = 0;
            while i < members.len()
                invariant
                    i <= members.len(),
                    marks.len() == 256,
                    start.len() == 256,
                    *value == Json::Object(*members),
                    trees == member_trees(members@),
                    trees.len() == members.len(),
                    forall|k: int|
                        0 <= k < members.len() ==> #[trigger] trees[k] == (
                            members@[k].0@,
                            members@[k].1@,
                        ),
                    forall|id: int|
                        0 <= id < 256 ==> (#[trigger] marks@[id] || members_list_preset(
                            trees.skip(i as int),
                            channel,
                            id,
                        )) == (start[id] || lists_preset(value@, channel, id)),
                decreases members.len() - i,
            {
                let ghost rest = trees.skip(i as int);
                let ghost next = trees.skip(i + 1);
                let ghost before = marks@;
                proof {
                    assert(rest[0] == trees[i as int]);
                    assert(rest.drop_first() =~= next);
                    assert(decreases_to!(value => value->Object_0@[i as int].1));
                }
                mark_presets(&members[i].1, channel, marks);
                i = i + 1;
                proof {
                    assert(next == trees.skip(i as int));
                    assert forall|id: int| 0 <= id < 256 implies (#[trigger] marks@[id]
                        || members_list_preset(trees.skip(i as int), channel, id)) == (start[id] || lists_preset(
                        value@,
                        channel,
                        id,
                    )) by {
                        assert(marks@[id] == (before[id] || lists_preset(rest[0].1, channel, id)));
                        assert(members_list_preset(rest, channel, id) == (lists_preset(
                            rest[0].1,
                            channel,
                            id,
                        ) || members_list_preset(next, channel, id)));
                    }
                }
            }
        },
        _ => {},
    }
}

/// The numbers of the enabled presets of a channel, in ascending order.
pub fn collect_enabled_preset_ids(value: &Json, channel: u8) -> (r: Vec<u8>)
    ensures
        r@ == preset_ids(value@, channel, 256),
{
    let mut marks: Vec<bool> = Vec::new();
    let mut n: usize = 0;
    while n < 256
        invariant
            n <= 256,
            marks.len() == n,
            forall|i: int| 0 <= i < n ==> !marks@[i],
        decreases 256 - n,
    {
        marks.push(false);
        n = n + 1;
    }
    mark_presets(value, channel, &mut marks);
    let mut out: Vec<u8> = Vec::new();
    let mut id: usize = 0;
    while id < 256
        invariant
            id <= 256,
            marks.len() == 256,
            forall|i: int|
                0 <= i < 256 ==> #[trigger] marks@[i] == lists_preset(value@, channel, i),
            out@ == preset_ids(value@, channel, id as int),
        decreases 256 - id,
    {
        if marks[id] {
            out.push(id as u8);
        }
        id = id + 1;
    }
    out
}

// ---------------------------------------------------------------- status

/// What the answer to a command holds: nothing where it holds no entry of the command, or
/// one with a code other than zero.
pub open spec fn optional_payload_in(tree: JsonTree, command: CgiCommand) -> Option<JsonTree> {
    let payload = match command_payload(tree, command) {
        Some(entry) => Some(entry),
        None => if tree is Object {
            Some(tree)
        } else {
            None
        },
    };
    match payload {
        Some(entry) => match tree_get(entry, "code"@) {
            Some(raw) => if tree_int(raw) is Some && tree_int(raw) != Some(0int) {
                None
            } else {
                Some(entry)
            },
            None => Some(entry),
        },
        None => None,
    }
}

pub open spec fn optional_payload(
    command: CgiCommand,
    reply: Result<ResponseModel, ErrorModel>,
) -> Result<Option<JsonTree>, ErrorModel> {
    match reply {
        Err(error) => Err(error),
        Ok(response) => match response_tree(command, response.raw_json) {
            Err(error) => Err(error),
            Ok(tree) => Ok(optional_payload_in(tree, command)),
        },
    }
}

/// The request for the status of a channel. The position is asked for with a payload, the
/// rest by channel.
pub open spec fn status_request(command: CgiCommand, channel: u8) -> RequestModel {
    if command == CgiCommand::GetPtzCurPos {
        request_model(
            command,
            payload_params(
                display_of_json(
                    tree_with(
                        empty_tree(),
                        "PtzCurPos"@,
                        tree_with(empty_tree(), "channel"@, unsigned_tree(channel as u64)),
                    ),
                ),
            ),
        )
    } else {
        request_model(command, channel_params(channel))
    }
}

fn build_request(command: CgiCommand, channel: u8) -> (r: CommandRequest)
    ensures
        r@ == status_request(command, channel),
{
    if command == CgiCommand::GetPtzCurPos {
        let inner = with_member(empty_object(), "channel", value_from_u64(channel as u64));
        let payload = with_member(empty_object(), "PtzCurPos", inner);
        CommandRequest::with_payload(command, display_value(&payload))
    } else {
        CommandRequest::for_channel(command, channel)
    }
}

fn payload_of<'a>(parsed: &'a Json, command: CgiCommand) -> (r: Option<&'a Json>)
    ensures
        crate::json::is_tree(r, optional_payload_in(parsed@, command)),
{
    let payload: &Json = match find_command_payload(parsed, command) {
        Some(entry) => entry,
        None => match parsed {
            Json::Object(_) => parsed,
            _ => {
                return None;
            },
        },
    };
    if let Some(raw) = payload.get("code") {
        if let Some(code) = raw.as_int() {
            if code != 0 {
                return None;
            }
        }
    }
    Some(payload)
}

fn parse_reply(command: CgiCommand, reply: &CgiReply) -> (r: AppResult<Json>)
    ensures
        match result_model(*reply) {
            Err(error) => result_model(r) == Err::<JsonTree, ErrorModel>(error),
            Ok(response) => result_model(r) == response_tree(command, response.raw_json),
        },
{
    match reply_text(reply) {
        Ok(raw_json) => parse_response_json(raw_json, command),
        Err(error) => Err(error),
    }
}

/// The value of a payload, or the part of it under a name.
pub open spec fn named_part(payload: JsonTree, name: Seq<char>) -> JsonTree {
    match tree_get(payload, "value"@) {
        Some(value) => or_tree(tree_get(value, name), value),
        None => payload,
    }
}

fn part_named<'a>(payload: &'a Json, name: &str) -> (r: &'a Json)
    ensures
        r@ == named_part(payload@, name@),
{
    match payload.get("value") {
        Some(value) => match value.get(name) {
            Some(inner) => inner,
            None => value,
        },
        None => payload,
    }
}

/// What a range payload says, where there is one.
pub open spec fn payload_range(range: Option<JsonTree>, field: RangeField) -> Option<NumericRange> {
    match range {
        Some(tree) => range_by_keys(tree, field),
        None => None,
    }
}

/// The status with what a position payload says of a channel. What is known already stays.
pub open spec fn with_position(status: StatusModel, channel: u8, payload: JsonTree) -> StatusModel {
    let part = named_part(payload, "PtzCurPos"@);
    let range = tree_get(payload, "range"@);
    StatusModel {
        pan_position: or_number(
            status.pan_position,
            number_by_keys(part, Some(channel), NumberField::Pan),
        ),
        tilt_position: or_number(
            status.tilt_position,
            number_by_keys(part, Some(channel), NumberField::Tilt),
        ),
        pan_range: or_range(status.pan_range, payload_range(range, RangeField::Pan)),
        tilt_range: or_range(status.tilt_range, payload_range(range, RangeField::Tilt)),
        ..status
    }
}

/// The status with what a zoom and focus payload says of a channel. What is known already
/// stays.
pub open spec fn with_zoom_focus(
    status: StatusModel,
    channel: u8,
    payload: JsonTree,
) -> StatusModel {
    let part = named_part(payload, "ZoomFocus"@);
    let range = match tree_get(payload, "range"@) {
        Some(tree) => Some(or_tree(tree_get(tree, "ZoomFocus"@), tree)),
        None => None,
    };
    StatusModel {
        zoom_position: or_number(
            status.zoom_position,
            or_number(
                number_in_section(part, channel, NumberField::ZoomSection),
                number_by_keys(part, Some(channel), NumberField::Zoom),
            ),
        ),
        focus_position: or_number(
            status.focus_position,
            or_number(
                number_in_section(part, channel, NumberField::FocusSection),
                number_by_keys(part, Some(channel), NumberField::Focus),
            ),
        ),
        zoom_range: or_range(
            status.zoom_range,
            or_range(
                payload_range(range, RangeField::ZoomSection),
                payload_range(range, RangeField::Zoom),
            ),
        ),
        focus_range: or_range(
            status.focus_range,
            or_range(
                payload_range(range, RangeField::FocusSection),
                payload_range(range, RangeField::Focus),
            ),
        ),
        ..status
    }
}

/// The range of preset numbers that a range payload gives.
pub open spec fn preset_range_in(tree: JsonTree) -> Option<NumericRange> {
    or_range(
        match tree_get2(tree, "PtzPreset"@, "id"@) {
            Some(id) => range_of(id),
            None => None,
        },
        range_by_keys(tree, RangeField::Preset),
    )
}

/// The status with what a preset payload says of a channel. A range that is known already
/// stays, and so do the presets where the payload has none.
pub open spec fn with_presets(status: StatusModel, channel: u8, payload: JsonTree) -> StatusModel {
    let presets = preset_ids(named_part(payload, "PtzPreset"@), channel, 256);
    StatusModel {
        enabled_presets: if presets.len() > 0 {
            presets
        } else {
            status.enabled_presets
        },
        preset_range: or_range(
            status.preset_range,
            match tree_get(payload, "range"@) {
                Some(tree) => preset_range_in(tree),
                None => None,
            },
        ),
        ..status
    }
}

/// The status with what a calibration payload says. What is known already stays.
pub open spec fn with_check_state(status: StatusModel, payload: JsonTree) -> StatusModel {
    StatusModel {
        calibration_state: or_number(
            status.calibration_state,
            number_by_keys(
                or_tree(tree_get(payload, "value"@), payload),
                None,
                NumberField::CheckState,
            ),
        ),
        ..status
    }
}

/// The status of a channel from the payloads that came.
pub open spec fn status_from(
    channel: u8,
    position: Option<JsonTree>,
    zoom_focus: Option<JsonTree>,
    presets: Option<JsonTree>,
    check_state: Option<JsonTree>,
) -> StatusModel {
    let status = blank_status(channel);
    let status = match position {
        Some(payload) => with_position(status, channel, payload),
        None => status,
    };
    let status = match zoom_focus {
        Some(payload) => with_zoom_focus(status, channel, payload),
        None => status,
    };
    let status = match presets {
        Some(payload) => with_presets(status, channel, payload),
        None => status,
    };
    match check_state {
        Some(payload) => with_check_state(status, payload),
        None => status,
    }
}

/// A status that says something; else the error that it says nothing.
pub open spec fn status_result(status: StatusModel) -> Result<StatusModel, ErrorModel> {
    if status == blank_status(status.channel) {
        Err(
            error_model(
                ErrorKind::UnexpectedResponse,
                "PTZ status unavailable for channel "@ + dec(status.channel as nat),
            ),
        )
    } else {
        Ok(status)
    }
}

/// The status of a channel: position, zoom and focus, presets and calibration are asked for
/// in turn. A command that the camera does not have leaves its part of the status open.
pub open spec fn status_step(
    channel: u8,
    replies: Seq<Result<ResponseModel, ErrorModel>>,
) -> StepModel<StatusModel> {
    if replies.len() == 0 {
        StepModel::Send(status_request(CgiCommand::GetPtzCurPos, channel))
    } else {
        match optional_payload(CgiCommand::GetPtzCurPos, replies[0]) {
            Err(error) => StepModel::Done(Err(error)),
            Ok(position) => if replies.len() == 1 {
                StepModel::Send(status_request(CgiCommand::GetZoomFocus, channel))
            } else {
                match optional_payload(CgiCommand::GetZoomFocus, replies[1]) {
                    Err(error) => StepModel::Done(Err(error)),
                    Ok(zoom_focus) => if replies.len() == 2 {
                        StepModel::Send(status_request(CgiCommand::GetPtzPreset, channel))
                    } else {
                        match optional_payload(CgiCommand::GetPtzPreset, replies[2]) {
                            Err(error) => StepModel::Done(Err(error)),
                            Ok(presets) => if replies.len() == 3 {
                                StepModel::Send(
                                    status_request(CgiCommand::GetPtzCheckState, channel),
                                )
                            } else {
                                match optional_payload(
                                    CgiCommand::GetPtzCheckState,
                                    replies[3],
                                ) {
                                    Err(error) => StepModel::Done(Err(error)),
                                    Ok(check_state) => StepModel::Done(
                                        status_result(
                                            status_from(
                                                channel,
                                                position,
                                                zoom_focus,
                                                presets,
                                                check_state,
                                            ),
                                        ),
                                    ),
                                }
                            },
                        }
                    },
                }
            },
        }
    }
}

fn known_number(first: Option<i64>, second: Option<i64>) -> (r: Option<i64>)
    ensures
        r == or_number(first, second),
{
    if first.is_some() {
        first
    } else {
        second
    }
}

fn known_range(first: Option<NumericRange>, second: Option<NumericRange>) -> (r: Option<
    NumericRange,
>)
    ensures
        r == or_range(first, second),
{
    if first.is_some() {
        first
    } else {
        second
    }
}

/// Fills in what a position payload says of a channel, where it is not known already.
pub fn apply_cur_pos_payload(payload: &Json, channel: u8, status: &mut PtzStatus)
    ensures
        final(status)@ == with_position(old(status)@, channel, payload@),
{
    let part = part_named(payload, "PtzCurPos");
    status.pan_position = known_number(
        status.pan_position,
        find_number_by_keys(part, Some(channel), NumberField::Pan),
    );
    status.tilt_position = known_number(
        status.tilt_position,
        find_number_by_keys(part, Some(channel), NumberField::Tilt),
    );
    if let Some(range) = payload.get("range") {
        status.pan_range = known_range(
            status.pan_range,
            find_range_by_keys(range, RangeField::Pan),
        );
        status.tilt_range = known_range(
            status.tilt_range,
            find_range_by_keys(range, RangeField::Tilt),
        );
    }
}

/// Fills in what a zoom and focus payload says of a channel, where it is not known already.
pub fn apply_zoom_focus_payload(payload: &Json, channel: u8, status: &mut PtzStatus)
    ensures
        final(status)@ == with_zoom_focus(old(status)@, channel, payload@),
{
    let part = part_named(payload, "ZoomFocus");
    let zoom = known_number(
        find_number_in_section(part, channel, NumberField::ZoomSection),
        find_number_by_keys(part, Some(channel), NumberField::Zoom),
    );
    status.zoom_position = known_number(status.zoom_position, zoom);
    let focus = known_number(
        find_number_in_section(part, channel, NumberField::FocusSection),
        find_number_by_keys(part, Some(channel), NumberField::Focus),
    );
    status.focus_position = known_number(status.focus_position, focus);
    if let Some(outer) = payload.get("range") {
        let range = match outer.get("ZoomFocus") {
            Some(inner) => inner,
            None => outer,
        };
        let zoom_range = known_range(
            find_range_by_keys(range, RangeField::ZoomSection),
            find_range_by_keys(range, RangeField::Zoom),
        );
        status.zoom_range = known_range(status.zoom_range, zoom_range);
        let focus_range = known_range(
            find_range_by_keys(range, RangeField::FocusSection),
            find_range_by_keys(range, RangeField::Focus),
        );
        status.focus_range = known_range(status.focus_range, focus_range);
    }
}

/// Fills in what a preset payload says of a channel. A range that is known already stays,
/// and so do the presets where the payload has none.
pub fn apply_preset_payload(payload: &Json, channel: u8, status: &mut PtzStatus)
    ensures
        final(status)@ == with_presets(old(status)@, channel, payload@),
{
    let part = part_named(payload, "PtzPreset");
    let presets = collect_enabled_preset_ids(part, channel);
    if presets.len() > 0 {
        status.enabled_presets = presets;
    }
    if let Some(range) = payload.get("range") {
        let own = match range.get2("PtzPreset", "id") {
            Some(id) => parse_numeric_range(id),
            None => None,
        };
        let found = known_range(own, find_range_by_keys(range, RangeField::Preset));
        status.preset_range = known_range(status.preset_range, found);
    }
}

/// Fills in what a calibration payload says, where it is not known already.
pub fn apply_check_state_payload(payload: &Json, status: &mut PtzStatus)
    ensures
        final(status)@ == with_check_state(old(status)@, payload@),
{
    let part = match payload.get("value") {
        Some(value) => value,
        None => payload,
    };
    status.calibration_state = known_number(
        status.calibration_state,
        find_number_by_keys(part, None, NumberField::CheckState),
    );
}

fn finish_status(status: PtzStatus) -> (r: AppResult<PtzStatus>)
    ensures
        result_model(r) == status_result(status@),
{
    if !status.has_data() {
        return Err(
            AppError::with_message(
                ErrorKind::UnexpectedResponse,
                join2(
                    "PTZ status unavailable for channel ",
                    dec_u64(status.channel as u64).as_str(),
                ),
            ),
        );
    }
    Ok(status)
}

/// The status of a channel.
pub fn get_ptz_status(channel: u8, replies: &[CgiReply]) -> (r: Step<PtzStatus>)
    ensures
        step_model(r) == status_step(channel, reply_models(replies@)),
{
    if replies.len() == 0 {
        return Step::Send(build_request(CgiCommand::GetPtzCurPos, channel));
    }
    let position = match parse_reply(CgiCommand::GetPtzCurPos, &replies[0]) {
        Ok(parsed) => parsed,
        Err(error) => {
            return Step::Done(Err(error));
        },
    };
    if replies.len() == 1 {
        return Step::Send(build_request(CgiCommand::GetZoomFocus, channel));
    }
    let zoom_focus = match parse_reply(CgiCommand::GetZoomFocus, &replies[1]) {
        Ok(parsed) => parsed,
        Err(error) => {
            return Step::Done(Err(error));
        },
    };
    if replies.len() == 2 {
        return Step::Send(build_request(CgiCommand::GetPtzPreset, channel));
    }
    let presets = match parse_reply(CgiCommand::GetPtzPreset, &replies[2]) {
        Ok(parsed) => parsed,
        Err(error) => {
            return Step::Done(Err(error));
        },
    };
    if replies.len() == 3 {
        return Step::Send(build_request(CgiCommand::GetPtzCheckState, channel));
    }
    let check_state = match parse_reply(CgiCommand::GetPtzCheckState, &replies[3]) {
        Ok(parsed) => parsed,
        Err(error) => {
            return Step::Done(Err(error));
        },
    };
    let mut status = PtzStatus::blank(channel);
    if let Some(payload) = payload_of(&position, CgiCommand::GetPtzCurPos) {
        apply_cur_pos_payload(payload, channel, &mut status);
    }
    if let Some(payload) = payload_of(&zoom_focus, CgiCommand::GetZoomFocus) {
        apply_zoom_focus_payload(payload, channel, &mut status);
    }
    if let Some(payload) = payload_of(&presets, CgiCommand::GetPtzPreset) {
        apply_preset_payload(payload, channel, &mut status);
    }
    if let Some(payload) = payload_of(&check_state, CgiCommand::GetPtzCheckState) {
        apply_check_state_payload(payload, &mut status);
    }
    Step::Done(finish_status(status))
}

/// The position of a channel, without the rest of its status.
pub open spec fn position_step(
    channel: u8,
    replies: Seq<Result<ResponseModel, ErrorModel>>,
) -> StepModel<StatusModel> {
    if replies.len() == 0 {
        StepModel::Send(status_request(CgiCommand::GetPtzCurPos, channel))
    } else {
        match optional_payload(CgiCommand::GetPtzCurPos, replies[0]) {
            Err(error) => StepModel::Done(Err(error)),
            Ok(position) => StepModel::Done(
                status_result(status_from(channel, position, None, None, None)),
            ),
        }
    }
}

/// The position of a channel.
pub fn get_ptz_cur_pos(channel: u8, replies: &[CgiReply]) -> (r: Step<PtzStatus>)
    ensures
        step_model(r) == position_step(channel, reply_models(replies@)),
{
    if replies.len() == 0 {
        return Step::Send(build_request(CgiCommand::GetPtzCurPos, channel));
    }
    let position = match parse_reply(CgiCommand::GetPtzCurPos, &replies[0]) {
        Ok(parsed) => parsed,
        Err(error) => {
            return Step::Done(Err(error));
        },
    };
    let mut status = PtzStatus::blank(channel);
    if let Some(payload) = payload_of(&position, CgiCommand::GetPtzCurPos) {
        apply_cur_pos_payload(payload, channel, &mut status);
    }
    Step::Done(finish_status(status))
}

// ---------------------------------------------------------------- motion

/// The next step of a movement: a request to send after a pause, or what came of it.
pub enum MoveStep {
    Send { delay_ms: u64, request: CommandRequest },
    Done(AppResult<()>),
}

pub ghost enum MoveModel {
    Send { delay_ms: u64, request: RequestModel },
    Done(Result<(), ErrorModel>),
}

/// A result without a value, its error taken by its view.
pub open spec fn unit_model(r: AppResult<()>) -> Result<(), ErrorModel> {
    match r {
        Ok(_) => Ok(()),
        Err(error) => Err(error@),
    }
}

impl View for MoveStep {
    type V = MoveModel;

    open spec fn view(&self) -> MoveModel {
        match self {
            MoveStep::Send { delay_ms, request } => MoveModel::Send {
                delay_ms: *delay_ms,
                request: request@,
            },
            MoveStep::Done(result) => MoveModel::Done(unit_model(*result)),
        }
    }
}

/// The operation object of a control request.
pub open spec fn operation_tree(channel: u8, op: Seq<char>) -> JsonTree {
    tree_with(
        tree_with(empty_tree(), "channel"@, unsigned_tree(channel as u64)),
        "op"@,
        JsonTree::Text(op),
    )
}

pub open spec fn control_request(payload: JsonTree) -> RequestModel {
    request_model(CgiCommand::PtzCtrl, payload_params(display_of_json(payload)))
}

/// The request that starts a movement.
pub open spec fn move_request(channel: u8, direction: PtzDirection, speed: u8) -> RequestModel {
    control_request(
        tree_with(
            operation_tree(channel, direction_op(direction)),
            "speed"@,
            unsigned_tree(speed as u64),
        ),
    )
}

/// The request that ends a movement.
pub open spec fn stop_request(channel: u8) -> RequestModel {
    control_request(operation_tree(channel, "Stop"@))
}

/// The request that moves to a stored position.
pub open spec fn goto_request(channel: u8, preset_id: u8) -> RequestModel {
    control_request(
        tree_with(operation_tree(channel, "ToPos"@), "id"@, unsigned_tree(preset_id as u64)),
    )
}

fn operation_value(channel: u8, op: &str) -> (r: serde_json::Value)
    ensures
        crate::json::value_tree(r) == operation_tree(channel, op@),
{
    let object = with_member(empty_object(), "channel", value_from_u64(channel as u64));
    with_member(object, "op", value_from_text(op))
}

fn build_stop_request(channel: u8) -> (r: CommandRequest)
    ensures
        r@ == stop_request(channel),
{
    CommandRequest::with_payload(
        CgiCommand::PtzCtrl,
        display_value(&operation_value(channel, "Stop")),
    )
}

/// What the answer to a control request comes to: nothing, or why it failed.
pub open spec fn control_result(reply: Result<ResponseModel, ErrorModel>) -> Result<
    (),
    ErrorModel,
> {
    match reply {
        Err(error) => Err(error),
        Ok(response) => match response_tree(CgiCommand::PtzCtrl, response.raw_json) {
            Err(error) => Err(error),
            Ok(tree) => match code_error(
                payload_or_all(tree, CgiCommand::PtzCtrl),
                CgiCommand::PtzCtrl,
            ) {
                Some(error) => Err(error),
                None => Ok(()),
            },
        },
    }
}

fn control_outcome(reply: &CgiReply) -> (r: AppResult<()>)
    ensures
        unit_model(r) == control_result(result_model(*reply)),
{
    match parse_reply(CgiCommand::PtzCtrl, reply) {
        Err(error) => Err(error),
        Ok(parsed) => match ensure_code_ok(
            payload_or_whole(&parsed, CgiCommand::PtzCtrl),
            CgiCommand::PtzCtrl,
        ) {
            Some(error) => Err(error),
            None => Ok(()),
        },
    }
}

/// A movement: it is started, and where it has a duration, ended after it.
pub open spec fn move_step(
    channel: u8,
    direction: PtzDirection,
    speed: u8,
    duration_ms: Option<u64>,
    replies: Seq<Result<ResponseModel, ErrorModel>>,
) -> MoveModel {
    if !(1 <= speed <= 64) {
        MoveModel::Done(
            Err(
                error_model(
                    ErrorKind::InvalidInput,
                    "speed must be in range 1..=64, got "@ + dec(speed as nat),
                ),
            ),
        )
    } else if replies.len() == 0 {
        MoveModel::Send { delay_ms: 0, request: move_request(channel, direction, speed) }
    } else if control_result(replies[0]) is Err || duration_ms is None {
        MoveModel::Done(control_result(replies[0]))
    } else if replies.len() == 1 {
        MoveModel::Send { delay_ms: duration_ms->0, request: stop_request(channel) }
    } else {
        MoveModel::Done(control_result(replies[1]))
    }
}

/// Moves the camera.
pub fn move_ptz(
    channel: u8,
    direction: PtzDirection,
    speed: u8,
    duration_ms: Option<u64>,
    replies: &[CgiReply],
) -> (r: MoveStep)
    ensures
        r@ == move_step(channel, direction, speed, duration_ms, reply_models(replies@)),
{
    let speed = match PtzSpeed::new(speed) {
        Ok(speed) => speed,
        Err(error) => {
            return MoveStep::Done(Err(error));
        },
    };
    if replies.len() == 0 {
        let object = with_member(
            operation_value(channel, direction.as_op()),
            "speed",
            value_from_u64(speed.value() as u64),
        );
        return MoveStep::Send {
            delay_ms: 0,
            request: CommandRequest::with_payload(CgiCommand::PtzCtrl, display_value(&object)),
        };
    }
    let started = control_outcome(&replies[0]);
    match duration_ms {
        None => MoveStep::Done(started),
        Some(ms) => {
            if started.is_err() {
                return MoveStep::Done(started);
            }
            if replies.len() == 1 {
                return MoveStep::Send { delay_ms: ms, request: build_stop_request(channel) };
            }
            MoveStep::Done(control_outcome(&replies[1]))
        },
    }
}

/// Stopping: one request.
pub open spec fn stop_step(channel: u8, replies: Seq<Result<ResponseModel, ErrorModel>>) -> MoveModel {
    if replies.len() == 0 {
        MoveModel::Send { delay_ms: 0, request: stop_request(channel) }
    } else {
        MoveModel::Done(control_result(replies[0]))
    }
}

/// Stops the camera.
pub fn stop_ptz(channel: u8, replies: &[CgiReply]) -> (r: MoveStep)
    ensures
        r@ == stop_step(channel, reply_models(replies@)),
{
    if replies.len() == 0 {
        return MoveStep::Send { delay_ms: 0, request: build_stop_request(channel) };
    }
    MoveStep::Done(control_outcome(&replies[0]))
}

/// Moving to a stored position: one request. There is no position with the number zero.
pub open spec fn goto_step(
    channel: u8,
    preset_id: u8,
    replies: Seq<Result<ResponseModel, ErrorModel>>,
) -> MoveModel {
    if preset_id == 0 {
        MoveModel::Done(
            Err(
                error_model(
                    ErrorKind::InvalidInput,
                    "preset_id must be in range 1..=255, got "@ + dec(0),
                ),
            ),
        )
    } else if replies.len() == 0 {
        MoveModel::Send { delay_ms: 0, request: goto_request(channel, preset_id) }
    } else {
        MoveModel::Done(control_result(replies[0]))
    }
}

/// Moves the camera to a stored position.
pub fn goto_preset(channel: u8, preset_id: u8, replies: &[CgiReply]) -> (r: MoveStep)
    ensures
        r@ == goto_step(channel, preset_id, reply_models(replies@)),
{
    let id = match PresetId::new(preset_id) {
        Ok(id) => id,
        Err(error) => {
            return MoveStep::Done(Err(error));
        },
    };
    if replies.len() == 0 {
        let object = with_member(
            operation_value(channel, "ToPos"),
            "id",
            value_from_u64(id.value() as u64),
        );
        return MoveStep::Send {
            delay_ms: 0,
            request: CommandRequest::with_payload(CgiCommand::PtzCtrl, display_value(&object)),
        };
    }
    MoveStep::Done(control_outcome(&replies[0]))
}

// ---------------------------------------------------------------- preset list

/// The stored positions of a channel.
#[derive(Debug, PartialEq, Eq)]
pub struct PresetList {
    pub presets: Vec<PtzPreset>,
}

/// A stored position: its number and its name.
pub open spec fn preset_model(preset: PtzPreset) -> (u8, Option<Seq<char>>) {
    (preset.id@, option_model(preset.name))
}

impl View for PresetList {
    type V = Seq<(u8, Option<Seq<char>>)>;

    open spec fn view(&self) -> Seq<(u8, Option<Seq<char>>)> {
        Seq::new(self.presets@.len(), |i: int| preset_model(self.presets@[i]))
    }
}

/// Asks an object that is an enabled preset for its name.
pub struct PresetNameOf {
    pub channel: u8,
    pub id: u8,
}

impl Probe for PresetNameOf {
    type Out = String;

    open spec fn hit(&self, object: JsonTree) -> Option<Seq<char>> {
        if is_enabled_preset(object, self.channel, self.id as int) {
            filled_text(tree_get(object, "name"@))
        } else {
            None
        }
    }

    fn probe(&self, object: &Json) -> (r: Option<String>) {
        let own = enabled_preset_id(object, self.channel);
        proof {
            assert(is_enabled_preset(object@, self.channel, self.id as int) == (
            own matches Some(n) && n == self.id));
        }
        match own {
            Some(id) => if id == self.id {
                match object.get("name") {
                    Some(inner) => match inner {
                        Json::Text(text) => if is_blank(text.as_str()) {
                            None
                        } else {
                            Some(text.clone())
                        },
                        _ => None,
                    },
                    None => None,
                }
            } else {
                None
            },
            None => None,
        }
    }
}

/// The enabled presets of a channel in ascending order, each with the first name it is given.
/// The number zero names no preset.
pub open spec fn presets_below(tree: JsonTree, channel: u8, below: int) -> Seq<
    (u8, Option<Seq<char>>),
>
    decreases below,
{
    if below <= 1 {
        Seq::empty()
    } else if lists_preset(tree, channel, below - 1) {
        presets_below(tree, channel, below - 1).push(
            (
                (below - 1) as u8,
                search_tree(PresetNameOf { channel, id: (below - 1) as u8 }, tree),
            ),
        )
    } else {
        presets_below(tree, channel, below - 1)
    }
}

/// What a `GetPtzPreset` response lists.
pub open spec fn presets_in(channel: u8, payload: Option<JsonTree>) -> Result<
    Seq<(u8, Option<Seq<char>>)>,
    ErrorModel,
> {
    match payload {
        Some(tree) => Ok(presets_below(named_part(tree, "PtzPreset"@), channel, 256)),
        None => Err(
            error_model(
                ErrorKind::UnexpectedResponse,
                "PTZ presets unavailable for channel "@ + dec(channel as nat),
            ),
        ),
    }
}

pub open spec fn presets_step(
    channel: u8,
    replies: Seq<Result<ResponseModel, ErrorModel>>,
) -> StepModel<Seq<(u8, Option<Seq<char>>)>> {
    if replies.len() == 0 {
        StepModel::Send(status_request(CgiCommand::GetPtzPreset, channel))
    } else {
        match optional_payload(CgiCommand::GetPtzPreset, replies[0]) {
            Err(error) => StepModel::Done(Err(error)),
            Ok(payload) => StepModel::Done(presets_in(channel, payload)),
        }
    }
}

fn collect_presets(value: &Json, channel: u8) -> (r: PresetList)
    ensures
        r@ == presets_below(value@, channel, 256),
{
    let ids = collect_enabled_preset_ids(value, channel);
    let mut presets: Vec<PtzPreset> = Vec::new();
    let mut next: usize = 0;
    let mut below: usize = 1;
    if ids.len() > 0 && ids[0] == 0 {
        next = 1;
    }
    proof {
        lemma_ids_from(value@, channel, 0);
        lemma_ids_from(value@, channel, 1);
        reveal_with_fuel(preset_ids, 2);
        assert(preset_ids(value@, channel, 1).len() == next);
    }
    while below < 256
        invariant
            1 <= below <= 256,
            ids@ == preset_ids(value@, channel, 256),
            next == preset_ids(value@, channel, below as int).len(),
            next <= ids.len(),
            Seq::new(presets@.len(), |i: int| preset_model(presets@[i])) == presets_below(
                value@,
                channel,
                below as int,
            ),
        decreases 256 - below,
    {
        proof {
            lemma_ids_from(value@, channel, below as int);
            lemma_ids_from(value@, channel, below + 1);
        }
        if next < ids.len() && ids[next] as usize == below {
            let id: u8 = below as u8;
            let name = search(&PresetNameOf { channel, id }, value);
            if let Ok(preset_id) = PresetId::new(id) {
                let ghost before = Seq::new(presets@.len(), |i: int| preset_model(presets@[i]));
                presets.push(PtzPreset { id: preset_id, name });
                proof {
                    assert(Seq::new(presets@.len(), |i: int| preset_model(presets@[i])) =~= before.push(
                        (id, option_model(name)),
                    ));
                }
            }
            next = next + 1;
        }
        below = below + 1;
    }
    PresetList { presets }
}

/// The presets below a bound stand at the front, and the next one is at or above it.
proof fn lemma_ids_from(tree: JsonTree, channel: u8, below: int)
    requires
        0 <= below <= 256,
    ensures
        preset_ids(tree, channel, below).len() <= preset_ids(tree, channel, 256).len(),
        below < 256 && lists_preset(tree, channel, below) ==> preset_ids(
            tree,
            channel,
            below,
        ).len() < preset_ids(tree, channel, 256).len() && preset_ids(
            tree,
            channel,
            256,
        )[preset_ids(tree, channel, below).len() as int] == below,
        below < 256 && !lists_preset(tree, channel, below) && preset_ids(
            tree,
            channel,
            below,
        ).len() < preset_ids(tree, channel, 256).len() ==> preset_ids(
            tree,
            channel,
            256,
        )[preset_ids(tree, channel, below).len() as int] > below,
{
    lemma_ids_prefix(tree, channel, below, 256);
    if below < 256 {
        lemma_ids_prefix(tree, channel, below + 1, 256);
        let all = preset_ids(tree, channel, 256);
        let k = preset_ids(tree, channel, below).len() as int;
        if !lists_preset(tree, channel, below) && k < all.len() {
            lemma_ids_bounds(tree, channel, below + 1, 256, k);
        }
    }
}

/// A shorter list of presets is a beginning of a longer one.
proof fn lemma_ids_prefix(tree: JsonTree, channel: u8, low: int, high: int)
    requires
        0 <= low <= high <= 256,
    ensures
        preset_ids(tree, channel, low).len() <= preset_ids(tree, channel, high).len(),
        forall|i: int|
            0 <= i < preset_ids(tree, channel, low).len() ==> preset_ids(tree, channel, low)[i]
                == preset_ids(tree, channel, high)[i],
    decreases high - low,
{
    if low < high {
        lemma_ids_prefix(tree, channel, low, high - 1);
    }
}

/// What a longer list has after a shorter one is at or above the shorter one's bound.
proof fn lemma_ids_bounds(tree: JsonTree, channel: u8, low: int, high: int, k: int)
    requires
        0 <= low <= high <= 256,
        preset_ids(tree, channel, low).len() <= k < preset_ids(tree, channel, high).len(),
    ensures
        preset_ids(tree, channel, high)[k] >= low,
    decreases high - low,
{
    if low < high {
        let shorter = preset_ids(tree, channel, high - 1);
        if k < shorter.len() {
            lemma_ids_bounds(tree, channel, low, high - 1, k);
        }
    }
}

/// The stored positions of a channel.
pub fn list_presets(channel: u8, replies: &[CgiReply]) -> (r: Step<PresetList>)
    ensures
        step_model(r) == presets_step(channel, reply_models(replies@)),
{
    if replies.len() == 0 {
        return Step::Send(build_request(CgiCommand::GetPtzPreset, channel));
    }
    let parsed = match parse_reply(CgiCommand::GetPtzPreset, &replies[0]) {
        Ok(parsed) => parsed,
        Err(error) => {
            return Step::Done(Err(error));
        },
    };
    match payload_of(&parsed, CgiCommand::GetPtzPreset) {
        Some(payload) => Step::Done(Ok(collect_presets(part_named(payload, "PtzPreset"), channel))),
        None => Step::Done(
            Err(
                AppError::with_message(
                    ErrorKind::UnexpectedResponse,
                    join2(
                        "PTZ presets unavailable for channel ",
                        dec_u64(channel as u64).as_str(),
                    ),
                ),
            ),
        ),
    }
}

// ---------------------------------------------------------------- laws

/// What is known of a channel stays known, whatever payloads come.
pub proof fn law_known_values_stay(status: StatusModel, channel: u8, payload: JsonTree)
    ensures
        ({
            let moved = with_position(status, channel, payload);
            let zoomed = with_zoom_focus(status, channel, payload);
            let listed = with_presets(status, channel, payload);
            let checked = with_check_state(status, payload);
            &&& status.pan_position is Some ==> moved.pan_position == status.pan_position
            &&& status.tilt_position is Some ==> moved.tilt_position == status.tilt_position
            &&& status.pan_range is Some ==> moved.pan_range == status.pan_range
            &&& status.tilt_range is Some ==> moved.tilt_range == status.tilt_range
            &&& status.zoom_position is Some ==> zoomed.zoom_position == status.zoom_position
            &&& status.focus_position is Some ==> zoomed.focus_position == status.focus_position
            &&& status.zoom_range is Some ==> zoomed.zoom_range == status.zoom_range
            &&& status.focus_range is Some ==> zoomed.focus_range == status.focus_range
            &&& status.preset_range is Some ==> listed.preset_range == status.preset_range
            &&& status.enabled_presets.len() > 0 ==> listed.enabled_presets.len() > 0
            &&& status.calibration_state is Some ==> checked.calibration_state
                == status.calibration_state
        }),
{
}

/// The enabled presets are in ascending order, and they are those that the response lists.
pub proof fn law_presets_ascend(tree: JsonTree, channel: u8, below: int)
    requires
        0 <= below <= 256,
    ensures
        forall|i: int, j: int|
            0 <= i < j < preset_ids(tree, channel, below).len() ==> preset_ids(
                tree,
                channel,
                below,
            )[i] < preset_ids(tree, channel, below)[j],
        forall|id: u8| #[trigger]
            preset_ids(tree, channel, below).contains(id) <==> id < below && lists_preset(
                tree,
                channel,
                id as int,
            ),
    decreases below,
{
    if below > 0 {
        law_presets_ascend(tree, channel, below - 1);
        let shorter = preset_ids(tree, channel, below - 1);
        let ids = preset_ids(tree, channel, below);
        let last = (below - 1) as u8;
        assert forall|i: int| 0 <= i < shorter.len() implies #[trigger] shorter[i] < below - 1 by {
            assert(shorter.contains(shorter[i]));
        }
        assert forall|id: u8| #[trigger] ids.contains(id) <==> id < below && lists_preset(
            tree,
            channel,
            id as int,
        ) by {
            if lists_preset(tree, channel, below - 1) {
                assert(ids[shorter.len() as int] == last);
                if shorter.contains(id) {
                    let k = choose|k: int| 0 <= k < shorter.len() && shorter[k] == id;
                    assert(ids[k] == id);
                }
                if ids.contains(id) && id != last {
                    let k = choose|k: int| 0 <= k < ids.len() && ids[k] == id;
                    assert(shorter[k] == id);
                }
            }
        }
    }
}

/// A movement with a duration is ended by a stop, after the duration and not before.
pub proof fn law_timed_move_ends_with_stop(
    channel: u8,
    direction: PtzDirection,
    speed: u8,
    duration_ms: u64,
    replies: Seq<Result<ResponseModel, ErrorModel>>,
)
    requires
        1 <= speed <= 64,
        replies.len() == 1,
        control_result(replies[0]) is Ok,
    ensures
        move_step(channel, direction, speed, Some(duration_ms), replies) == (MoveModel::Send {
            delay_ms: duration_ms,
            request: stop_request(channel),
        }),
{
}

/// The status of a channel is decided after four answers.
pub proof fn law_status_ends(channel: u8, replies: Seq<Result<ResponseModel, ErrorModel>>)
    requires
        replies.len() >= 4,
    ensures
        status_step(channel, replies) is Done,
        status_step(channel, replies) matches StepModel::Done(Ok(status)) ==> status.channel
            == channel,
{
}

} // verus!
