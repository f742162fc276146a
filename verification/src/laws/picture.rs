//! Pictures: how their bytes are written as text, and where they are saved.
use crate::command::{CgiCommand, ResponseModel};
use crate::error::ErrorModel;
use crate::json::{tree_get, tree_get2, JsonTree};
use crate::laws::answers::is_integer;
use crate::reolink::media::{
    base64_bytes, base64_text, entry_image, image_of, output_path, quad_bytes, sextet, sextet_char,
    snap_of, snap_step, text_bytes, SaveModel, SnapModel,
};
use crate::text::{dec, trim};
use vstd::prelude::*;

verus! {

/// The letters stand for the first twenty-six numbers, the small letters for the next, then
/// come the digits, the plus and the slash; a minus and an underline stand for the last two
/// as well.
pub proof fn law_letters_stand_for_numbers(c: char, n: int)
    requires
        0 <= n < 64,
    ensures
        'A' <= c <= 'Z' ==> sextet(c) == Some(c as int - 'A' as int),
        'a' <= c <= 'z' ==> sextet(c) == Some(26 + (c as int - 'a' as int)),
        '0' <= c <= '9' ==> sextet(c) == Some(52 + (c as int - '0' as int)),
        sextet('+') == Some(62int) && sextet('-') == Some(62int),
        sextet('/') == Some(63int) && sextet('_') == Some(63int),
        sextet('=') is None && sextet(' ') is None,
        sextet(sextet_char(n)) == Some(n),
        sextet_char(62) == '+' && sextet_char(63) == '/',
{
}

/// Four letters are twenty-four bits, and those are three bytes, the highest first.
pub proof fn law_four_letters_are_three_bytes(q0: char, q1: char, q2: char, q3: char)
    requires
        sextet(q0) is Some,
        sextet(q1) is Some,
        sextet(q2) is Some,
        sextet(q3) is Some,
    ensures
        quad_bytes(q0, q1, q2, q3) matches Some(bytes) && bytes.len() == 3 && bytes[0] * 65536
            + bytes[1] * 256 + bytes[2] == sextet(q0)->0 * 262144 + sextet(q1)->0 * 4096 + sextet(
            q2,
        )->0 * 64 + sextet(q3)->0,
{
    let a = sextet(q0)->0;
    let b = sextet(q1)->0;
    let c = sextet(q2)->0;
    let d = sextet(q3)->0;
    assert(0 <= a < 64 && 0 <= b < 64 && 0 <= c < 64 && 0 <= d < 64);
    assert(0 <= a * 4 + b / 16 < 256);
    assert(0 <= (b % 16) * 16 + c / 4 < 256);
    assert(0 <= (c % 4) * 64 + d < 256);
}

/// Three bytes are written as four letters of the same twenty-four bits, before the rest.
pub proof fn law_three_bytes_are_four_letters(bytes: Seq<u8>)
    requires
        bytes.len() >= 3,
    ensures
        ({
            let text = base64_text(bytes);
            &&& text.len() >= 4
            &&& bytes[0] * 65536 + bytes[1] * 256 + bytes[2] == sextet(text[0])->0 * 262144
                + sextet(text[1])->0 * 4096 + sextet(text[2])->0 * 64 + sextet(text[3])->0
            &&& text.skip(4) =~= base64_text(bytes.skip(3))
        }),
{
    let a = bytes[0] as int;
    let b = bytes[1] as int;
    let c = bytes[2] as int;
    law_letters_stand_for_numbers('A', a / 4);
    law_letters_stand_for_numbers('A', (a % 4) * 16 + b / 16);
    law_letters_stand_for_numbers('A', (b % 16) * 4 + c / 64);
    law_letters_stand_for_numbers('A', c % 64);
}

// ---------------------------------------------------------------- answers

/// A list of numbers is a picture of these bytes.
pub proof fn law_lists_are_pictures(items: Seq<JsonTree>, bytes: Seq<u8>)
    requires
        items.len() == bytes.len(),
        forall|i: int|
            0 <= i < items.len() ==> crate::laws::answers::is_count(
                #[trigger] items[i],
                bytes[i] as int,
            ),
    ensures
        image_of(JsonTree::Array(items)) == Some(bytes),
{
    lemma_item_bytes(items, bytes);
}

proof fn lemma_item_bytes(items: Seq<JsonTree>, bytes: Seq<u8>)
    requires
        items.len() == bytes.len(),
        forall|i: int|
            0 <= i < items.len() ==> crate::laws::answers::is_count(
                #[trigger] items[i],
                bytes[i] as int,
            ),
    ensures
        crate::reolink::media::item_bytes(items) == Some(bytes),
    decreases items.len(),
{
    if items.len() > 0 {
        let k = items.len() - 1;
        assert(crate::laws::answers::is_count(items[k], bytes[k] as int));
        assert forall|i: int| 0 <= i < items.drop_last().len() implies crate::laws::answers::is_count(
            #[trigger] items.drop_last()[i],
            bytes.drop_last()[i] as int,
        ) by {
            assert(items.drop_last()[i] == items[i]);
        }
        lemma_item_bytes(items.drop_last(), bytes.drop_last());
        assert(bytes.drop_last().push(bytes[k]) =~= bytes);
    } else {
        assert(bytes =~= Seq::<u8>::empty());
    }
}

/// The picture is the one that the answer holds; an answer with another code than zero is an
/// error, whatever it holds.
pub proof fn law_picture_is_in_the_answer(
    raw_json: Seq<char>,
    entry: JsonTree,
    image: JsonTree,
    bytes: Seq<u8>,
    code: i64,
)
    requires
        crate::json::json_of_text(raw_json) == Ok::<JsonTree, Seq<char>>(
            JsonTree::Array(seq![entry]),
        ),
        tree_get(entry, "code"@) matches Some(raw) && is_integer(raw, code as int),
        tree_get2(entry, "value"@, "imageBase64"@) == Some(image),
        image_of(image) == Some(bytes),
    ensures
        code == 0 ==> snap_of(raw_json) == Ok::<Seq<u8>, ErrorModel>(bytes),
        code != 0 ==> snap_of(raw_json) is Err,
{
    assert(seq![entry][0] == entry);
}

// ---------------------------------------------------------------- saving

/// A picture is saved where it was asked for, but for white space around the path, and else
/// under the name of its channel.
pub proof fn law_pictures_have_their_place(channel: u8, path: Seq<char>)
    ensures
        output_path(channel, None) == Ok::<Seq<char>, ErrorModel>(
            "snapshots/channel-"@ + dec(channel as nat) + ".jpg"@,
        ),
        trim(path).len() > 0 ==> output_path(channel, Some(path)) == Ok::<Seq<char>, ErrorModel>(
            trim(path),
        ),
        trim(path).len() == 0 ==> output_path(channel, Some(path)) is Err,
{
}

/// The camera is asked for a picture of the channel; its bytes are saved as they are, and what
/// is reported is where, of which channel and how many.
pub proof fn law_picture_is_taken_saved_and_reported(
    channel: u8,
    out_path: Option<Seq<char>>,
    response: ResponseModel,
    bytes: Seq<u8>,
    path: Seq<char>,
)
    requires
        snap_of(response.raw_json) == Ok::<Seq<u8>, ErrorModel>(bytes),
        output_path(channel, out_path) == Ok::<Seq<char>, ErrorModel>(path),
        bytes.len() <= usize::MAX,
    ensures
        snap_step(channel, out_path, None, None) matches SnapModel::Send(request) && request.command
            == CgiCommand::Snap && request.params.channel == Some(channel),
        snap_step(channel, out_path, Some(Ok(response)), None) == (SnapModel::Save { path, bytes }),
        snap_step(channel, out_path, Some(Ok(response)), Some(SaveModel::Saved))
            matches SnapModel::Done(Ok(snapshot)) && snapshot.channel == channel
            && snapshot.image_path == path && snapshot.bytes_written == bytes.len(),
{
}

// ---------------------------------------------------------------- places of the picture

/// The places where an answer may hold the picture, the first of them first.
pub proof fn law_places_of_the_picture(entry: JsonTree, value: JsonTree, image: JsonTree, bytes: Seq<u8>)
    requires
        image_of(image) == Some(bytes),
    ensures
        tree_get(entry, "value"@) == Some(value) && tree_get(value, "imageBase64"@) is None
            && tree_get(value, "base64"@) == Some(image) ==> entry_image(entry) == Some(bytes),
        tree_get(entry, "value"@) == Some(value) && tree_get(value, "imageBase64"@) is None
            && tree_get(value, "base64"@) is None && tree_get(value, "b64"@) is None && tree_get(
            value,
            "data"@,
        ) == Some(image) ==> entry_image(entry) == Some(bytes),
        tree_get(entry, "value"@) is None && tree_get(entry, "imageBase64"@) == Some(image)
            ==> entry_image(entry) == Some(bytes),
        tree_get(entry, "value"@) is None && tree_get(entry, "imageBase64"@) is None && tree_get(
            entry,
            "base64"@,
        ) == Some(image) ==> entry_image(entry) == Some(bytes),
        tree_get(entry, "value"@) is None && tree_get(entry, "imageBase64"@) is None && tree_get(
            entry,
            "base64"@,
        ) is None && tree_get(entry, "b64"@) is None && tree_get(entry, "data"@) == Some(image)
            ==> entry_image(entry) == Some(bytes),
        tree_get(entry, "value"@) is None && tree_get(entry, "imageBase64"@) is None && tree_get(
            entry,
            "base64"@,
        ) is None && tree_get(entry, "b64"@) is None && tree_get(entry, "data"@) is None
            && tree_get(entry, "bytes"@) is None ==> entry_image(entry) is None,
{
}

/// A picture in an address is what stands behind its comma, where it says that it is written
/// so.
pub proof fn law_pictures_in_addresses(
    kind: Seq<char>,
    payload: Seq<char>,
    text: Seq<char>,
    bytes: Seq<u8>,
)
    requires
        text == "data:"@ + kind + ";base64,"@ + payload,
        forall|i: int| 0 <= i < kind.len() ==> #[trigger] kind[i] != ',',
        trim(text) == text,
        base64_bytes(payload) == Some(bytes),
    ensures
        text_bytes(text) == Some(bytes),
        image_of(JsonTree::Text(text)) == Some(bytes),
{
    reveal_strlit("data:");
    reveal_strlit(";base64,");
    reveal_strlit(";base64");
    let comma = 5 + kind.len() as int + 7;
    assert(text[comma] == ',');
    assert forall|j: int| 0 <= j < comma implies text[j] != ',' by {
        if 5 <= j < 5 + kind.len() {
            assert(text[j] == kind[j - 5]);
        }
    }
    crate::laws::documents::law_letters_are_found(text, ',', 0, comma);
    assert(text.skip(comma + 1) =~= payload);
    assert(text.subrange(0, 5) =~= "data:"@);
    let head = crate::text::lower(text.take(comma));
    let at = 5 + kind.len() as int;
    assert(head.subrange(at, at + 7) =~= ";base64"@);
    assert(crate::text::occurs_at(head, ";base64"@, at));
}

/// A text that is neither written so nor a path is a picture of its own letters.
pub proof fn law_plain_texts_are_their_own_bytes(text: Seq<char>)
    requires
        trim(text) == text,
        text.len() > 0,
        !crate::text::starts_with(text, "data:"@),
        !crate::reolink::media::looks_like_base64_text(text),
    ensures
        !crate::reolink::media::looks_like_path(text) ==> text_bytes(text) == Some(
            vstd::utf8::encode_utf8(text),
        ),
        crate::reolink::media::looks_like_path(text) ==> text_bytes(text) is None,
        text.contains('/') || text.contains('\\') ==> crate::reolink::media::looks_like_path(text),
{
}

/// Of an answer with several entries the first is the one.
pub proof fn law_first_entry_of_a_picture(items: Seq<JsonTree>, entry: JsonTree)
    ensures
        items.len() > 0 ==> crate::reolink::media::first_entry(JsonTree::Array(items)) == items[0],
        entry is Object ==> crate::reolink::media::first_entry(entry) == entry,
{
}

/// A picture that could not be saved is an error.
pub proof fn law_pictures_that_could_not_be_saved(
    channel: u8,
    out_path: Option<Seq<char>>,
    response: ResponseModel,
    directory: Seq<char>,
    reason: Seq<char>,
    error: ErrorModel,
)
    requires
        snap_of(response.raw_json) is Ok,
        output_path(channel, out_path) is Ok,
    ensures
        snap_step(
            channel,
            out_path,
            Some(Ok(response)),
            Some(SaveModel::WriteFailed { error: reason }),
        ) matches SnapModel::Done(Err(_)),
        snap_step(
            channel,
            out_path,
            Some(Ok(response)),
            Some(SaveModel::DirectoryFailed { directory, error: reason }),
        ) matches SnapModel::Done(Err(_)),
        snap_step(channel, out_path, Some(Err(error)), None) == SnapModel::Done(Err(error)),
{
}

} // verus!
