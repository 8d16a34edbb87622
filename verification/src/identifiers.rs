//! Well-formedness of the identifiers that the chat protocol uses.

use vstd::prelude::*;

verus! {

/// Whether a text is a well-formed user id, as `ruma` judges it.
pub uninterp spec fn valid_user_id(text: Seq<char>) -> bool;

/// Whether a text is a well-formed room id: it starts with `!`.
pub open spec fn valid_room_id(text: Seq<char>) -> bool {
    text.len() > 0 && text[0] == '!'
}

/// Calls `TryFrom<&str>` of `&matrix_sdk::ruma::UserId`. Trusted: the
/// answer depends on the text alone.
#[verifier::external_body]
pub(crate) fn user_id_parses(text: &str) -> (out: bool)
    ensures
        out == valid_user_id(text@),
{
    <&matrix_sdk::ruma::UserId>::try_from(text).is_ok()
}

/// Calls `TryFrom<&str>` of `&matrix_sdk::ruma::RoomId`. Trusted: the text
/// is accepted exactly when its first byte is `!`. That is all that `ruma`
/// asks of a room id where ids of any length are admitted, as they are in
/// the build that `matrix-sdk` asks for.
#[verifier::external_body]
pub(crate) fn room_id_parses(text: &str) -> (out: bool)
    ensures
        out == valid_room_id(text@),
{
    <&matrix_sdk::ruma::RoomId>::try_from(text).is_ok()
}

} // verus!
