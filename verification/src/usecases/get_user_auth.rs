//! Exchanging a user and a password for a token.
use crate::reolink::auth;
use crate::reolink::auth::user_auth_turn;
use crate::reolink::client::{http_models, turn_model, Client, HttpReply, Turn};
use vstd::prelude::*;

verus! {

pub fn execute(
    client: &Client,
    user_name: &str,
    password: &str,
    replies: &[HttpReply],
) -> (r: Turn<String>)
    ensures
        turn_model(r) == user_auth_turn(client@, user_name@, password@, http_models(replies@)),
{
    auth::get_user_auth(client, user_name, password, replies)
}

} // verus!
