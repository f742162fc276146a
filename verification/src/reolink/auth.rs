//! The exchange of a user and a password for a token.
use crate::command::{request_model, user_params, CgiCommand, CommandRequest};
use crate::error::{error_model, result_model, AppError, AppResult, ErrorKind, ErrorModel};
use crate::json::{parse_response_json, response_tree};
use crate::reolink::client::{
    client_turn, failed_turn, http_models, token_from_json, token_in, turn_model, Auth, AuthModel,
    Client, ClientModel, HttpReply, HttpReplyModel, Next, NextModel, SessionChange, SessionModel, Sessions,
    Turn, TurnModel,
};
use crate::text::{is_blank, trim};
use vstd::prelude::*;

verus! {

/// The token in the text of a `GetUserAuth` response.
pub open spec fn user_token(raw_json: Seq<char>) -> Result<Seq<char>, ErrorModel> {
    match response_tree(CgiCommand::GetUserAuth, raw_json) {
        Ok(tree) => token_in(
            tree,
            CgiCommand::GetUserAuth,
            "GetUserAuth response array was empty"@,
            "GetUserAuth succeeded but token was not found in response"@,
        ),
        Err(error) => Err(error),
    }
}

fn extract_token(raw_json: &str) -> (r: AppResult<String>)
    ensures
        result_model(r) == user_token(raw_json@),
{
    match parse_response_json(raw_json, CgiCommand::GetUserAuth) {
        Ok(parsed) => token_from_json(
            &parsed,
            CgiCommand::GetUserAuth,
            "GetUserAuth response array was empty",
            "GetUserAuth succeeded but token was not found in response",
        ),
        Err(error) => Err(error),
    }
}

/// What a `GetUserAuth` takes and what it comes to: a client with the user's credentials
/// asks for the user's token.
pub open spec fn user_auth_turn(
    client: ClientModel,
    user_name: Seq<char>,
    password: Seq<char>,
    replies: Seq<HttpReplyModel>,
) -> TurnModel<Seq<char>> {
    if trim(user_name).len() == 0 {
        failed_turn(
            SessionModel::Keep,
            error_model(ErrorKind::InvalidInput, "user_name must not be empty"@),
        )
    } else if password.len() == 0 {
        failed_turn(
            SessionModel::Keep,
            error_model(ErrorKind::InvalidInput, "password must not be empty"@),
        )
    } else {
        let turn = client_turn(
            ClientModel {
                auth: AuthModel::UserPassword { user: user_name, password },
                session: 0,
                ..client
            },
            None,
            request_model(CgiCommand::GetUserAuth, user_params(user_name)),
            replies,
        );
        TurnModel {
            session: turn.session,
            next: match turn.next {
                NextModel::Post(post) => NextModel::Post(post),
                NextModel::Done(Err(error)) => NextModel::Done(Err(error)),
                NextModel::Done(Ok(response)) => NextModel::Done(user_token(response.raw_json)),
            },
        }
    }
}

/// The token of a user. The changes to a kept token concern the session that is opened for
/// this, not that of the given client.
pub fn get_user_auth(
    client: &Client,
    user_name: &str,
    password: &str,
    replies: &[HttpReply],
) -> (r: Turn<String>)
    ensures
        turn_model(r) == user_auth_turn(client@, user_name@, password@, http_models(replies@)),
{
    if is_blank(user_name) {
        return Turn {
            session: SessionChange::Keep,
            next: Next::Done(
                Err(AppError::new(ErrorKind::InvalidInput, "user_name must not be empty")),
            ),
        };
    }
    if password.is_empty() {
        return Turn {
            session: SessionChange::Keep,
            next: Next::Done(
                Err(AppError::new(ErrorKind::InvalidInput, "password must not be empty")),
            ),
        };
    }
    let mut sessions = Sessions::new();
    let authenticated = client.with_auth(
        &mut sessions,
        Auth::UserPassword { user: user_name.to_owned(), password: password.to_owned() },
    );
    let request = CommandRequest::for_user(CgiCommand::GetUserAuth, user_name);
    let turn = authenticated.execute(&sessions, &request, replies);
    let next = match turn.next {
        Next::Post(post) => Next::Post(post),
        Next::Done(Err(error)) => Next::Done(Err(error)),
        Next::Done(Ok(response)) => Next::Done(extract_token(response.raw_json.as_str())),
    };
    Turn { session: turn.session, next }
}

} // verus!
