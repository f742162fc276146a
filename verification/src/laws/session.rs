//! Requests as they are sent, and what tells a success from a failure.
use crate::command::{command_name, CgiCommand, ParamsModel, RequestModel};
use crate::error::{ErrorKind, ErrorModel};
use crate::json::{
    display_of_json, empty_tree, normalized_text, tree_get, tree_get2, tree_with, unsigned_tree,
    JsonTree,
};
use crate::laws::answers::{is_count, is_integer, law_members_are_found};
use crate::reolink::client::{
    api_url_of, auth_failure, body_text, changed_sessions, has_code, login_payload, login_token,
    param_tree, query_for, response_of, shortened, token_at, token_of, AuthModel, ClientModel,
    HttpReplyModel, NextModel, SessionModel,
};
use crate::text::{contains, dec, lower, trim};
use crate::reolink::auth::user_auth_turn;
use vstd::prelude::*;

verus! {

proof fn lemma_login_keys_differ()
    ensures
        "Version"@ != "userName"@,
        "Version"@ != "password"@,
        "userName"@ != "password"@,
{
    reveal_strlit("Version");
    reveal_strlit("userName");
    reveal_strlit("password");
    assert("Version"@.len() != "userName"@.len());
    assert("Version"@.len() != "password"@.len());
    assert("userName"@[0] != "password"@[0]);
}

/// Each command goes by its own name.
pub proof fn law_commands_go_by_their_names()
    ensures
        command_name(CgiCommand::GetAbility) == "GetAbility"@,
        command_name(CgiCommand::GetDevInfo) == "GetDevInfo"@,
        command_name(CgiCommand::GetChannelStatus) == "GetChannelStatus"@,
        command_name(CgiCommand::GetTime) == "GetTime"@,
        command_name(CgiCommand::SetTime) == "SetTime"@,
        command_name(CgiCommand::GetUserAuth) == "GetUserAuth"@,
        command_name(CgiCommand::GetNetPort) == "GetNetPort"@,
        command_name(CgiCommand::SetNetPort) == "SetNetPort"@,
        command_name(CgiCommand::GetPtzCurPos) == "GetPtzCurPos"@,
        command_name(CgiCommand::GetPtzPreset) == "GetPtzPreset"@,
        command_name(CgiCommand::PtzCtrl) == "PtzCtrl"@,
        command_name(CgiCommand::Snap) == "Snap"@,
        command_name(CgiCommand::Login) == "Login"@,
{
}

/// The body names the command and its action, and carries the parameters, if there are any.
pub proof fn law_body_carries_the_request(request: RequestModel)
    ensures
        ({
            let head = "[{\"cmd\":\""@ + command_name(request.command) + "\",\"action\":"@ + dec(
                request.action as nat,
            );
            &&& param_tree(request.params) is None ==> body_text(request) == head + "}]"@
            &&& param_tree(request.params) matches Some(tree) ==> body_text(request) == head
                + ",\"param\":"@ + display_of_json(tree) + "}]"@
        }),
{
}

/// The channel and the user of a request are its parameters, under their names.
pub proof fn law_parameters_are_carried(channel: u8, user_name: Seq<char>)
    ensures
        param_tree(ParamsModel { user_name: None, channel: None, payload: None }) is None,
        param_tree(ParamsModel { user_name: None, channel: Some(channel), payload: None })
            matches Some(tree) && (tree_get(tree, "channel"@) matches Some(raw) && is_count(
            raw,
            channel as int,
        )),
        param_tree(ParamsModel { user_name: Some(user_name), channel: None, payload: None })
            matches Some(tree) && tree_get2(tree, "User"@, "userName"@) == Some(
            JsonTree::Text(user_name),
        ),
{
    let number = unsigned_tree(channel as u64);
    law_members_are_found(empty_tree(), "channel"@, number, "channel"@);
    let inner = tree_with(empty_tree(), "userName"@, JsonTree::Text(user_name));
    law_members_are_found(empty_tree(), "userName"@, JsonTree::Text(user_name), "userName"@);
    law_members_are_found(empty_tree(), "User"@, inner, "User"@);
    assert(tree_get(empty_tree(), "channel"@) is None);
    assert(tree_get(empty_tree(), "User"@) is None);
}

/// A login names the user and the password, each in its own place.
pub proof fn law_login_names_user_and_password(user: Seq<char>, password: Seq<char>)
    ensures
        tree_get2(login_payload(user, password), "User"@, "userName"@) == Some(
            JsonTree::Text(user),
        ),
        tree_get2(login_payload(user, password), "User"@, "password"@) == Some(
            JsonTree::Text(password),
        ),
        tree_get2(login_payload(user, password), "User"@, "Version"@) == Some(
            JsonTree::Text("0"@),
        ),
{
    lemma_login_keys_differ();
    let version = tree_with(empty_tree(), "Version"@, JsonTree::Text("0"@));
    let named = tree_with(version, "userName"@, JsonTree::Text(user));
    let all = tree_with(named, "password"@, JsonTree::Text(password));
    law_members_are_found(empty_tree(), "Version"@, JsonTree::Text("0"@), "userName"@);
    law_members_are_found(version, "userName"@, JsonTree::Text(user), "Version"@);
    law_members_are_found(named, "password"@, JsonTree::Text(password), "Version"@);
    law_members_are_found(named, "password"@, JsonTree::Text(password), "userName"@);
    law_members_are_found(empty_tree(), "User"@, all, "User"@);
}

/// The query names the command, and the token where there is one.
pub proof fn law_query_names_command_and_token(command: CgiCommand, token: Seq<char>)
    ensures
        query_for(command, AuthModel::Anonymous) == Ok::<Seq<(Seq<char>, Seq<char>)>, ErrorModel>(
            seq![("cmd"@, command_name(command))],
        ),
        trim(token).len() > 0 ==> query_for(command, AuthModel::Token(token)) == Ok::<
            Seq<(Seq<char>, Seq<char>)>,
            ErrorModel,
        >(seq![("cmd"@, command_name(command)), ("token"@, token)]),
        trim(token).len() == 0 ==> query_for(command, AuthModel::Token(token)) is Err,
        forall|user: Seq<char>, password: Seq<char>|
            #[trigger] query_for(command, AuthModel::UserPassword { user, password }) is Err,
{
}

/// Requests go to one place below the endpoint, whether or not it ends with slashes.
pub proof fn law_requests_go_below_the_endpoint(endpoint: Seq<char>)
    requires
        trim(endpoint).len() > 0,
    ensures
        trim(endpoint).last() != '/' ==> api_url_of(endpoint) == Ok::<Seq<char>, ErrorModel>(
            trim(endpoint) + "/cgi-bin/api.cgi"@,
        ),
        api_url_of(endpoint) is Ok,
{
}

// ---------------------------------------------------------------- answers

/// Two numbers in an answer ask for a login, wherever they stand as its code.
pub proof fn law_login_codes(entry: JsonTree, code: i64)
    requires
        entry is Object,
        tree_get(entry, "rspCode"@) matches Some(raw) && is_integer(raw, code as int),
    ensures
        has_code(entry, code),
        has_code(JsonTree::Array(seq![entry]), code),
        code == -6 || code == -7 ==> crate::reolink::client::asks_for_login(
            JsonTree::Array(seq![entry]),
        ),
{
    let probe = crate::reolink::client::ResponseCode { target: code };
    crate::laws::answers::lemma_asked_first(probe, entry);
    assert(seq![entry][0] == entry);
    crate::laws::answers::lemma_asked_in_order(probe, seq![entry], 0);
}

/// An answer is a success where its status is of the two hundreds and it does not ask for a
/// login; a refusal is told from other failures.
pub proof fn law_answers_by_status(
    command: CgiCommand,
    status: u16,
    status_text: Seq<char>,
    body: Seq<char>,
)
    ensures
        ({
            let result = response_of(
                command,
                HttpReplyModel::Answered { status, status_text, body },
            );
            let refused = auth_failure(normalized_text(body));
            &&& status == 401 ==> (result matches Err(error) && error.kind
                == ErrorKind::Authentication)
            &&& status != 401 && !(200 <= status <= 299) ==> (result matches Err(error)
                && error.kind == ErrorKind::Network)
            &&& 200 <= status <= 299 && refused ==> (result matches Err(error) && error.kind
                == ErrorKind::Authentication)
            &&& 200 <= status <= 299 && !refused ==> (result matches Ok(response)
                && response.command == command && response.raw_json == normalized_text(body))
        }),
        response_of(command, HttpReplyModel::SendFailed(body)) matches Err(error) && error.kind
            == ErrorKind::Network,
        response_of(command, HttpReplyModel::BodyFailed(body)) matches Err(error) && error.kind
            == ErrorKind::Network,
        response_of(command, HttpReplyModel::ClientFailed(body)) matches Err(error) && error.kind
            == ErrorKind::Network,
        contains(lower(body), "please login first"@) || contains(lower(body), "login failed"@)
            ==> auth_failure(body),
{
}

/// The token of a login is the one that the camera names; a code that is not zero is a
/// refusal, whatever the answer names.
pub proof fn law_token_is_what_the_camera_names(
    raw_json: Seq<char>,
    entry: JsonTree,
    token: Seq<char>,
    code: i64,
)
    requires
        crate::json::json_of_text(raw_json) == Ok::<JsonTree, Seq<char>>(
            JsonTree::Array(seq![entry]),
        ),
        tree_get(entry, "code"@) matches Some(raw) && is_integer(raw, code as int),
        trim(token).len() > 0,
        tree_get2(entry, "value"@, "Token"@) matches Some(inner) && tree_get(inner, "name"@) == Some(
            JsonTree::Text(token),
        ),
    ensures
        code == 0 ==> login_token(raw_json) == Ok::<Seq<char>, ErrorModel>(token),
        code != 0 ==> (login_token(raw_json) matches Err(error) && error.kind
            == ErrorKind::Authentication),
{
    assert(seq![entry][0] == entry);
}

/// A long text is cut after the limit, and a short one left as it is.
pub proof fn law_long_texts_are_cut(text: Seq<char>, limit: int)
    requires
        limit >= 0,
    ensures
        text.len() <= limit ==> shortened(text, limit) == text,
        text.len() > limit ==> shortened(text, limit).len() == limit + 3 && shortened(
            text,
            limit,
        ).take(limit) =~= text.take(limit) && shortened(text, limit).skip(limit) =~= "..."@,
{
    reveal_strlit("...");
}

// ---------------------------------------------------------------- tokens that are kept

/// A token is kept, forgotten or replaced as it was told, in its own session only.
pub proof fn law_tokens_are_kept_per_session(
    sessions: Seq<Option<Seq<char>>>,
    session: nat,
    other: nat,
    token: Seq<char>,
)
    requires
        session < sessions.len(),
    ensures
        token_of(changed_sessions(sessions, session, SessionModel::Remember(token)), session)
            == Some(token),
        token_of(changed_sessions(sessions, session, SessionModel::Forget), session) is None,
        token_of(changed_sessions(sessions, session, SessionModel::Keep), session) == token_of(
            sessions,
            session,
        ),
        other != session ==> token_of(
            changed_sessions(sessions, session, SessionModel::Remember(token)),
            other,
        ) == token_of(sessions, other) && token_of(
            changed_sessions(sessions, session, SessionModel::Forget),
            other,
        ) == token_of(sessions, other),
{
}

// ---------------------------------------------------------------- places of the token

/// The places where an answer may name the token, the first of them first.
pub proof fn law_places_of_the_token(item: JsonTree, inner: JsonTree, token: Seq<char>)
    requires
        trim(token).len() > 0,
    ensures
        tree_get2(item, "value"@, "Token"@) == Some(inner) && tree_get(inner, "name"@) == Some(
            JsonTree::Text(token),
        ) ==> token_at(item) == Some(token),
        tree_get2(item, "value"@, "Token"@) == Some(inner) && tree_get(inner, "name"@) is None
            && tree_get(inner, "token"@) == Some(JsonTree::Text(token)) ==> token_at(item) == Some(
            token,
        ),
        tree_get2(item, "value"@, "Token"@) is None && tree_get2(item, "value"@, "token"@) == Some(
            JsonTree::Text(token),
        ) ==> token_at(item) == Some(token),
        tree_get(item, "value"@) is None && tree_get2(item, "Token"@, "name"@) == Some(
            JsonTree::Text(token),
        ) ==> token_at(item) == Some(token),
        tree_get(item, "value"@) is None && tree_get(item, "Token"@) is None && tree_get(
            item,
            "token"@,
        ) == Some(JsonTree::Text(token)) ==> token_at(item) == Some(token),
        tree_get(item, "value"@) is None && tree_get(item, "Token"@) is None && tree_get(
            item,
            "token"@,
        ) is None ==> token_at(item) is None,
{
}

// ---------------------------------------------------------------- the token of a user

/// A user's token is asked for with a login of that user and that password; the request that
/// follows it names the user, and the token is the one in its answer.
pub proof fn law_token_of_a_user(
    client: ClientModel,
    user: Seq<char>,
    password: Seq<char>,
    login: HttpReplyModel,
    response: crate::command::ResponseModel,
    token: Seq<char>,
    url: Seq<char>,
)
    requires
        trim(user).len() > 0,
        password.len() > 0,
        api_url_of(client.endpoint) == Ok::<Seq<char>, ErrorModel>(url),
        client.fallback_auth is None,
        response_of(CgiCommand::Login, login) == Ok::<crate::command::ResponseModel, ErrorModel>(
            response,
        ),
        login_token(response.raw_json) == Ok::<Seq<char>, ErrorModel>(token),
        trim(token).len() > 0,
    ensures
        user_auth_turn(client, user, password, Seq::empty()).next matches NextModel::Post(post)
            && post.url == url && post.query == seq![("cmd"@, "Login"@)] && post.body == body_text(
            crate::command::request_model(
                CgiCommand::Login,
                crate::command::payload_params(display_of_json(login_payload(user, password))),
            ),
        ),
        user_auth_turn(client, user, password, seq![login]).next matches NextModel::Post(post)
            && post.url == url && post.query == seq![("cmd"@, "GetUserAuth"@), ("token"@, token)]
            && post.body == body_text(
            crate::command::request_model(
                CgiCommand::GetUserAuth,
                crate::command::user_params(user),
            ),
        ),
        user_auth_turn(client, user, Seq::empty(), Seq::empty()).next matches NextModel::Done(
            Err(error),
        ) && error.kind == ErrorKind::InvalidInput,
{
    assert(seq![login][0] == login);
    assert(seq![login].skip(1).len() == 0);
}

} // verus!
