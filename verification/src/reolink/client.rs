//! The client: which HTTP requests a command takes, and what their answers come to.
//!
//! A camera is asked over HTTP. With a user and a password the client logs in first and
//! then works with the token that it got; a token that the camera refuses is given up and
//! another login is made.
use crate::command::{
    command_name, payload_params, request_model, CgiCommand, CommandParams, CommandRequest,
    CommandResponse, ParamsModel, RequestModel, ResponseModel,
};
use crate::error::{error_model, result_model, AppError, AppResult, ErrorKind, ErrorModel};
use crate::json::{
    display_of_json, display_value, empty_object, empty_tree, is_int, json_of_text,
    lemma_item_trees, normalize_text, normalized_text, option_model, parse_json,
    parse_response_json, response_tree, search, search_tree, tree_get, tree_get2, tree_int,
    tree_int_exact, tree_with, tree_with_payload, unsigned_tree, value_from_text, value_from_u64,
    value_tree, with_member, with_payload, Json, JsonTree, Probe,
};
use crate::text::{
    contains, contains_text, dec, dec_i64, dec_int, dec_u64, is_blank, join2, join3, lower,
    lower_text, same_text, slice_text, to_chars, trim, trim_text,
};
use vstd::prelude::*;

verus! {

// ---------------------------------------------------------------- credentials

#[derive(Debug, Clone, PartialEq, Eq)]
pub enum Auth {
    Anonymous,
    UserPassword { user: String, password: String },
    Token(String),
}

pub ghost enum AuthModel {
    Anonymous,
    UserPassword { user: Seq<char>, password: Seq<char> },
    Token(Seq<char>),
}

impl View for Auth {
    type V = AuthModel;

    open spec fn view(&self) -> AuthModel {
        match self {
            Auth::Anonymous => AuthModel::Anonymous,
            Auth::UserPassword { user, password } => AuthModel::UserPassword {
                user: user@,
                password: password@,
            },
            Auth::Token(token) => AuthModel::Token(token@),
        }
    }
}

impl Auth {
    /// A copy of the credentials.
    pub fn duplicate(&self) -> (r: Self)
        ensures
            r@ == self@,
    {
        match self {
            Auth::Anonymous => Auth::Anonymous,
            Auth::UserPassword { user, password } => Auth::UserPassword {
                user: user.clone(),
                password: password.clone(),
            },
            Auth::Token(token) => Auth::Token(token.clone()),
        }
    }
}

fn copy_optional_auth(auth: &Option<Auth>) -> (r: Option<Auth>)
    ensures
        option_model(r) == option_model(*auth),
{
    match auth {
        Some(inner) => Some(inner.duplicate()),
        None => None,
    }
}

// ---------------------------------------------------------------- requests

/// The parameters of a request as one object, where it has any.
pub open spec fn param_tree(params: ParamsModel) -> Option<JsonTree> {
    let root = match params.user_name {
        Some(user_name) => tree_with(
            empty_tree(),
            "User"@,
            tree_with(empty_tree(), "userName"@, JsonTree::Text(user_name)),
        ),
        None => empty_tree(),
    };
    let root = match params.channel {
        Some(channel) => tree_with(root, "channel"@, unsigned_tree(channel as u64)),
        None => root,
    };
    let root = match params.payload {
        Some(payload) => tree_with_payload(root, payload),
        None => root,
    };
    if root == empty_tree() {
        None
    } else {
        Some(root)
    }
}

/// The body of a request: a list of one object with the command's name, the action and the
/// parameters.
pub open spec fn body_text(request: RequestModel) -> Seq<char> {
    let head = "[{\"cmd\":\""@ + command_name(request.command) + "\",\"action\":"@ + dec(
        request.action as nat,
    );
    match param_tree(request.params) {
        Some(tree) => head + ",\"param\":"@ + display_of_json(tree) + "}]"@,
        None => head + "}]"@,
    }
}

fn build_param(params: &CommandParams) -> (r: Option<serde_json::Value>)
    ensures
        match r {
            Some(value) => param_tree(params@) == Some(value_tree(value)),
            None => param_tree(params@) is None,
        },
{
    let mut root = empty_object();
    let mut is_empty = true;
    if let Some(user_name) = &params.user_name {
        let user = with_member(empty_object(), "userName", value_from_text(user_name.as_str()));
        root = with_member(root, "User", user);
        is_empty = false;
        proof {
            lemma_put_is_not_empty(empty_tree(), "User"@, value_tree(user));
        }
    }
    if let Some(channel) = params.channel {
        let ghost before = value_tree(root);
        let number = value_from_u64(channel as u64);
        root = with_member(root, "channel", number);
        is_empty = false;
        proof {
            lemma_put_is_not_empty(before, "channel"@, value_tree(number));
        }
    }
    if let Some(payload) = &params.payload {
        root = with_payload(root, payload.as_str());
        is_empty = crate::json::is_empty_object(&root);
    }
    if is_empty {
        None
    } else {
        Some(root)
    }
}

proof fn lemma_put_is_not_empty(object: JsonTree, name: Seq<char>, value: JsonTree)
    ensures
        tree_with(object, name, value) != empty_tree(),
{
    let members = object->Object_0;
    let put = crate::json::put_member(members, name, value);
    assert(put.len() > 0);
    assert(tree_with(object, name, value)->Object_0.len() > 0);
}

/// The body that is sent for a request.
pub fn build_request_body(request: &CommandRequest) -> (r: String)
    ensures
        r@ == body_text(request@),
{
    let mut out = join3("[{\"cmd\":\"", request.command.as_str(), "\",\"action\":");
    out.append(dec_u64(request.action as u64).as_str());
    match build_param(&request.params) {
        Some(value) => {
            out.append(",\"param\":");
            out.append(display_value(&value).as_str());
            out.append("}]");
        },
        None => {
            out.append("}]");
        },
    }
    out
}

/// The text without the slashes at its end.
pub open spec fn without_slashes(s: Seq<char>) -> Seq<char>
    decreases s.len(),
{
    if s.len() > 0 && s.last() == '/' {
        without_slashes(s.drop_last())
    } else {
        s
    }
}

/// The address of the camera's interface.
pub open spec fn api_url_of(endpoint: Seq<char>) -> Result<Seq<char>, ErrorModel> {
    if trim(endpoint).len() == 0 {
        Err(error_model(ErrorKind::InvalidInput, "endpoint must not be empty"@))
    } else {
        Ok(without_slashes(trim(endpoint)) + "/cgi-bin/api.cgi"@)
    }
}

fn strip_slashes(s: &str) -> (r: String)
    ensures
        r@ == without_slashes(s@),
{
    let chars = to_chars(s);
    let mut end: usize = chars.len();
    proof {
        assert(chars@.take(end as int) =~= s@);
    }
    while end > 0 && chars[end - 1] == '/'
        invariant
            end <= chars.len(),
            without_slashes(s@) == without_slashes(chars@.take(end as int)),
        decreases end,
    {
        proof {
            assert(chars@.take(end as int).drop_last() =~= chars@.take(end - 1));
            assert(chars@.take(end as int).last() == chars@[end - 1]);
        }
        end = end - 1;
    }
    proof {
        if end > 0 {
            assert(chars@.take(end as int).last() == chars@[end - 1]);
        }
        assert(chars@.subrange(0, end as int) =~= chars@.take(end as int));
    }
    slice_text(chars.as_slice(), 0, end)
}

/// The query of a request: the command, and the token where one is used.
pub open spec fn query_for(command: CgiCommand, auth: AuthModel) -> Result<
    Seq<(Seq<char>, Seq<char>)>,
    ErrorModel,
> {
    match auth {
        AuthModel::Anonymous => Ok(seq![("cmd"@, command_name(command))]),
        AuthModel::UserPassword { user, password } => Err(
            error_model(
                ErrorKind::InvalidInput,
                if trim(user).len() == 0 || password.len() == 0 {
                    "user/password auth requires non-empty credentials"@
                } else {
                    "user/password auth must be exchanged through Login before issuing commands"@
                },
            ),
        ),
        AuthModel::Token(token) => if trim(token).len() == 0 {
            Err(error_model(ErrorKind::InvalidInput, "token auth requires non-empty token"@))
        } else {
            Ok(seq![("cmd"@, command_name(command)), ("token"@, token)])
        },
    }
}

/// The pairs of a query, taken by their views.
pub open spec fn pair_models(pairs: Seq<(String, String)>) -> Seq<(Seq<char>, Seq<char>)> {
    Seq::new(pairs.len(), |i: int| (pairs[i].0@, pairs[i].1@))
}

fn query_params_for_auth(command: CgiCommand, auth: &Auth) -> (r: AppResult<
    Vec<(String, String)>,
>)
    ensures
        match r {
            Ok(pairs) => query_for(command, auth@) == Ok::<
                Seq<(Seq<char>, Seq<char>)>,
                ErrorModel,
            >(pair_models(pairs@)),
            Err(error) => query_for(command, auth@) == Err::<
                Seq<(Seq<char>, Seq<char>)>,
                ErrorModel,
            >(error@),
        },
{
    let mut pairs: Vec<(String, String)> = Vec::new();
    pairs.push(("cmd".to_owned(), command.as_str().to_owned()));
    match auth {
        Auth::Anonymous => {
            proof {
                assert(pair_models(pairs@) =~= seq![("cmd"@, command_name(command))]);
            }
            Ok(pairs)
        },
        Auth::UserPassword { user, password } => {
            if is_blank(user.as_str()) || password.as_str().is_empty() {
                return Err(
                    AppError::new(
                        ErrorKind::InvalidInput,
                        "user/password auth requires non-empty credentials",
                    ),
                );
            }
            Err(
                AppError::new(
                    ErrorKind::InvalidInput,
                    "user/password auth must be exchanged through Login before issuing commands",
                ),
            )
        },
        Auth::Token(token) => {
            if is_blank(token.as_str()) {
                return Err(
                    AppError::new(ErrorKind::InvalidInput, "token auth requires non-empty token"),
                );
            }
            pairs.push(("token".to_owned(), token.clone()));
            proof {
                assert(pair_models(pairs@) =~= seq![
                    ("cmd"@, command_name(command)),
                    ("token"@, token@),
                ]);
            }
            Ok(pairs)
        },
    }
}

// ---------------------------------------------------------------- answers

/// What came of an HTTP request.
#[derive(Debug, Clone, PartialEq, Eq)]
pub enum HttpReply {
    /// No HTTP client could be made.
    ClientFailed(String),
    /// The request could not be sent.
    SendFailed(String),
    /// The body of the answer could not be read.
    BodyFailed(String),
    Answered { status: u16, status_text: String, body: String },
}

pub ghost enum HttpReplyModel {
    ClientFailed(Seq<char>),
    SendFailed(Seq<char>),
    BodyFailed(Seq<char>),
    Answered { status: u16, status_text: Seq<char>, body: Seq<char> },
}

impl View for HttpReply {
    type V = HttpReplyModel;

    open spec fn view(&self) -> HttpReplyModel {
        match self {
            HttpReply::ClientFailed(message) => HttpReplyModel::ClientFailed(message@),
            HttpReply::SendFailed(message) => HttpReplyModel::SendFailed(message@),
            HttpReply::BodyFailed(message) => HttpReplyModel::BodyFailed(message@),
            HttpReply::Answered { status, status_text, body } => HttpReplyModel::Answered {
                status: *status,
                status_text: status_text@,
                body: body@,
            },
        }
    }
}

/// The beginning of a text, with three dots where it goes on.
pub open spec fn shortened(s: Seq<char>, limit: int) -> Seq<char> {
    if s.len() > limit {
        s.take(limit) + "..."@
    } else {
        s
    }
}

/// The beginning of a text, with three dots where it goes on.
pub fn truncate_text(s: &str, limit: usize) -> (r: String)
    ensures
        r@ == shortened(s@, limit as int),
{
    let chars = to_chars(s);
    if chars.len() > limit {
        proof {
            assert(chars@.subrange(0, limit as int) =~= s@.take(limit as int));
        }
        join2(slice_text(chars.as_slice(), 0, limit).as_str(), "...")
    } else {
        s.to_owned()
    }
}

/// Asks an object for a response code.
pub struct ResponseCode {
    pub target: i64,
}

impl Probe for ResponseCode {
    type Out = bool;

    open spec fn hit(&self, object: JsonTree) -> Option<bool> {
        match tree_get(object, "rspCode"@) {
            Some(raw) => if tree_int(raw) == Some(self.target as int) {
                Some(true)
            } else {
                None
            },
            None => None,
        }
    }

    fn probe(&self, object: &Json) -> (r: Option<bool>) {
        match object.get("rspCode") {
            Some(raw) => match raw.as_int() {
                Some(code) => if code == self.target {
                    Some(true)
                } else {
                    None
                },
                None => None,
            },
            None => None,
        }
    }
}

/// A code stands under `rspCode` somewhere in a tree.
pub open spec fn has_code(tree: JsonTree, target: i64) -> bool {
    search_tree(ResponseCode { target }, tree) is Some
}

fn contains_rsp_code(value: &Json, target: i64) -> (r: bool)
    ensures
        r == has_code(value@, target),
{
    search(&ResponseCode { target }, value).is_some()
}

/// The code for a request without a valid token.
pub const CODE_LOGIN_REQUIRED: i64 = -6;

/// The code for a login that was refused.
pub const CODE_LOGIN_REFUSED: i64 = -7;

/// The tree holds a code with which the camera asks for a login.
pub open spec fn asks_for_login(tree: JsonTree) -> bool {
    has_code(tree, CODE_LOGIN_REQUIRED) || has_code(tree, CODE_LOGIN_REFUSED)
}

/// The value holds a code with which the camera asks for a login.
pub fn has_login_code(value: &Json) -> (r: bool)
    ensures
        r == asks_for_login(value@),
{
    contains_rsp_code(value, CODE_LOGIN_REQUIRED) || contains_rsp_code(value, CODE_LOGIN_REFUSED)
}

/// The body says that the camera does not know the caller.
pub open spec fn auth_failure(body: Seq<char>) -> bool {
    ||| contains(lower(body), "please login first"@)
    ||| contains(lower(body), "login failed"@)
    ||| json_of_text(body) matches Ok(tree) && asks_for_login(tree)
}

fn looks_like_authentication_failure(body: &str) -> (r: bool)
    ensures
        r == auth_failure(body@),
{
    let lowered = lower_text(body);
    if contains_text(lowered.as_str(), "please login first") || contains_text(
        lowered.as_str(),
        "login failed",
    ) {
        return true;
    }
    match parse_json(body) {
        Ok(parsed) => has_login_code(&parsed),
        Err(_) => false,
    }
}

/// How many characters of a body an error shows.
pub const BODY_LIMIT: usize = 200;

/// What an answer to a command comes to.
pub open spec fn response_of(command: CgiCommand, reply: HttpReplyModel) -> Result<
    ResponseModel,
    ErrorModel,
> {
    let name = command_name(command);
    match reply {
        HttpReplyModel::ClientFailed(message) => Err(
            error_model(ErrorKind::Network, "failed to create HTTP client: "@ + message),
        ),
        HttpReplyModel::SendFailed(message) => Err(
            error_model(
                ErrorKind::Network,
                "failed to send request for "@ + name + ": "@ + message,
            ),
        ),
        HttpReplyModel::BodyFailed(message) => Err(
            error_model(
                ErrorKind::Network,
                "failed to read response body for "@ + name + ": "@ + message,
            ),
        ),
        HttpReplyModel::Answered { status, status_text, body } => {
            let shown = shortened(body, BODY_LIMIT as int);
            if status == 401 {
                Err(
                    error_model(
                        ErrorKind::Authentication,
                        "authentication failed for "@ + name + ": status="@ + status_text
                            + " body="@ + shown,
                    ),
                )
            } else if !(200 <= status < 300) {
                Err(
                    error_model(
                        ErrorKind::Network,
                        "request failed for "@ + name + ": status="@ + status_text + " body="@
                            + shown,
                    ),
                )
            } else if auth_failure(normalized_text(body)) {
                Err(
                    error_model(
                        ErrorKind::Authentication,
                        "authentication failed for "@ + name + ": body="@ + shortened(
                            normalized_text(body),
                            BODY_LIMIT as int,
                        ),
                    ),
                )
            } else {
                Ok(ResponseModel { command, raw_json: normalized_text(body) })
            }
        },
    }
}

/// What an answer to a command comes to.
pub fn classify_reply(command: CgiCommand, reply: &HttpReply) -> (r: AppResult<CommandResponse>)
    ensures
        result_model(r) == response_of(command, reply@),
{
    match reply {
        HttpReply::ClientFailed(message) => Err(
            AppError::with_message(
                ErrorKind::Network,
                join2("failed to create HTTP client: ", message.as_str()),
            ),
        ),
        HttpReply::SendFailed(message) => {
            let mut text = join3("failed to send request for ", command.as_str(), ": ");
            text.append(message.as_str());
            Err(AppError::with_message(ErrorKind::Network, text))
        },
        HttpReply::BodyFailed(message) => {
            let mut text = join3("failed to read response body for ", command.as_str(), ": ");
            text.append(message.as_str());
            Err(AppError::with_message(ErrorKind::Network, text))
        },
        HttpReply::Answered { status, status_text, body } => {
            if *status == 401 {
                let mut text = join3("authentication failed for ", command.as_str(), ": status=");
                text.append(status_text.as_str());
                text.append(" body=");
                text.append(truncate_text(body.as_str(), BODY_LIMIT).as_str());
                return Err(AppError::with_message(ErrorKind::Authentication, text));
            }
            if *status < 200 || *status >= 300 {
                let mut text = join3("request failed for ", command.as_str(), ": status=");
                text.append(status_text.as_str());
                text.append(" body=");
                text.append(truncate_text(body.as_str(), BODY_LIMIT).as_str());
                return Err(AppError::with_message(ErrorKind::Network, text));
            }
            let normalized = normalize_text(body.clone());
            if looks_like_authentication_failure(normalized.as_str()) {
                let mut text = join3("authentication failed for ", command.as_str(), ": body=");
                text.append(truncate_text(normalized.as_str(), BODY_LIMIT).as_str());
                return Err(AppError::with_message(ErrorKind::Authentication, text));
            }
            Ok(CommandResponse::new(command, normalized))
        },
    }
}

// ---------------------------------------------------------------- tokens

/// A text that is not blank.
pub open spec fn filled_text(tree: Option<JsonTree>) -> Option<Seq<char>> {
    match tree {
        Some(JsonTree::Text(text)) => if trim(text).len() > 0 {
            Some(text)
        } else {
            None
        },
        _ => None,
    }
}

pub open spec fn or_text(first: Option<Seq<char>>, second: Option<Seq<char>>) -> Option<Seq<char>> {
    match first {
        Some(text) => Some(text),
        None => second,
    }
}

/// The member of a member of a member.
pub open spec fn tree_get3(
    tree: JsonTree,
    first: Seq<char>,
    second: Seq<char>,
    third: Seq<char>,
) -> Option<JsonTree> {
    match tree_get2(tree, first, second) {
        Some(inner) => tree_get(inner, third),
        None => None,
    }
}

/// The token in an entry of a response: the first of its places that holds one.
pub open spec fn token_at(item: JsonTree) -> Option<Seq<char>> {
    or_text(
        filled_text(tree_get3(item, "value"@, "Token"@, "name"@)),
        or_text(
            filled_text(tree_get3(item, "value"@, "Token"@, "token"@)),
            or_text(
                filled_text(tree_get2(item, "value"@, "token"@)),
                or_text(
                    filled_text(tree_get2(item, "value"@, "Token"@)),
                    or_text(
                        filled_text(tree_get2(item, "Token"@, "name"@)),
                        or_text(
                            filled_text(tree_get2(item, "Token"@, "token"@)),
                            or_text(
                                filled_text(tree_get(item, "token"@)),
                                filled_text(tree_get(item, "Token"@)),
                            ),
                        ),
                    ),
                ),
            ),
        ),
    )
}

fn non_empty_text(value: Option<&Json>) -> (r: Option<String>)
    ensures
        option_model(r) == filled_text(
            match value {
                Some(inner) => Some(inner@),
                None => None,
            },
        ),
{
    match value {
        Some(inner) => match inner {
            Json::Text(text) => if is_blank(text.as_str()) {
                None
            } else {
                Some(text.clone())
            },
            _ => None,
        },
        None => None,
    }
}

fn get3<'a>(value: &'a Json, first: &str, second: &str, third: &str) -> (r: Option<&'a Json>)
    ensures
        crate::json::is_tree(r, tree_get3(value@, first@, second@, third@)),
{
    match value.get2(first, second) {
        Some(inner) => inner.get(third),
        None => None,
    }
}

pub fn find_token(item: &Json) -> (r: Option<String>)
    ensures
        option_model(r) == token_at(item@),
{
    let found = non_empty_text(get3(item, "value", "Token", "name"));
    if found.is_some() {
        return found;
    }
    let found = non_empty_text(get3(item, "value", "Token", "token"));
    if found.is_some() {
        return found;
    }
    let found = non_empty_text(item.get2("value", "token"));
    if found.is_some() {
        return found;
    }
    let found = non_empty_text(item.get2("value", "Token"));
    if found.is_some() {
        return found;
    }
    let found = non_empty_text(item.get2("Token", "name"));
    if found.is_some() {
        return found;
    }
    let found = non_empty_text(item.get2("Token", "token"));
    if found.is_some() {
        return found;
    }
    let found = non_empty_text(item.get("token"));
    if found.is_some() {
        return found;
    }
    non_empty_text(item.get("Token"))
}

/// The token in a response: of the first entry of a list, or of the response itself. A code
/// other than zero is a refusal.
pub open spec fn token_in(
    tree: JsonTree,
    command: CgiCommand,
    empty_message: Seq<char>,
    missing_message: Seq<char>,
) -> Result<Seq<char>, ErrorModel> {
    if tree matches JsonTree::Array(items) && items.len() == 0 {
        Err(error_model(ErrorKind::UnexpectedResponse, empty_message))
    } else {
        let item = match tree {
            JsonTree::Array(items) => items[0],
            _ => tree,
        };
        match refusal_code(item) {
            Some(code) => Err(
                error_model(
                    ErrorKind::Authentication,
                    command_name(command) + " returned non-zero code: "@ + dec_int(code),
                ),
            ),
            None => match token_at(item) {
                Some(token) => Ok(token),
                None => Err(error_model(ErrorKind::UnexpectedResponse, missing_message)),
            },
        }
    }
}

/// The code of an entry, where it has one other than zero.
pub open spec fn refusal_code(item: JsonTree) -> Option<int> {
    match tree_get(item, "code"@) {
        Some(raw) => match tree_int_exact(raw) {
            Some(code) => if code != 0 {
                Some(code)
            } else {
                None
            },
            None => None,
        },
        None => None,
    }
}

fn read_refusal_code(item: &Json) -> (r: Option<i64>)
    ensures
        is_int(r, refusal_code(item@)),
{
    match item.get("code") {
        Some(raw) => match raw.as_int_exact() {
            Some(code) => if code != 0 {
                Some(code)
            } else {
                None
            },
            None => None,
        },
        None => None,
    }
}

/// The token in a response.
pub fn token_from_json(
    parsed: &Json,
    command: CgiCommand,
    empty_message: &str,
    missing_message: &str,
) -> (r: AppResult<String>)
    ensures
        result_model(r) == token_in(parsed@, command, empty_message@, missing_message@),
{
    let item: &Json = match parsed {
        Json::Array(items) => {
            proof {
                lemma_item_trees(items@);
            }
            if items.len() == 0 {
                return Err(AppError::new(ErrorKind::UnexpectedResponse, empty_message));
            }
            &items[0]
        },
        _ => parsed,
    };
    if let Some(code) = read_refusal_code(item) {
        return Err(
            AppError::with_message(
                ErrorKind::Authentication,
                join3(command.as_str(), " returned non-zero code: ", dec_i64(code).as_str()),
            ),
        );
    }
    match find_token(item) {
        Some(token) => Ok(token),
        None => Err(AppError::new(ErrorKind::UnexpectedResponse, missing_message)),
    }
}

/// The token in the text of a `Login` response.
pub open spec fn login_token(raw_json: Seq<char>) -> Result<Seq<char>, ErrorModel> {
    match response_tree(CgiCommand::Login, raw_json) {
        Ok(tree) => token_in(
            tree,
            CgiCommand::Login,
            "response array was empty"@,
            "Login succeeded but token was not found in response"@,
        ),
        Err(error) => Err(error),
    }
}

fn extract_login_token(raw_json: &str) -> (r: AppResult<String>)
    ensures
        result_model(r) == login_token(raw_json@),
{
    match parse_response_json(raw_json, CgiCommand::Login) {
        Ok(parsed) => token_from_json(
            &parsed,
            CgiCommand::Login,
            "response array was empty",
            "Login succeeded but token was not found in response",
        ),
        Err(error) => Err(error),
    }
}

// ---------------------------------------------------------------- turns

/// An HTTP request to make.
#[derive(Debug, Clone, PartialEq, Eq)]
pub struct HttpPost {
    pub url: String,
    pub query: Vec<(String, String)>,
    pub body: String,
}

pub ghost struct PostModel {
    pub url: Seq<char>,
    pub query: Seq<(Seq<char>, Seq<char>)>,
    pub body: Seq<char>,
}

impl View for HttpPost {
    type V = PostModel;

    open spec fn view(&self) -> PostModel {
        PostModel { url: self.url@, query: pair_models(self.query@), body: self.body@ }
    }
}

/// What becomes of the token that the client keeps from one command to the next.
#[derive(Debug, Clone, PartialEq, Eq)]
pub enum SessionChange {
    Keep,
    /// The token was refused and is to be forgotten.
    Forget,
    /// A login gave this token.
    Remember(String),
}

pub ghost enum SessionModel {
    Keep,
    Forget,
    Remember(Seq<char>),
}

impl View for SessionChange {
    type V = SessionModel;

    open spec fn view(&self) -> SessionModel {
        match self {
            SessionChange::Keep => SessionModel::Keep,
            SessionChange::Forget => SessionModel::Forget,
            SessionChange::Remember(token) => SessionModel::Remember(token@),
        }
    }
}

/// What comes after the answers so far.
pub enum Next<T> {
    Post(HttpPost),
    Done(AppResult<T>),
}

pub ghost enum NextModel<V> {
    Post(PostModel),
    Done(Result<V, ErrorModel>),
}

/// What to do after the answers so far. The change to the kept token comes first.
pub struct Turn<T> {
    pub session: SessionChange,
    pub next: Next<T>,
}

pub ghost struct TurnModel<V> {
    pub session: SessionModel,
    pub next: NextModel<V>,
}

pub open spec fn turn_model<T: View>(turn: Turn<T>) -> TurnModel<T::V> {
    TurnModel {
        session: turn.session@,
        next: match turn.next {
            Next::Post(post) => NextModel::Post(post@),
            Next::Done(result) => NextModel::Done(result_model(result)),
        },
    }
}

pub open spec fn http_models(replies: Seq<HttpReply>) -> Seq<HttpReplyModel> {
    Seq::new(replies.len(), |i: int| replies[i]@)
}

pub open spec fn failed_turn<V>(session: SessionModel, error: ErrorModel) -> TurnModel<V> {
    TurnModel { session, next: NextModel::Done(Err(error)) }
}

/// One request with one set of credentials: it is sent, and its answer decides. It is not
/// sent where the credentials or the endpoint are not fit for it.
pub open spec fn direct_turn(
    endpoint: Seq<char>,
    request: RequestModel,
    auth: AuthModel,
    session: SessionModel,
    replies: Seq<HttpReplyModel>,
) -> TurnModel<ResponseModel> {
    match query_for(request.command, auth) {
        Err(error) => failed_turn(session, error),
        Ok(query) => match api_url_of(endpoint) {
            Err(error) => failed_turn(session, error),
            Ok(url) => if replies.len() == 0 {
                TurnModel {
                    session,
                    next: NextModel::Post(PostModel { url, query, body: body_text(request) }),
                }
            } else {
                TurnModel {
                    session: SessionModel::Keep,
                    next: NextModel::Done(response_of(request.command, replies[0])),
                }
            },
        },
    }
}

/// The payload of a login.
pub open spec fn login_payload(user: Seq<char>, password: Seq<char>) -> JsonTree {
    tree_with(
        empty_tree(),
        "User"@,
        tree_with(
            tree_with(
                tree_with(empty_tree(), "Version"@, JsonTree::Text("0"@)),
                "userName"@,
                JsonTree::Text(user),
            ),
            "password"@,
            JsonTree::Text(password),
        ),
    )
}

/// The request of a login.
pub open spec fn login_request(user: Seq<char>, password: Seq<char>) -> RequestModel {
    request_model(
        CgiCommand::Login,
        payload_params(display_of_json(login_payload(user, password))),
    )
}

/// A login: its answer gives a token or an error. A blank user or an empty password is not
/// sent.
pub open spec fn login_turn(
    endpoint: Seq<char>,
    user: Seq<char>,
    password: Seq<char>,
    session: SessionModel,
    replies: Seq<HttpReplyModel>,
) -> TurnModel<Seq<char>> {
    if trim(user).len() == 0 || password.len() == 0 {
        failed_turn(
            session,
            error_model(ErrorKind::InvalidInput, "login requires non-empty user/password"@),
        )
    } else {
        let turn = direct_turn(
            endpoint,
            login_request(user, password),
            AuthModel::Anonymous,
            session,
            replies,
        );
        TurnModel {
            session: turn.session,
            next: match turn.next {
                NextModel::Post(post) => NextModel::Post(post),
                NextModel::Done(Err(error)) => NextModel::Done(Err(error)),
                NextModel::Done(Ok(response)) => NextModel::Done(login_token(response.raw_json)),
            },
        }
    }
}

/// A login, and then the request with the token that it gave.
pub open spec fn logged_in_turn(
    endpoint: Seq<char>,
    request: RequestModel,
    user: Seq<char>,
    password: Seq<char>,
    session: SessionModel,
    replies: Seq<HttpReplyModel>,
) -> TurnModel<ResponseModel> {
    let login = login_turn(endpoint, user, password, session, replies);
    match login.next {
        NextModel::Post(post) => TurnModel { session: login.session, next: NextModel::Post(post) },
        NextModel::Done(Err(error)) => failed_turn(login.session, error),
        NextModel::Done(Ok(token)) => direct_turn(
            endpoint,
            request,
            AuthModel::Token(token),
            SessionModel::Remember(token),
            replies.skip(1),
        ),
    }
}

/// The outcome is that the camera does not accept the credentials.
pub open spec fn is_refused<V>(turn: TurnModel<V>) -> bool {
    turn.next matches NextModel::Done(Err(error)) && error.kind == ErrorKind::Authentication
}

/// A request with one set of credentials. With a user and a password the token that the
/// client keeps is tried first; where there is none, or it is refused, a login is made.
pub open spec fn auth_turn(
    endpoint: Seq<char>,
    request: RequestModel,
    auth: AuthModel,
    kept: Option<Seq<char>>,
    session: SessionModel,
    replies: Seq<HttpReplyModel>,
) -> TurnModel<ResponseModel> {
    match auth {
        AuthModel::UserPassword { user, password } => if request.command == CgiCommand::Login {
            direct_turn(endpoint, request, AuthModel::Anonymous, session, replies)
        } else {
            match kept {
                Some(token) => {
                    let first = direct_turn(
                        endpoint,
                        request,
                        AuthModel::Token(token),
                        session,
                        replies,
                    );
                    if is_refused(first) {
                        logged_in_turn(
                            endpoint,
                            request,
                            user,
                            password,
                            SessionModel::Forget,
                            replies.skip(1),
                        )
                    } else {
                        first
                    }
                },
                None => logged_in_turn(endpoint, request, user, password, session, replies),
            }
        },
        _ => direct_turn(endpoint, request, auth, session, replies),
    }
}

/// What becomes of the token that is kept, in the client or in its file, before other
/// credentials are tried: it is forgotten where a login follows at once.
pub open spec fn session_for(other: AuthModel, kept: Option<Seq<char>>) -> SessionModel {
    if other is UserPassword && kept is None {
        SessionModel::Forget
    } else {
        SessionModel::Keep
    }
}

/// A request of a client whose session keeps a token or none: with its credentials, and where
/// those are a token that is refused, with its other credentials.
pub open spec fn client_turn(
    client: ClientModel,
    kept: Option<Seq<char>>,
    request: RequestModel,
    replies: Seq<HttpReplyModel>,
) -> TurnModel<ResponseModel> {
    let first = auth_turn(
        client.endpoint,
        request,
        client.auth,
        kept,
        SessionModel::Keep,
        replies,
    );
    match client.fallback_auth {
        Some(other) => if client.auth is Token && is_refused(first) {
            auth_turn(
                client.endpoint,
                request,
                other,
                kept,
                session_for(other, kept),
                replies.skip(1),
            )
        } else {
            first
        },
        None => first,
    }
}

// ---------------------------------------------------------------- client

/// The sessions of clients: each keeps the token of the last login, or none.
#[derive(Debug, Clone)]
pub struct Sessions {
    tokens: Vec<Option<String>>,
}

impl View for Sessions {
    type V = Seq<Option<Seq<char>>>;

    closed spec fn view(&self) -> Seq<Option<Seq<char>>> {
        Seq::new(self.tokens@.len(), |i: int| option_model(self.tokens@[i]))
    }
}

/// The token that a session keeps.
pub open spec fn token_of(sessions: Seq<Option<Seq<char>>>, session: nat) -> Option<Seq<char>> {
    if session < sessions.len() {
        sessions[session as int]
    } else {
        None
    }
}

/// The token that a session keeps after a change.
pub open spec fn changed_token(kept: Option<Seq<char>>, change: SessionModel) -> Option<Seq<char>> {
    match change {
        SessionModel::Keep => kept,
        SessionModel::Forget => None,
        SessionModel::Remember(token) => Some(token),
    }
}

/// The sessions after a change to one of them.
pub open spec fn changed_sessions(
    sessions: Seq<Option<Seq<char>>>,
    session: nat,
    change: SessionModel,
) -> Seq<Option<Seq<char>>> {
    if session < sessions.len() {
        sessions.update(session as int, changed_token(sessions[session as int], change))
    } else {
        sessions
    }
}

impl Sessions {
    pub fn new() -> (r: Self)
        ensures
            r@ == Seq::<Option<Seq<char>>>::empty(),
    {
        let sessions = Sessions { tokens: Vec::new() };
        assert(sessions@ =~= Seq::<Option<Seq<char>>>::empty());
        sessions
    }

    /// A session of its own, which keeps no token yet.
    fn open(&mut self) -> (r: usize)
        ensures
            final(self)@ == old(self)@.push(None),
            r == old(self)@.len(),
    {
        let session: usize = self.tokens.len();
        self.tokens.push(None);
        assert(self@ =~= old(self)@.push(None));
        session
    }
}

/// How a camera is reached. A client has a session, which it may share with other clients.
#[derive(Debug, Clone)]
pub struct Client {
    endpoint: String,
    auth: Auth,
    fallback_auth: Option<Auth>,
    allow_insecure_tls: bool,
    token_cache_path: Option<String>,
    session: usize,
}

pub ghost struct ClientModel {
    pub endpoint: Seq<char>,
    pub auth: AuthModel,
    pub fallback_auth: Option<AuthModel>,
    pub allow_insecure_tls: bool,
    pub token_cache_path: Option<Seq<char>>,
    pub session: nat,
}

impl View for Client {
    type V = ClientModel;

    closed spec fn view(&self) -> ClientModel {
        ClientModel {
            endpoint: self.endpoint@,
            auth: self.auth@,
            fallback_auth: option_model(self.fallback_auth),
            allow_insecure_tls: self.allow_insecure_tls,
            token_cache_path: option_model(self.token_cache_path),
            session: self.session as nat,
        }
    }
}

/// Two credentials are the same.
fn same_auth(a: &Auth, b: &Auth) -> (r: bool)
    ensures
        r == (a@ == b@),
{
    match (a, b) {
        (Auth::Anonymous, Auth::Anonymous) => true,
        (
            Auth::UserPassword { user, password },
            Auth::UserPassword { user: other_user, password: other_password },
        ) => same_text(user, other_user) && same_text(password, other_password),
        (Auth::Token(token), Auth::Token(other)) => same_text(token, other),
        _ => false,
    }
}

/// Two clients are equal where they reach a camera in the same way, whatever tokens their
/// sessions keep.
impl PartialEq for Client {
    fn eq(&self, other: &Self) -> (r: bool) {
        same_text(&self.endpoint, &other.endpoint) && same_auth(&self.auth, &other.auth)
            && self.allow_insecure_tls == other.allow_insecure_tls && match (
            &self.fallback_auth,
            &other.fallback_auth,
        ) {
            (Some(mine), Some(theirs)) => same_auth(mine, theirs),
            (None, None) => true,
            _ => false,
        }
    }
}

impl vstd::std_specs::cmp::PartialEqSpecImpl for Client {
    open spec fn obeys_eq_spec() -> bool {
        true
    }

    open spec fn eq_spec(&self, other: &Self) -> bool {
        &&& self@.endpoint == other@.endpoint
        &&& self@.auth == other@.auth
        &&& self@.fallback_auth == other@.fallback_auth
        &&& self@.allow_insecure_tls == other@.allow_insecure_tls
    }
}

impl Eq for Client {

}

fn copy_text(text: &Option<String>) -> (r: Option<String>)
    ensures
        option_model(r) == option_model(*text),
{
    match text {
        Some(inner) => Some(inner.clone()),
        None => None,
    }
}

fn rest_of(replies: &[HttpReply]) -> (r: &[HttpReply])
    requires
        replies.len() > 0,
    ensures
        http_models(r@) == http_models(replies@).skip(1),
{
    let rest = vstd::slice::slice_subrange(replies, 1, replies.len());
    proof {
        assert(http_models(rest@) =~= http_models(replies@).skip(1));
    }
    rest
}

impl Client {
    /// A client with a session of its own.
    pub fn new(sessions: &mut Sessions, endpoint: &str, auth: Auth) -> (r: Self)
        ensures
            final(sessions)@ == old(sessions)@.push(None),
            r@ == (ClientModel {
                endpoint: endpoint@,
                auth: auth@,
                fallback_auth: None,
                allow_insecure_tls: true,
                token_cache_path: None,
                session: old(sessions)@.len(),
            }),
    {
        Client {
            endpoint: endpoint.to_owned(),
            auth,
            fallback_auth: None,
            allow_insecure_tls: true,
            token_cache_path: None,
            session: sessions.open(),
        }
    }

    pub fn endpoint(&self) -> (r: &str)
        ensures
            r@ == self@.endpoint,
    {
        self.endpoint.as_str()
    }

    pub fn auth(&self) -> (r: &Auth)
        ensures
            r@ == self@.auth,
    {
        &self.auth
    }

    /// A client with other credentials and a session of its own.
    pub fn with_auth(&self, sessions: &mut Sessions, auth: Auth) -> (r: Self)
        ensures
            final(sessions)@ == old(sessions)@.push(None),
            r@ == (ClientModel { auth: auth@, session: old(sessions)@.len(), ..self@ }),
    {
        Client {
            endpoint: self.endpoint.clone(),
            auth,
            fallback_auth: copy_optional_auth(&self.fallback_auth),
            allow_insecure_tls: self.allow_insecure_tls,
            token_cache_path: copy_text(&self.token_cache_path),
            session: sessions.open(),
        }
    }

    /// A client that also has the given credentials, for when its token is refused. The two
    /// share a session.
    pub fn with_fallback_auth(&self, fallback_auth: Auth) -> (r: Self)
        ensures
            r@ == (ClientModel { fallback_auth: Some(fallback_auth@), ..self@ }),
    {
        Client {
            endpoint: self.endpoint.clone(),
            auth: self.auth.duplicate(),
            fallback_auth: Some(fallback_auth),
            allow_insecure_tls: self.allow_insecure_tls,
            token_cache_path: copy_text(&self.token_cache_path),
            session: self.session,
        }
    }

    pub fn with_insecure_tls(self, allow_insecure_tls: bool) -> (r: Self)
        ensures
            r@ == (ClientModel { allow_insecure_tls, ..self@ }),
    {
        Client {
            endpoint: self.endpoint,
            auth: self.auth,
            fallback_auth: self.fallback_auth,
            allow_insecure_tls,
            token_cache_path: self.token_cache_path,
            session: self.session,
        }
    }

    /// A client whose token is also kept in a file.
    pub fn with_token_cache_path(self, path: String) -> (r: Self)
        ensures
            r@ == (ClientModel { token_cache_path: Some(path@), ..self@ }),
    {
        Client {
            endpoint: self.endpoint,
            auth: self.auth,
            fallback_auth: self.fallback_auth,
            allow_insecure_tls: self.allow_insecure_tls,
            token_cache_path: Some(path),
            session: self.session,
        }
    }

    /// The file in which the token is also kept.
    pub fn token_cache_path(&self) -> (r: Option<&str>)
        ensures
            match r {
                Some(path) => self@.token_cache_path == Some(path@),
                None => self@.token_cache_path is None,
            },
    {
        match &self.token_cache_path {
            Some(path) => Some(path.as_str()),
            None => None,
        }
    }

    /// Certificates are accepted unchecked.
    pub fn allows_insecure_tls(&self) -> (r: bool)
        ensures
            r == self@.allow_insecure_tls,
    {
        self.allow_insecure_tls
    }

    /// The token that the session of the client keeps.
    pub fn cached_session_token(&self, sessions: &Sessions) -> (r: Option<String>)
        ensures
            option_model(r) == token_of(sessions@, self@.session),
    {
        if self.session < sessions.tokens.len() {
            copy_text(&sessions.tokens[self.session])
        } else {
            None
        }
    }

    /// Applies a change to the token that the session of the client keeps.
    pub fn change_session(&self, sessions: &mut Sessions, change: &SessionChange)
        ensures
            final(sessions)@ == changed_sessions(old(sessions)@, self@.session, change@),
    {
        if self.session < sessions.tokens.len() {
            match change {
                SessionChange::Keep => {},
                SessionChange::Forget => {
                    sessions.tokens.set(self.session, None);
                },
                SessionChange::Remember(token) => {
                    sessions.tokens.set(self.session, Some(token.clone()));
                },
            }
        }
        assert(sessions@ =~= changed_sessions(old(sessions)@, self@.session, change@));
    }

    fn api_url(&self) -> (r: AppResult<String>)
        ensures
            result_model(r) == api_url_of(self@.endpoint),
    {
        let endpoint = trim_text(self.endpoint.as_str());
        if endpoint.as_str().is_empty() {
            return Err(AppError::new(ErrorKind::InvalidInput, "endpoint must not be empty"));
        }
        Ok(join2(strip_slashes(endpoint.as_str()).as_str(), "/cgi-bin/api.cgi"))
    }

    fn execute_with_query_params(
        &self,
        request: &CommandRequest,
        auth: &Auth,
        session: SessionChange,
        replies: &[HttpReply],
    ) -> (r: Turn<CommandResponse>)
        ensures
            turn_model(r) == direct_turn(
                self@.endpoint,
                request@,
                auth@,
                session@,
                http_models(replies@),
            ),
    {
        let query = match query_params_for_auth(request.command, auth) {
            Ok(query) => query,
            Err(error) => {
                return Turn { session, next: Next::Done(Err(error)) };
            },
        };
        let url = match self.api_url() {
            Ok(url) => url,
            Err(error) => {
                return Turn { session, next: Next::Done(Err(error)) };
            },
        };
        if replies.len() == 0 {
            let body = build_request_body(request);
            return Turn { session, next: Next::Post(HttpPost { url, query, body }) };
        }
        Turn {
            session: SessionChange::Keep,
            next: Next::Done(classify_reply(request.command, &replies[0])),
        }
    }

    fn login_with(
        &self,
        user: &str,
        password: &str,
        session: SessionChange,
        replies: &[HttpReply],
    ) -> (r: Turn<String>)
        ensures
            turn_model(r) == login_turn(
                self@.endpoint,
                user@,
                password@,
                session@,
                http_models(replies@),
            ),
    {
        if is_blank(user) || password.is_empty() {
            return Turn {
                session,
                next: Next::Done(
                    Err(
                        AppError::new(
                            ErrorKind::InvalidInput,
                            "login requires non-empty user/password",
                        ),
                    ),
                ),
            };
        }
        let account = with_member(empty_object(), "Version", value_from_text("0"));
        let account = with_member(account, "userName", value_from_text(user));
        let account = with_member(account, "password", value_from_text(password));
        let payload = with_member(empty_object(), "User", account);
        let request = CommandRequest::with_payload(CgiCommand::Login, display_value(&payload));
        let turn = self.execute_with_query_params(&request, &Auth::Anonymous, session, replies);
        let next = match turn.next {
            Next::Post(post) => Next::Post(post),
            Next::Done(Err(error)) => Next::Done(Err(error)),
            Next::Done(Ok(response)) => Next::Done(extract_login_token(response.raw_json.as_str())),
        };
        Turn { session: turn.session, next }
    }

    /// Exchanges a user and a password for a token.
    pub fn login(&self, user: &str, password: &str, replies: &[HttpReply]) -> (r: Turn<String>)
        ensures
            turn_model(r) == login_turn(
                self@.endpoint,
                user@,
                password@,
                SessionModel::Keep,
                http_models(replies@),
            ),
    {
        self.login_with(user, password, SessionChange::Keep, replies)
    }

    fn execute_logged_in(
        &self,
        request: &CommandRequest,
        user: &str,
        password: &str,
        session: SessionChange,
        replies: &[HttpReply],
    ) -> (r: Turn<CommandResponse>)
        ensures
            turn_model(r) == logged_in_turn(
                self@.endpoint,
                request@,
                user@,
                password@,
                session@,
                http_models(replies@),
            ),
    {
        let login = self.login_with(user, password, session, replies);
        match login.next {
            Next::Post(post) => Turn { session: login.session, next: Next::Post(post) },
            Next::Done(Err(error)) => Turn { session: login.session, next: Next::Done(Err(error)) },
            Next::Done(Ok(token)) => {
                proof {
                    assert(http_models(replies@).len() == replies.len());
                }
                let auth = Auth::Token(token.clone());
                self.execute_with_query_params(
                    request,
                    &auth,
                    SessionChange::Remember(token),
                    rest_of(replies),
                )
            },
        }
    }

    fn execute_with_auth(
        &self,
        kept: &Option<String>,
        request: &CommandRequest,
        auth: &Auth,
        session: SessionChange,
        replies: &[HttpReply],
    ) -> (r: Turn<CommandResponse>)
        ensures
            turn_model(r) == auth_turn(
                self@.endpoint,
                request@,
                auth@,
                option_model(*kept),
                session@,
                http_models(replies@),
            ),
    {
        match auth {
            Auth::UserPassword { user, password } => {
                if request.command == CgiCommand::Login {
                    return self.execute_with_query_params(
                        request,
                        &Auth::Anonymous,
                        session,
                        replies,
                    );
                }
                match kept {
                    Some(token) => {
                        let with_token = Auth::Token(token.clone());
                        let first = self.execute_with_query_params(
                            request,
                            &with_token,
                            session,
                            replies,
                        );
                        if turn_is_refused(&first) {
                            proof {
                                lemma_refusal_takes_an_answer(
                                    self@.endpoint,
                                    request@,
                                    with_token@,
                                    session@,
                                    http_models(replies@),
                                );
                            }
                            self.execute_logged_in(
                                request,
                                user.as_str(),
                                password.as_str(),
                                SessionChange::Forget,
                                rest_of(replies),
                            )
                        } else {
                            first
                        }
                    },
                    None => self.execute_logged_in(
                        request,
                        user.as_str(),
                        password.as_str(),
                        session,
                        replies,
                    ),
                }
            },
            _ => self.execute_with_query_params(request, auth, session, replies),
        }
    }

    /// What a request takes and what it comes to, given the answers so far.
    /// The sessions are those before the first answer.
    pub fn execute(
        &self,
        sessions: &Sessions,
        request: &CommandRequest,
        replies: &[HttpReply],
    ) -> (r: Turn<CommandResponse>)
        ensures
            turn_model(r) == client_turn(
                self@,
                token_of(sessions@, self@.session),
                request@,
                http_models(replies@),
            ),
    {
        let kept = self.cached_session_token(sessions);
        let first = self.execute_with_auth(
            &kept,
            request,
            &self.auth,
            SessionChange::Keep,
            replies,
        );
        match &self.fallback_auth {
            Some(other) => {
                let has_token = match &self.auth {
                    Auth::Token(_) => true,
                    _ => false,
                };
                if has_token && turn_is_refused(&first) {
                    proof {
                        lemma_refusal_takes_an_answer(
                            self@.endpoint,
                            request@,
                            self@.auth,
                            SessionModel::Keep,
                            http_models(replies@),
                        );
                    }
                    let session = match (other, &kept) {
                        (Auth::UserPassword { .. }, None) => SessionChange::Forget,
                        _ => SessionChange::Keep,
                    };
                    self.execute_with_auth(&kept, request, other, session, rest_of(replies))
                } else {
                    first
                }
            },
            None => first,
        }
    }
}

fn turn_is_refused(turn: &Turn<CommandResponse>) -> (r: bool)
    ensures
        r == is_refused(turn_model(*turn)),
{
    match &turn.next {
        Next::Done(Err(error)) => error.kind == ErrorKind::Authentication,
        _ => false,
    }
}

/// Only an answer of the camera refuses a request.
proof fn lemma_refusal_takes_an_answer(
    endpoint: Seq<char>,
    request: RequestModel,
    auth: AuthModel,
    session: SessionModel,
    replies: Seq<HttpReplyModel>,
)
    ensures
        is_refused(direct_turn(endpoint, request, auth, session, replies)) ==> replies.len() > 0,
{
}

// ---------------------------------------------------------------- laws

/// Whatever the camera answers, a request is decided after at most four answers: one with
/// the token, one with the token of an earlier login, one for the login, one after it.
pub proof fn law_request_ends(
    client: ClientModel,
    kept: Option<Seq<char>>,
    request: RequestModel,
    replies: Seq<HttpReplyModel>,
)
    requires
        replies.len() >= 4,
    ensures
        client_turn(client, kept, request, replies).next is Done,
{
}

/// A response always belongs to the command that was asked.
pub proof fn law_response_belongs_to_request(
    client: ClientModel,
    kept: Option<Seq<char>>,
    request: RequestModel,
    replies: Seq<HttpReplyModel>,
)
    ensures
        client_turn(client, kept, request, replies).next matches NextModel::Done(Ok(response))
            ==> response.command == request.command,
{
}

/// An error other than a refusal ends a request at once, and is its outcome: no other
/// credentials are tried.
pub proof fn law_other_errors_are_final(
    client: ClientModel,
    kept: Option<Seq<char>>,
    request: RequestModel,
    replies: Seq<HttpReplyModel>,
)
    requires
        replies.len() > 0,
        query_for(request.command, client.auth) is Ok,
        api_url_of(client.endpoint) is Ok,
        response_of(request.command, replies[0]) matches Err(error) && error.kind
            != ErrorKind::Authentication,
    ensures
        client_turn(client, kept, request, replies).next == NextModel::Done(
            response_of(request.command, replies[0]),
        ),
{
}

/// With a user and a password and no token kept, the first request is a login.
pub proof fn law_password_logs_in_first(
    client: ClientModel,
    kept: Option<Seq<char>>,
    user: Seq<char>,
    password: Seq<char>,
    request: RequestModel,
)
    requires
        client.auth == (AuthModel::UserPassword { user, password }),
        kept is None,
        request.command != CgiCommand::Login,
        trim(user).len() > 0,
        password.len() > 0,
        api_url_of(client.endpoint) is Ok,
    ensures
        client_turn(client, kept, request, Seq::empty()).next matches NextModel::Post(post)
            && post.body == body_text(login_request(user, password)) && post.query == seq![
            ("cmd"@, command_name(CgiCommand::Login)),
        ],
{
}

/// A request that is sent carries either a token or no credentials at all: a password goes
/// nowhere but into the body of a login.
pub proof fn law_query_never_holds_a_password(
    client: ClientModel,
    kept: Option<Seq<char>>,
    request: RequestModel,
    replies: Seq<HttpReplyModel>,
)
    ensures
        client_turn(client, kept, request, replies).next matches NextModel::Post(post) ==> {
            ||| post.query.len() == 1
            ||| post.query.len() == 2 && post.query[1].0 == "token"@
        },
{
}

/// Where the token is refused and there is a password to go back to, the token is forgotten
/// and a login is made; the token that the login gives is remembered, and the request is
/// made with it.
pub proof fn law_refused_token_is_replaced(
    client: ClientModel,
    kept: Option<Seq<char>>,
    user: Seq<char>,
    password: Seq<char>,
    request: RequestModel,
    replies: Seq<HttpReplyModel>,
)
    requires
        client.auth is Token,
        client.fallback_auth == Some(AuthModel::UserPassword { user, password }),
        kept is None,
        request.command != CgiCommand::Login,
        trim(user).len() > 0,
        password.len() > 0,
        api_url_of(client.endpoint) is Ok,
        query_for(request.command, client.auth) is Ok,
        replies.len() > 0,
        response_of(request.command, replies[0]) matches Err(error) && error.kind
            == ErrorKind::Authentication,
    ensures
        replies.len() == 1 ==> client_turn(client, kept, request, replies).session == SessionModel::Forget
            && (client_turn(client, kept, request, replies).next matches NextModel::Post(post)
            && post.body == body_text(login_request(user, password))),
        replies.len() == 2 ==> (response_of(CgiCommand::Login, replies[1]) matches Ok(response)
            ==> (login_token(response.raw_json) matches Ok(token) ==> client_turn(
            client,
            kept,
            request,
            replies,
        ).session == SessionModel::Remember(token))),
{
}

/// A client and the one that also has other credentials share a session: what one of them
/// comes to keep, the other keeps.
pub proof fn law_fallback_shares_the_session(
    client: ClientModel,
    fallback: AuthModel,
    sessions: Seq<Option<Seq<char>>>,
    change: SessionModel,
)
    requires
        client.session < sessions.len(),
    ensures
        ({
            let other = ClientModel { fallback_auth: Some(fallback), ..client };
            let after_other = changed_sessions(sessions, other.session, change);
            let after_client = changed_sessions(sessions, client.session, change);
            &&& token_of(after_other, client.session) == changed_token(
                token_of(sessions, client.session),
                change,
            )
            &&& token_of(after_client, other.session) == token_of(after_other, client.session)
        }),
{
}

/// A token that a client of a session came to keep is what any client of that session with a
/// user and a password sends next.
pub proof fn law_shared_tokens_are_sent(
    client: ClientModel,
    other: ClientModel,
    sessions: Seq<Option<Seq<char>>>,
    token: Seq<char>,
    request: RequestModel,
)
    requires
        client.session == other.session,
        other.session < sessions.len(),
        client.auth is UserPassword,
        request.command != CgiCommand::Login,
        trim(token).len() > 0,
        api_url_of(client.endpoint) is Ok,
    ensures
        ({
            let after = changed_sessions(sessions, other.session, SessionModel::Remember(token));
            client_turn(
                client,
                token_of(after, client.session),
                request,
                Seq::empty(),
            ).next matches NextModel::Post(post) && post.query.len() == 2 && post.query[1] == (
                "token"@,
                token,
            )
        }),
{
}

/// A client with other credentials has a session of its own: what either of the two comes to
/// keep leaves the other as it is, and at first it keeps none.
pub proof fn law_other_credentials_have_their_own_session(
    client: ClientModel,
    auth: AuthModel,
    sessions: Seq<Option<Seq<char>>>,
    change: SessionModel,
)
    requires
        client.session < sessions.len(),
    ensures
        ({
            let opened = sessions.push(None);
            let other = ClientModel { auth, session: sessions.len(), ..client };
            &&& token_of(opened, other.session) is None
            &&& token_of(opened, client.session) == token_of(sessions, client.session)
            &&& token_of(changed_sessions(opened, other.session, change), client.session)
                == token_of(sessions, client.session)
            &&& token_of(changed_sessions(opened, client.session, change), other.session) is None
        }),
{
}

} // verus!
