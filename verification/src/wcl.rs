//! The site's upload interface: what is asked of it and how its answers are read.
use vstd::prelude::*;
use vstd::string::*;
use vstd::utf8::encode_utf8;

use crate::game::game_by_id;
use crate::game::site_by_id;
use crate::game::Game;
use crate::json::members_tree;
use crate::json::object_text;
use crate::json::trees;
use crate::json::Field;
use crate::json::Json;
use crate::json::JsonTree;
use crate::json::Reply;
use crate::multipart::build_multipart;
use crate::multipart::field_models;
use crate::multipart::file_models;
use crate::multipart::is_boundary;
use crate::multipart::multipart_body;
use crate::multipart::FileModel;
use crate::numbers::decimal;
use crate::numbers::decimal_text;
use crate::numbers::push_i64;
use crate::numbers::push_nat;
use crate::outside::json_text;
use crate::outside::json_tree;
use crate::text::is_blank;
use crate::text::text_option;
use crate::text::trim;
use crate::text::trimmed;
use crate::text::truncate;
use crate::text::truncated;

verus! {

/// The client version to claim where the current one cannot be found out.
pub const FALLBACK_CLIENT_VERSION: &'static str = "9.0.1";

/// The browser version to claim.
pub const CHROME_VERSION: &'static str = "134.0.6998.205";

/// The Electron version to claim.
pub const ELECTRON_VERSION: &'static str = "37.7.0";

/// Where the latest release of the official client is announced.
pub const LATEST_RELEASE_URL: &'static str =
    "https://api.github.com/repos/RPGLogs/Uploaders-archon/releases/latest";

/// The method of a request.
#[derive(Clone, Copy)]
pub enum Method {
    Get,
    Post,
}

/// A request to the site.
pub struct Request {
    pub method: Method,
    pub url: String,
    pub content_type: Option<String>,
    pub body: Vec<u8>,
}

/// The model of a request.
pub struct RequestModel {
    pub method: Method,
    pub url: Seq<char>,
    pub content_type: Option<Seq<char>>,
    pub body: Seq<u8>,
}

impl View for Request {
    type V = RequestModel;

    open spec fn view(&self) -> RequestModel {
        RequestModel {
            method: self.method,
            url: self.url@,
            content_type: match self.content_type {
                Some(t) => Some(t@),
                None => None,
            },
            body: self.body@,
        }
    }
}

/// A request that posts a JSON object.
pub open spec fn json_post(url: Seq<char>, members: Seq<(Seq<char>, JsonTree)>) -> RequestModel {
    RequestModel {
        method: Method::Post,
        url,
        content_type: Some("application/json"@),
        body: encode_utf8(json_text(JsonTree::Object(members))),
    }
}

/// A request without a body.
pub open spec fn bare(method: Method, url: Seq<char>) -> RequestModel {
    RequestModel { method, url, content_type: None, body: seq![] }
}

/// A request that posts a form under some boundary.
pub open spec fn form_post(
    r: RequestModel,
    url: Seq<char>,
    boundary: Seq<char>,
    body: Seq<u8>,
) -> bool {
    &&& r.method == Method::Post
    &&& r.url == url
    &&& is_boundary(boundary)
    &&& r.content_type == Some("multipart/form-data; boundary="@ + boundary)
    &&& r.body == body
}

/// The parser code of a site, and the version it states.
pub struct ParserBundle {
    pub gamedata_code: String,
    pub parser_code: String,
    pub parser_version: i32,
}

/// The user that a login names.
#[derive(Debug, Clone)]
pub struct LoginUser {
    pub user_name: Option<String>,
}

/// The answer to a login.
pub struct LoginResponse {
    pub user: Option<LoginUser>,
    /// The entries of the guild picker, as they came: `value` is the guild id (-1 for
    /// personal logs), next to `label` and `regionId`.
    pub guild_select_items: Option<Vec<Json>>,
}

/// The model of an answer to a login.
pub struct LoginModel {
    /// The user, who may have a name.
    pub user: Option<Option<Seq<char>>>,
    pub guild_select_items: Option<Seq<JsonTree>>,
}

impl View for LoginResponse {
    type V = LoginModel;

    open spec fn view(&self) -> LoginModel {
        LoginModel {
            user: match self.user {
                Some(u) => Some(text_option(u.user_name)),
                None => None,
            },
            guild_select_items: match self.guild_select_items {
                Some(items) => Some(trees(items@)),
                None => None,
            },
        }
    }
}

impl LoginResponse {
    /// The name that the site greets the user by, or `?`.
    pub open spec fn shown_name(self) -> Seq<char> {
        match self.user {
            Some(u) => match u.user_name {
                Some(n) => n@,
                None => "?"@,
            },
            None => "?"@,
        }
    }

    /// The name that the site greets the user by, or `?`.
    pub fn user_name(&self) -> (r: String)
        ensures
            r@ == self.shown_name(),
    {
        match &self.user {
            Some(u) => match &u.user_name {
                Some(n) => n.clone(),
                None => "?".to_owned(),
            },
            None => "?".to_owned(),
        }
    }
}

/// A name that may be missing; `None` where something else stands in its place.
pub open spec fn optional_name(v: Option<JsonTree>) -> Option<Option<Seq<char>>> {
    match v {
        None | Some(JsonTree::Null) => Some(None),
        Some(JsonTree::Text(name)) => Some(Some(name)),
        _ => None,
    }
}

/// The user of a login, who may have a name: an object, or a list of the name alone. `None`
/// for any other shape.
pub open spec fn login_user(v: JsonTree) -> Option<Option<Seq<char>>> {
    match v {
        JsonTree::Object(_) => optional_name(v.member("userName"@)),
        JsonTree::Array(a) => if a.len() == 1 {
            optional_name(Some(a[0]))
        } else {
            None
        },
        _ => None,
    }
}

/// The user that an answer to a login names, which may be missing; `None` where the user has
/// another shape.
pub open spec fn named_user(v: Option<JsonTree>) -> Option<Option<Option<Seq<char>>>> {
    match v {
        None | Some(JsonTree::Null) => Some(None),
        Some(u) => match login_user(u) {
            Some(name) => Some(Some(name)),
            None => None,
        },
    }
}

/// The members of an answer to a login, the user and the guild entries: an object has them by
/// name, a list by position, the guild entries being optional there. `None` for any other shape.
pub open spec fn login_members(v: JsonTree) -> Option<(Option<JsonTree>, Option<JsonTree>)> {
    match v {
        JsonTree::Object(_) => Some((v.member("user"@), v.member("guildSelectItems"@))),
        JsonTree::Array(a) => if a.len() == 1 {
            Some((Some(a[0]), None))
        } else if a.len() == 2 {
            Some((Some(a[0]), Some(a[1])))
        } else {
            None
        },
        _ => None,
    }
}

/// The items of a list, where it is one.
pub open spec fn items_of(v: Option<JsonTree>) -> Option<Seq<JsonTree>> {
    match v {
        Some(JsonTree::Array(a)) => Some(a),
        _ => None,
    }
}

/// An answer to a login as a model: its user, and its guild entries where they are a list.
pub open spec fn login_of(v: JsonTree) -> Option<LoginModel> {
    match login_members(v) {
        Some((user, items)) => match named_user(user) {
            Some(named) => Some(LoginModel { user: named, guild_select_items: items_of(items) }),
            None => None,
        },
        None => None,
    }
}

/// The tree of a value that may be missing.
spec fn tree_option(v: Option<&Json>) -> Option<JsonTree> {
    match v {
        Some(j) => Some(j.tree()),
        None => None,
    }
}

fn name_of(v: Option<&Json>) -> (r: Option<LoginUser>)
    ensures
        match r {
            Some(u) => optional_name(tree_option(v)) == Some(text_option(u.user_name)),
            None => optional_name(tree_option(v)) is None,
        },
{
    match v {
        None | Some(Json::Null) => Some(LoginUser { user_name: None }),
        Some(Json::Text(name)) => Some(LoginUser { user_name: Some(name.clone()) }),
        _ => None,
    }
}

fn user_of(v: &Json) -> (r: Option<LoginUser>)
    ensures
        match r {
            Some(u) => login_user(v.tree()) == Some(text_option(u.user_name)),
            None => login_user(v.tree()) is None,
        },
{
    match v {
        Json::Object(_) => name_of(v.get("userName")),
        Json::Array(a) => {
            if a.len() == 1 {
                name_of(Some(&a[0]))
            } else {
                None
            }
        },
        _ => None,
    }
}

fn copied_items(v: Option<&Json>) -> (r: Option<Vec<Json>>)
    ensures
        match r {
            Some(items) => items_of(tree_option(v)) == Some(trees(items@)),
            None => items_of(tree_option(v)) is None,
        },
{
    let items = match v {
        Some(Json::Array(a)) => a,
        _ => {
            return None;
        },
    };
    let mut out: Vec<Json> = Vec::new();
    let mut i: usize = 0;
    while i < items.len()
        invariant
            i <= items@.len(),
            out@.len() == i,
            forall|j: int| 0 <= j < i ==> out@[j].tree() == (#[trigger] items@[j]).tree(),
        decreases items@.len() - i,
    {
        out.push(items[i].copy());
        i = i + 1;
    }
    proof {
        assert(trees(out@) =~= Json::Array(*items).tree()->Array_0);
    }
    Some(out)
}

/// Reads an answer to a login. Guild entries that are no list are left out; a user of another
/// shape makes the answer unreadable.
pub fn login_response(v: &Json) -> (r: Option<LoginResponse>)
    ensures
        match r {
            Some(login) => login_of(v.tree()) == Some(login@),
            None => login_of(v.tree()) is None,
        },
{
    let (user, items): (Option<&Json>, Option<&Json>) = match v {
        Json::Object(_) => (v.get("user"), v.get("guildSelectItems")),
        Json::Array(a) => {
            if a.len() == 1 {
                (Some(&a[0]), None)
            } else if a.len() == 2 {
                (Some(&a[0]), Some(&a[1]))
            } else {
                return None;
            }
        },
        _ => {
            return None;
        },
    };
    let user = match user {
        None | Some(Json::Null) => None,
        Some(u) => match user_of(u) {
            Some(user) => Some(user),
            None => {
                return None;
            },
        },
    };
    Some(LoginResponse { user, guild_select_items: copied_items(items) })
}

/// The trimmed name of a release, unless it is missing or blank.
pub open spec fn release_name(v: JsonTree) -> Option<Seq<char>> {
    match v.text_member("name"@) {
        Some(s) => if trimmed(s).len() > 0 {
            Some(trimmed(s))
        } else {
            None
        },
        None => None,
    }
}

/// The client version that the announcement of the latest release names.
pub fn latest_client_version(v: &Json) -> (r: Option<String>)
    ensures
        match r {
            Some(s) => release_name(v.tree()) == Some(s@),
            None => release_name(v.tree()) is None,
        },
{
    match v.get_str("name") {
        Some(s) => {
            let name = trim(s.as_str());
            if name.as_str().is_empty() {
                None
            } else {
                Some(name)
            }
        },
        None => None,
    }
}

/// The message in the first of these members that holds a text which is not empty.
pub open spec fn first_message(v: JsonTree, keys: Seq<Seq<char>>) -> Option<Seq<char>>
    decreases keys.len(),
{
    if keys.len() == 0 {
        None
    } else {
        match v.text_member(keys[0]) {
            Some(s) => if s.len() > 0 {
                Some(s)
            } else {
                first_message(v, keys.drop_first())
            },
            None => first_message(v, keys.drop_first()),
        }
    }
}

/// The error message that an answer carries, if any. `compact` is the answer as text.
pub open spec fn error_message(v: JsonTree, compact: Seq<char>) -> Option<Seq<char>> {
    match first_message(v, seq!["error"@, "message"@, "reason"@]) {
        Some(s) => Some(s),
        None => if v.bool_member("success"@) == Some(false) {
            Some("server reported failure: "@ + truncated(compact, 300))
        } else {
            None
        },
    }
}

fn message_in(v: &Json, key: &str) -> (r: Option<String>)
    ensures
        match r {
            Some(s) => s@.len() > 0 && v.tree().text_member(key@) == Some(s@),
            None => v.tree().text_member(key@) is None || v.tree().text_member(key@)->0.len() == 0,
        },
{
    match v.get_str(key) {
        Some(s) => {
            if s.as_str().is_empty() {
                None
            } else {
                Some(s.clone())
            }
        },
        None => None,
    }
}

/// The error message that an answer carries, as far as one can be found: a text under
/// `error`, `message` or `reason`, else the answer itself where it reports no success.
pub fn api_error_message(v: &Reply) -> (r: Option<String>)
    ensures
        match r {
            Some(s) => error_message(v.json.tree(), v.compact@) == Some(s@),
            None => error_message(v.json.tree(), v.compact@) is None,
        },
{
    proof {
        let keys = seq!["error"@, "message"@, "reason"@];
        reveal_with_fuel(first_message, 4);
        assert(keys.drop_first()[0] == "message"@);
        assert(keys.drop_first().drop_first()[0] == "reason"@);
        assert(keys.drop_first().drop_first().drop_first().len() == 0);
    }
    match message_in(&v.json, "error") {
        Some(s) => {
            return Some(s);
        },
        None => {},
    }
    match message_in(&v.json, "message") {
        Some(s) => {
            return Some(s);
        },
        None => {},
    }
    match message_in(&v.json, "reason") {
        Some(s) => {
            return Some(s);
        },
        None => {},
    }
    match v.json.get_bool("success") {
        Some(false) => {
            let mut out = "server reported failure: ".to_owned();
            let short = truncate(v.compact.as_str(), 300);
            out.append(short.as_str());
            Some(out)
        },
        _ => None,
    }
}

/// The error message of an answer, or else the start of the answer.
pub open spec fn error_detail(v: JsonTree, compact: Seq<char>) -> Seq<char> {
    match error_message(v, compact) {
        Some(s) => s,
        None => truncated(compact, 500),
    }
}

fn detail_of(v: &Reply) -> (r: String)
    ensures
        r@ == error_detail(v.json.tree(), v.compact@),
{
    match api_error_message(v) {
        Some(s) => s,
        None => truncate(v.compact.as_str(), 500),
    }
}

/// What a rejected response says of itself, given what its body parses to: the error
/// message in it, else the start of the body.
pub open spec fn rejection(body: Seq<char>, parsed: Option<(JsonTree, Seq<char>)>) -> Seq<char> {
    let message = match parsed {
        Some((tree, compact)) => error_message(tree, compact),
        None => None,
    };
    match message {
        Some(s) => s,
        None => if trimmed(body).len() == 0 {
            "(empty body)"@
        } else {
            truncated(body, 500)
        },
    }
}

/// What a rejected response says of itself, given what its body parses to.
pub fn rejection_of(body: &str, parsed: Option<Reply>) -> (r: String)
    ensures
        r@ == rejection(
            body@,
            match parsed {
                Some(v) => Some((v.json.tree(), v.compact@)),
                None => None,
            },
        ),
{
    match parsed {
        Some(v) => match api_error_message(&v) {
            Some(s) => {
                return s;
            },
            None => {},
        },
        None => {},
    }
    if is_blank(body) {
        "(empty body)".to_owned()
    } else {
        truncate(body, 500)
    }
}

/// What a body parses to, with the compact text of that.
pub open spec fn parsed_reply(body: Seq<char>) -> Option<(JsonTree, Seq<char>)> {
    match json_tree(body) {
        Some(t) => Some((t, json_text(t))),
        None => None,
    }
}

/// What a rejected response says of itself: the error message in its body, else the start
/// of the body.
pub fn rejection_detail(body: &str) -> (r: String)
    ensures
        r@ == rejection(body@, parsed_reply(body@)),
{
    match Reply::read(body) {
        Ok(v) => rejection_of(body, Some(v)),
        Err(_) => rejection_of(body, None),
    }
}

/// The message of a rejected response: what it says, and where it came from.
pub fn rejection_message(detail: &str, url: &str) -> (r: String)
    ensures
        r@ == detail@ + " ("@ + url@ + ")"@,
{
    let mut out = detail.to_owned();
    out.append(" (");
    out.append(url);
    out.append(")");
    out
}

/// A body that should have been JSON was not.
pub struct NotJson {
    pub context: String,
    pub cause: serde_json::Error,
}

/// Reads the body of a response to the request called `what` as JSON.
pub fn json_body(what: &str, status: u16, url: &str, text: &str) -> (r: Result<Reply, NotJson>)
    ensures
        match r {
            Ok(v) => parsed_reply(text@) == Some((v.json.tree(), v.compact@)),
            Err(e) => parsed_reply(text@) is None && e.context@ == what@ + ": HTTP "@ + decimal(
                status as int,
            ) + " from "@ + url@ + " returned non-JSON body: "@ + truncated(text@, 500),
        },
{
    match Reply::read(text) {
        Ok(v) => Ok(v),
        Err(cause) => {
            let mut context = what.to_owned();
            context.append(": HTTP ");
            push_i64(&mut context, status as i64);
            context.append(" from ");
            context.append(url);
            context.append(" returned non-JSON body: ");
            let short = truncate(text, 500);
            context.append(short.as_str());
            Err(NotJson { context, cause })
        },
    }
}

/// An integer that may be missing.
pub open spec fn optional_int(n: Option<i64>) -> JsonTree {
    match n {
        Some(i) => JsonTree::Int(i as int),
        None => JsonTree::Null,
    }
}

/// What is said of a report that is to be created.
pub struct ReportModel {
    pub filename: Seq<char>,
    pub start_time: int,
    pub end_time: int,
    pub region: int,
    pub visibility: int,
    pub guild_id: Option<i64>,
    pub parser_version: int,
}

/// The members of the request that creates a report.
pub open spec fn report_members(client_version: Seq<char>, r: ReportModel) -> Seq<
    (Seq<char>, JsonTree),
> {
    seq![
        ("clientVersion"@, JsonTree::Text(client_version)),
        ("parserVersion"@, JsonTree::Int(r.parser_version)),
        ("startTime"@, JsonTree::Int(r.start_time)),
        ("endTime"@, JsonTree::Int(r.end_time)),
        ("guildId"@, optional_int(r.guild_id)),
        ("fileName"@, JsonTree::Text(r.filename)),
        ("serverOrRegion"@, JsonTree::Int(r.region)),
        ("visibility"@, JsonTree::Int(r.visibility)),
        ("reportTagId"@, JsonTree::Null),
        ("description"@, JsonTree::Text(""@)),
    ]
}

/// What is said of a segment that is to be added.
#[derive(Clone, Copy)]
pub struct SegmentInfo {
    pub segment_id: i64,
    pub start_time: i64,
    pub end_time: i64,
    pub mythic: i32,
    pub is_live_log: bool,
    pub is_real_time: bool,
    pub in_progress_event_count: i64,
}

/// The members of the parameters of a segment.
pub open spec fn segment_members(s: SegmentInfo) -> Seq<(Seq<char>, JsonTree)> {
    seq![
        ("startTime"@, JsonTree::Int(s.start_time as int)),
        ("endTime"@, JsonTree::Int(s.end_time as int)),
        ("mythic"@, JsonTree::Int(s.mythic as int)),
        ("isLiveLog"@, JsonTree::Bool(s.is_live_log)),
        ("isRealTime"@, JsonTree::Bool(s.is_real_time)),
        ("inProgressEventCount"@, JsonTree::Int(s.in_progress_event_count as int)),
        ("segmentId"@, JsonTree::Int(s.segment_id as int)),
    ]
}

/// The one file of a form: an archive, as a browser would send a blob.
pub open spec fn log_blob(zip: Seq<u8>) -> Seq<FileModel> {
    seq![
        FileModel {
            field: "logfile"@,
            name: "blob"@,
            content_type: "application/zip"@,
            data: zip,
        },
    ]
}

/// A request that posts these fields and an archive under a boundary of its own.
pub open spec fn uploads(
    r: RequestModel,
    url: Seq<char>,
    fields: Seq<(Seq<char>, Seq<char>)>,
    zip: Seq<u8>,
) -> bool {
    exists|boundary: Seq<char>| #[trigger]
        form_post(r, url, boundary, multipart_body(boundary, fields, log_blob(zip)))
}

/// `true` or `false`, spelled out.
pub open spec fn truth_text(b: bool) -> Seq<char> {
    if b {
        "true"@
    } else {
        "false"@
    }
}

/// The public address of a report on the site with this base URL.
pub open spec fn report_address(base_url: Seq<char>, code: Seq<char>) -> Seq<char> {
    base_url + "/reports/"@ + code
}

/// The public address of a report on the site with this base URL.
pub fn report_link(base_url: &str, code: &str) -> (r: String)
    ensures
        r@ == report_address(base_url@, code@),
{
    let mut out = base_url.to_owned();
    out.append("/reports/");
    out.append(code);
    out
}

/// A session on one of the sites, under the client version that it claims.
pub struct WclSession {
    pub client_version: String,
    pub game: Game,
}

impl WclSession {
    /// The address of `path` on this session's site.
    pub open spec fn address(self, path: Seq<char>) -> Seq<char> {
        self.game.base_url@ + path
    }

    /// A session on the site of `game_id`. The client version is the latest one where it
    /// could be found out.
    pub fn new(game_id: &str, latest: Option<String>) -> (r: WclSession)
        ensures
            r.game@ == site_by_id(game_id@),
            r.client_version@ == match latest {
                Some(v) => v@,
                None => FALLBACK_CLIENT_VERSION@,
            },
    {
        let client_version = match latest {
            Some(v) => v,
            None => FALLBACK_CLIENT_VERSION.to_owned(),
        };
        WclSession { client_version, game: game_by_id(game_id) }
    }

    fn url(&self, path: &str) -> (r: String)
        ensures
            r@ == self.address(path@),
    {
        let mut out = self.game.base_url.to_owned();
        out.append(path);
        out
    }

    /// The public address of a report.
    pub fn report_url(&self, code: &str) -> (r: String)
        ensures
            r@ == report_address(self.game.base_url@, code@),
    {
        report_link(self.game.base_url, code)
    }

    /// The user agent that every request bears.
    pub fn user_agent(&self) -> (r: String)
        ensures
            r@
                == "Mozilla/5.0 (Windows NT 10.0; Win64; x64) AppleWebKit/537.36 (KHTML, like Gecko) ArchonApp/"@
                + self.client_version@ + " Chrome/"@ + CHROME_VERSION@ + " Electron/"@
                + ELECTRON_VERSION@ + " Safari/537.36"@,
    {
        let mut out =
            "Mozilla/5.0 (Windows NT 10.0; Win64; x64) AppleWebKit/537.36 (KHTML, like Gecko) ArchonApp/".to_owned();
        out.append(self.client_version.as_str());
        out.append(" Chrome/");
        out.append(CHROME_VERSION);
        out.append(" Electron/");
        out.append(ELECTRON_VERSION);
        out.append(" Safari/537.36");
        out
    }

    /// Posts JSON that is written out already.
    pub fn json_request(&self, path: &str, text: &str) -> (r: Request)
        ensures
            r@ == (RequestModel {
                method: Method::Post,
                url: self.address(path@),
                content_type: Some("application/json"@),
                body: encode_utf8(text@),
            }),
    {
        Request {
            method: Method::Post,
            url: self.url(path),
            content_type: Some("application/json".to_owned()),
            body: text.as_bytes_vec(),
        }
    }

    fn post_json(&self, path: &str, members: Vec<(&str, Field)>) -> (r: Request)
        ensures
            r@ == json_post(self.address(path@), members_tree(members@)),
    {
        let text = object_text(members);
        self.json_request(path, text.as_str())
    }

    /// Logs a user in.
    pub fn login_request(&self, email: &str, password: &str) -> (r: Request)
        ensures
            r@ == json_post(
                self.address("/desktop-client/log-in"@),
                seq![
                    ("email"@, JsonTree::Text(email@)),
                    ("password"@, JsonTree::Text(password@)),
                    ("version"@, JsonTree::Text(self.client_version@)),
                ],
            ),
    {
        let mut m: Vec<(&str, Field)> = Vec::new();
        m.push(("email", Field::Text(email.to_owned())));
        m.push(("password", Field::Text(password.to_owned())));
        m.push(("version", Field::Text(self.client_version.clone())));
        proof {
            assert(members_tree(m@) =~= seq![
                ("email"@, JsonTree::Text(email@)),
                ("password"@, JsonTree::Text(password@)),
                ("version"@, JsonTree::Text(self.client_version@)),
            ]);
        }
        self.post_json("/desktop-client/log-in", m)
    }

    /// Decides on the answer to a login. `parsed` is the answer read as a login response,
    /// where it has that shape.
    pub fn login_result(&self, v: &Reply, parsed: Option<LoginResponse>) -> (r: Result<
        LoginResponse,
        String,
    >)
        ensures
            match parsed {
                Some(login) => if login.user is Some {
                    r == Ok::<LoginResponse, String>(login)
                } else {
                    r is Err && r->Err_0@ == "login to "@ + self.game.base_url@ + " failed: "@
                        + error_detail(v.json.tree(), v.compact@)
                },
                None => r is Err && r->Err_0@ == "log-in: unexpected response shape: "@ + truncated(
                    v.compact@,
                    500,
                ),
            },
    {
        match parsed {
            Some(login) => {
                if login.user.is_some() {
                    return Ok(login);
                }
                let mut out = "login to ".to_owned();
                out.append(self.game.base_url);
                out.append(" failed: ");
                let detail = detail_of(v);
                out.append(detail.as_str());
                Err(out)
            },
            None => {
                let mut out = "log-in: unexpected response shape: ".to_owned();
                let short = truncate(v.compact.as_str(), 500);
                out.append(short.as_str());
                Err(out)
            },
        }
    }

    /// Asks for the page that names the parser, at the time `ts` in milliseconds.
    pub fn parser_page_request(&self, ts: u128) -> (r: Request)
        ensures
            r@ == bare(
                Method::Get,
                self.game.base_url@ + "/desktop-client/parser?id=1&ts="@ + decimal(ts as int)
                    + "&gameContentDetectionEnabled=false&metersEnabled=false&liveFightDataEnabled=false"@,
            ),
    {
        let mut url = self.url("/desktop-client/parser?id=1&ts=");
        push_nat(&mut url, ts);
        url.append(
            "&gameContentDetectionEnabled=false&metersEnabled=false&liveFightDataEnabled=false",
        );
        let r = Request { method: Method::Get, url, content_type: None, body: Vec::new() };
        proof {
            assert(r.body@ =~= seq![]);
        }
        r
    }

    /// Creates a report.
    pub fn create_report_request(
        &self,
        filename: &str,
        start_time: i64,
        end_time: i64,
        region: i32,
        visibility: i32,
        guild_id: Option<i64>,
        parser_version: i32,
    ) -> (r: Request)
        ensures
            r@ == json_post(
                self.address("/desktop-client/create-report"@),
                report_members(
                    self.client_version@,
                    (ReportModel {
                        filename: filename@,
                        start_time: start_time as int,
                        end_time: end_time as int,
                        region: region as int,
                        visibility: visibility as int,
                        guild_id,
                        parser_version: parser_version as int,
                    }),
                ),
            ),
    {
        let guild = match guild_id {
            Some(g) => Field::Int(g),
            None => Field::Null,
        };
        let mut m: Vec<(&str, Field)> = Vec::new();
        m.push(("clientVersion", Field::Text(self.client_version.clone())));
        m.push(("parserVersion", Field::Int(parser_version as i64)));
        m.push(("startTime", Field::Int(start_time)));
        m.push(("endTime", Field::Int(end_time)));
        m.push(("guildId", guild));
        m.push(("fileName", Field::Text(filename.to_owned())));
        m.push(("serverOrRegion", Field::Int(region as i64)));
        m.push(("visibility", Field::Int(visibility as i64)));
        m.push(("reportTagId", Field::Null));
        m.push(("description", Field::Text("".to_owned())));
        proof {
            let report = ReportModel {
                filename: filename@,
                start_time: start_time as int,
                end_time: end_time as int,
                region: region as int,
                visibility: visibility as int,
                guild_id,
                parser_version: parser_version as int,
            };
            assert(guild.tree() == optional_int(guild_id));
            assert(members_tree(m@) =~= report_members(self.client_version@, report));
        }
        self.post_json("/desktop-client/create-report", m)
    }

    /// Posts a form that is written out already under this boundary.
    pub fn form_request(&self, path: &str, code: &str, boundary: &str, body: Vec<u8>) -> (r:
        Request)
        ensures
            r@ == (RequestModel {
                method: Method::Post,
                url: self.address(path@) + code@,
                content_type: Some("multipart/form-data; boundary="@ + boundary@),
                body: body@,
            }),
    {
        let mut url = self.url(path);
        url.append(code);
        let mut content_type = "multipart/form-data; boundary=".to_owned();
        content_type.append(boundary);
        Request { method: Method::Post, url, content_type: Some(content_type), body }
    }

    fn post_upload(
        &self,
        path: &str,
        code: &str,
        fields: &Vec<(&str, &str)>,
        zip: Vec<u8>,
    ) -> (r: Request)
        ensures
            uploads(r@, self.address(path@) + code@, field_models(fields@), zip@),
    {
        let ghost data = zip@;
        let mut files: Vec<(&str, &str, &str, Vec<u8>)> = Vec::new();
        files.push(("logfile", "blob", "application/zip", zip));
        let (boundary, body) = build_multipart(fields, &files);
        let r = self.form_request(path, code, boundary.as_str(), body);
        proof {
            assert(file_models(files@) =~= log_blob(data));
            assert(form_post(
                r@,
                self.address(path@) + code@,
                boundary@,
                multipart_body(boundary@, field_models(fields@), log_blob(data)),
            ));
        }
        r
    }

    /// Uploads a master table.
    pub fn set_master_table_request(
        &self,
        code: &str,
        segment_id: i64,
        is_real_time: bool,
        zip: Vec<u8>,
    ) -> (r: Request)
        ensures
            uploads(
                r@,
                self.address("/desktop-client/set-report-master-table/"@) + code@,
                seq![
                    ("segmentId"@, decimal(segment_id as int)),
                    ("isRealTime"@, truth_text(is_real_time)),
                ],
                zip@,
            ),
    {
        let id = decimal_text(segment_id);
        let mut fields: Vec<(&str, &str)> = Vec::new();
        fields.push(("segmentId", id.as_str()));
        fields.push(
            (
                "isRealTime",
                if is_real_time {
                    "true"
                } else {
                    "false"
                },
            ),
        );
        proof {
            assert(field_models(fields@) =~= seq![
                ("segmentId"@, decimal(segment_id as int)),
                ("isRealTime"@, truth_text(is_real_time)),
            ]);
        }
        self.post_upload("/desktop-client/set-report-master-table/", code, &fields, zip)
    }

    /// Adds a segment to a report.
    pub fn add_segment_request(&self, code: &str, segment: SegmentInfo, zip: Vec<u8>) -> (r:
        Request)
        ensures
            uploads(
                r@,
                self.address("/desktop-client/add-report-segment/"@) + code@,
                seq![("parameters"@, json_text(JsonTree::Object(segment_members(segment))))],
                zip@,
            ),
    {
        let mut m: Vec<(&str, Field)> = Vec::new();
        m.push(("startTime", Field::Int(segment.start_time)));
        m.push(("endTime", Field::Int(segment.end_time)));
        m.push(("mythic", Field::Int(segment.mythic as i64)));
        m.push(("isLiveLog", Field::Bool(segment.is_live_log)));
        m.push(("isRealTime", Field::Bool(segment.is_real_time)));
        m.push(("inProgressEventCount", Field::Int(segment.in_progress_event_count)));
        m.push(("segmentId", Field::Int(segment.segment_id)));
        proof {
            assert(members_tree(m@) =~= segment_members(segment));
        }
        let parameters = object_text(m);
        self.segment_request(code, parameters.as_str(), zip)
    }

    /// Adds a segment to a report, its parameters written out already.
    pub fn segment_request(&self, code: &str, parameters: &str, zip: Vec<u8>) -> (r: Request)
        ensures
            uploads(
                r@,
                self.address("/desktop-client/add-report-segment/"@) + code@,
                seq![("parameters"@, parameters@)],
                zip@,
            ),
    {
        let mut fields: Vec<(&str, &str)> = Vec::new();
        fields.push(("parameters", parameters));
        proof {
            assert(field_models(fields@) =~= seq![("parameters"@, parameters@)]);
        }
        self.post_upload("/desktop-client/add-report-segment/", code, &fields, zip)
    }

    /// Ends a report.
    pub fn terminate_report_request(&self, code: &str) -> (r: Request)
        ensures
            r@ == bare(
                Method::Post,
                self.game.base_url@ + "/desktop-client/terminate-report/"@ + code@,
            ),
    {
        let mut url = self.url("/desktop-client/terminate-report/");
        url.append(code);
        let r = Request { method: Method::Post, url, content_type: None, body: Vec::new() };
        proof {
            assert(r.body@ =~= seq![]);
        }
        r
    }
}

/// The code of the report that was created, as the site's answer gives it.
pub fn created_report(v: &Reply) -> (r: Result<String, String>)
    ensures
        match v.json.tree().text_member("code"@) {
            Some(code) => r is Ok && r->Ok_0@ == code,
            None => r is Err && r->Err_0@ == "create-report did not return a report code: "@
                + error_detail(v.json.tree(), v.compact@),
        },
{
    match v.json.get_str("code") {
        Some(code) => Ok(code.clone()),
        None => {
            let mut out = "create-report did not return a report code: ".to_owned();
            let detail = detail_of(v);
            out.append(detail.as_str());
            Err(out)
        },
    }
}

/// The id of the next segment, as the site's answer gives it. Zero, which never advances,
/// stands for an answer that gives neither an id nor an error.
pub fn added_segment(v: &Reply) -> (r: Result<i64, String>)
    ensures
        match v.json.tree().int_member("nextSegmentId"@) {
            Some(next) => r is Ok && r->Ok_0 == next,
            None => match error_message(v.json.tree(), v.compact@) {
                Some(msg) => r is Err && r->Err_0@ == "add-report-segment failed: "@ + msg,
                None => r == Ok::<i64, String>(0),
            },
        },
{
    match v.json.get_i64("nextSegmentId") {
        Some(next) => Ok(next),
        None => match api_error_message(v) {
            Some(msg) => {
                let mut out = "add-report-segment failed: ".to_owned();
                out.append(msg.as_str());
                Err(out)
            },
            None => Ok(0),
        },
    }
}

} // verus!
