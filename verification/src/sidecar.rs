//! The protocol of the parser process: one JSON object per line, in both directions.
use vstd::prelude::*;
use vstd::string::*;

use crate::json::members_tree;
use crate::json::object_text;
use crate::json::texts_tree;
use crate::json::Field;
use crate::json::Json;
use crate::json::JsonTree;
use crate::json::Reply;
use crate::outside::json_text;
use crate::outside::json_tree;
use crate::text::texts;
use crate::wcl::NotJson;

verus! {

/// How long the process may take to get ready, in milliseconds.
pub const READY_TIMEOUT_MS: u64 = 15_000;

/// How long the process may take to answer a command, in milliseconds.
pub const RESPONSE_TIMEOUT_MS: u64 = 60_000;

/// The line that carries an object with these members.
pub open spec fn object_line(members: Seq<(Seq<char>, JsonTree)>) -> Seq<char> {
    json_text(JsonTree::Object(members)) + "\n"@
}

/// The text is one line: it ends with a line feed and holds no other.
pub open spec fn is_one_line(s: Seq<char>) -> bool {
    s.len() > 0 && s.last() == '\n' && !s.drop_last().contains('\n')
}

/// A command that is written out already, as a line.
pub fn command_line(text: String) -> (r: String)
    ensures
        r@ == text@ + "\n"@,
        !text@.contains('\n') ==> is_one_line(r@),
{
    let mut out = text;
    out.append("\n");
    proof {
        reveal_strlit("\n");
        assert(out@.drop_last() =~= text@);
    }
    out
}

fn line_of(members: Vec<(&str, Field)>) -> (r: String)
    ensures
        r@ == object_line(members_tree(members@)),
        is_one_line(r@),
{
    command_line(object_text(members))
}

/// The first line that the process is sent: the code it is to run.
pub fn bootstrap_line(gamedata_code: &str, parser_code: &str) -> (r: String)
    ensures
        r@ == object_line(
            seq![
                ("gamedataCode"@, JsonTree::Text(gamedata_code@)),
                ("parserCode"@, JsonTree::Text(parser_code@)),
            ],
        ),
        is_one_line(r@),
{
    let mut m: Vec<(&str, Field)> = Vec::new();
    m.push(("gamedataCode", Field::Text(gamedata_code.to_owned())));
    m.push(("parserCode", Field::Text(parser_code.to_owned())));
    proof {
        assert(members_tree(m@) =~= seq![
            ("gamedataCode"@, JsonTree::Text(gamedata_code@)),
            ("parserCode"@, JsonTree::Text(parser_code@)),
        ]);
    }
    line_of(m)
}

/// A command to the parser process.
pub enum Command {
    /// Forget everything.
    ClearState,
    /// The log begins on this date.
    SetStartDate(String),
    /// Parse these lines of the log.
    ParseLines { lines: Vec<String>, region: i32 },
    /// Hand over the fights that are complete, and with `push_fight` the current one too.
    CollectFights { push_fight: bool },
    /// Hand over the master table.
    CollectMasterInfo,
    /// Forget the fights that were handed over.
    ClearFights,
}

/// A command without arguments.
pub open spec fn plain_command(action: Seq<char>) -> Seq<(Seq<char>, JsonTree)> {
    seq![("action"@, JsonTree::Text(action))]
}

impl Command {
    /// The members of the object that carries the command.
    pub open spec fn members(self) -> Seq<(Seq<char>, JsonTree)> {
        match self {
            Command::ClearState => plain_command("clear-state"@),
            Command::SetStartDate(date) => seq![
                ("action"@, JsonTree::Text("set-start-date"@)),
                ("startDate"@, JsonTree::Text(date@)),
            ],
            Command::ParseLines { lines, region } => seq![
                ("action"@, JsonTree::Text("parse-lines"@)),
                ("lines"@, texts_tree(texts(lines@))),
                ("selectedRegion"@, JsonTree::Int(region as int)),
            ],
            Command::CollectFights { push_fight } => seq![
                ("action"@, JsonTree::Text("collect-fights"@)),
                ("pushFightIfNeeded"@, JsonTree::Bool(push_fight)),
                ("scanningOnly"@, JsonTree::Bool(false)),
            ],
            Command::CollectMasterInfo => plain_command("collect-master-info"@),
            Command::ClearFights => plain_command("clear-fights"@),
        }
    }

    /// The line that carries the command.
    pub fn line(self) -> (r: String)
        ensures
            r@ == object_line(self.members()),
            is_one_line(r@),
    {
        let ghost members = self.members();
        let mut m: Vec<(&str, Field)> = Vec::new();
        match self {
            Command::ClearState => {
                m.push(("action", Field::Text("clear-state".to_owned())));
            },
            Command::SetStartDate(date) => {
                m.push(("action", Field::Text("set-start-date".to_owned())));
                m.push(("startDate", Field::Text(date)));
            },
            Command::ParseLines { lines, region } => {
                m.push(("action", Field::Text("parse-lines".to_owned())));
                m.push(("lines", Field::Texts(lines)));
                m.push(("selectedRegion", Field::Int(region as i64)));
            },
            Command::CollectFights { push_fight } => {
                m.push(("action", Field::Text("collect-fights".to_owned())));
                m.push(("pushFightIfNeeded", Field::Bool(push_fight)));
                m.push(("scanningOnly", Field::Bool(false)));
            },
            Command::CollectMasterInfo => {
                m.push(("action", Field::Text("collect-master-info".to_owned())));
            },
            Command::ClearFights => {
                m.push(("action", Field::Text("clear-fights".to_owned())));
            },
        }
        proof {
            assert(members_tree(m@) =~= members);
        }
        line_of(m)
    }
}

/// Reads a line that the process sent.
pub fn read_reply(line: &str) -> (r: Result<Json, NotJson>)
    ensures
        match r {
            Ok(v) => json_tree(line@) == Some(v.tree()),
            Err(e) => json_tree(line@) is None && e.context@ == "parser emitted non-JSON: "@
                + line@,
        },
{
    match Json::read(line) {
        Ok(v) => Ok(v),
        Err(cause) => {
            let mut context = "parser emitted non-JSON: ".to_owned();
            context.append(line);
            Err(NotJson { context, cause })
        },
    }
}

/// The process answered a command with success, or else the error that it reported.
pub fn check_ok(v: &Json) -> (r: Result<(), String>)
    ensures
        r is Ok <==> v.tree().bool_member("ok"@) == Some(true),
        r matches Err(e) ==> e@ == "parser error: "@ + match v.tree().text_member("error"@) {
            Some(s) => s,
            None => "unknown error"@,
        },
{
    match v.get_bool("ok") {
        Some(true) => {
            return Ok(());
        },
        _ => {},
    }
    let mut out = "parser error: ".to_owned();
    match v.get_str("error") {
        Some(s) => {
            out.append(s.as_str());
        },
        None => {
            out.append("unknown error");
        },
    }
    Err(out)
}

/// Why the process did not get ready.
pub enum NotReady {
    /// Its first line was no JSON.
    NotJson(NotJson),
    /// Its first line did not say that it is ready.
    Failed(String),
}

/// The process said in its first answer that it is ready.
pub fn check_ready_reply(v: &Reply) -> (r: Result<(), NotReady>)
    ensures
        r is Ok <==> v.json.tree().bool_member("ready"@) == Some(true),
        r matches Err(e) ==> (e matches NotReady::Failed(m) && m@ == "parser bootstrap failed: "@
            + v.compact@),
{
    match v.json.get_bool("ready") {
        Some(true) => {
            return Ok(());
        },
        _ => {},
    }
    let mut out = "parser bootstrap failed: ".to_owned();
    out.append(v.compact.as_str());
    Err(NotReady::Failed(out))
}

/// The process said in its first line that it is ready.
pub fn check_ready(line: &str) -> (r: Result<(), NotReady>)
    ensures
        match json_tree(line@) {
            Some(t) => {
                &&& r is Ok <==> t.bool_member("ready"@) == Some(true)
                &&& r matches Err(e) ==> (e matches NotReady::Failed(m) && m@
                    == "parser bootstrap failed: "@ + json_text(t))
            },
            None => r matches Err(NotReady::NotJson(e)) && e.context@
                == "parser emitted non-JSON: "@ + line@,
        },
{
    match Reply::read(line) {
        Ok(v) => check_ready_reply(&v),
        Err(cause) => {
            let mut context = "parser emitted non-JSON: ".to_owned();
            context.append(line);
            Err(NotReady::NotJson(NotJson { context, cause }))
        },
    }
}

} // verus!
