//! What the functions of the library return.
use vstd::prelude::*;
use vstd::string::*;
use vstd::utf8::encode_utf8;

use crate::chunk::bytes_to_read;
use crate::chunk::chunk_of;
use crate::chunk::Chunk;
use crate::fights::build_fights_string;
use crate::fights::build_master_string;
use crate::fights::event_sum;
use crate::fights::event_total;
use crate::fights::events_text;
use crate::fights::fights_empty;
use crate::fights::fights_of;
use crate::fights::fights_string;
use crate::fights::in_progress_events;
use crate::fights::master_ids;
use crate::fights::FightData;
use crate::fights::MasterIds;
use crate::game::game_by_id;
use crate::game::games;
use crate::game::known_sites;
use crate::game::site_by_id;
use crate::game::Game;
use crate::json::JsonTree;
use crate::json::Json;
use crate::json::Reply;
use crate::laws::tables::fights_read;
use crate::laws::tables::master_tables_read;
use crate::laws::tables::section_is;
use crate::laws::tables::segments_state_their_fights;
use crate::lines::decoded;
use crate::lines::len_up_to;
use crate::lines::lines_of_text;
use crate::lines::lines_up_to;
use crate::lines::split_lines;
use crate::lines::text_lines;
use crate::live::game_meant;
use crate::live::now_ms;
use crate::live::LiveLogArgs;
use crate::log_file::date_of_groups;
use crate::log_file::date_told;
use crate::log_file::found_log;
use crate::log_file::is_log_file;
use crate::log_file::is_newest;
use crate::log_file::log_file_shape;
use crate::log_file::newest_log;
use crate::log_file::parse_start_date;
use crate::log_file::start_date;
use crate::log_file::Entry;
use crate::log_file::FoundLog;
use crate::multipart::build_multipart;
use crate::multipart::is_boundary;
use crate::multipart::make_zip;
use crate::multipart::multipart_body;
use crate::multipart::multipart_with;
use crate::multipart::field_models;
use crate::multipart::file_models;
use crate::multipart::random_alnum;
use crate::multipart::ZipFailure;
use crate::numbers::decimal;
use crate::numbers::decimal_text;
use crate::numbers::format_with_commas;
use crate::numbers::parse_i32;
use crate::numbers::parsed_i32;
use crate::numbers::with_commas;
use crate::outside::group_texts;
use crate::outside::json_text;
use crate::outside::json_tree;
use crate::outside::regex_search;
use crate::outside::zip_archive;
use crate::overlay::after_register;
use crate::overlay::hotkey_answer;
use crate::overlay::on_hotkey;
use crate::overlay::plan_hotkey;
use crate::overlay::AfterRegister;
use crate::overlay::HotkeyEnd;
use crate::overlay::HotkeyPlan;
use crate::overlay::WindowStep;
use crate::parser_page::bundle_pattern;
use crate::parser_page::page_is;
use crate::parser_page::read_parser_page;
use crate::parser_page::PageError;
use crate::parser_page::ParserPage;
use crate::parser_page::ANY_BUNDLE_PATTERN;
use crate::parser_page::GAMEDATA_PATTERN;
use crate::parser_page::VERSION_PATTERN;
use crate::retry::after_attempt;
use crate::retry::after_live_failure;
use crate::retry::gave_up_message;
use crate::retry::next_step;
use crate::retry::relogin_message;
use crate::retry::upload_failed_message;
use crate::retry::HttpStatus;
use crate::retry::LiveStep;
use crate::retry::Outcome;
use crate::retry::Step;
use crate::sidecar::bootstrap_line;
use crate::sidecar::check_ok;
use crate::sidecar::check_ready;
use crate::sidecar::check_ready_reply;
use crate::sidecar::command_line;
use crate::sidecar::is_one_line;
use crate::sidecar::read_reply;
use crate::sidecar::Command;
use crate::sidecar::NotReady;
use crate::text::is_blank;
use crate::text::same_text;
use crate::text::text_option;
use crate::text::texts;
use crate::text::trim;
use crate::text::trim_final_newlines;
use crate::text::trimmed;
use crate::text::truncate;
use crate::text::truncated;
use crate::text::without_final_newlines;
use crate::upload::no_fights_message;
use crate::upload::setup_note;
use crate::upload::Note;
use crate::upload::Setup;
use crate::wcl::added_segment;
use crate::wcl::api_error_message;
use crate::wcl::created_report;
use crate::wcl::error_detail;
use crate::wcl::error_message;
use crate::wcl::json_body;
use crate::wcl::json_post;
use crate::wcl::latest_client_version;
use crate::wcl::login_of;
use crate::wcl::login_response;
use crate::wcl::rejection;
use crate::wcl::rejection_detail;
use crate::wcl::rejection_message;
use crate::wcl::rejection_of;
use crate::wcl::release_name;
use crate::wcl::report_link;
use crate::wcl::report_members;
use crate::wcl::segment_members;
use crate::wcl::uploads;
use crate::wcl::LoginResponse;
use crate::wcl::Method;
use crate::wcl::NotJson;
use crate::wcl::ParserBundle;
use crate::wcl::ReportModel;
use crate::wcl::Request;
use crate::wcl::SegmentInfo;
use crate::wcl::WclSession;

verus! {

/// `build_master_string` writes a line with the two versions, and then the sections of actors,
/// abilities, tuples and pets.
pub proof fn built_master_tables(
    m: &Json,
    log_version: i64,
    game_version: i64,
    r: String,
) -> (s: (Seq<char>, Seq<char>, Seq<char>, Seq<char>))
    requires
        call_ensures(build_master_string, (m, log_version, game_version), r),
    ensures
        r@ == decimal(log_version as int) + "|"@ + decimal(game_version as int) + "|\n"@ + s.0 + s.1
            + s.2 + s.3,
        section_is(
            s.0,
            m.tree().int_or_zero("lastAssignedActorID"@),
            m.tree().text_member("actorsString"@),
        ),
        section_is(
            s.1,
            m.tree().int_or_zero("lastAssignedAbilityID"@),
            m.tree().text_member("abilitiesString"@),
        ),
        section_is(
            s.2,
            m.tree().int_or_zero("lastAssignedTupleID"@),
            m.tree().text_member("tuplesString"@),
        ),
        section_is(
            s.3,
            m.tree().int_or_zero("lastAssignedPetID"@),
            m.tree().text_member("petsString"@),
        ),
{
    master_tables_read(m.tree(), log_version as int, game_version as int)
}

/// `build_fights_string` writes a line with the two versions, a line with the number of events,
/// and the events.
pub proof fn built_fights(fd: &Json, r: String)
    requires
        call_ensures(build_fights_string, (fd,), r),
    ensures
        r@ == decimal(fd.tree().int_or_zero("logVersion"@)) + "|"@ + decimal(
            fd.tree().int_or_zero("gameVersion"@),
        ) + "\n"@ + decimal(event_sum(fights_of(fd.tree()))) + "\n"@ + events_text(
            fights_of(fd.tree()),
        ),
{
    fights_read(fd.tree());
}

/// What is read of fights and master tables is what stands under its name.
pub proof fn read_fights(
    v: &Json,
    ids: MasterIds,
    empty: bool,
    total: Option<i64>,
    first: i64,
    data: Option<FightData>,
)
    requires
        call_ensures(master_ids, (v,), ids),
        call_ensures(fights_empty, (v,), empty),
        call_ensures(event_total, (v,), total),
        call_ensures(in_progress_events, (v,), first),
        call_ensures(FightData::of, (v,), data),
    ensures
        ids.0 == v.tree().int_or_zero("lastAssignedActorID"@),
        ids.1 == v.tree().int_or_zero("lastAssignedAbilityID"@),
        ids.2 == v.tree().int_or_zero("lastAssignedTupleID"@),
        ids.3 == v.tree().int_or_zero("lastAssignedPetID"@),
        empty <==> fights_of(v.tree()).len() == 0,
        total matches Some(n) ==> n == event_sum(fights_of(v.tree())),
        fights_of(v.tree()).len() > 0 ==> first == fights_of(v.tree())[0].int_or_zero(
            "eventCount"@,
        ),
        fights_of(v.tree()).len() == 0 ==> first == 0,
        data is Some <==> total is Some,
        data matches Some(d) ==> {
            &&& d.log_version == v.tree().int_or_zero("logVersion"@)
            &&& d.game_version == v.tree().int_or_zero("gameVersion"@)
            &&& d.start_time == v.tree().int_or_zero("startTime"@)
            &&& d.end_time == v.tree().int_or_zero("endTime"@)
            &&& d.mythic == (v.tree().int_or_zero("mythic"@) as i32)
            &&& d.events == event_sum(fights_of(v.tree()))
            &&& d.text@ == fights_string(v.tree())
        },
{
    segments_state_their_fights(v.tree());
}

/// `after_attempt` asks a busy or broken server again on the first three attempts, after one, two
/// and four seconds and the jitter, and one that does not answer after as many seconds; it accepts
/// what is below 400 and rejects the rest.
pub proof fn attempts_are_followed(attempt: u32, status: u16, jitter: u64, r: Step, silent: Step)
    requires
        call_ensures(after_attempt, (attempt, Outcome::Status(status), jitter), r),
        call_ensures(after_attempt, (attempt, Outcome::NoResponse, jitter), silent),
        jitter < 1000,
    ensures
        ({
            let pause = if attempt == 0 {
                1000int
            } else if attempt == 1 {
                2000
            } else {
                4000
            };
            &&& attempt < 3 && (status == 429 || status >= 500) ==> (r matches Step::RetryAfter(ms)
                && ms == pause + jitter)
            &&& attempt < 3 ==> (silent matches Step::RetryAfter(ms) && ms == pause)
            &&& attempt >= 3 ==> silent is GiveUp
            &&& status < 400 ==> r is Accept
            &&& 400 <= status && (attempt >= 3 || (status < 500 && status != 429)) ==> r is Reject
        }),
{
    reveal_with_fuel(crate::retry::base_delay, 4);
}

/// `after_live_failure` pauses thirty seconds, or three after logging in again on a 401, and goes
/// on up to the hundred-and-twentieth attempt, unless a stop was asked for.
pub proof fn live_failures_are_followed(
    attempt: u32,
    stop: bool,
    status: Option<u16>,
    r: LiveStep,
)
    requires
        call_ensures(after_live_failure, (attempt, stop, status), r),
    ensures
        stop <==> r is Stop,
        !stop && status == Some(401u16) ==> (r matches LiveStep::Relogin { pause_secs, again }
            && pause_secs == 3 && (again <==> attempt < 120)),
        !stop && status != Some(401u16) ==> (r matches LiveStep::Wait { pause_secs, again }
            && pause_secs == 30 && (again <==> attempt < 120)),
{
}

/// Failures are worded as they happened.
pub proof fn failures_are_worded(
    attempt: u32,
    reason: &str,
    why: Option<String>,
    status: &HttpStatus,
    again: String,
    failed: String,
    gave_up: String,
    described: String,
    no_fights: String,
)
    requires
        call_ensures(relogin_message, (attempt, why), again),
        call_ensures(upload_failed_message, (attempt, reason), failed),
        call_ensures(gave_up_message, (), gave_up),
        call_ensures(HttpStatus::describe, (status,), described),
        call_ensures(no_fights_message, (), no_fights),
    ensures
        why is None ==> again@ == "Session expired \u{2014} logged in again (attempt "@ + decimal(
            attempt as int,
        ) + ")"@,
        why matches Some(w) ==> again@ == "Session expired, re-login failed (attempt "@ + decimal(
            attempt as int,
        ) + "): "@ + w@,
        failed@ == "Upload failed (attempt "@ + decimal(attempt as int) + "): "@ + reason@,
        gave_up@ == "upload failed, giving up after "@ + decimal(120) + " attempts"@,
        described@ == "HTTP "@ + decimal(status.0 as int),
        no_fights@ == "No fights found in log file."@,
{
}

/// A session is opened on the site of its game, under the latest client version or the one to
/// fall back on, which its user agent names.
pub proof fn sessions_are_opened(
    id: &str,
    latest: Option<String>,
    s: WclSession,
    game: Game,
    code: &str,
    url: String,
    agent: String,
)
    requires
        call_ensures(WclSession::new, (id, latest), s),
        call_ensures(game_by_id, (id,), game),
        call_ensures(WclSession::report_url, (&s, code), url),
        call_ensures(WclSession::user_agent, (&s,), agent),
    ensures
        game@ == site_by_id(id@),
        s.game@ == site_by_id(id@),
        latest is None ==> s.client_version@ == "9.0.1"@,
        latest matches Some(v) ==> s.client_version@ == v@,
        url@ == site_by_id(id@).base_url + "/reports/"@ + code@,
        agent@
            == "Mozilla/5.0 (Windows NT 10.0; Win64; x64) AppleWebKit/537.36 (KHTML, like Gecko) ArchonApp/"@
            + s.client_version@ + " Chrome/"@ + "134.0.6998.205"@ + " Electron/"@ + "37.7.0"@
            + " Safari/537.36"@,
{
}

/// Logging in posts the e-mail, the password and the client version to the site; the page with
/// the parser is asked for at its address and time; and a report is ended at its address.
pub proof fn small_requests(
    s: &WclSession,
    email: &str,
    password: &str,
    ts: u128,
    code: &str,
    login: Request,
    page: Request,
    end: Request,
)
    requires
        call_ensures(WclSession::login_request, (s, email, password), login),
        call_ensures(WclSession::parser_page_request, (s, ts), page),
        call_ensures(WclSession::terminate_report_request, (s, code), end),
    ensures
        login@ == json_post(
            s.game.base_url@ + "/desktop-client/log-in"@,
            seq![
                ("email"@, JsonTree::Text(email@)),
                ("password"@, JsonTree::Text(password@)),
                ("version"@, JsonTree::Text(s.client_version@)),
            ],
        ),
        page.method == Method::Get,
        page.url@ == s.game.base_url@ + "/desktop-client/parser?id=1&ts="@ + decimal(ts as int)
            + "&gameContentDetectionEnabled=false&metersEnabled=false&liveFightDataEnabled=false"@,
        page.content_type is None,
        page.body@.len() == 0,
        end.method == Method::Post,
        end.url@ == s.game.base_url@ + "/desktop-client/terminate-report/"@ + code@,
        end.content_type is None,
        end.body@.len() == 0,
{
    assert(page@.body == page.body@);
    assert(end@.body == end.body@);
}

/// Creating a report posts what is known of it, each thing in its place.
pub proof fn report_requests(
    s: &WclSession,
    filename: &str,
    start_time: i64,
    end_time: i64,
    region: i32,
    visibility: i32,
    guild_id: Option<i64>,
    parser_version: i32,
    r: Request,
)
    requires
        call_ensures(
            WclSession::create_report_request,
            (s, filename, start_time, end_time, region, visibility, guild_id, parser_version),
            r,
        ),
    ensures
        r@ == json_post(
            s.game.base_url@ + "/desktop-client/create-report"@,
            report_members(
                s.client_version@,
                (ReportModel {
                    filename: filename@,
                    start_time: start_time as int,
                    end_time: end_time as int,
                    region: region as int,
                    visibility: visibility as int,
                    guild_id,
                    parser_version: parser_version as int,
                }),
            ),
        ),
{
}

/// A master table is posted with the id of its segment and whether it is real-time, a segment with
/// its parameters, each with its archive, to the report with its code.
pub proof fn upload_requests(
    s: &WclSession,
    code: &str,
    segment_id: i64,
    is_real_time: bool,
    segment: SegmentInfo,
    zip: Vec<u8>,
    table: Request,
    added: Request,
)
    requires
        call_ensures(
            WclSession::set_master_table_request,
            (s, code, segment_id, is_real_time, zip),
            table,
        ),
        call_ensures(WclSession::add_segment_request, (s, code, segment, zip), added),
    ensures
        uploads(
            table@,
            s.game.base_url@ + "/desktop-client/set-report-master-table/"@ + code@,
            seq![
                ("segmentId"@, decimal(segment_id as int)),
                (
                    "isRealTime"@,
                    if is_real_time {
                        "true"@
                    } else {
                        "false"@
                    },
                ),
            ],
            zip@,
        ),
        uploads(
            added@,
            s.game.base_url@ + "/desktop-client/add-report-segment/"@ + code@,
            seq![("parameters"@, json_text(JsonTree::Object(segment_members(segment))))],
            zip@,
        ),
{
}

/// An answer to a login is taken where it names a user; otherwise it is refused, with the error in
/// it, or as having another shape.
pub proof fn login_answers(
    s: &WclSession,
    v: &Reply,
    parsed: Option<LoginResponse>,
    read: Option<LoginResponse>,
    r: Result<LoginResponse, String>,
)
    requires
        call_ensures(login_response, (&v.json,), read),
        call_ensures(WclSession::login_result, (s, v, parsed), r),
    ensures
        match read {
            Some(login) => login_of(v.json.tree()) == Some(login@),
            None => login_of(v.json.tree()) is None,
        },
        parsed matches Some(login) ==> (login.user is Some ==> r == Ok::<LoginResponse, String>(
            login,
        )),
        parsed matches Some(login) ==> (login.user is None ==> r is Err && r->Err_0@ == "login to "@
            + s.game.base_url@ + " failed: "@ + error_detail(v.json.tree(), v.compact@)),
        parsed is None ==> r is Err && r->Err_0@ == "log-in: unexpected response shape: "@
            + truncated(v.compact@, 500),
{
}

/// The answers to creating a report and to adding a segment give the code and the next id, or the
/// error in them; an answer to adding a segment that gives neither counts as zero.
pub proof fn upload_answers(v: &Reply, code: Result<String, String>, next: Result<i64, String>)
    requires
        call_ensures(created_report, (v,), code),
        call_ensures(added_segment, (v,), next),
    ensures
        v.json.tree().text_member("code"@) matches Some(c) ==> code is Ok && code->Ok_0@ == c,
        v.json.tree().text_member("code"@) is None ==> code is Err && code->Err_0@
            == "create-report did not return a report code: "@ + error_detail(
            v.json.tree(),
            v.compact@,
        ),
        v.json.tree().int_member("nextSegmentId"@) matches Some(n) ==> next is Ok && next->Ok_0 == n,
        v.json.tree().int_member("nextSegmentId"@) is None ==> match error_message(
            v.json.tree(),
            v.compact@,
        ) {
            Some(m) => next is Err && next->Err_0@ == "add-report-segment failed: "@ + m,
            None => next is Ok && next->Ok_0 == 0,
        },
{
}

/// Errors, versions and rejections are read as their models say, and a body that is no JSON is
/// quoted up to five hundred bytes.
pub proof fn other_answers(
    v: &Reply,
    body: &str,
    what: &str,
    status: u16,
    url: &str,
    message: Option<String>,
    version: Option<String>,
    detail: String,
    rejected: String,
    read: Result<Reply, NotJson>,
)
    requires
        call_ensures(api_error_message, (v,), message),
        call_ensures(latest_client_version, (&v.json,), version),
        call_ensures(rejection_detail, (body,), detail),
        call_ensures(rejection_message, (what, url), rejected),
        call_ensures(json_body, (what, status, url, body), read),
    ensures
        text_option(message) == error_message(v.json.tree(), v.compact@),
        text_option(version) == release_name(v.json.tree()),
        json_tree(body@) matches Some(t) ==> detail@ == rejection(body@, Some((t, json_text(t)))),
        json_tree(body@) is None ==> detail@ == rejection(body@, None),
        rejected@ == what@ + " ("@ + url@ + ")"@,
        json_tree(body@) matches Some(t) ==> read is Ok && read->Ok_0.json.tree() == t
            && read->Ok_0.compact@ == json_text(t),
        json_tree(body@) is None ==> read is Err && read->Err_0.context@ == what@ + ": HTTP "@
            + decimal(status as int) + " from "@ + url@ + " returned non-JSON body: "@ + truncated(
            body@,
            500,
        ),
{
}

/// Lines to the parser carry their object, and its answers are read: an answer is good where it
/// says `ok`, and the parser is ready where it says `ready`.
pub proof fn parser_lines(
    gamedata: &str,
    code: &str,
    text: String,
    c: Command,
    line: &str,
    v: &Json,
    boot: String,
    framed: String,
    sent: String,
    read: Result<Json, NotJson>,
    ok: Result<(), String>,
    ready: Result<(), NotReady>,
)
    requires
        call_ensures(bootstrap_line, (gamedata, code), boot),
        call_ensures(command_line, (text,), framed),
        call_ensures(Command::line, (c,), sent),
        call_ensures(read_reply, (line,), read),
        call_ensures(check_ok, (v,), ok),
        call_ensures(check_ready, (line,), ready),
    ensures
        boot@ == json_text(
            JsonTree::Object(
                seq![
                    ("gamedataCode"@, JsonTree::Text(gamedata@)),
                    ("parserCode"@, JsonTree::Text(code@)),
                ],
            ),
        ) + "\n"@,
        is_one_line(boot@),
        framed@ == text@ + "\n"@,
        sent@ == json_text(JsonTree::Object(c.members())) + "\n"@,
        is_one_line(sent@),
        json_tree(line@) matches Some(t) ==> read is Ok && read->Ok_0.tree() == t,
        json_tree(line@) is None ==> read is Err && read->Err_0.context@
            == "parser emitted non-JSON: "@ + line@,
        v.tree().bool_member("ok"@) == Some(true) ==> ok is Ok,
        v.tree().bool_member("ok"@) != Some(true) ==> ok is Err && ok->Err_0@ == "parser error: "@
            + match v.tree().text_member("error"@) {
            Some(s) => s,
            None => "unknown error"@,
        },
        json_tree(line@) matches Some(t) ==> (ready is Ok <==> t.bool_member("ready"@) == Some(true)),
        json_tree(line@) matches Some(t) ==> (ready matches Err(e) ==> (e matches NotReady::Failed(m)
            && m@ == "parser bootstrap failed: "@ + json_text(t))),
        json_tree(line@) is None ==> (ready matches Err(NotReady::NotJson(e)) && e.context@
            == "parser emitted non-JSON: "@ + line@),
{
}

/// The page of a site is read by what the four patterns find in it.
pub proof fn parser_pages(html: &str, slug: &str, r: Result<ParserPage, PageError>)
    requires
        call_ensures(read_parser_page, (html, slug), r),
        regex_search(GAMEDATA_PATTERN@, html@) is Some,
        regex_search(bundle_pattern(slug@), html@) is Some,
        regex_search(ANY_BUNDLE_PATTERN@, html@) is Some,
        regex_search(VERSION_PATTERN@, html@) is Some,
    ensures
        page_is(
            r,
            html@,
            regex_search(GAMEDATA_PATTERN@, html@)->Some_0,
            regex_search(bundle_pattern(slug@), html@)->Some_0,
            regex_search(ANY_BUNDLE_PATTERN@, html@)->Some_0,
            regex_search(VERSION_PATTERN@, html@)->Some_0,
        ),
{
}

/// An archive holds the text as `log.txt`, deflated at level six; forms are laid out under their
/// boundary.
pub proof fn archives_and_forms(
    content: &str,
    boundary: &str,
    fields: &Vec<(&str, &str)>,
    files: &Vec<(&str, &str, &str, Vec<u8>)>,
    n: usize,
    zip: Result<Vec<u8>, ZipFailure>,
    body: Vec<u8>,
    drawn: (String, Vec<u8>),
    letters: String,
)
    requires
        call_ensures(make_zip, (content,), zip),
        call_ensures(multipart_with, (boundary, fields, files), body),
        call_ensures(build_multipart, (fields, files), drawn),
        call_ensures(random_alnum, (n,), letters),
    ensures
        zip matches Ok(bytes) ==> zip_archive("log.txt"@, 6, encode_utf8(content@)) == Some(bytes@),
        zip is Err ==> zip_archive("log.txt"@, 6, encode_utf8(content@)) is None,
        encode_utf8(content@).len() <= 1024 * 1024 * 1024 ==> zip is Ok,
        body@ == multipart_body(boundary@, field_models(fields@), file_models(files@)),
        is_boundary(drawn.0@),
        drawn.1@ == multipart_body(drawn.0@, field_models(fields@), file_models(files@)),
        letters@.len() == n,
{
}

/// Files are told apart by their names, read within bounds, and cut into lines.
pub proof fn files_are_read(
    name: &str,
    owned: String,
    entries: &Vec<Entry>,
    offset: u64,
    size: u64,
    buf: &[u8],
    limit: usize,
    raw: &str,
    is_log: bool,
    date: Option<String>,
    found: FoundLog,
    newest: Option<usize>,
    n: u32,
    chunk: Chunk,
    split: (Vec<String>, usize),
    lines: Vec<String>,
)
    requires
        call_ensures(is_log_file, (name,), is_log),
        call_ensures(parse_start_date, (name,), date),
        call_ensures(found_log, (owned,), found),
        call_ensures(newest_log, (entries,), newest),
        call_ensures(bytes_to_read, (offset, size), n),
        call_ensures(chunk_of, (buf, offset, size), chunk),
        call_ensures(split_lines, (buf, limit), split),
        call_ensures(lines_of_text, (raw,), lines),
    ensures
        is_log <==> log_file_shape(name@),
        text_option(date) == date_told(name@),
        found.name@ == owned@,
        text_option(found.date) == date_told(owned@),
        newest matches Some(i) ==> is_newest(entries@, i as int),
        newest is None ==> forall|j: int|
            0 <= j < entries@.len() ==> (#[trigger] entries@[j]).log_time() is None,
        size <= offset ==> n == 0,
        offset < size <= offset + 8 * 1024 * 1024 ==> n == size - offset,
        size > offset + 8 * 1024 * 1024 ==> n == 8 * 1024 * 1024,
        texts(chunk.lines@) == decoded(lines_up_to(buf@, 5000)),
        chunk.new_offset == offset + len_up_to(buf@, 5000),
        chunk.file_size == size,
        texts(split.0@) == decoded(lines_up_to(buf@, limit as nat)),
        split.1 == len_up_to(buf@, limit as nat),
        texts(lines@) == text_lines(raw@),
{
    if newest is None {
        assert forall|j: int| 0 <= j < entries@.len() implies (
        #[trigger] entries@[j]).log_time() is None by {
            let e = entries@[j];
            assert(e.log_time() is None);
        }
    }
}

/// Texts and numbers are worked on as their models say.
pub proof fn texts_and_numbers(
    a: &str,
    b: &str,
    n: usize,
    i: i64,
    same: bool,
    cut: String,
    trimmed_text: String,
    blank: bool,
    stripped: String,
    grouped: String,
    plain: String,
    number: Option<i32>,
)
    requires
        call_ensures(same_text, (a, b), same),
        call_ensures(truncate, (a, n), cut),
        call_ensures(trim, (a,), trimmed_text),
        call_ensures(is_blank, (a,), blank),
        call_ensures(trim_final_newlines, (a,), stripped),
        call_ensures(format_with_commas, (n,), grouped),
        call_ensures(decimal_text, (i,), plain),
        call_ensures(parse_i32, (a,), number),
    ensures
        same <==> a@ == b@,
        cut@ == truncated(a@, n as int),
        trimmed_text@ == trimmed(a@),
        blank <==> trimmed(a@).len() == 0,
        stripped@ == without_final_newlines(a@),
        grouped@ == with_commas(n as nat),
        plain@ == decimal(i as int),
        number matches Some(x) ==> parsed_i32(a@) == Some(x as int),
        number is None ==> parsed_i32(a@) is None,
{
}

/// The game of a live log, its times, and the messages of the preparations.
pub proof fn live_arguments(
    args: &LiveLogArgs,
    ms: Option<u128>,
    stage: &Setup,
    game: String,
    now: i64,
    note: Note,
)
    requires
        call_ensures(LiveLogArgs::game_id, (args,), game),
        call_ensures(now_ms, (ms,), now),
        call_ensures(Setup::note, (stage,), note),
    ensures
        game@ == game_meant(args.game@),
        ms matches Some(t) ==> now == (t as i64) && (t < 0x8000_0000_0000_0000 ==> now == t),
        ms is None ==> now == 0,
        note@ == setup_note(*stage),
{
}

/// Hotkeys are planned, registered and answered as they should be, and toggle the window.
pub proof fn hotkeys(
    parsed: bool,
    any_current: bool,
    same: bool,
    worked: bool,
    release_previous: bool,
    accelerator: String,
    end: HotkeyEnd,
    pressed: bool,
    visible: bool,
    plan: HotkeyPlan,
    after: AfterRegister,
    answer: Result<String, String>,
    step: WindowStep,
)
    requires
        call_ensures(plan_hotkey, (parsed, any_current, same), plan),
        call_ensures(after_register, (worked, release_previous), after),
        call_ensures(hotkey_answer, (accelerator, end), answer),
        call_ensures(on_hotkey, (pressed, same, visible), step),
    ensures
        !parsed ==> plan is Refuse,
        parsed && any_current && same ==> plan is Keep,
        parsed && !(any_current && same) ==> plan == (HotkeyPlan::Register {
            release_previous: any_current,
        }),
        !worked ==> after is KeepStored,
        worked ==> after == (AfterRegister::StoreNew { release_previous }),
        end is Current ==> answer == Ok::<String, String>(accelerator),
        end matches HotkeyEnd::NotRegistered(why) ==> answer is Err && answer->Err_0@ == why@,
        end matches HotkeyEnd::Unreadable(why) ==> answer is Err && answer->Err_0@
            == "invalid hotkey: "@ + why@,
        pressed && same && visible ==> step is Hide,
        pressed && same && !visible ==> step is Show,
        !pressed || !same ==> step is Nothing,
{
}

/// Requests that are written out already are framed as they are; a report is at `/reports/` on
/// its site.
pub proof fn framed_requests(
    s: &WclSession,
    path: &str,
    code: &str,
    text: &str,
    boundary: &str,
    body: Vec<u8>,
    json: Request,
    form: Request,
    segment: Request,
    link: String,
)
    requires
        call_ensures(WclSession::json_request, (s, path, text), json),
        call_ensures(WclSession::form_request, (s, path, code, boundary, body), form),
        call_ensures(WclSession::segment_request, (s, code, text, body), segment),
        call_ensures(report_link, (path, code), link),
    ensures
        json.method == Method::Post,
        json.url@ == s.game.base_url@ + path@,
        json.content_type matches Some(t) && t@ == "application/json"@,
        json.body@ == encode_utf8(text@),
        form.method == Method::Post,
        form.url@ == s.game.base_url@ + path@ + code@,
        form.content_type matches Some(t) && t@ == "multipart/form-data; boundary="@ + boundary@,
        form.body@ == body@,
        uploads(
            segment@,
            s.game.base_url@ + "/desktop-client/add-report-segment/"@ + code@,
            seq![("parameters"@, text@)],
            body@,
        ),
        link@ == path@ + "/reports/"@ + code@,
{
    assert(json@.method == json.method && json@.url == json.url@ && json@.body == json.body@);
    assert(form@.method == form.method && form@.url == form.url@ && form@.body == form.body@);
}

/// A page keeps what it told when the code is added; a login is shown by its user's name; an
/// answer that is ready says so; and captured groups spell the date they hold.
pub proof fn small_results(
    page: ParserPage,
    code: String,
    login: &LoginResponse,
    v: &Reply,
    body: &str,
    parsed: Option<Reply>,
    groups: &Vec<Option<String>>,
    bundle: ParserBundle,
    name: String,
    ready: Result<(), NotReady>,
    rejected: String,
    date: Option<String>,
)
    requires
        call_ensures(ParserPage::with_code, (page, code), bundle),
        call_ensures(LoginResponse::user_name, (login,), name),
        call_ensures(check_ready_reply, (v,), ready),
        call_ensures(rejection_of, (body, parsed), rejected),
        call_ensures(date_of_groups, (groups,), date),
    ensures
        bundle.gamedata_code@ == page.gamedata_code@,
        bundle.parser_code@ == code@,
        bundle.parser_version == page.parser_version,
        name@ == login.shown_name(),
        v.json.tree().bool_member("ready"@) == Some(true) <==> ready is Ok,
        ready matches Err(e) ==> (e matches NotReady::Failed(m) && m@ == "parser bootstrap failed: "@
            + v.compact@),
        parsed matches Some(p) ==> rejected@ == rejection(
            body@,
            Some((p.json.tree(), p.compact@)),
        ),
        parsed is None ==> rejected@ == rejection(body@, None),
        text_option(date) == start_date(group_texts(groups@)),
{
}

/// A busy or broken server is asked again after a second or more with a jitter below one, however
/// the jitter falls.
pub proof fn drawn_steps(attempt: u32, status: u16, r: Step, silent: Step)
    requires
        call_ensures(next_step, (attempt, Outcome::Status(status)), r),
        call_ensures(next_step, (attempt, Outcome::NoResponse), silent),
    ensures
        ({
            let pause = if attempt == 0 {
                1000int
            } else if attempt == 1 {
                2000
            } else {
                4000
            };
            &&& attempt < 3 && (status == 429 || status >= 500) ==> (r matches Step::RetryAfter(ms)
                && pause <= ms < pause + 1000)
            &&& attempt < 3 ==> (silent matches Step::RetryAfter(ms) && ms == pause)
            &&& attempt >= 3 ==> silent is GiveUp
            &&& status < 400 ==> r is Accept
            &&& 400 <= status && (attempt >= 3 || (status < 500 && status != 429)) ==> r is Reject
        }),
{
    reveal_with_fuel(crate::retry::base_delay, 4);
}

/// A game stands for its site, and the known ones are listed with Warcraft Logs first.
pub proof fn games_carry(g: Game, all: Vec<Game>)
    requires
        call_ensures(games, (), all),
    ensures
        g@.id == g.id@ && g@.base_url == g.base_url@ && g@.parser_slug == g.parser_slug@,
        all@.len() == 5,
        all@[0]@.id == "warcraft"@ && all@[0].base_url@ == "https://www.warcraftlogs.com"@,
        all@[1]@.id == "ff"@ && all@[1].base_url@ == "https://www.fflogs.com"@,
        all@[2]@.id == "eso"@ && all@[2].base_url@ == "https://www.esologs.com"@,
        all@[3]@.id == "swtor"@ && all@[3].base_url@ == "https://www.swtorlogs.com"@,
        all@[4]@.id == "fellowship"@ && all@[4].base_url@ == "https://www.fellowshiplogs.com"@,
{
    let views = all@.map_values(|g: Game| g@);
    assert(views == known_sites());
    assert(views.len() == all@.len());
    assert(views[0] == all@[0]@ && views[1] == all@[1]@ && views[2] == all@[2]@ && views[3]
        == all@[3]@ && views[4] == all@[4]@);
}

/// The texts of captured groups are those captured.
pub proof fn groups_carry(groups: Seq<Option<String>>, i: int)
    requires
        0 <= i < groups.len(),
    ensures
        group_texts(groups).len() == groups.len(),
        groups[i] matches Some(s) ==> group_texts(groups)[i] == Some(s@),
        groups[i] is None ==> group_texts(groups)[i] is None,
{
}

} // verus!
