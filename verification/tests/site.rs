use combatlog::game::game_by_id;
use combatlog::game::games;
use combatlog::json::object_text;
use combatlog::json::Field;
use combatlog::json::Json;
use combatlog::json::Reply;
use combatlog::multipart::build_multipart;
use combatlog::multipart::make_zip;
use combatlog::multipart::multipart_with;
use combatlog::multipart::random_alnum;
use combatlog::retry::after_attempt;
use combatlog::retry::after_live_failure;
use combatlog::retry::gave_up_message;
use combatlog::retry::next_step;
use combatlog::retry::relogin_message;
use combatlog::retry::upload_failed_message;
use combatlog::retry::HttpStatus;
use combatlog::retry::LiveStep;
use combatlog::retry::Outcome;
use combatlog::retry::Step;
use combatlog::wcl::added_segment;
use combatlog::wcl::api_error_message;
use combatlog::wcl::created_report;
use combatlog::wcl::json_body;
use combatlog::wcl::latest_client_version;
use combatlog::wcl::login_response;
use combatlog::wcl::report_link;
use combatlog::wcl::rejection_detail;
use combatlog::wcl::rejection_message;
use combatlog::wcl::rejection_of;
use combatlog::wcl::LoginResponse;
use combatlog::wcl::LoginUser;
use combatlog::wcl::Method;
use combatlog::wcl::SegmentInfo;
use combatlog::wcl::WclSession;

fn reply(text: &str) -> Reply {
    match Reply::read(text) {
        Ok(r) => r,
        Err(e) => panic!("{e}"),
    }
}

fn session() -> WclSession {
    WclSession::new("ff", Some("9.1.2".to_string()))
}

#[test]
fn sites_are_known_by_id() {
    let all = games();
    assert_eq!(all.len(), 5);
    for g in all {
        assert_eq!(game_by_id(g.id).base_url, g.base_url);
        assert_eq!(game_by_id(g.id).parser_slug, g.id);
    }
    assert_eq!(game_by_id("eso").base_url, "https://www.esologs.com");
    assert_eq!(game_by_id("swtor").base_url, "https://www.swtorlogs.com");
    assert_eq!(game_by_id("fellowship").base_url, "https://www.fellowshiplogs.com");
    assert_eq!(game_by_id("").id, "warcraft");
    assert_eq!(game_by_id("WARCRAFT").base_url, "https://www.warcraftlogs.com");
}

#[test]
fn a_session_claims_a_version() {
    assert_eq!(session().client_version, "9.1.2");
    assert_eq!(WclSession::new("ff", None).client_version, "9.0.1");
    assert_eq!(report_link("https://x", "y"), "https://x/reports/y");
    assert_eq!(session().report_url("aB3"), "https://www.fflogs.com/reports/aB3");
    assert_eq!(
        session().user_agent(),
        "Mozilla/5.0 (Windows NT 10.0; Win64; x64) AppleWebKit/537.36 (KHTML, like Gecko) \
         ArchonApp/9.1.2 Chrome/134.0.6998.205 Electron/37.7.0 Safari/537.36"
    );
}

#[test]
fn the_latest_version_is_the_release_name() {
    let name = |text: &str| latest_client_version(&reply(text).json);
    assert_eq!(name("{\"name\": \" 9.2.0\\n\"}"), Some("9.2.0".to_string()));
    assert_eq!(name("{\"name\": \"  \"}"), None);
    assert_eq!(name("{\"name\": 9}"), None);
    assert_eq!(name("[]"), None);
}

#[test]
fn json_is_read() {
    let v = reply("{\"b\": [1, 2.5, null, true], \"a\": {\"x\": -7}, \"big\": 18446744073709551615}");
    assert_eq!(
        v.compact,
        "{\"a\":{\"x\":-7},\"b\":[1,2.5,null,true],\"big\":18446744073709551615}"
    );
    let b = v.json.get_array("b").unwrap();
    assert_eq!(b.len(), 4);
    assert!(matches!(b[0], Json::Int(1)));
    assert!(matches!(&b[1], Json::Real(s) if s == "2.5"));
    assert!(matches!(b[2], Json::Null));
    assert!(matches!(b[3], Json::Bool(true)));
    assert_eq!(v.json.get("a").unwrap().get_i64("x"), Some(-7));
    assert_eq!(v.json.get_i64("big"), None);
    assert_eq!(v.json.get_i64_or_zero("nothing"), 0);
    assert!(v.json.get_str("a").is_none());
    assert!(Json::read("{").is_err());
}

#[test]
fn objects_are_written() {
    let text = object_text(vec![
        ("z", Field::Text("q\"\n".to_string())),
        ("n", Field::Null),
        ("i", Field::Int(-3)),
        ("t", Field::Bool(true)),
        ("l", Field::Texts(vec!["a".to_string(), "b".to_string()])),
    ]);
    assert_eq!(text, "{\"i\":-3,\"l\":[\"a\",\"b\"],\"n\":null,\"t\":true,\"z\":\"q\\\"\\n\"}");
}

#[test]
fn error_messages_are_found_in_order() {
    let message = |text: &str| api_error_message(&reply(text));
    assert_eq!(
        message("{\"message\": \"m\", \"error\": \"e\", \"reason\": \"r\"}"),
        Some("e".to_string())
    );
    assert_eq!(message("{\"message\": \"m\", \"error\": \"\"}"), Some("m".to_string()));
    assert_eq!(message("{\"error\": 5, \"reason\": \"r\"}"), Some("r".to_string()));
    assert_eq!(
        message("{\"success\": false}"),
        Some("server reported failure: {\"success\":false}".to_string())
    );
    assert_eq!(message("{\"success\": true}"), None);
    assert_eq!(message("[\"error\"]"), None);
}

#[test]
fn rejections_speak_for_themselves() {
    assert_eq!(rejection_detail("{\"error\": \"no\"}"), "no");
    assert_eq!(rejection_detail("<html>"), "<html>");
    assert_eq!(rejection_detail(" \n"), "(empty body)");
    assert_eq!(rejection_detail("{}"), "{}");
    assert_eq!(rejection_detail(&"y".repeat(501)), format!("{}\u{2026}", "y".repeat(500)));
    assert_eq!(rejection_of("body", None), "body");
    assert_eq!(rejection_of("body", Some(reply("{\"reason\": \"r\"}"))), "r");
    assert_eq!(rejection_message("no", "https://x/y"), "no (https://x/y)");
}

#[test]
fn a_body_that_is_no_json_is_quoted() {
    assert!(json_body("log-in", 200, "u", "{\"a\":1}").is_ok());
    match json_body("log-in", 200, "https://x", "<p>") {
        Ok(_) => panic!("read"),
        Err(e) => {
            assert_eq!(e.context, "log-in: HTTP 200 from https://x returned non-JSON body: <p>");
            assert!(e.cause.to_string().contains("expected value"));
        }
    }
}

#[test]
fn logins_are_posted() {
    let r = session().login_request("me@x", "p\"w");
    assert!(matches!(r.method, Method::Post));
    assert_eq!(r.url, "https://www.fflogs.com/desktop-client/log-in");
    assert_eq!(r.content_type.as_deref(), Some("application/json"));
    assert_eq!(
        String::from_utf8(r.body).unwrap(),
        "{\"email\":\"me@x\",\"password\":\"p\\\"w\",\"version\":\"9.1.2\"}"
    );
}

#[test]
fn a_login_without_user_fails() {
    let s = session();
    let v = reply("{\"error\": \"bad password\"}");
    let nobody = LoginResponse { user: None, guild_select_items: None };
    match s.login_result(&v, Some(nobody)) {
        Ok(_) => panic!("logged in"),
        Err(e) => assert_eq!(e, "login to https://www.fflogs.com failed: bad password"),
    }
    let quiet = LoginResponse { user: None, guild_select_items: None };
    match s.login_result(&reply("{\"a\": 1}"), Some(quiet)) {
        Ok(_) => panic!("logged in"),
        Err(e) => assert_eq!(e, "login to https://www.fflogs.com failed: {\"a\":1}"),
    }
    match s.login_result(&reply("[3]"), None) {
        Ok(_) => panic!("logged in"),
        Err(e) => assert_eq!(e, "log-in: unexpected response shape: [3]"),
    }
}

#[test]
fn a_login_with_user_succeeds() {
    let user = LoginUser { user_name: Some("Thrall".to_string()) };
    let login = LoginResponse { user: Some(user), guild_select_items: None };
    match session().login_result(&reply("{}"), Some(login)) {
        Ok(l) => assert_eq!(l.user_name(), "Thrall"),
        Err(e) => panic!("{e}"),
    }
    let unnamed = LoginResponse { user: Some(LoginUser { user_name: None }), guild_select_items: None };
    assert_eq!(unnamed.user_name(), "?");
}

#[test]
fn logins_are_read() {
    let read = |text: &str| login_response(&reply(text).json);
    let full = read(
        "{\"user\": {\"userName\": \"Thrall\"}, \"guildSelectItems\": [{\"value\": -1}, 7]}",
    )
    .unwrap();
    assert_eq!(full.user_name(), "Thrall");
    let items = full.guild_select_items.unwrap();
    assert_eq!(items.len(), 2);
    assert_eq!(items[0].get_i64("value"), Some(-1));
    assert!(matches!(items[1], Json::Int(7)));
    for other in ["{\"a\": 1}", "null", "3", "\"x\""] {
        let text = format!("{{\"user\": {{}}, \"guildSelectItems\": {other}}}");
        let login = read(&text).unwrap();
        assert!(login.guild_select_items.is_none());
        assert!(login.user.unwrap().user_name.is_none());
    }
    assert!(read("{}").unwrap().user.is_none());
    assert!(read("{\"user\": null}").unwrap().user.is_none());
    assert!(read("{\"user\": {\"userName\": null}}").unwrap().user.is_some());
    assert!(read("{\"user\": 3}").is_none());
    assert!(read("{\"user\": {\"userName\": 3}}").is_none());
    assert!(read("[3]").is_none());
    assert!(read("3").is_none());
}

#[test]
fn logins_are_read_by_position() {
    let read = |text: &str| login_response(&reply(text).json);
    assert_eq!(read("[{\"userName\":\"x\"}]").unwrap().user_name(), "x");
    assert_eq!(read("{\"user\":[\"x\"]}").unwrap().user_name(), "x");
    assert_eq!(read("[[\"x\"], [1]]").unwrap().guild_select_items.unwrap().len(), 1);
    assert!(read("[[null], {}]").unwrap().guild_select_items.is_none());
    assert!(read("[null]").unwrap().user.is_none());
    assert!(read("[]").is_none());
    assert!(read("[null, null, null]").is_none());
    assert!(read("[[]]").is_none());
    assert!(read("[[\"x\", \"y\"]]").is_none());
}

#[test]
fn requests_are_sent_four_times_at_most() {
    let mut sends = 0;
    loop {
        sends += 1;
        match next_step(sends - 1, Outcome::Status(503)) {
            Step::RetryAfter(_) => {}
            Step::Reject => break,
            _ => panic!("neither"),
        }
    }
    assert_eq!(sends, 4);
}

#[test]
fn the_parser_page_is_asked_for() {
    let r = session().parser_page_request(1_700_000_000_123);
    assert!(matches!(r.method, Method::Get));
    assert_eq!(
        r.url,
        "https://www.fflogs.com/desktop-client/parser?id=1&ts=1700000000123\
         &gameContentDetectionEnabled=false&metersEnabled=false&liveFightDataEnabled=false"
    );
    assert!(r.content_type.is_none());
    assert!(r.body.is_empty());
}

#[test]
fn reports_are_created() {
    let r = session().create_report_request("a.txt", 1, 2, 3, 4, None, 59);
    assert_eq!(r.url, "https://www.fflogs.com/desktop-client/create-report");
    assert_eq!(
        String::from_utf8(r.body).unwrap(),
        "{\"clientVersion\":\"9.1.2\",\"description\":\"\",\"endTime\":2,\"fileName\":\"a.txt\",\
         \"guildId\":null,\"parserVersion\":59,\"reportTagId\":null,\"serverOrRegion\":3,\
         \"startTime\":1,\"visibility\":4}"
    );
    let g = session().create_report_request("a.txt", 1, 2, 3, 4, Some(-1), 59);
    assert!(String::from_utf8(g.body).unwrap().contains("\"guildId\":-1,"));
}

#[test]
fn created_reports_have_a_code() {
    assert_eq!(created_report(&reply("{\"code\": \"Xy1\"}")), Ok("Xy1".to_string()));
    assert_eq!(
        created_report(&reply("{\"message\": \"full\"}")),
        Err("create-report did not return a report code: full".to_string())
    );
    assert_eq!(
        created_report(&reply("{\"code\": 7}")),
        Err("create-report did not return a report code: {\"code\":7}".to_string())
    );
}

#[test]
fn added_segments_name_the_next() {
    assert_eq!(added_segment(&reply("{\"nextSegmentId\": 4}")), Ok(4));
    assert_eq!(added_segment(&reply("{}")), Ok(0));
    assert_eq!(
        added_segment(&reply("{\"error\": \"late\"}")),
        Err("add-report-segment failed: late".to_string())
    );
    assert_eq!(added_segment(&reply("{\"error\": \"late\", \"nextSegmentId\": 2}")), Ok(2));
}

#[test]
fn master_tables_are_posted_as_forms() {
    let r = session().set_master_table_request("cD", 12, true, vec![1, 2, 255]);
    assert_eq!(r.url, "https://www.fflogs.com/desktop-client/set-report-master-table/cD");
    let content_type = r.content_type.unwrap();
    let boundary = content_type.strip_prefix("multipart/form-data; boundary=").unwrap();
    let mut want = format!(
        "--{boundary}\r\nContent-Disposition: form-data; name=\"segmentId\"\r\n\r\n12\r\n\
         --{boundary}\r\nContent-Disposition: form-data; name=\"isRealTime\"\r\n\r\ntrue\r\n\
         --{boundary}\r\nContent-Disposition: form-data; name=\"logfile\"; filename=\"blob\"\r\n\
         Content-Type: application/zip\r\n\r\n"
    )
    .into_bytes();
    want.extend_from_slice(&[1, 2, 255]);
    want.extend_from_slice(format!("\r\n--{boundary}--\r\n").as_bytes());
    assert_eq!(r.body, want);
}

#[test]
fn segments_are_posted_as_forms() {
    let segment = SegmentInfo {
        segment_id: 3,
        start_time: 10,
        end_time: 20,
        mythic: 1,
        is_live_log: true,
        is_real_time: false,
        in_progress_event_count: 9,
    };
    let r = session().add_segment_request("cD", segment, Vec::new());
    assert_eq!(r.url, "https://www.fflogs.com/desktop-client/add-report-segment/cD");
    let body = String::from_utf8(r.body).unwrap();
    assert!(body.contains(
        "name=\"parameters\"\r\n\r\n{\"endTime\":20,\"inProgressEventCount\":9,\"isLiveLog\":true,\
         \"isRealTime\":false,\"mythic\":1,\"segmentId\":3,\"startTime\":10}\r\n"
    ));
    let end = session().terminate_report_request("cD");
    assert!(matches!(end.method, Method::Post));
    assert_eq!(end.url, "https://www.fflogs.com/desktop-client/terminate-report/cD");
    assert!(end.body.is_empty());
}

#[test]
fn boundaries_are_drawn() {
    let s = random_alnum(200);
    assert_eq!(s.len(), 200);
    assert!(s.chars().all(|c| c.is_ascii_alphanumeric()));
    let (a, _) = build_multipart(&vec![], &vec![]);
    let (b, body) = build_multipart(&vec![], &vec![]);
    assert!(a.starts_with("----WebKitFormBoundary"));
    assert_eq!(a.len(), 38);
    assert_ne!(a, b);
    assert_eq!(String::from_utf8(body).unwrap(), format!("--{b}--\r\n"));
}

#[test]
fn forms_are_built_in_order() {
    let body = multipart_with(
        "B",
        &vec![("a", "1")],
        &vec![("f", "n", "t", b"xy".to_vec())],
    );
    assert_eq!(
        String::from_utf8(body).unwrap(),
        "--B\r\nContent-Disposition: form-data; name=\"a\"\r\n\r\n1\r\n\
         --B\r\nContent-Disposition: form-data; name=\"f\"; filename=\"n\"\r\n\
         Content-Type: t\r\n\r\nxy\r\n--B--\r\n"
    );
}

#[test]
fn archives_hold_the_log() {
    let text = "1|2\n0\n".repeat(1000);
    let bytes = match make_zip(&text) {
        Ok(b) => b,
        Err(e) => panic!("{}", e.cause),
    };
    assert!(bytes.len() < text.len());
    let mut archive = zip::ZipArchive::new(std::io::Cursor::new(bytes)).unwrap();
    assert_eq!(archive.len(), 1);
    let mut entry = archive.by_index(0).unwrap();
    assert_eq!(entry.name(), "log.txt");
    assert_eq!(entry.compression(), zip::CompressionMethod::Deflated);
    let mut back = String::new();
    std::io::Read::read_to_string(&mut entry, &mut back).unwrap();
    assert_eq!(back, text);
}

#[test]
fn busy_servers_are_tried_again() {
    assert!(matches!(after_attempt(0, Outcome::Status(200), 5), Step::Accept));
    assert!(matches!(after_attempt(0, Outcome::Status(399), 5), Step::Accept));
    assert!(matches!(after_attempt(0, Outcome::Status(429), 5), Step::RetryAfter(1005)));
    assert!(matches!(after_attempt(2, Outcome::Status(503), 999), Step::RetryAfter(4999)));
    assert!(matches!(after_attempt(3, Outcome::Status(503), 0), Step::Reject));
    assert!(matches!(after_attempt(0, Outcome::Status(404), 0), Step::Reject));
    assert!(matches!(after_attempt(1, Outcome::NoResponse, 7), Step::RetryAfter(2000)));
    assert!(matches!(after_attempt(3, Outcome::NoResponse, 7), Step::GiveUp));
}

#[test]
fn pauses_have_a_jitter() {
    let mut seen = Vec::new();
    for _ in 0..50 {
        match next_step(1, Outcome::Status(500)) {
            Step::RetryAfter(ms) => {
                assert!((2000..3000).contains(&ms));
                seen.push(ms);
            }
            _ => panic!("not retried"),
        }
    }
    assert!(seen.iter().any(|ms| *ms != seen[0]));
    assert!(matches!(next_step(1, Outcome::NoResponse), Step::RetryAfter(2000)));
}

#[test]
fn live_uploads_are_tried_for_an_hour() {
    assert!(matches!(after_live_failure(1, true, Some(500)), LiveStep::Stop));
    assert!(matches!(
        after_live_failure(1, false, Some(401)),
        LiveStep::Relogin { pause_secs: 3, again: true }
    ));
    assert!(matches!(
        after_live_failure(119, false, None),
        LiveStep::Wait { pause_secs: 30, again: true }
    ));
    assert!(matches!(
        after_live_failure(120, false, Some(500)),
        LiveStep::Wait { pause_secs: 30, again: false }
    ));
    let mut total = 0;
    let mut attempt = 1;
    while let LiveStep::Wait { pause_secs, again } = after_live_failure(attempt, false, None) {
        total += pause_secs;
        attempt += 1;
        if !again {
            break;
        }
    }
    assert_eq!(total, 3600);
    assert_eq!(attempt - 1, 120);
}

#[test]
fn failures_are_worded() {
    assert_eq!(HttpStatus(404).describe(), "HTTP 404");
    assert_eq!(gave_up_message(), "upload failed, giving up after 120 attempts");
    assert_eq!(relogin_message(2, None), "Session expired \u{2014} logged in again (attempt 2)");
    assert_eq!(
        relogin_message(3, Some("no".to_string())),
        "Session expired, re-login failed (attempt 3): no"
    );
    assert_eq!(upload_failed_message(4, "HTTP 500"), "Upload failed (attempt 4): HTTP 500");
}

#[test]
fn written_texts_are_framed() {
    let s = session();
    let r = s.json_request("/x", "{\"a\":1}");
    assert_eq!(r.url, "https://www.fflogs.com/x");
    assert_eq!(r.body, b"{\"a\":1}".to_vec());
    assert_eq!(r.content_type.as_deref(), Some("application/json"));
    let f = s.form_request("/f/", "C", "BB", vec![7, 8]);
    assert_eq!(f.url, "https://www.fflogs.com/f/C");
    assert_eq!(f.content_type.as_deref(), Some("multipart/form-data; boundary=BB"));
    assert_eq!(f.body, vec![7, 8]);
    let g = s.segment_request("C", "{}", b"zip".to_vec());
    assert_eq!(g.url, "https://www.fflogs.com/desktop-client/add-report-segment/C");
    let body = String::from_utf8(g.body).unwrap();
    assert!(body.contains("name=\"parameters\"\r\n\r\n{}\r\n"));
    assert!(body.contains("Content-Type: application/zip\r\n\r\nzip\r\n"));
}
