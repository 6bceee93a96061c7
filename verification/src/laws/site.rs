//! What is asked of a site, and how its answers are read.
use vstd::prelude::*;
use vstd::string::*;
use vstd::utf8::encode_utf8;

use crate::json::members_tree;
use crate::json::Field;
use crate::json::JsonTree;
use crate::multipart::closing;
use crate::multipart::field_models;
use crate::multipart::field_part;
use crate::multipart::field_parts;
use crate::multipart::file_header;
use crate::multipart::file_models;
use crate::multipart::file_parts;
use crate::multipart::is_boundary;
use crate::multipart::multipart_body;
use crate::multipart::FileModel;
use crate::outside::json_text;
use crate::text::trimmed;
use crate::text::truncated;
use crate::wcl::bare;
use crate::wcl::error_detail;
use crate::wcl::error_message;
use crate::wcl::first_message;
use crate::wcl::form_post;
use crate::wcl::json_post;
use crate::wcl::login_of;
use crate::wcl::optional_int;
use crate::wcl::rejection;
use crate::wcl::release_name;
use crate::wcl::report_address;
use crate::wcl::report_members;
use crate::wcl::segment_members;
use crate::wcl::truth_text;
use crate::wcl::uploads;
use crate::wcl::LoginResponse;
use crate::wcl::Method;
use crate::wcl::ReportModel;
use crate::wcl::Request;
use crate::wcl::RequestModel;
use crate::wcl::SegmentInfo;
use crate::wcl::CHROME_VERSION;
use crate::wcl::ELECTRON_VERSION;
use crate::wcl::FALLBACK_CLIENT_VERSION;
use crate::wcl::LATEST_RELEASE_URL;

verus! {

proof fn field_first(b: Seq<char>, f: (Seq<char>, Seq<char>), fs: Seq<(Seq<char>, Seq<char>)>)
    ensures
        field_parts(b, seq![f] + fs) == encode_utf8(field_part(b, f)) + field_parts(b, fs),
    decreases fs.len(),
{
    let all = seq![f] + fs;
    let none = Seq::<(Seq<char>, Seq<char>)>::empty();
    if fs.len() == 0 {
        assert(all.drop_last() =~= none);
        assert(field_parts(b, none) =~= Seq::<u8>::empty());
        assert(field_parts(b, all) =~= encode_utf8(field_part(b, f)) + field_parts(b, fs));
    } else {
        field_first(b, f, fs.drop_last());
        assert(all.drop_last() =~= seq![f] + fs.drop_last());
        assert(all.last() == fs.last());
        assert(field_parts(b, all) =~= encode_utf8(field_part(b, f)) + field_parts(b, fs));
    }
}

proof fn file_first(b: Seq<char>, f: FileModel, fs: Seq<FileModel>)
    ensures
        file_parts(b, seq![f] + fs) == encode_utf8(file_header(b, f)) + f.data + encode_utf8(
            "\r\n"@,
        ) + file_parts(b, fs),
    decreases fs.len(),
{
    let all = seq![f] + fs;
    let first = encode_utf8(file_header(b, f)) + f.data + encode_utf8("\r\n"@);
    let none = Seq::<FileModel>::empty();
    if fs.len() == 0 {
        assert(all.drop_last() =~= none);
        assert(file_parts(b, none) =~= Seq::<u8>::empty());
        assert(file_parts(b, all) =~= first + file_parts(b, fs));
    } else {
        file_first(b, f, fs.drop_last());
        assert(all.drop_last() =~= seq![f] + fs.drop_last());
        assert(all.last() == fs.last());
        assert(file_parts(b, all) =~= first + file_parts(b, fs));
    }
}

/// A form is its first field, behind a delimiter and under its name, and then the form of the
/// rest; without fields its first file, under its names and type, and the rest; and without
/// either the closing delimiter.
pub proof fn forms_are_laid_out(
    b: Seq<char>,
    name: Seq<char>,
    value: Seq<char>,
    fields: Seq<(Seq<char>, Seq<char>)>,
    file: FileModel,
    files: Seq<FileModel>,
)
    ensures
        multipart_body(b, seq![(name, value)] + fields, files) == encode_utf8(
            "--"@ + b + "\r\nContent-Disposition: form-data; name=\""@ + name + "\"\r\n\r\n"@
                + value + "\r\n"@,
        ) + multipart_body(b, fields, files),
        multipart_body(b, Seq::empty(), seq![file] + files) == encode_utf8(
            "--"@ + b + "\r\nContent-Disposition: form-data; name=\""@ + file.field
                + "\"; filename=\""@ + file.name + "\"\r\nContent-Type: "@ + file.content_type
                + "\r\n\r\n"@,
        ) + file.data + encode_utf8("\r\n"@) + multipart_body(b, Seq::empty(), files),
        multipart_body(b, Seq::empty(), Seq::empty()) == encode_utf8("--"@ + b + "--\r\n"@),
{
    field_first(b, (name, value), fields);
    file_first(b, file, files);
    let none = Seq::<(Seq<char>, Seq<char>)>::empty();
    let part = encode_utf8(field_part(b, (name, value)));
    assert(multipart_body(b, seq![(name, value)] + fields, files) =~= part + multipart_body(
        b,
        fields,
        files,
    ));
    assert(field_parts(b, none) =~= Seq::<u8>::empty());
    let head = encode_utf8(file_header(b, file)) + file.data + encode_utf8("\r\n"@);
    assert(multipart_body(b, none, seq![file] + files) =~= head + multipart_body(b, none, files));
    assert(file_parts(b, Seq::empty()) =~= Seq::<u8>::empty());
    assert(multipart_body(b, none, Seq::empty()) =~= encode_utf8(closing(b)));
}

/// A boundary is `----WebKitFormBoundary` and sixteen letters or digits.
pub proof fn boundaries_are_drawn(b: Seq<char>)
    ensures
        is_boundary(b) <==> {
            &&& b.len() == "----WebKitFormBoundary"@.len() + 16
            &&& forall|i: int|
                0 <= i < "----WebKitFormBoundary"@.len() ==> b[i]
                    == #[trigger] "----WebKitFormBoundary"@[i]
            &&& forall|i: int|
                "----WebKitFormBoundary"@.len() <= i < b.len() ==> ('A' <= #[trigger] b[i] <= 'Z')
                    || ('a' <= b[i] <= 'z') || ('0' <= b[i] <= '9')
        },
{
    let w = "----WebKitFormBoundary"@;
    if is_boundary(b) {
        assert forall|i: int| 0 <= i < w.len() implies b[i] == #[trigger] w[i] by {
            assert(b.take(w.len() as int)[i] == b[i]);
        }
        assert forall|i: int| w.len() <= i < b.len() implies ('A' <= #[trigger] b[i] <= 'Z') || (
        'a' <= b[i] <= 'z') || ('0' <= b[i] <= '9') by {
            assert(crate::multipart::is_alnum(b[i]));
        }
    }
    if b.len() == w.len() + 16 && (forall|i: int| 0 <= i < w.len() ==> b[i] == #[trigger] w[i]) {
        assert(b.take(w.len() as int) =~= w);
    }
}

/// A request carries what its model says.
pub proof fn requests_carry(r: Request)
    ensures
        r@.method == r.method,
        r@.url == r.url@,
        r@.body == r.body@,
        match r.content_type {
            Some(t) => r@.content_type == Some(t@),
            None => r@.content_type is None,
        },
{
}

/// Objects are posted as JSON; other requests have no body.
pub proof fn requests_are_made(url: Seq<char>, members: Seq<(Seq<char>, JsonTree)>, method: Method)
    ensures
        ({
            let r = json_post(url, members);
            &&& r.method == Method::Post
            &&& r.url == url
            &&& r.content_type == Some("application/json"@)
            &&& r.body == encode_utf8(json_text(JsonTree::Object(members)))
        }),
        ({
            let r = bare(method, url);
            &&& r.method == method
            &&& r.url == url
            &&& r.content_type is None
            &&& r.body == Seq::<u8>::empty()
        }),
{
}

/// An upload posts its fields and the archive as a form: the archive as a file `blob` under
/// `logfile`, under a boundary that the request names.
pub proof fn uploads_are_forms(
    r: RequestModel,
    url: Seq<char>,
    fields: Seq<(Seq<char>, Seq<char>)>,
    zip: Seq<u8>,
) -> (boundary: Seq<char>)
    requires
        uploads(r, url, fields, zip),
    ensures
        is_boundary(boundary),
        r.method == Method::Post,
        r.url == url,
        r.content_type == Some("multipart/form-data; boundary="@ + boundary),
        r.body == multipart_body(
            boundary,
            fields,
            seq![
                FileModel {
                    field: "logfile"@,
                    name: "blob"@,
                    content_type: "application/zip"@,
                    data: zip,
                },
            ],
        ),
{
    let boundary = choose|boundary: Seq<char>| #[trigger]
        form_post(
            r,
            url,
            boundary,
            multipart_body(boundary, fields, crate::wcl::log_blob(zip)),
        );
    boundary
}

/// A report is created with ten members: each thing that is known of it under its own name.
pub proof fn reports_state(client_version: Seq<char>, r: ReportModel)
    ensures
        ({
            let m = report_members(client_version, r);
            &&& m.len() == 10
            &&& m.contains(("clientVersion"@, JsonTree::Text(client_version)))
            &&& m.contains(("parserVersion"@, JsonTree::Int(r.parser_version)))
            &&& m.contains(("startTime"@, JsonTree::Int(r.start_time)))
            &&& m.contains(("endTime"@, JsonTree::Int(r.end_time)))
            &&& m.contains(("fileName"@, JsonTree::Text(r.filename)))
            &&& m.contains(("serverOrRegion"@, JsonTree::Int(r.region)))
            &&& m.contains(("visibility"@, JsonTree::Int(r.visibility)))
            &&& m.contains(("reportTagId"@, JsonTree::Null))
            &&& m.contains(("description"@, JsonTree::Text(""@)))
            &&& match r.guild_id {
                Some(id) => m.contains(("guildId"@, JsonTree::Int(id as int))),
                None => m.contains(("guildId"@, JsonTree::Null)),
            }
        }),
{
    let m = report_members(client_version, r);
    assert(m[0] == ("clientVersion"@, JsonTree::Text(client_version)));
    assert(m[1] == ("parserVersion"@, JsonTree::Int(r.parser_version)));
    assert(m[2] == ("startTime"@, JsonTree::Int(r.start_time)));
    assert(m[3] == ("endTime"@, JsonTree::Int(r.end_time)));
    assert(m[4] == ("guildId"@, optional_int(r.guild_id)));
    assert(m[5] == ("fileName"@, JsonTree::Text(r.filename)));
    assert(m[6] == ("serverOrRegion"@, JsonTree::Int(r.region)));
    assert(m[7] == ("visibility"@, JsonTree::Int(r.visibility)));
    assert(m[8] == ("reportTagId"@, JsonTree::Null));
    assert(m[9] == ("description"@, JsonTree::Text(""@)));
}

/// A segment is added with seven parameters, each under its own name.
pub proof fn segments_state(s: SegmentInfo)
    ensures
        ({
            let m = segment_members(s);
            &&& m.len() == 7
            &&& m.contains(("startTime"@, JsonTree::Int(s.start_time as int)))
            &&& m.contains(("endTime"@, JsonTree::Int(s.end_time as int)))
            &&& m.contains(("mythic"@, JsonTree::Int(s.mythic as int)))
            &&& m.contains(("isLiveLog"@, JsonTree::Bool(s.is_live_log)))
            &&& m.contains(("isRealTime"@, JsonTree::Bool(s.is_real_time)))
            &&& m.contains(
                ("inProgressEventCount"@, JsonTree::Int(s.in_progress_event_count as int)),
            )
            &&& m.contains(("segmentId"@, JsonTree::Int(s.segment_id as int)))
        }),
{
    let m = segment_members(s);
    assert(m[0] == ("startTime"@, JsonTree::Int(s.start_time as int)));
    assert(m[1] == ("endTime"@, JsonTree::Int(s.end_time as int)));
    assert(m[2] == ("mythic"@, JsonTree::Int(s.mythic as int)));
    assert(m[3] == ("isLiveLog"@, JsonTree::Bool(s.is_live_log)));
    assert(m[4] == ("isRealTime"@, JsonTree::Bool(s.is_real_time)));
    assert(m[5] == ("inProgressEventCount"@, JsonTree::Int(s.in_progress_event_count as int)));
    assert(m[6] == ("segmentId"@, JsonTree::Int(s.segment_id as int)));
}

/// Truth values are spelled out, and a report is at `/reports/` on its site.
pub proof fn small_texts(b: bool, base_url: Seq<char>, code: Seq<char>)
    ensures
        b ==> truth_text(b) == "true"@,
        !b ==> truth_text(b) == "false"@,
        report_address(base_url, code) == base_url + "/reports/"@ + code,
        CHROME_VERSION@ == "134.0.6998.205"@,
        ELECTRON_VERSION@ == "37.7.0"@,
        FALLBACK_CLIENT_VERSION@ == "9.0.1"@,
        LATEST_RELEASE_URL@
            == "https://api.github.com/repos/RPGLogs/Uploaders-archon/releases/latest"@,
{
}

/// The member is a text that is not empty.
pub open spec fn says(v: JsonTree, key: Seq<char>) -> bool {
    v.text_member(key) matches Some(s) && s.len() > 0
}

/// The error message of an answer is what it says as `error`, else as `message`, else as
/// `reason`; an answer that says none of these but reports no success is quoted up to three
/// hundred bytes; any other carries no error.
pub proof fn answers_carry_errors(v: JsonTree, compact: Seq<char>)
    ensures
        says(v, "error"@) ==> error_message(v, compact) == v.text_member("error"@),
        !says(v, "error"@) && says(v, "message"@) ==> error_message(v, compact) == v.text_member(
            "message"@,
        ),
        !says(v, "error"@) && !says(v, "message"@) && says(v, "reason"@) ==> error_message(
            v,
            compact,
        ) == v.text_member("reason"@),
        !says(v, "error"@) && !says(v, "message"@) && !says(v, "reason"@) ==> if v.bool_member(
            "success"@,
        ) == Some(false) {
            error_message(v, compact) == Some("server reported failure: "@ + truncated(compact, 300))
        } else {
            error_message(v, compact) is None
        },
        error_message(v, compact) is None ==> error_detail(v, compact) == truncated(compact, 500),
        error_message(v, compact) matches Some(m) ==> error_detail(v, compact) == m,
{
    let keys = seq!["error"@, "message"@, "reason"@];
    reveal_with_fuel(first_message, 4);
    assert(keys.drop_first()[0] == "message"@);
    assert(keys.drop_first().drop_first()[0] == "reason"@);
    assert(keys.drop_first().drop_first().drop_first().len() == 0);
}

/// A rejected response is reported by the error message in it; else, where it is blank, as
/// empty; else by its first five hundred bytes.
pub proof fn rejections_are_reported(body: Seq<char>, parsed: Option<(JsonTree, Seq<char>)>)
    ensures
        parsed matches Some((v, compact)) ==> (error_message(v, compact) matches Some(m)
            ==> rejection(body, parsed) == m),
        parsed is None || error_message(parsed->Some_0.0, parsed->Some_0.1) is None ==> if trimmed(
            body,
        ).len() == 0 {
            rejection(body, parsed) == "(empty body)"@
        } else {
            rejection(body, parsed) == truncated(body, 500)
        },
{
}

/// The latest client version is the name of the release without the white space around it, where
/// anything is left of it.
pub proof fn releases_name_versions(v: JsonTree)
    ensures
        match v.text_member("name"@) {
            Some(s) => if trimmed(s).len() == 0 {
                release_name(v) is None
            } else {
                release_name(v) == Some(trimmed(s))
            },
            None => release_name(v) is None,
        },
{
}

/// An answer to a login that is an object names its user under `user`, with a name under
/// `userName`, either of which may be missing; its guild entries are what stands under
/// `guildSelectItems` where that is a list, and never a reason to refuse the answer.
pub proof fn logins_name_users(v: JsonTree)
    requires
        v is Object,
    ensures
        v.member("user"@) is None || v.member("user"@) == Some(JsonTree::Null) ==> login_of(v) is Some
            && login_of(v)->Some_0.user is None,
        v.member("user"@) matches Some(u) ==> (u is Object && (u.member("userName"@) is None
            || u.member("userName"@) == Some(JsonTree::Null)) ==> login_of(v) is Some
            && login_of(v)->Some_0.user == Some(None::<Seq<char>>)),
        v.member("user"@) matches Some(u) ==> (u is Object ==> (u.text_member("userName"@) matches Some(
            name,
        ) ==> login_of(v) is Some && login_of(v)->Some_0.user == Some(Some(name)))),
        v.member("user"@) matches Some(u) ==> (!(u is Object) && !(u is Array) && !(u is Null)
            ==> login_of(v) is None),
        login_of(v) matches Some(login) ==> login.guild_select_items == v.array_member(
            "guildSelectItems"@,
        ),
{
}

/// An answer to a login may be a list too, of the user and, where they are given, the guild
/// entries; and so may a user, of the name alone. Of any other length a list is refused, and so
/// is anything else.
pub proof fn logins_name_users_by_position(v: JsonTree, u: JsonTree, items: JsonTree, name: Seq<char>)
    ensures
        login_of(JsonTree::Array(seq![u])) == login_of(
            JsonTree::Array(seq![u, JsonTree::Null]),
        ),
        u == JsonTree::Null ==> login_of(JsonTree::Array(seq![u, items])) is Some && login_of(
            JsonTree::Array(seq![u, items]),
        )->Some_0.user is None,
        u is Object && u.text_member("userName"@) == Some(name) ==> login_of(
            JsonTree::Array(seq![u, items]),
        ) is Some && login_of(JsonTree::Array(seq![u, items]))->Some_0.user == Some(Some(name)),
        u == JsonTree::Array(seq![JsonTree::Text(name)]) ==> login_of(
            JsonTree::Array(seq![u, items]),
        ) is Some && login_of(JsonTree::Array(seq![u, items]))->Some_0.user == Some(Some(name)),
        u == JsonTree::Array(seq![JsonTree::Null]) ==> login_of(JsonTree::Array(seq![u, items]))
            is Some && login_of(JsonTree::Array(seq![u, items]))->Some_0.user == Some(
            None::<Seq<char>>,
        ),
        u matches JsonTree::Array(a) && a.len() != 1 ==> login_of(
            JsonTree::Array(seq![u, items]),
        ) is None,
        login_of(JsonTree::Array(seq![u, items])) matches Some(login)
            ==> login.guild_select_items == match items {
            JsonTree::Array(a) => Some(a),
            _ => None,
        },
        v matches JsonTree::Array(a) && (a.len() == 0 || a.len() > 2) ==> login_of(v) is None,
        !(v is Array) && !(v is Object) ==> login_of(v) is None,
{
}

/// The fields and files of a form are those that it is given, in order.
pub proof fn form_parts_are_given(
    fields: Seq<(&str, &str)>,
    files: Seq<(&str, &str, &str, Vec<u8>)>,
    members: Seq<(&str, Field)>,
)
    ensures
        field_models(fields).len() == fields.len(),
        forall|i: int|
            0 <= i < fields.len() ==> #[trigger] field_models(fields)[i] == (
                fields[i].0@,
                fields[i].1@,
            ),
        file_models(files).len() == files.len(),
        forall|i: int|
            0 <= i < files.len() ==> {
                let f = #[trigger] file_models(files)[i];
                f.field == files[i].0@ && f.name == files[i].1@ && f.content_type == files[i].2@
                    && f.data == files[i].3@
            },
        members_tree(members).len() == members.len(),
        forall|i: int|
            0 <= i < members.len() ==> #[trigger] members_tree(members)[i] == (
                members[i].0@,
                members[i].1.tree(),
            ),
{
}

/// A login in memory stands for its model.
pub proof fn logins_carry(login: LoginResponse)
    ensures
        login@.user is Some <==> login.user is Some,
        login.user matches Some(u) ==> (match u.user_name {
            Some(n) => login@.user == Some(Some(n@)) && login.shown_name() == n@,
            None => login@.user == Some(None::<Seq<char>>) && login.shown_name() == "?"@,
        }),
        login.user is None ==> login.shown_name() == "?"@,
        login@.guild_select_items is Some <==> login.guild_select_items is Some,
        login.guild_select_items matches Some(items) ==> login@.guild_select_items->Some_0.len()
            == items@.len() && forall|i: int|
            0 <= i < items@.len() ==> #[trigger] login@.guild_select_items->Some_0[i]
                == items@[i].tree(),
{
}

} // verus!
