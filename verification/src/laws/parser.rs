//! Finding the site's parser, and talking to the process that runs it.
use vstd::prelude::*;
use vstd::string::*;
use vstd::utf8::encode_utf8;

use crate::json::texts_tree;
use crate::json::Field;
use crate::json::JsonTree;
use crate::numbers::decimal;
use crate::numbers::parsed_i32;
use crate::outside::escaped;
use crate::outside::json_text;
use crate::parser_page::bundle_pattern;
use crate::parser_page::page_is;
use crate::parser_page::PageError;
use crate::parser_page::ParserPage;
use crate::parser_page::ANY_BUNDLE_PATTERN;
use crate::parser_page::GAMEDATA_PATTERN;
use crate::parser_page::VERSION_PATTERN;
use crate::sidecar::is_one_line;
use crate::sidecar::object_line;
use crate::sidecar::Command;
use crate::sidecar::READY_TIMEOUT_MS;
use crate::sidecar::RESPONSE_TIMEOUT_MS;
use crate::text::text_option;
use crate::text::texts;
use crate::text::trimmed;
use crate::text::truncated;

verus! {

/// The groups that a search captures, the whole match first.
pub type Captured = Option<Seq<Option<Seq<char>>>>;

/// A search found something, and its first group reads so.
pub open spec fn reads(found: Captured, s: Seq<char>) -> bool {
    found matches Some(groups) && groups.len() > 1 && groups[1] == Some(s)
}

/// The page of a site names the parser of its own game, or failing that any parser.
pub proof fn pages_name_parsers(
    r: Result<ParserPage, PageError>,
    html: Seq<char>,
    gamedata: Captured,
    own: Captured,
    any: Captured,
    version: Captured,
    url: Seq<char>,
)
    requires
        page_is(r, html, gamedata, own, any, version),
        reads(own, url) || (own is None && reads(any, url)),
    ensures
        r matches Ok(page) && page.parser_url@ == url,
{
}

/// The game data and the version of a page are what was found of them: the game data without the
/// white space around it, or none; the version where it is a 32-bit number, or else 59.
pub proof fn pages_tell_versions(
    r: Result<ParserPage, PageError>,
    html: Seq<char>,
    gamedata: Captured,
    own: Captured,
    any: Captured,
    version: Captured,
    text: Seq<char>,
)
    requires
        page_is(r, html, gamedata, own, any, version),
        r is Ok,
    ensures
        reads(gamedata, text) ==> r->Ok_0.gamedata_code@ == trimmed(text),
        gamedata is None ==> r->Ok_0.gamedata_code@ == Seq::<char>::empty(),
        reads(version, text) ==> r->Ok_0.parser_version == match parsed_i32(text) {
            Some(n) => n,
            None => 59,
        },
        version is None ==> r->Ok_0.parser_version == 59,
{
}

/// A page without any parser is complained of, with its length and its first three hundred bytes.
pub proof fn pages_without_parser_are_refused(
    r: Result<ParserPage, PageError>,
    html: Seq<char>,
    gamedata: Captured,
    version: Captured,
)
    requires
        page_is(r, html, gamedata, None, None, version),
    ensures
        r matches Err(PageError::NoParser(m)) && m@
            == "parser script URL not found in parser page ("@ + decimal(
            encode_utf8(html).len() as int,
        ) + " bytes): "@ + truncated(html, 300),
{
}

/// The patterns that the page is searched with; the one for a game takes its slug literally.
pub proof fn page_patterns_are(slug: Seq<char>)
    ensures
        GAMEDATA_PATTERN@ == "(?s)<script[^>]*>(.*?window\\.gameContentTypes.*?)</script>"@,
        bundle_pattern(slug)
            == "src=\"(https://assets\\.rpglogs\\.com/js/(?:[\\w-]+/)*parser-"@ + escaped(slug)
            + "[^\"]+)\""@,
        ANY_BUNDLE_PATTERN@
            == "src=\"(https://assets\\.rpglogs\\.com/js/(?:[\\w-]+/)*parser-[^\"]+)\""@,
        VERSION_PATTERN@ == "const parserVersion\\s*=\\s*(\\d+)"@,
{
}

/// Characters with a meaning of their own in a pattern get a backslash, and no others.
pub proof fn slugs_are_escaped(s: Seq<char>, c: char)
    ensures
        escaped(Seq::empty()) == Seq::<char>::empty(),
        "\\.+*?()|[]{}^$#&-~"@.contains(c) ==> escaped(s.push(c)) == escaped(s).push('\\').push(c),
        !"\\.+*?()|[]{}^$#&-~"@.contains(c) ==> escaped(s.push(c)) == escaped(s).push(c),
{
    reveal_strlit("\\.+*?()|[]{}^$#&-~");
    let meta = "\\.+*?()|[]{}^$#&-~"@;
    assert(s.push(c).drop_last() =~= s);
    assert(meta.len() == 18);
    if crate::outside::is_meta(c) {
        assert(meta[0] == '\\' && meta[1] == '.' && meta[2] == '+' && meta[3] == '*' && meta[4]
            == '?' && meta[5] == '(' && meta[6] == ')' && meta[7] == '|' && meta[8] == '['
            && meta[9] == ']' && meta[10] == '{' && meta[11] == '}' && meta[12] == '^' && meta[13]
            == '$' && meta[14] == '#' && meta[15] == '&' && meta[16] == '-' && meta[17] == '~');
        assert(meta.contains(c));
    }
    if meta.contains(c) {
        let i = choose|i: int| 0 <= i < meta.len() && meta[i] == c;
        assert(crate::outside::is_meta(meta[i]));
    }
}

/// Every command names its action, and carries its arguments under their names and nothing else.
pub proof fn commands_name_their_action(c: Command)
    ensures
        ({
            let m = c.members();
            match c {
                Command::ClearState => m.len() == 1 && m.contains(
                    ("action"@, JsonTree::Text("clear-state"@)),
                ),
                Command::SetStartDate(date) => m.len() == 2 && m.contains(
                    ("action"@, JsonTree::Text("set-start-date"@)),
                ) && m.contains(("startDate"@, JsonTree::Text(date@))),
                Command::ParseLines { lines, region } => m.len() == 3 && m.contains(
                    ("action"@, JsonTree::Text("parse-lines"@)),
                ) && m.contains(("lines"@, texts_tree(texts(lines@)))) && m.contains(
                    ("selectedRegion"@, JsonTree::Int(region as int)),
                ),
                Command::CollectFights { push_fight } => m.len() == 3 && m.contains(
                    ("action"@, JsonTree::Text("collect-fights"@)),
                ) && m.contains(("pushFightIfNeeded"@, JsonTree::Bool(push_fight)))
                    && m.contains(("scanningOnly"@, JsonTree::Bool(false))),
                Command::CollectMasterInfo => m.len() == 1 && m.contains(
                    ("action"@, JsonTree::Text("collect-master-info"@)),
                ),
                Command::ClearFights => m.len() == 1 && m.contains(
                    ("action"@, JsonTree::Text("clear-fights"@)),
                ),
            }
        }),
{
    let m = c.members();
    assert(m.contains(m[0]));
    if m.len() > 1 {
        assert(m.contains(m[1]));
    }
    if m.len() > 2 {
        assert(m.contains(m[2]));
    }
}

/// Lists of texts are written text by text, and every other value as what it is.
pub proof fn fields_are_written(f: Field, v: Seq<String>)
    ensures
        texts(v).len() == v.len(),
        forall|i: int| 0 <= i < v.len() ==> #[trigger] texts(v)[i] == v[i]@,
        match f {
            Field::Null => f.tree() is Null,
            Field::Bool(b) => f.tree() == JsonTree::Bool(b),
            Field::Int(i) => f.tree() == JsonTree::Int(i as int),
            Field::Text(s) => f.tree() == JsonTree::Text(s@),
            Field::Texts(list) => f.tree() matches JsonTree::Array(a) && a.len() == list@.len()
                && forall|i: int|
                0 <= i < list@.len() ==> #[trigger] a[i] == JsonTree::Text(list@[i]@),
        },
{
}

/// Objects go over the wire as one line each: the text of the object and a line feed.
pub proof fn objects_are_lines(members: Seq<(Seq<char>, JsonTree)>, s: Seq<char>)
    ensures
        object_line(members) == json_text(JsonTree::Object(members)) + "\n"@,
        is_one_line(s) <==> s.len() > 0 && (forall|i: int|
            0 <= i < s.len() ==> (#[trigger] s[i] == '\n' <==> i == s.len() - 1)),
        READY_TIMEOUT_MS == 15 * 1000,
        RESPONSE_TIMEOUT_MS == 60 * 1000,
{
    if is_one_line(s) {
        assert forall|i: int| 0 <= i < s.len() - 1 implies s[i] != '\n' by {
            assert(s.drop_last()[i] == s[i]);
        }
    }
    if s.len() > 0 && (forall|i: int|
        0 <= i < s.len() ==> (#[trigger] s[i] == '\n' <==> i == s.len() - 1)) {
        assert(s[s.len() - 1] == '\n');
        if s.drop_last().contains('\n') {
            let i = choose|i: int| 0 <= i < s.drop_last().len() && s.drop_last()[i] == '\n';
            assert(s[i] == '\n');
        }
    }
}

/// A text that may be missing stands for its model.
pub proof fn optional_texts_carry(s: Option<String>)
    ensures
        match s {
            Some(t) => text_option(s) == Some(t@),
            None => text_option(s) is None,
        },
{
}

} // verus!
