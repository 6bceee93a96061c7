//! Everything that is taken on trust: the items of other crates and of std
//! that the verified modules call, each with the contract it is believed to meet.
use vstd::prelude::*;
use vstd::utf8::*;

use crate::game::known_sites;
use crate::json::members_tree;
use crate::json::Field;
use crate::json::JsonTree;
use crate::log_file::date_at;
use crate::log_file::date_groups;
use crate::log_file::first_date_at;
use crate::log_file::log_file_shape;
use crate::log_file::LOG_FILE_PATTERN;
use crate::log_file::START_DATE_PATTERN;
use crate::parser_page::bundle_pattern;
use crate::parser_page::ANY_BUNDLE_PATTERN;
use crate::parser_page::GAMEDATA_PATTERN;
use crate::parser_page::VERSION_PATTERN;

verus! {

/// `String::push`: appends one character at the end.
pub assume_specification[ String::push ](s: &mut String, c: char)
    ensures
        final(s)@ == old(s)@.push(c),
;

/// What `String::from_utf8_lossy` makes of a byte sequence.
pub uninterp spec fn utf8_lossy(bytes: Seq<u8>) -> Seq<char>;

/// `String::from_utf8_lossy`: valid UTF-8 is decoded as it stands; elsewhere
/// replacement characters stand for what could not be decoded.
#[verifier::external_body]
pub(crate) fn decode_lossy(bytes: &[u8]) -> (r: String)
    ensures
        r@ == utf8_lossy(bytes@),
        valid_utf8(bytes@) ==> r@ == decode_utf8(bytes@),
{
    String::from_utf8_lossy(bytes).into_owned()
}

/// `serde_json::Value`, carried through unopened.
#[verifier::external_type_specification]
#[verifier::external_body]
pub struct ExValue(serde_json::Value);

/// `serde_json::Error`, carried through unopened.
#[verifier::external_type_specification]
#[verifier::external_body]
pub struct ExJsonError(serde_json::Error);

/// What a `serde_json::Value` holds, as a tree of plain values.
pub uninterp spec fn value_tree(v: serde_json::Value) -> JsonTree;

/// The tree of the value that `serde_json::from_str` reads, or `None` where it fails.
pub uninterp spec fn json_tree(text: Seq<char>) -> Option<JsonTree>;

/// The compact text that the `serde_json::Value` made of this tree prints as, the members
/// of an object being inserted one after the other.
pub uninterp spec fn json_text(tree: JsonTree) -> Seq<char>;

/// `serde_json::from_str` into a `Value`. Whether it succeeds, and what the value holds,
/// depends on the text alone.
#[verifier::external_body]
pub(crate) fn value_from_str(text: &str) -> (r: Result<serde_json::Value, serde_json::Error>)
    ensures
        match r {
            Ok(v) => json_tree(text@) == Some(value_tree(v)),
            Err(_) => json_tree(text@) is None,
        },
{
    serde_json::from_str(text)
}

/// `Value::to_string`: the value as compact JSON, a function of what it holds.
#[verifier::external_body]
pub(crate) fn value_to_string(v: &serde_json::Value) -> (r: String)
    ensures
        r@ == json_text(value_tree(*v)),
{
    v.to_string()
}

/// One level of a `serde_json::Value`: its variant, with what the variant holds.
pub enum Node<'a> {
    Null,
    Bool(bool),
    Int(i64),
    Real(String),
    Text(&'a String),
    Items(&'a Vec<serde_json::Value>),
    Fields(Vec<(&'a String, &'a serde_json::Value)>),
}

impl Node<'_> {
    /// The tree that stands below this level.
    pub open spec fn tree(self) -> JsonTree {
        match self {
            Node::Null => JsonTree::Null,
            Node::Bool(b) => JsonTree::Bool(b),
            Node::Int(i) => JsonTree::Int(i as int),
            Node::Real(s) => JsonTree::Real(s@),
            Node::Text(s) => JsonTree::Text(s@),
            Node::Items(a) => JsonTree::Array(a@.map_values(|v: serde_json::Value| value_tree(v))),
            Node::Fields(f) => JsonTree::Object(
                f@.map_values(|p: (&String, &serde_json::Value)| (p.0@, value_tree(*p.1))),
            ),
        }
    }
}

/// Matches on a `serde_json::Value`. A number is an `Int` where `Number::as_i64` gives its
/// value, else a `Real` with the text it prints as; the members of an object come in the
/// order in which `Map::iter` walks them.
#[verifier::external_body]
pub(crate) fn value_node(v: &serde_json::Value) -> (r: Node<'_>)
    ensures
        r.tree() == value_tree(*v),
{
    match v {
        serde_json::Value::Null => Node::Null,
        serde_json::Value::Bool(b) => Node::Bool(*b),
        serde_json::Value::Number(n) => match n.as_i64() {
            Some(i) => Node::Int(i),
            None => Node::Real(n.to_string()),
        },
        serde_json::Value::String(s) => Node::Text(s),
        serde_json::Value::Array(a) => Node::Items(a),
        serde_json::Value::Object(m) => Node::Fields(m.iter().collect()),
    }
}

/// A `serde_json::Map` filled with `members` by `Map::insert`, printed by
/// `Value::to_string`. Control characters are escaped and nothing is put between the tokens,
/// so the text holds no line feed.
#[verifier::external_body]
pub(crate) fn object_to_string(members: &Vec<(&str, Field)>) -> (r: String)
    ensures
        r@ == json_text(JsonTree::Object(members_tree(members@))),
        !r@.contains('\n'),
{
    let mut map = serde_json::Map::new();
    for (key, field) in members {
        let value = match field {
            Field::Null => serde_json::Value::Null,
            Field::Bool(b) => serde_json::Value::from(*b),
            Field::Int(i) => serde_json::Value::from(*i),
            Field::Text(s) => serde_json::Value::from(s.as_str()),
            Field::Texts(v) => serde_json::Value::from(v.as_slice()),
        };
        map.insert(key.to_string(), value);
    }
    serde_json::Value::Object(map).to_string()
}

/// A character with a meaning of its own in a regular expression.
pub open spec fn is_meta(c: char) -> bool {
    ||| c == '\\' || c == '.' || c == '+' || c == '*' || c == '?' || c == '(' || c == ')'
    ||| c == '|' || c == '[' || c == ']' || c == '{' || c == '}' || c == '^' || c == '$'
    ||| c == '#' || c == '&' || c == '-' || c == '~'
}

/// `s` with a backslash before each character that has a meaning of its own.
pub open spec fn escaped(s: Seq<char>) -> Seq<char>
    decreases s.len(),
{
    if s.len() == 0 {
        seq![]
    } else if is_meta(s.last()) {
        escaped(s.drop_last()).push('\\').push(s.last())
    } else {
        escaped(s.drop_last()).push(s.last())
    }
}

/// `regex::escape`: a backslash goes before each meta character.
pub assume_specification[ regex::escape ](pattern: &str) -> (r: String)
    ensures
        r@ == escaped(pattern@),
;

/// `regex::Error`, carried through unopened.
#[verifier::external_type_specification]
#[verifier::external_body]
pub struct ExRegexError(regex::Error);

/// The outcome of searching `text` with the regular expression `pattern`: `None` where the
/// pattern is not accepted, `Some(None)` where nothing matches, else the groups of the
/// leftmost match, the whole match first; a group that took no part is `None`.
pub uninterp spec fn regex_search(pattern: Seq<char>, text: Seq<char>) -> Option<
    Option<Seq<Option<Seq<char>>>>,
>;

/// The texts of captured groups.
pub open spec fn group_texts(groups: Seq<Option<String>>) -> Seq<Option<Seq<char>>> {
    groups.map_values(
        |g: Option<String>|
            match g {
                Some(s) => Some(s@),
                None => None,
            },
    )
}

/// A pattern that this library searches with.
pub open spec fn is_own_pattern(pattern: Seq<char>) -> bool {
    ||| pattern == LOG_FILE_PATTERN@
    ||| pattern == START_DATE_PATTERN@
    ||| pattern == GAMEDATA_PATTERN@
    ||| pattern == ANY_BUNDLE_PATTERN@
    ||| pattern == VERSION_PATTERN@
    ||| exists|i: int|
        0 <= i < known_sites().len() && pattern == bundle_pattern(
            (#[trigger] known_sites()[i]).parser_slug,
        )
}

/// `Regex::new` on `pattern`, then `Regex::captures` on `text`. The outcome depends on the
/// two texts alone, and the patterns of this library are accepted. Of the two
/// patterns for log file names the syntax of the crate says the rest:
/// `^WoWCombatLog.*\.txt$` matches the texts without a line feed that begin and end so, and `WoWCombatLog-(\d{2})(\d{2})(\d{2})_` captures, in a text of ASCII
/// characters, the digits at the first place where the text reads so.
#[verifier::external_body]
pub(crate) fn regex_captures(pattern: &str, text: &str) -> (r: Result<
    Option<Vec<Option<String>>>,
    regex::Error,
>)
    ensures
        match r {
            Ok(Some(groups)) => regex_search(pattern@, text@) == Some(Some(group_texts(groups@))),
            Ok(None) => regex_search(pattern@, text@) == Some(None::<Seq<Option<Seq<char>>>>),
            Err(_) => regex_search(pattern@, text@) is None,
        },
        pattern@ == LOG_FILE_PATTERN@ ==> match r {
            Ok(Some(_)) => log_file_shape(text@),
            Ok(None) => !log_file_shape(text@),
            Err(_) => false,
        },
        is_own_pattern(pattern@) ==> r is Ok,
        pattern@ == START_DATE_PATTERN@ && is_ascii_chars(text@) ==> match r {
            Ok(Some(groups)) => exists|i: int|
                #![trigger first_date_at(text@, i)]
                first_date_at(text@, i) && group_texts(groups@) == date_groups(text@, i),
            Ok(None) => forall|i: int| !date_at(text@, i),
            Err(_) => false,
        },
{
    let re = regex::Regex::new(pattern)?;
    let found = re.captures(text);
    Ok(found.map(|c| c.iter().map(|g| g.map(|m| m.as_str().to_string())).collect()))
}

/// `Rng::gen_range` on `0..n` with the thread's generator. Which number comes out is left
/// to chance; an empty range would panic.
#[verifier::external_body]
pub(crate) fn random_below(n: u64) -> (r: u64)
    requires
        n > 0,
    ensures
        r < n,
{
    rand::Rng::gen_range(&mut rand::thread_rng(), 0..n)
}

/// `zip::result::ZipError`, carried through unopened.
#[verifier::external_type_specification]
#[verifier::external_body]
pub struct ExZipError(zip::result::ZipError);

/// The archive that `zip::ZipWriter` makes of one deflated entry, or `None` where it fails.
pub uninterp spec fn zip_archive(name: Seq<char>, level: int, content: Seq<u8>) -> Option<Seq<u8>>;

/// `ZipWriter::start_file`, one write and `ZipWriter::finish`: an archive of one entry,
/// deflated at `level`. The crate is built without its clock, so the entry bears a fixed
/// date and the bytes depend on the arguments alone. Writing to memory does not fail; an entry
/// called `log.txt` of up to a gigabyte stays below the size from which on the crate asks for
/// another format. A name whose length does not fit into 16 bits would panic.
#[verifier::external_body]
pub(crate) fn zip_one(name: &str, level: i64, content: &[u8]) -> (r: Result<
    Vec<u8>,
    zip::result::ZipError,
>)
    requires
        encode_utf8(name@).len() <= 0xffff,
    ensures
        match r {
            Ok(bytes) => zip_archive(name@, level as int, content@) == Some(bytes@),
            Err(_) => zip_archive(name@, level as int, content@) is None,
        },
        name@ == "log.txt"@ && level == 6 && content@.len() <= 0x4000_0000 ==> r is Ok,
{
    let mut writer = zip::ZipWriter::new(std::io::Cursor::new(Vec::new()));
    let options = zip::write::SimpleFileOptions::default()
        .compression_method(zip::CompressionMethod::Deflated)
        .compression_level(Some(level));
    writer.start_file(name, options)?;
    std::io::Write::write_all(&mut writer, content)?;
    Ok(writer.finish()?.into_inner())
}

} // verus!
