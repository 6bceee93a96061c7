//! The page that tells where a site's parser is to be had.
use vstd::prelude::*;
use vstd::string::*;
use vstd::utf8::encode_utf8;

use crate::captures::group;
use crate::captures::group_of;
use crate::game::known_sites;
use crate::numbers::decimal;
use crate::numbers::parse_i32;
use crate::numbers::parsed_i32;
use crate::numbers::push_nat;
use crate::outside::escaped;
use crate::outside::group_texts;
use crate::outside::is_own_pattern;
use crate::outside::regex_captures;
use crate::outside::regex_search;
use crate::text::trim;
use crate::text::trimmed;
use crate::text::truncate;
use crate::text::truncated;
use crate::wcl::ParserBundle;

verus! {

/// The script that sets up the game data.
pub const GAMEDATA_PATTERN: &'static str =
    "(?s)<script[^>]*>(.*?window\\.gameContentTypes.*?)</script>";

/// The address of a parser bundle, up to the slug of its game.
pub const BUNDLE_PATTERN_START: &'static str =
    "src=\"(https://assets\\.rpglogs\\.com/js/(?:[\\w-]+/)*parser-";

/// The rest of the address of a parser bundle.
pub const BUNDLE_PATTERN_END: &'static str = "[^\"]+)\"";

/// The address of any parser bundle.
pub const ANY_BUNDLE_PATTERN: &'static str =
    "src=\"(https://assets\\.rpglogs\\.com/js/(?:[\\w-]+/)*parser-[^\"]+)\"";

/// The version that the page states for its parser.
pub const VERSION_PATTERN: &'static str = "const parserVersion\\s*=\\s*(\\d+)";

/// The parser version to go by where the page states none.
pub const DEFAULT_PARSER_VERSION: i32 = 59;

/// The pattern for the address of the bundle of one game.
pub open spec fn bundle_pattern(slug: Seq<char>) -> Seq<char> {
    BUNDLE_PATTERN_START@ + escaped(slug) + BUNDLE_PATTERN_END@
}

/// The groups that a search found.
pub type Groups = Option<Vec<Option<String>>>;

/// The first group that a search found.
pub open spec fn first_group(found: Option<Seq<Option<Seq<char>>>>) -> Option<Seq<char>> {
    match found {
        Some(groups) => group(groups, 1),
        None => None,
    }
}

/// The groups that a search found, as texts.
pub open spec fn found_texts(found: Groups) -> Option<Seq<Option<Seq<char>>>> {
    match found {
        Some(groups) => Some(group_texts(groups@)),
        None => None,
    }
}

fn take_first(found: &Groups) -> (r: Option<&String>)
    ensures
        match r {
            Some(s) => first_group(found_texts(*found)) == Some(s@),
            None => first_group(found_texts(*found)) is None,
        },
{
    match found {
        Some(groups) => group_of(groups, 1),
        None => None,
    }
}

/// What the page tells.
pub struct ParserPage {
    pub gamedata_code: String,
    pub parser_url: String,
    pub parser_version: i32,
}

/// The page is of no use.
pub enum PageError {
    /// A pattern was not accepted.
    BadPattern(regex::Error),
    /// The page names no parser.
    NoParser(String),
}

/// The code of the game data: what was captured, trimmed; empty where nothing was.
pub open spec fn gamedata_code(captured: Option<Seq<char>>) -> Seq<char> {
    match captured {
        Some(s) => trimmed(s),
        None => seq![],
    }
}

/// The parser version: what was captured, where that is a 32-bit integer, else the default.
pub open spec fn parser_version(captured: Option<Seq<char>>) -> int {
    match captured {
        Some(s) => match parsed_i32(s) {
            Some(n) => n,
            None => DEFAULT_PARSER_VERSION as int,
        },
        None => DEFAULT_PARSER_VERSION as int,
    }
}

/// The complaint that a page names no parser.
pub open spec fn no_parser_message(html: Seq<char>) -> Seq<char> {
    "parser script URL not found in parser page ("@ + decimal(encode_utf8(html).len() as int)
        + " bytes): "@ + truncated(html, 300)
}

/// What a page tells, given what was found in it: the game data, the parser of the game
/// itself or, failing that, any parser, and the version.
pub open spec fn page_is(
    r: Result<ParserPage, PageError>,
    html: Seq<char>,
    gamedata: Option<Seq<Option<Seq<char>>>>,
    own: Option<Seq<Option<Seq<char>>>>,
    any: Option<Seq<Option<Seq<char>>>>,
    version: Option<Seq<Option<Seq<char>>>>,
) -> bool {
    let bundle = if own is Some {
        own
    } else {
        any
    };
    match first_group(bundle) {
        Some(url) => match r {
            Ok(page) => {
                &&& page.parser_url@ == url
                &&& page.gamedata_code@ == gamedata_code(first_group(gamedata))
                &&& page.parser_version == parser_version(first_group(version))
            },
            Err(_) => false,
        },
        None => match r {
            Err(PageError::NoParser(m)) => m@ == no_parser_message(html),
            _ => false,
        },
    }
}

/// What a page tells, given what was found in it.
pub fn page_from(html: &str, gamedata: &Groups, own: &Groups, any: &Groups, version: &Groups) -> (r:
    Result<ParserPage, PageError>)
    ensures
        page_is(
            r,
            html@,
            found_texts(*gamedata),
            found_texts(*own),
            found_texts(*any),
            found_texts(*version),
        ),
{
    let bundle = match own {
        Some(_) => own,
        None => any,
    };
    let parser_url = match take_first(bundle) {
        Some(url) => url.clone(),
        None => {
            let mut m = "parser script URL not found in parser page (".to_owned();
            push_nat(&mut m, html.as_bytes().len() as u128);
            m.append(" bytes): ");
            let short = truncate(html, 300);
            m.append(short.as_str());
            return Err(PageError::NoParser(m));
        },
    };
    let gamedata_code = match take_first(gamedata) {
        Some(s) => trim(s.as_str()),
        None => String::new(),
    };
    let parser_version: i32 = match take_first(version) {
        Some(s) => match parse_i32(s.as_str()) {
            Some(n) => n,
            None => DEFAULT_PARSER_VERSION,
        },
        None => DEFAULT_PARSER_VERSION,
    };
    Ok(ParserPage { gamedata_code, parser_url, parser_version })
}

/// Reads the page that tells where the parser of the game with this slug is to be had.
pub fn read_parser_page(html: &str, slug: &str) -> (r: Result<ParserPage, PageError>)
    ensures
        match (
            regex_search(GAMEDATA_PATTERN@, html@),
            regex_search(bundle_pattern(slug@), html@),
            regex_search(ANY_BUNDLE_PATTERN@, html@),
            regex_search(VERSION_PATTERN@, html@),
        ) {
            (Some(gamedata), Some(own), Some(any), Some(version)) => page_is(
                r,
                html@,
                gamedata,
                own,
                any,
                version,
            ),
            _ => r matches Err(PageError::BadPattern(_)),
        },
        is_own_pattern(bundle_pattern(slug@)) ==> !(r matches Err(PageError::BadPattern(_))),
{
    let gamedata = match regex_captures(GAMEDATA_PATTERN, html) {
        Ok(g) => g,
        Err(e) => {
            return Err(PageError::BadPattern(e));
        },
    };
    let mut pattern = BUNDLE_PATTERN_START.to_owned();
    let literal = regex::escape(slug);
    pattern.append(literal.as_str());
    pattern.append(BUNDLE_PATTERN_END);
    let own = match regex_captures(pattern.as_str(), html) {
        Ok(g) => g,
        Err(e) => {
            return Err(PageError::BadPattern(e));
        },
    };
    let any = match regex_captures(ANY_BUNDLE_PATTERN, html) {
        Ok(g) => g,
        Err(e) => {
            return Err(PageError::BadPattern(e));
        },
    };
    let version = match regex_captures(VERSION_PATTERN, html) {
        Ok(g) => g,
        Err(e) => {
            return Err(PageError::BadPattern(e));
        },
    };
    page_from(html, &gamedata, &own, &any, &version)
}

impl ParserPage {
    /// The page together with the code that was found at its parser's address.
    pub fn with_code(self, parser_code: String) -> (r: ParserBundle)
        ensures
            r.gamedata_code == self.gamedata_code,
            r.parser_code == parser_code,
            r.parser_version == self.parser_version,
    {
        ParserBundle {
            gamedata_code: self.gamedata_code,
            parser_code,
            parser_version: self.parser_version,
        }
    }
}

/// The pages of all known sites can be searched.
pub proof fn known_slugs_are_searched(i: int)
    requires
        0 <= i < known_sites().len(),
    ensures
        is_own_pattern(bundle_pattern(known_sites()[i].parser_slug)),
{
}

} // verus!
