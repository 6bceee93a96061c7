//! The groups that a search captures.
use vstd::prelude::*;
use vstd::string::*;

use crate::outside::group_texts;

verus! {

/// Group `i` of a match, where it took part.
pub open spec fn group(groups: Seq<Option<Seq<char>>>, i: int) -> Option<Seq<char>> {
    if 0 <= i < groups.len() {
        groups[i]
    } else {
        None
    }
}

/// Group `i` of a match, where it took part.
pub fn group_of(groups: &Vec<Option<String>>, i: usize) -> (r: Option<&String>)
    ensures
        match r {
            Some(s) => group(group_texts(groups@), i as int) == Some(s@),
            None => group(group_texts(groups@), i as int) is None,
        },
{
    if i >= groups.len() {
        return None;
    }
    match &groups[i] {
        Some(s) => Some(s),
        None => None,
    }
}

} // verus!
