//! The RPGLogs sites.
use vstd::prelude::*;

use crate::text::same_text;

verus! {

/// A single RPGLogs site. Uploading works alike on all of them; only the base URL and the
/// slug of the parser bundle differ. `parser_slug` is the
/// `assets.rpglogs.com/js/parser-<slug>` bundle that the site's parser page refers to.
#[derive(Debug, Clone, Copy)]
pub struct Game {
    pub id: &'static str,
    pub base_url: &'static str,
    pub parser_slug: &'static str,
}

/// The model of a site: its id, its base URL and its parser slug.
pub struct Site {
    pub id: Seq<char>,
    pub base_url: Seq<char>,
    pub parser_slug: Seq<char>,
}

impl View for Game {
    type V = Site;

    open spec fn view(&self) -> Site {
        Site { id: self.id@, base_url: self.base_url@, parser_slug: self.parser_slug@ }
    }
}

/// The known sites. The first one is the default.
pub open spec fn known_sites() -> Seq<Site> {
    seq![
        Site {
            id: "warcraft"@,
            base_url: "https://www.warcraftlogs.com"@,
            parser_slug: "warcraft"@,
        },
        Site { id: "ff"@, base_url: "https://www.fflogs.com"@, parser_slug: "ff"@ },
        Site { id: "eso"@, base_url: "https://www.esologs.com"@, parser_slug: "eso"@ },
        Site { id: "swtor"@, base_url: "https://www.swtorlogs.com"@, parser_slug: "swtor"@ },
        Site {
            id: "fellowship"@,
            base_url: "https://www.fellowshiplogs.com"@,
            parser_slug: "fellowship"@,
        },
    ]
}

/// The first of `sites` with this id, else `default`.
pub open spec fn site_or(sites: Seq<Site>, id: Seq<char>, default: Site) -> Site
    decreases sites.len(),
{
    if sites.len() == 0 {
        default
    } else if sites[0].id == id {
        sites[0]
    } else {
        site_or(sites.drop_first(), id, default)
    }
}

/// The site with this id; Warcraft Logs where there is none.
pub open spec fn site_by_id(id: Seq<char>) -> Site {
    site_or(known_sites(), id, known_sites()[0])
}

/// The known sites. The first one is the default.
pub fn games() -> (r: Vec<Game>)
    ensures
        r@.map_values(|g: Game| g@) == known_sites(),
{
    let mut v: Vec<Game> = Vec::new();
    v.push(
        Game {
            id: "warcraft",
            base_url: "https://www.warcraftlogs.com",
            parser_slug: "warcraft",
        },
    );
    v.push(Game { id: "ff", base_url: "https://www.fflogs.com", parser_slug: "ff" });
    v.push(Game { id: "eso", base_url: "https://www.esologs.com", parser_slug: "eso" });
    v.push(Game { id: "swtor", base_url: "https://www.swtorlogs.com", parser_slug: "swtor" });
    v.push(
        Game {
            id: "fellowship",
            base_url: "https://www.fellowshiplogs.com",
            parser_slug: "fellowship",
        },
    );
    proof {
        assert(v@.map_values(|g: Game| g@) =~= known_sites());
    }
    v
}

/// Resolves a game by id, defaulting to Warcraft Logs for unknown and empty ids.
pub fn game_by_id(id: &str) -> (r: Game)
    ensures
        r@ == site_by_id(id@),
{
    let all = games();
    let ghost sites = known_sites();
    proof {
        assert(all@.map_values(|g: Game| g@).len() == all@.len());
        assert(sites.skip(0) =~= sites);
    }
    let mut i: usize = 0;
    while i < all.len()
        invariant
            i <= all@.len(),
            sites == known_sites(),
            all@.len() == sites.len(),
            forall|j: int| 0 <= j < all@.len() ==> sites[j] == (#[trigger] all@[j])@,
            site_by_id(id@) == site_or(sites.skip(i as int), id@, sites[0]),
        decreases all@.len() - i,
    {
        proof {
            assert(sites.skip(i as int)[0] == sites[i as int]);
            assert(sites.skip(i as int).drop_first() =~= sites.skip(i + 1));
        }
        if same_text(all[i].id, id) {
            return all[i];
        }
        i = i + 1;
    }
    all[0]
}

/// Every known site is found by its id, and anything else gives Warcraft Logs.
pub proof fn sites_are_found(id: Seq<char>)
    ensures
        forall|i: int|
            0 <= i < known_sites().len() ==> site_by_id(#[trigger] known_sites()[i].id)
                == known_sites()[i],
        (forall|i: int| 0 <= i < known_sites().len() ==> known_sites()[i].id != id)
            ==> site_by_id(id) == known_sites()[0],
{
    reveal_strlit("warcraft");
    reveal_strlit("ff");
    reveal_strlit("eso");
    reveal_strlit("swtor");
    reveal_strlit("fellowship");
    reveal_with_fuel(site_or, 6);
    let s = known_sites();
    assert(s[0].id.len() == 8 && s[1].id.len() == 2 && s[2].id.len() == 3 && s[3].id.len() == 5
        && s[4].id.len() == 10);
    assert(s.drop_first()[0] == s[1]);
    assert(s.drop_first().drop_first()[0] == s[2]);
    assert(s.drop_first().drop_first().drop_first()[0] == s[3]);
    assert(s.drop_first().drop_first().drop_first().drop_first()[0] == s[4]);
}

} // verus!
