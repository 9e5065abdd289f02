//! Homepage content shapes. The content CRUD itself is storage plumbing
//! outside this library; what belongs here is the data shape and the
//! default hero shown before any content is stored.

use vstd::prelude::*;
use vstd::string::StringExecFns;

verus! {

#[derive(Debug)]
pub struct HomepageHero {
    pub title: String,
    pub subtitle: String,
    pub cta_text: String,
    pub cta_link: String,
}

pub struct HomepageHeroBody {
    pub title: String,
    pub subtitle: String,
    pub cta_text: String,
    pub cta_link: String,
}

pub struct UpsertSectionBody {
    pub content: String,
}

/// The hero shown when no hero content has been stored yet.
pub fn default_hero() -> (r: HomepageHero)
    ensures
        r.title@ == "Welcome"@,
        r.subtitle@ == "Pure API running"@,
        r.cta_text@ == "Get Started"@,
        r.cta_link@ == "/"@,
{
    HomepageHero {
        title: String::from_str("Welcome"),
        subtitle: String::from_str("Pure API running"),
        cta_text: String::from_str("Get Started"),
        cta_link: String::from_str("/"),
    }
}

} // verus!
