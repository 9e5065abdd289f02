//! Process configuration. The values are loaded once at startup by the
//! surrounding program and handed in read-only; nothing here is mutated
//! afterwards, so the token codec and the authorization gate see one
//! consistent secret and lifetime for the whole process.

use vstd::prelude::*;
use vstd::string::StrSliceExecFns;
use crate::text::{first_idx, lemma_first_idx_bounds, lemma_first_idx_is, trim_seq, trim_str};

verus! {

pub struct Env {
    pub port: u16,
    pub database_url: String,
    pub jwt_secret: String,
    pub jwt_expires_in: String,
    pub google_client_id: String,
    pub google_client_secret: String,
    pub google_redirect_uri: String,
    pub allowed_origins: Vec<String>,
    pub rate_limit_auth_max: u64,
    pub download_windows_path: String,
    pub download_android_path: String,
}

/// The allowed origins encoded in a configuration string: the
/// comma-separated pieces, each trimmed, with empty pieces dropped.
pub open spec fn origins_of(s: Seq<char>) -> Seq<Seq<char>>
    decreases s.len(),
    via origins_of_decreases
{
    let i = first_idx(s, ',');
    let head = trim_seq(s.subrange(0, i));
    let head_part = if head.len() > 0 {
        seq![head]
    } else {
        Seq::<Seq<char>>::empty()
    };
    if i == s.len() {
        head_part
    } else {
        head_part + origins_of(s.subrange(i + 1, s.len() as int))
    }
}

#[via_fn]
proof fn origins_of_decreases(s: Seq<char>) {
    lemma_first_idx_bounds(s, ',');
}

/// Split a configured origin list on commas, trimming each entry and
/// dropping empty ones.
pub fn parse_origins(s: &str) -> (r: Vec<String>)
    ensures
        r.deep_view() == origins_of(s@),
    decreases s@.len(),
{
    let n = s.unicode_len();
    let mut i: usize = 0;
    while i < n && s.get_char(i) != ','
        invariant
            0 <= i <= n,
            n == s@.len(),
            forall|j: int| 0 <= j < i ==> s@[j] != ',',
        decreases n - i,
    {
        i = i + 1;
    }
    proof {
        lemma_first_idx_is(s@, ',', i as int);
    }
    let head = trim_str(s.substring_char(0, i));
    if i == n {
        let mut out: Vec<String> = Vec::new();
        if head.as_str().unicode_len() > 0 {
            out.push(head);
        }
        proof {
            assert(out.deep_view() =~= origins_of(s@));
        }
        out
    } else {
        let rest = s.substring_char(i + 1, n);
        let mut out = parse_origins(rest);
        let keep_head = head.as_str().unicode_len() > 0;
        if keep_head {
            out.insert(0, head);
        }
        proof {
            assert(out.deep_view() =~= origins_of(s@));
        }
        out
    }
}

} // verus!
