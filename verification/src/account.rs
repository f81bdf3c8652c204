//! The player identity the tool is pointed at: a Riot ID of the form
//! `username#tagline`.

use vstd::prelude::*;

verus! {

use crate::search::{first_where, lemma_first_where_is};

/// Identifies a user towards the provider's account endpoints.
#[derive(Debug, Clone, PartialEq)]
pub struct RiotId {
    pub username: String,
    pub tagline: String,
}

/// Why a Riot ID string was refused.
#[derive(Debug, Clone, Copy, PartialEq, Eq, Structural)]
pub enum RiotIdError {
    /// Not of the form `username#tag` with exactly one `#`.
    InvalidFormat,
}

/// Index of the first `'#'`, or the length if there is none.
pub open spec fn spec_hash_index(s: Seq<char>) -> int {
    first_where(s, |c: char| c == '#')
}

/// The two halves of a Riot ID string: the text before and after its `'#'`.
/// `None` unless the string holds exactly one `'#'`.
pub open spec fn spec_riot_id_parts(s: Seq<char>) -> Option<(Seq<char>, Seq<char>)> {
    let k = spec_hash_index(s);
    if k == s.len() {
        Option::None
    } else {
        let tag = s.subrange(k + 1, s.len() as int);
        if tag.contains('#') {
            Option::None
        } else {
            Option::Some((s.subrange(0, k), tag))
        }
    }
}

impl RiotId {
    /// An identity from its two halves.
    pub fn new(username: String, tagline: String) -> (r: RiotId)
        ensures
            r.username == username,
            r.tagline == tagline,
    {
        RiotId { username, tagline }
    }

    /// Parses `username#tagline`; any other shape (no `'#'`, or more than
    /// one) is invalid.
    pub fn from_str(riot_id: &str) -> (r: Result<RiotId, RiotIdError>)
        ensures
            match r {
                Ok(id) => spec_riot_id_parts(riot_id@) == Option::Some(
                    (id.username@, id.tagline@),
                ),
                Err(e) => spec_riot_id_parts(riot_id@) is None && e == RiotIdError::InvalidFormat,
            },
    {
        let n = riot_id.unicode_len();
        let mut k: usize = 0;
        while k < n && riot_id.get_char(k) != '#'
            invariant
                0 <= k <= n,
                n == riot_id@.len(),
                forall|j: int| 0 <= j < k ==> riot_id@[j] != '#',
            decreases n - k,
        {
            k += 1;
        }
        proof {
            lemma_first_where_is(riot_id@, |c: char| c == '#', k as int);
        }
        if k == n {
            return Err(RiotIdError::InvalidFormat);
        }
        // No second '#' may follow.
        let ghost tag_view = riot_id@.subrange(k + 1, n as int);
        let mut j: usize = k + 1;
        while j < n
            invariant
                k + 1 <= j <= n,
                n == riot_id@.len(),
                k < n,
                spec_hash_index(riot_id@) == k,
                tag_view == riot_id@.subrange(k + 1, n as int),
                forall|i: int| k + 1 <= i < j ==> riot_id@[i] != '#',
            decreases n - j,
        {
            if riot_id.get_char(j) == '#' {
                proof {
                    assert(tag_view[j - (k + 1)] == '#');
                    assert(tag_view.contains('#'));
                }
                return Err(RiotIdError::InvalidFormat);
            }
            j += 1;
        }
        proof {
            if tag_view.contains('#') {
                let i = choose|i: int| 0 <= i < tag_view.len() && tag_view[i] == '#';
                assert(riot_id@[k + 1 + i] == '#');
                assert(false);
            }
        }
        let username = riot_id.substring_char(0, k).to_owned();
        let tagline = riot_id.substring_char(k + 1, n).to_owned();
        Ok(RiotId { username, tagline })
    }

    /// The identity written back as `username#tagline`.
    pub fn to_text(&self) -> (r: String)
        ensures
            r@ == self.username@ + "#"@ + self.tagline@,
    {
        let mut s = self.username.clone();
        s.append("#");
        s.append(self.tagline.as_str());
        s
    }
}

} // verus!
