//! Generation and shape of public identifiers.

use vstd::prelude::*;
use vstd::string::StrSliceExecFns;

use crate::Post;
use rand::distributions::{Alphanumeric, DistString};

verus! {

/// Number of characters in a public identifier.
pub const ID_LEN: usize = 16;

/// The identifier alphabet: ASCII digits and letters.
pub open spec fn is_id_char(c: char) -> bool {
    ('0' <= c && c <= '9') || ('a' <= c && c <= 'z') || ('A' <= c && c <= 'Z')
}

/// A well-shaped public identifier: sixteen alphanumeric characters.
pub open spec fn is_id(id: Seq<char>) -> bool {
    &&& id.len() == ID_LEN
    &&& forall|i: int| 0 <= i < id.len() ==> is_id_char(#[trigger] id[i])
}

/// A well-shaped identifier never contains a `.`.
pub proof fn lemma_id_has_no_dot(id: Seq<char>)
    requires
        is_id(id),
    ensures
        !id.contains('.'),
{
    assert(forall|i: int| 0 <= i < id.len() ==> #[trigger] id[i] != '.');
}

/// Relies on `rand`'s `Alphanumeric` distribution: `sample_string` appends
/// exactly the requested number of characters, each drawn uniformly from
/// the ASCII digits and letters. Nothing more is known of a random result.
#[verifier::external_body]
fn gen_id() -> (r: String)
    ensures
        is_id(r@),
{
    Alphanumeric.sample_string(&mut rand::thread_rng(), ID_LEN)
}

/// Whether the string is a well-shaped public identifier.
pub fn id_well_formed(s: &str) -> (r: bool)
    ensures
        r == is_id(s@),
{
    let n = s.unicode_len();
    if n != ID_LEN {
        return false;
    }
    let mut i: usize = 0;
    while i < n
        invariant
            n == s@.len(),
            n == ID_LEN,
            i <= n,
            forall|j: int| 0 <= j < i ==> is_id_char(#[trigger] s@[j]),
        decreases n - i,
    {
        let c = s.get_char(i);
        let ok = ('0' <= c && c <= '9') || ('a' <= c && c <= 'z') || ('A' <= c && c <= 'Z');
        if !ok {
            return false;
        }
        i += 1;
    }
    true
}

/// Whether the string contains a literal `.` character.
pub fn contains_dot(s: &str) -> (r: bool)
    ensures
        r == s@.contains('.'),
{
    let n = s.unicode_len();
    let mut i: usize = 0;
    while i < n
        invariant
            n == s@.len(),
            i <= n,
            forall|j: int| 0 <= j < i ==> s@[j] != '.',
        decreases n - i,
    {
        if s.get_char(i) == '.' {
            assert(s@.contains('.'));
            return true;
        }
        i += 1;
    }
    false
}

/// Whether some record in `posts` already carries the id `id`.
pub(crate) fn id_taken(posts: &Vec<Post>, id: &String) -> (r: bool)
    ensures
        r == exists|i: int| 0 <= i < posts@.len() && (#[trigger] posts@[i]).id@ == id@,
{
    let mut i: usize = 0;
    while i < posts.len()
        invariant
            i <= posts@.len(),
            forall|j: int| 0 <= j < i ==> (#[trigger] posts@[j]).id@ != id@,
        decreases posts@.len() - i,
    {
        if posts[i].id == *id {
            return true;
        }
        i += 1;
    }
    false
}

/// Number of times a colliding identifier is redrawn before giving up.
pub const ID_RETRIES: usize = 16;

/// Draws identifiers until one is not already present in `posts`, giving up
/// after [`ID_RETRIES`] draws. Uniqueness is verified against the metadata
/// before the caller commits a record. On a non-empty table a random draw
/// may collide every time, so success cannot be promised there; on an empty
/// table no draw can collide, so `None` implies the table was non-empty.
pub fn fresh_id(posts: &Vec<Post>) -> (r: Option<String>)
    ensures
        match r {
            Some(id) => is_id(id@) && !exists|i: int|
                0 <= i < posts@.len() && (#[trigger] posts@[i]).id@ == id@,
            None => posts@.len() > 0,
        },
{
    let mut tries: usize = 0;
    while tries < ID_RETRIES
        invariant
            tries <= ID_RETRIES,
            tries > 0 ==> posts@.len() > 0,
        decreases ID_RETRIES - tries,
    {
        let id = gen_id();
        if !id_taken(posts, &id) {
            return Some(id);
        }
        tries += 1;
    }
    None
}

} // verus!
