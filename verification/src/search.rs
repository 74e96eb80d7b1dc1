//! Filtering lists by a search text, without regard to case.
use crate::text::chars_of;
use vstd::prelude::*;

verus! {

/// What `str::to_lowercase` gives for a text.
pub uninterp spec fn lowercase(t: Seq<char>) -> Seq<char>;

/// Calls `str::to_lowercase`, which puts a text into lower case by Unicode's tables.
/// The result depends on the text's characters alone; what it is on given ones is left
/// to the tables.
#[verifier::external_body]
pub(crate) fn to_lowercase(s: &str) -> (r: String)
    ensures
        r@ == lowercase(s@),
{
    s.to_lowercase()
}

/// Whether `part` stands in `whole` from index `at` on.
pub open spec fn occurs_at(whole: Seq<char>, part: Seq<char>, at: int) -> bool {
    0 <= at && at + part.len() <= whole.len() && whole.subrange(at, at + part.len()) == part
}

/// Whether `part` stands somewhere in `whole`.
pub open spec fn occurs(whole: Seq<char>, part: Seq<char>) -> bool {
    exists|at: int| occurs_at(whole, part, at)
}

/// An empty text stands in every text.
pub proof fn lemma_empty_occurs(whole: Seq<char>, part: Seq<char>)
    requires
        part.len() == 0,
    ensures
        occurs(whole, part),
{
    assert(whole.subrange(0, 0) =~= part);
    assert(occurs_at(whole, part, 0));
}

/// Whether a part stands in a text from an index on.
fn matches_at(whole: &Vec<char>, part: &Vec<char>, at: usize) -> (b: bool)
    requires
        at + part.len() <= whole.len(),
    ensures
        b == occurs_at(whole@, part@, at as int),
{
    let mut k: usize = 0;
    while k < part.len()
        invariant
            k <= part.len(),
            at + part.len() <= whole.len(),
            forall|m: int| 0 <= m < k ==> whole[at + m] == part[m],
        decreases part.len() - k,
    {
        if whole[at + k] != part[k] {
            proof {
                assert(whole@.subrange(at as int, at + part.len())[k as int] == whole[at + k]);
            }
            return false;
        }
        k = k + 1;
    }
    proof {
        assert(whole@.subrange(at as int, at + part.len()) =~= part@);
    }
    true
}

/// Whether a part stands somewhere in a text.
pub fn contains(whole: &str, part: &str) -> (b: bool)
    ensures
        b == occurs(whole@, part@),
{
    let w = chars_of(whole);
    let p = chars_of(part);
    if p.len() > w.len() {
        return false;
    }
    let last: usize = w.len() - p.len();
    let mut at: usize = 0;
    loop
        invariant
            at <= last == w.len() - p.len(),
            w@ == whole@,
            p@ == part@,
            forall|m: int| 0 <= m < at ==> !occurs_at(whole@, part@, m),
        decreases last - at,
    {
        if matches_at(&w, &p, at) {
            return true;
        }
        if at == last {
            return false;
        }
        at = at + 1;
    }
}

} // verus!
