//! Ranking of fuzzy-match results. The scoring primitive is an outside
//! capability and nothing is assumed about the scores it hands back; what
//! this module does with the scores — weighting, ordering, truncation — is
//! exact and verified.

use vstd::prelude::*;
use crate::search::entity_model::{Entity, Export, LauncherEntity, Matching};

verus! {

/// Declares nucleo's `Matcher` so it can appear in signatures; the value is
/// opaque here and only the trusted wrapper below touches it.
#[verifier::external_type_specification]
#[verifier::external_body]
pub struct ExMatcher(nucleo::Matcher);

/// Relies on nucleo's `Matcher::fuzzy_match`: the score of the best fuzzy
/// match of `needle` in `haystack`, or none if `needle` does not match.
/// The score depends on the matcher's configuration, so nothing is claimed
/// about it. The matcher panics on haystacks of 2^32 or more codepoints;
/// such haystacks are excluded here, and nucleo's text never holds more
/// codepoints than the source string has characters.
#[verifier::external_body]
fn fuzzy_match_score(matcher: &mut nucleo::Matcher, haystack: &str, needle: &str) -> (r: Option<
    u16,
>)
    requires
        haystack@.len() <= 0xFFFF_FFFF,
{
    let h = nucleo::Utf32String::from(haystack);
    let n = nucleo::Utf32String::from(needle);
    matcher.fuzzy_match(h.slice(..), n.slice(..))
}

/// Weight applied to a raw match score before ranking; currently the score
/// itself.
pub fn match_score_weighting(score: u16) -> (r: u16)
    ensures
        r == score,
{
    score
}

// ---------------------------------------------------------------------------
// ordering the scored results
// ---------------------------------------------------------------------------

/// Inserting one scored entity into a list sorted by descending score,
/// after every entry that scores at least as high — so earlier results keep
/// their place among equals.
pub open spec fn insert_desc(
    s: Seq<(u16, LauncherEntity)>,
    x: (u16, LauncherEntity),
) -> Seq<(u16, LauncherEntity)>
    decreases s.len(),
{
    if s.len() == 0 {
        seq![x]
    } else if s[0].0 >= x.0 {
        seq![s[0]] + insert_desc(s.drop_first(), x)
    } else {
        seq![x] + s
    }
}

/// Stable sort by descending score: items of equal score stay in their
/// original order.
pub open spec fn sort_desc(s: Seq<(u16, LauncherEntity)>) -> Seq<(u16, LauncherEntity)>
    decreases s.len(),
{
    if s.len() == 0 {
        Seq::empty()
    } else {
        insert_desc(sort_desc(s.drop_last()), s.last())
    }
}

/// Inserting before the first strictly lower score is what `insert_desc`
/// describes.
proof fn lemma_insert_desc_at(s: Seq<(u16, LauncherEntity)>, x: (u16, LauncherEntity), j: int)
    requires
        0 <= j <= s.len(),
        forall|k: int| 0 <= k < j ==> s[k].0 >= x.0,
        j < s.len() ==> s[j].0 < x.0,
    ensures
        insert_desc(s, x) == s.insert(j, x),
    decreases j,
{
    if j == 0 {
        if s.len() == 0 {
            assert(insert_desc(s, x) =~= s.insert(0, x));
        } else {
            assert(s[0].0 < x.0);
            assert(insert_desc(s, x) =~= s.insert(0, x));
        }
    } else {
        assert(s[0].0 >= x.0);
        let t = s.drop_first();
        lemma_insert_desc_at(t, x, j - 1);
        assert(seq![s[0]] + t.insert(j - 1, x) =~= s.insert(j, x));
    }
}

/// Inserts one scored entity into a vector sorted by descending score,
/// keeping it sorted and stable.
fn insert_scored(out: &mut Vec<(u16, LauncherEntity)>, x: (u16, LauncherEntity))
    ensures
        final(out)@ == insert_desc(old(out)@, x),
{
    let n = out.len();
    let mut j: usize = 0;
    while j < n
        invariant
            j <= n,
            n == out@.len(),
            *out == *old(out),
            forall|k: int| 0 <= k < j ==> out@[k].0 >= x.0,
        decreases n - j,
    {
        if out[j].0 < x.0 {
            proof {
                lemma_insert_desc_at(out@, x, j as int);
            }
            out.insert(j, x);
            return ;
        }
        j = j + 1;
    }
    proof {
        lemma_insert_desc_at(out@, x, n as int);
    }
    out.insert(n, x);
}

/// Orders scored results by descending score (stable), keeps at most the
/// ten best, and hands back the entities in that order.
pub fn rank_entities(scored: Vec<(u16, LauncherEntity)>) -> (r: Vec<LauncherEntity>)
    ensures
        ({
            let sorted = sort_desc(scored@);
            &&& r@.len() == if sorted.len() <= 10 {
                sorted.len()
            } else {
                10
            }
            &&& forall|i: int| 0 <= i < r@.len() ==> r@[i] == sorted[i].1
        }),
{
    let ghost orig = scored@;
    let mut scored = scored;
    let mut sorted_vec: Vec<(u16, LauncherEntity)> = Vec::new();
    while scored.len() > 0
        invariant
            scored@ =~= orig.subrange(orig.len() - scored@.len(), orig.len() as int),
            scored@.len() <= orig.len(),
            sorted_vec@ == sort_desc(orig.subrange(0, orig.len() - scored@.len())),
        decreases scored@.len(),
    {
        let ghost k = orig.len() - scored@.len();
        let x = scored.remove(0);
        assert(x == orig[k]);
        insert_scored(&mut sorted_vec, x);
        proof {
            assert(orig.subrange(0, k + 1).drop_last() =~= orig.subrange(0, k));
            assert(orig.subrange(0, k + 1).last() == orig[k]);
        }
    }
    assert(orig.subrange(0, orig.len() as int) =~= orig);
    let ghost sorted = sort_desc(orig);
    assert(sorted_vec@ == sorted);

    let mut r: Vec<LauncherEntity> = Vec::new();
    let mut i: usize = 0;
    while i < sorted_vec.len() && i < 10
        invariant
            sorted_vec@ == sorted,
            i <= sorted.len(),
            i <= 10,
            r@.len() == i,
            forall|k: int| 0 <= k < i ==> r@[k] == sorted[k].1,
        decreases sorted_vec@.len() - i,
    {
        r.push(sorted_vec[i].1.clone());
        i = i + 1;
    }
    r
}

/// Scores every entity of the haystack against the needle, then returns at
/// most the ten best as launcher entries, best first. Which entities match
/// and how they score is the outside matcher's decision; the ordering and
/// truncation of whatever it decides is exact (see `rank_entities`).
pub fn search_entity<T: Entity>(
    haystack: &Vec<T>,
    needle: String,
    matcher: &mut nucleo::Matcher,
) -> (r: Vec<LauncherEntity>)
    ensures
        r@.len() <= 10,
{
    let mut scored: Vec<(u16, LauncherEntity)> = Vec::new();
    let mut i: usize = 0;
    while i < haystack.len()
        invariant
            i <= haystack@.len(),
        decreases haystack@.len() - i,
    {
        let field = haystack[i].match_field();
        // guards the matcher's codepoint limit; see `fuzzy_match_score`
        if (field.as_str().unicode_len() as u64) <= 0xFFFF_FFFFu64 {
            match fuzzy_match_score(matcher, field.as_str(), needle.as_str()) {
                Some(score) => {
                    let weighted = match_score_weighting(score);
                    scored.push((weighted, haystack[i].into_launcher_entity()));
                },
                None => {},
            }
        }
        i = i + 1;
    }
    rank_entities(scored)
}

} // verus!
