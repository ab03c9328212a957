//! Rater trust: a rater is trusted exactly when their own aggregate average
//! rating lies strictly inside a fixed plausibility band. The store keeps one
//! flag per rater; a rater seen for the first time costs one remote fetch,
//! and a transient failure there abandons the page without caching anything.

use vstd::prelude::*;

use crate::backoff::RegulationToken;

verus! {

/// Lower edge of the plausibility band, in hundredths of a rating point.
/// A rater whose average sits exactly on an edge is untrusted: the band is
/// an open interval.
pub const LOWER_BOUND: u32 = 200;

/// Upper edge of the plausibility band, in hundredths of a rating point.
pub const UPPER_BOUND: u32 = 800;

/// Whether an average rating (hundredths) falls strictly inside the band.
pub open spec fn spec_trusted(rating: u32) -> bool {
    LOWER_BOUND < rating < UPPER_BOUND
}

/// Classify a rater by their aggregate average rating, given in hundredths.
/// The defaults 2.00 and 8.00 come with the crate; callers wanting another
/// band classify via `trust_within`.
pub fn trust(rating: u32) -> (b: bool)
    ensures
        b == spec_trusted(rating),
{
    trust_within(rating, LOWER_BOUND, UPPER_BOUND)
}

/// Classification against an arbitrary open band.
pub fn trust_within(rating: u32, lower: u32, upper: u32) -> (b: bool)
    ensures
        b == (lower < rating < upper),
{
    lower < rating && rating < upper
}

/// What the environment learned about one rater of a page, in page order.
#[derive(Debug, Clone, PartialEq)]
pub enum UserLookup {
    /// The store already held a trust flag for this rater: no remote call.
    Known(bool),
    /// The store had no record; the rater's own average rating (hundredths)
    /// was fetched from the remote source, and the flag classified from it
    /// was inserted into the store.
    Fresh(u32),
    /// The store had no record and the remote fetch failed transiently.
    /// Nothing was cached.
    Busy,
    /// A store read or write failed: unrecoverable.
    Broken,
}

/// A lookup that produced a usable trust flag.
pub open spec fn lookup_resolves(l: UserLookup) -> bool {
    l is Known || l is Fresh
}

/// The trust flag a resolving lookup produced.
pub open spec fn lookup_flag(l: UserLookup) -> bool {
    match l {
        UserLookup::Known(b) => b,
        UserLookup::Fresh(avg) => spec_trusted(avg),
        _ => false,
    }
}

/// The flags of a sequence of lookups, position by position.
pub open spec fn flags_of(looks: Seq<UserLookup>) -> Seq<bool> {
    looks.map_values(|l: UserLookup| lookup_flag(l))
}

/// The first lookup that stopped the walk over a page, if any.
pub open spec fn blocker_of(looks: Seq<UserLookup>) -> Option<UserLookup>
    decreases looks.len(),
{
    if looks.len() == 0 {
        None
    } else if !lookup_resolves(looks[0]) {
        Some(looks[0])
    } else {
        blocker_of(looks.drop_first())
    }
}

/// A blocker, when there is one, is itself a non-resolving lookup: the walk
/// over a page stops at a transient remote failure or at a store failure,
/// never at a resolved rater.
pub proof fn lemma_blocker_shape(looks: Seq<UserLookup>)
    ensures
        blocker_of(looks) is None || blocker_of(looks) == Some(UserLookup::Busy) || blocker_of(
            looks,
        ) == Some(UserLookup::Broken),
    decreases looks.len(),
{
    if looks.len() > 0 && lookup_resolves(looks[0]) {
        lemma_blocker_shape(looks.drop_first());
    }
}

/// The worker's token after walking the lookups in order: every fresh
/// resolution eases it (the remote source answered), the first transient
/// failure hardens it and ends the walk, and a store failure ends the walk
/// with the token as it stands.
pub open spec fn token_after_lookups(t: RegulationToken, looks: Seq<UserLookup>) -> RegulationToken
    decreases looks.len(),
{
    if looks.len() == 0 {
        t
    } else {
        match looks[0] {
            UserLookup::Known(_) => token_after_lookups(t, looks.drop_first()),
            UserLookup::Fresh(_) => token_after_lookups(t.eased(), looks.drop_first()),
            UserLookup::Busy => t.hardened(),
            UserLookup::Broken => t,
        }
    }
}

/// The outcome of resolving trust for every rater on one page.
#[derive(Debug, Clone, PartialEq)]
pub enum UsersOutcome {
    /// Every rater resolved; one trust flag per rater, in page order.
    Resolved(Vec<bool>),
    /// The remote source is busy: retry the whole page later. No progress
    /// was committed.
    Busy,
    /// A store error: the worker must die.
    Broken,
}

/// Walk the per-rater lookups of one page, in order, collecting the trust
/// flag of each. A transient remote failure abandons the page and hardens
/// the token; every freshly fetched rater eases it; a store failure is
/// unrecoverable and leaves the token alone.
pub fn check_users(tkn: &mut RegulationToken, looks: &Vec<UserLookup>) -> (r: UsersOutcome)
    ensures
        *final(tkn) == token_after_lookups(*old(tkn), looks@),
        blocker_of(looks@) is None ==> (r matches UsersOutcome::Resolved(flags)
            && flags@ == flags_of(looks@)),
        blocker_of(looks@) == Some(UserLookup::Busy) ==> r is Busy,
        blocker_of(looks@) == Some(UserLookup::Broken) ==> r is Broken,
{
    let ghost t0 = *tkn;
    proof {
        assert(looks@.skip(0) =~= looks@);
    }
    let mut flags: Vec<bool> = Vec::new();
    let mut idx: usize = 0;
    while idx < looks.len()
        invariant
            t0 == *old(tkn),
            idx <= looks@.len(),
            flags@.len() == idx,
            forall|j: int|
                0 <= j < idx ==> lookup_resolves(#[trigger] looks@[j]) && flags@[j]
                    == lookup_flag(looks@[j]),
            token_after_lookups(t0, looks@) == token_after_lookups(*tkn, looks@.skip(idx as int)),
            blocker_of(looks@) == blocker_of(looks@.skip(idx as int)),
        decreases looks@.len() - idx,
    {
        let ghost pre = *tkn;
        let ghost flags0 = flags@;
        proof {
            assert(looks@.skip(idx as int)[0] == looks@[idx as int]);
            assert(looks@.skip(idx as int).drop_first() =~= looks@.skip(idx as int + 1));
        }
        match &looks[idx] {
            UserLookup::Known(b) => {
                flags.push(*b);
            },
            UserLookup::Fresh(avg) => {
                tkn.ease();
                let f = trust(*avg);
                flags.push(f);
            },
            UserLookup::Busy => {
                tkn.harden();
                proof {
                    assert(token_after_lookups(pre, looks@.skip(idx as int)) == pre.hardened());
                }
                return UsersOutcome::Busy;
            },
            UserLookup::Broken => {
                proof {
                    assert(token_after_lookups(pre, looks@.skip(idx as int)) == pre);
                }
                return UsersOutcome::Broken;
            },
        }
        proof {
            assert(lookup_resolves(looks@[idx as int]));
            assert(flags@[idx as int] == lookup_flag(looks@[idx as int]));
            assert(flags@ == flags0.push(flags@[idx as int]));
            assert forall|j: int|
                0 <= j < idx + 1 implies lookup_resolves(#[trigger] looks@[j]) && flags@[j]
                == lookup_flag(looks@[j]) by {
                if j < idx {
                    assert(flags@[j] == flags0[j]);
                    assert(lookup_resolves(looks@[j]) && flags0[j] == lookup_flag(looks@[j]));
                }
            }
        }
        idx = idx + 1;
    }
    proof {
        assert(flags@ =~= flags_of(looks@));
    }
    UsersOutcome::Resolved(flags)
}

} // verus!
