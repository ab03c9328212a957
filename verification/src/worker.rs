//! Per-game convergence: one worker owns one game and walks its rater pages
//! in order. Each iteration fetches one page, resolves every rater's trust,
//! folds the trusted ratings into the game's running average and advances the
//! page cursor — or retries the same page after a transient failure, without
//! committing anything. An empty page marks the end of the data and makes the
//! game stable.
//!
//! The worker's decisions live here, verified; the surrounding binary
//! performs the sleep, the fetch, the store traffic and the event channel,
//! and feeds what it observed back in.

use vstd::prelude::*;

use crate::Game;
use crate::User;
use crate::average::RunningAverage;
use crate::average::sum_of;
use crate::backoff::RegulationToken;
use crate::trust::UserLookup;
use crate::trust::UsersOutcome;
use crate::trust::blocker_of;
use crate::trust::check_users;
use crate::trust::flags_of;
use crate::trust::token_after_lookups;

verus! {

/// What the remote source answered when one rater page was requested.
#[derive(Debug, Clone, PartialEq)]
pub enum FetchOutcome {
    /// Transient network or format failure: the page must be retried.
    Failed,
    /// The page's raters with their observed ratings (hundredths), in page
    /// order; empty when the page lies past the end of the data.
    Users(Vec<(User, u32)>),
}

/// What one loop iteration of a worker did to its game.
#[derive(Debug, Clone, Copy, PartialEq, Eq, Structural)]
pub enum PageOutcome {
    /// Transient failure: nothing was committed, the same page is retried
    /// after the backoff delay.
    Retry,
    /// A store error: the worker must die and report it.
    Broken,
    /// The empty page was reached: the caller persists the game as stable
    /// and the worker ends with its final snapshot.
    Finished,
    /// The page was folded: the caller persists the game, still unstable,
    /// and the worker continues with the next page.
    Advanced,
}

/// The loop-top decision of a worker, taken before any remote traffic.
#[derive(Debug, Clone, Copy, PartialEq, Eq, Structural)]
pub enum StepGate {
    /// Keep going: sleep this many milliseconds, then fetch the game's
    /// current page.
    Proceed(u64),
    /// Cancellation was requested: emit the interrupted terminal event and
    /// exit without touching the store.
    Interrupted,
    /// The backoff token spent its failure budget: emit the fatal terminal
    /// event and exit.
    Exhausted,
}

/// The observed ratings of a page, in page order.
pub open spec fn ratings_of(us: Seq<(User, u32)>) -> Seq<u32> {
    us.map_values(|p: (User, u32)| p.1)
}

/// How many raters of the page carry a true trust flag.
pub open spec fn trusted_count(us: Seq<(User, u32)>, flags: Seq<bool>) -> int
    decreases us.len(),
{
    if us.len() == 0 {
        0
    } else {
        trusted_count(us.drop_last(), flags.drop_last()) + if flags[us.len() - 1] {
            1int
        } else {
            0int
        }
    }
}

/// The sum of the ratings observed from trusted raters of the page.
pub open spec fn trusted_sum(us: Seq<(User, u32)>, flags: Seq<bool>) -> int
    decreases us.len(),
{
    if us.len() == 0 {
        0
    } else {
        trusted_sum(us.drop_last(), flags.drop_last()) + if flags[us.len() - 1] {
            us.last().1 as int
        } else {
            0int
        }
    }
}

/// The trusted count never exceeds the page size, and the trusted sum never
/// exceeds the sum over the whole page.
pub proof fn lemma_trusted_bounds(us: Seq<(User, u32)>, flags: Seq<bool>)
    requires
        us.len() == flags.len(),
    ensures
        0 <= trusted_count(us, flags) <= us.len(),
        0 <= trusted_sum(us, flags) <= sum_of(ratings_of(us)),
    decreases us.len(),
{
    if us.len() > 0 {
        lemma_trusted_bounds(us.drop_last(), flags.drop_last());
        assert(ratings_of(us).drop_last() =~= ratings_of(us.drop_last()));
        assert(ratings_of(us).last() == us.last().1);
    }
}

/// The sum of a prefix of the page's ratings never exceeds the sum of all
/// of them: every rating is nonnegative.
pub proof fn lemma_sum_of_prefix(vs: Seq<u32>, i: int)
    requires
        0 <= i <= vs.len(),
    ensures
        sum_of(vs.take(i)) <= sum_of(vs),
    decreases vs.len() - i,
{
    if i < vs.len() {
        assert(vs.take(i + 1).drop_last() =~= vs.take(i));
        assert(vs.take(i + 1).last() == vs[i]);
        lemma_sum_of_prefix(vs, i + 1);
    } else {
        assert(vs.take(i) =~= vs);
    }
}

/// Whether one fetched page can be folded into the game without leaving the
/// machine range of any field. The surrounding binary checks this before it
/// hands a page to `check_game` and treats a failure as the arithmetic
/// overflow it is.
pub fn page_fits(game: &Game, us: &Vec<(User, u32)>) -> (b: bool)
    ensures
        b == (game.page < u32::MAX && game.votes + us@.len() <= u32::MAX && game.rating + sum_of(
            ratings_of(us@),
        ) <= u64::MAX),
{
    if game.page >= u32::MAX {
        return false;
    }
    let headroom: u32 = u32::MAX - game.votes;
    if us.len() as u64 > headroom as u64 {
        return false;
    }
    let mut total: u64 = 0;
    let mut i: usize = 0;
    proof {
        assert(ratings_of(us@).take(0) =~= Seq::<u32>::empty());
    }
    while i < us.len()
        invariant
            i <= us@.len(),
            total == sum_of(ratings_of(us@).take(i as int)),
        decreases us@.len() - i,
    {
        let v: u32 = us[i].1;
        proof {
            assert(ratings_of(us@).take(i as int + 1).drop_last() =~= ratings_of(us@).take(
                i as int,
            ));
            assert(ratings_of(us@).take(i as int + 1).last() == us@[i as int].1);
        }
        if total > u64::MAX - v as u64 {
            proof {
                lemma_sum_of_prefix(ratings_of(us@), i as int + 1);
            }
            return false;
        }
        total = total + v as u64;
        i = i + 1;
    }
    proof {
        assert(ratings_of(us@).take(us@.len() as int) =~= ratings_of(us@));
    }
    game.rating <= u64::MAX - total
}

/// One loop iteration of a worker, after the backoff sleep: given what the
/// remote source answered for the game's current page and what trust
/// resolution observed for each rater on it, update the backoff token and
/// the game, and say how the iteration ended.
///
/// The game only ever changes on a fully processed page: a transient failure
/// (of the page fetch or of any single rater's resolution) leaves it exactly
/// as it was, so the same page is retried with nothing committed. The fold
/// seeds the running average from the game's persisted vote count and rating
/// total, so a game resumed from the store never counts a rating twice.
pub fn check_game(
    tkn: &mut RegulationToken,
    game: &mut Game,
    fetch: FetchOutcome,
    looks: &Vec<UserLookup>,
) -> (r: PageOutcome)
    requires
        fetch matches FetchOutcome::Users(us) ==> old(game).page < u32::MAX && old(game).votes
            + us@.len() <= u32::MAX && old(game).rating + sum_of(ratings_of(us@)) <= u64::MAX && (
        blocker_of(looks@) is None ==> looks@.len() == us@.len()),
    ensures
        fetch is Failed ==> r is Retry && *final(game) == *old(game) && *final(tkn) == old(
            tkn,
        ).hardened(),
        fetch matches FetchOutcome::Users(us) ==> {
            &&& us@.len() == 0 ==> r is Finished && *final(tkn) == old(tkn).eased() && *final(game)
                == (Game { page: (old(game).page + 1) as u32, ..*old(game) })
            &&& us@.len() > 0 ==> *final(tkn) == token_after_lookups(old(tkn).eased(), looks@)
            &&& us@.len() > 0 && blocker_of(looks@) == Some(UserLookup::Busy) ==> r is Retry
                && *final(game) == *old(game)
            &&& us@.len() > 0 && blocker_of(looks@) == Some(UserLookup::Broken) ==> r is Broken
                && *final(game) == *old(game)
            &&& us@.len() > 0 && blocker_of(looks@) is None ==> r is Advanced && *final(game) == (
            Game {
                page: (old(game).page + 1) as u32,
                votes: (old(game).votes + trusted_count(us@, flags_of(looks@))) as u32,
                rating: (old(game).rating + trusted_sum(us@, flags_of(looks@))) as u64,
                ..*old(game)
            })
        },
{
    match fetch {
        FetchOutcome::Failed => {
            tkn.harden();
            PageOutcome::Retry
        },
        FetchOutcome::Users(us) => {
            tkn.ease();
            if us.len() == 0 {
                game.page = game.page + 1;
                return PageOutcome::Finished;
            }
            proof {
                crate::trust::lemma_blocker_shape(looks@);
            }
            match check_users(tkn, looks) {
                UsersOutcome::Busy => PageOutcome::Retry,
                UsersOutcome::Broken => PageOutcome::Broken,
                UsersOutcome::Resolved(flags) => {
                    let mut avg = RunningAverage::new(game.votes, game.rating);
                    let mut i: usize = 0;
                    proof {
                        assert(us@.take(0) =~= Seq::<(User, u32)>::empty());
                        assert(flags@.take(0) =~= Seq::<bool>::empty());
                    }
                    while i < us.len()
                        invariant
                            us@.len() == flags@.len(),
                            i <= us@.len(),
                            *game == *old(game),
                            game.votes + us@.len() <= u32::MAX,
                            game.rating + sum_of(ratings_of(us@)) <= u64::MAX,
                            avg.n == game.votes + trusted_count(
                                us@.take(i as int),
                                flags@.take(i as int),
                            ),
                            avg.total == game.rating + trusted_sum(
                                us@.take(i as int),
                                flags@.take(i as int),
                            ),
                        decreases us@.len() - i,
                    {
                        proof {
                            assert(us@.take(i as int + 1).drop_last() =~= us@.take(i as int));
                            assert(flags@.take(i as int + 1).drop_last() =~= flags@.take(i as int));
                            assert(us@.take(i as int + 1).last() == us@[i as int]);
                            assert(flags@.take(i as int + 1)[us@.take(i as int + 1).len() - 1]
                                == flags@[i as int]);
                            lemma_trusted_bounds(us@.take(i as int), flags@.take(i as int));
                            lemma_trusted_bounds(us@.take(i as int + 1), flags@.take(i as int + 1));
                            assert(ratings_of(us@.take(i as int + 1)) =~= ratings_of(us@).take(
                                i as int + 1,
                            ));
                            lemma_sum_of_prefix(ratings_of(us@), i as int + 1);
                        }
                        if flags[i] {
                            avg.add(us[i].1);
                        }
                        i = i + 1;
                    }
                    proof {
                        assert(us@.take(us@.len() as int) =~= us@);
                        assert(flags@.take(flags@.len() as int) =~= flags@);
                        lemma_trusted_bounds(us@, flags@);
                    }
                    game.rating = avg.total();
                    game.votes = avg.count();
                    game.page = game.page + 1;
                    PageOutcome::Advanced
                },
            }
        },
    }
}

/// The loop-top decision of a worker: a cancellation request is honoured
/// first and ends the worker gracefully — even when the failure budget is
/// also spent, an interrupt is not an error; an exhausted budget ends it
/// fatally; and otherwise the iteration proceeds after the backoff delay.
pub fn runner_gate(tkn: &RegulationToken, running: bool) -> (g: StepGate)
    ensures
        !running ==> g is Interrupted,
        running && tkn.spec_stopped() ==> g is Exhausted,
        running && !tkn.spec_stopped() ==> (g matches StepGate::Proceed(d) && d
            == tkn.spec_delay()),
{
    if !running {
        StepGate::Interrupted
    } else if tkn.is_stopped() {
        StepGate::Exhausted
    } else {
        StepGate::Proceed(tkn.delay())
    }
}

/// The `(page, votes, rating)` numbers after one fully resolved page was
/// folded: the page cursor advances by one, the vote count by the page's
/// trusted count, the rating total by the page's trusted sum — exactly the
/// `Advanced` transition of `check_game`.
pub open spec fn page_folded(
    st: (int, int, int),
    us: Seq<(User, u32)>,
    flags: Seq<bool>,
) -> (int, int, int) {
    (st.0 + 1, st.1 + trusted_count(us, flags), st.2 + trusted_sum(us, flags))
}

/// The `(page, votes, rating)` numbers after a run of fully resolved pages,
/// oldest first.
pub open spec fn pages_folded(
    st: (int, int, int),
    pages: Seq<(Seq<(User, u32)>, Seq<bool>)>,
) -> (int, int, int)
    decreases pages.len(),
{
    if pages.len() == 0 {
        st
    } else {
        page_folded(pages_folded(st, pages.drop_last()), pages.last().0, pages.last().1)
    }
}

/// Trusted raters across a run of pages.
pub open spec fn total_trusted_count(pages: Seq<(Seq<(User, u32)>, Seq<bool>)>) -> int
    decreases pages.len(),
{
    if pages.len() == 0 {
        0
    } else {
        total_trusted_count(pages.drop_last()) + trusted_count(pages.last().0, pages.last().1)
    }
}

/// Sum of the trusted ratings across a run of pages.
pub open spec fn total_trusted_sum(pages: Seq<(Seq<(User, u32)>, Seq<bool>)>) -> int
    decreases pages.len(),
{
    if pages.len() == 0 {
        0
    } else {
        total_trusted_sum(pages.drop_last()) + trusted_sum(pages.last().0, pages.last().1)
    }
}

/// Convergence of a failure-free worker run: a game that starts at page
/// cursor `p` and folds `pages.len()` pages with raters ends at cursor
/// `p + pages.len()`, with its vote count grown by exactly the number of
/// raters classified trusted across those pages and its rating total by the
/// sum of their ratings. The empty page that follows is the `Finished`
/// transition of `check_game`: it advances the cursor once more, to
/// `p + pages.len() + 1`, and the game is persisted stable.
pub proof fn lemma_convergence(st: (int, int, int), pages: Seq<(Seq<(User, u32)>, Seq<bool>)>)
    ensures
        pages_folded(st, pages) == (
            st.0 + pages.len(),
            st.1 + total_trusted_count(pages),
            st.2 + total_trusted_sum(pages),
        ),
    decreases pages.len(),
{
    if pages.len() > 0 {
        lemma_convergence(st, pages.drop_last());
    }
}

} // verus!
