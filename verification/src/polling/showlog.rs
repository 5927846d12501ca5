//! De-duplication of the admin log.
//!
//! The server answers every fetch with the lines of the last minute, so most
//! lines come more than once.  The poller keeps the lines it has seen for a
//! while and publishes only those that are not among them.

use vstd::prelude::*;
use crate::clock::unix_now;
use crate::exporting::messages::ServerWsMessageView;
use crate::manager::{Manager, PollerOrder};
use crate::parsing::showlog::{LogLine, LogLineView};
use crate::polling::{next_step, step_after, PollerStep};
use crate::services::connection_pool::PoolError;
use crate::services::game_master::{log_events, IncomingState};
use crate::services::DiContainer;

verus! {

/// How long a line stays known, in seconds.
pub const RETENTION_SECS: u64 = 120;

/// Whether `line` was written less than [`RETENTION_SECS`] before `now`.
pub open spec fn is_fresh(line: LogLineView, now: u64) -> bool {
    line.timestamp + RETENTION_SECS > now
}

/// The test that keeps the lines that are fresh at `now`.
pub open spec fn fresh_at(now: u64) -> spec_fn(LogLineView) -> bool {
    |line: LogLineView| is_fresh(line, now)
}

/// The test that keeps the lines that are not among `known`.
pub open spec fn not_among(known: Seq<LogLineView>) -> spec_fn(LogLineView) -> bool {
    |line: LogLineView| !known.contains(line)
}

/// The lines of `new` that are not among `known`, in the order of `new`.
pub open spec fn untracked(known: Seq<LogLineView>, new: Seq<LogLineView>) -> Seq<LogLineView> {
    new.filter(not_among(known))
}

/// The known lines after a fetch: the lines known before and behind them the
/// untracked ones, without those that are no longer fresh at `now`.
pub open spec fn merged(known: Seq<LogLineView>, new: Seq<LogLineView>, now: u64) -> Seq<
    LogLineView,
> {
    (known + untracked(known, new)).filter(fresh_at(now))
}

/// Whether every line of `lines` is fresh at `now`.
pub open spec fn all_fresh(lines: Seq<LogLineView>, now: u64) -> bool {
    forall|i: int| 0 <= i < lines.len() ==> is_fresh(#[trigger] lines[i], now)
}

proof fn lemma_filter_member<A>(s: Seq<A>, keep: spec_fn(A) -> bool, x: A)
    ensures
        s.filter(keep).contains(x) <==> s.contains(x) && keep(x),
    decreases s.len(),
{
    reveal(Seq::filter);
    if s.len() > 0 {
        let rest = s.drop_last();
        lemma_filter_member(rest, keep, x);
    }
}

proof fn lemma_filter_keeps_all<A>(s: Seq<A>, keep: spec_fn(A) -> bool)
    requires
        forall|i: int| 0 <= i < s.len() ==> keep(#[trigger] s[i]),
    ensures
        s.filter(keep) == s,
    decreases s.len(),
{
    reveal(Seq::filter);
    if s.len() > 0 {
        let rest = s.drop_last();
        assert forall|i: int| 0 <= i < rest.len() implies keep(#[trigger] rest[i]) by {}
        lemma_filter_keeps_all(rest, keep);
    }
}

proof fn lemma_filter_keeps_none<A>(s: Seq<A>, keep: spec_fn(A) -> bool)
    requires
        forall|i: int| 0 <= i < s.len() ==> !keep(#[trigger] s[i]),
    ensures
        s.filter(keep) == Seq::<A>::empty(),
    decreases s.len(),
{
    reveal(Seq::filter);
    if s.len() > 0 {
        let rest = s.drop_last();
        assert forall|i: int| 0 <= i < rest.len() implies !keep(#[trigger] rest[i]) by {}
        lemma_filter_keeps_none(rest, keep);
    }
}

/// A line is known after a fetch exactly when it was known before or came
/// with the fetch, and is fresh.
pub proof fn lemma_merged_member(
    known: Seq<LogLineView>,
    new: Seq<LogLineView>,
    now: u64,
    line: LogLineView,
)
    ensures
        merged(known, new, now).contains(line) <==> (known.contains(line) || new.contains(line))
            && is_fresh(line, now),
        untracked(known, new).contains(line) <==> new.contains(line) && !known.contains(line),
{
    let added = untracked(known, new);
    lemma_filter_member(new, not_among(known), line);
    lemma_filter_member(known + added, fresh_at(now), line);
    if known.contains(line) {
        let i = choose|i: int| 0 <= i < known.len() && known[i] == line;
        assert((known + added)[i] == line);
    }
    if added.contains(line) {
        let i = choose|i: int| 0 <= i < added.len() && added[i] == line;
        assert((known + added)[known.len() + i] == line);
    }
}

/// After a fetch, only fresh lines are known.
pub proof fn lemma_merged_is_fresh(known: Seq<LogLineView>, new: Seq<LogLineView>, now: u64)
    ensures
        all_fresh(merged(known, new, now), now),
{
    let lines = merged(known, new, now);
    assert forall|i: int| 0 <= i < lines.len() implies is_fresh(#[trigger] lines[i], now) by {
        lemma_merged_member(known, new, now, lines[i]);
    }
}

/// A line that is published at one tick is not published at the next,
/// whatever the next fetch brings, provided that the lines of the first
/// fetch were fresh when they were fetched.
pub proof fn lemma_no_line_published_twice(
    known: Seq<LogLineView>,
    first: Seq<LogLineView>,
    now: u64,
    second: Seq<LogLineView>,
    line: LogLineView,
)
    requires
        all_fresh(first, now),
        untracked(known, first).contains(line),
    ensures
        !untracked(merged(known, first, now), second).contains(line),
{
    lemma_merged_member(known, first, now, line);
    lemma_merged_member(merged(known, first, now), second, now, line);
}

/// Merging the same fresh lines a second time at the same moment publishes
/// nothing and leaves the known lines as they are.
pub proof fn lemma_merge_is_idempotent(known: Seq<LogLineView>, new: Seq<LogLineView>, now: u64)
    requires
        all_fresh(new, now),
    ensures
        untracked(merged(known, new, now), new) == Seq::<LogLineView>::empty(),
        merged(merged(known, new, now), new, now) == merged(known, new, now),
{
    let once = merged(known, new, now);
    assert forall|i: int| 0 <= i < new.len() implies !not_among(once)(#[trigger] new[i]) by {
        lemma_merged_member(known, new, now, new[i]);
    }
    lemma_filter_keeps_none(new, not_among(once));
    lemma_merged_is_fresh(known, new, now);
    lemma_filter_keeps_all(once, fresh_at(now));
}

/// Whether `line` is among `lines`.
pub fn contains_line(lines: &Vec<LogLine>, line: &LogLine) -> (found: bool)
    ensures
        found == lines.deep_view().contains(line@),
{
    let mut i: usize = 0;
    while i < lines.len()
        invariant
            i <= lines@.len(),
            forall|j: int| 0 <= j < i ==> lines.deep_view()[j] != line@,
        decreases lines@.len() - i,
    {
        if lines[i].same(line) {
            assert(lines.deep_view()[i as int] == line@);
            return true;
        }
        i += 1;
    }
    false
}

/// Whether `line` was written less than [`RETENTION_SECS`] before `now`.
pub fn fresh(line: &LogLine, now: u64) -> (b: bool)
    ensures
        b == is_fresh(line@, now),
{
    now < RETENTION_SECS || line.timestamp > now - RETENTION_SECS
}

/// Merges a fetch into the known lines as of the moment `now` and returns
/// the lines to publish.
pub fn merge_logs_at(old_logs: &mut Vec<LogLine>, new_logs: Vec<LogLine>, now: u64) -> (untracked_logs:
    Vec<LogLine>)
    ensures
        untracked_logs.deep_view() == untracked(old(old_logs).deep_view(), new_logs.deep_view()),
        final(old_logs).deep_view() == merged(
            old(old_logs).deep_view(),
            new_logs.deep_view(),
            now,
        ),
{
    let ghost known = old_logs.deep_view();
    let ghost new = new_logs.deep_view();
    let ghost unseen = not_among(known);
    let ghost keep = fresh_at(now);
    // The lines that are new, in the order in which they came.
    let mut untracked_logs: Vec<LogLine> = Vec::new();
    let mut i: usize = 0;
    proof {
        reveal(Seq::filter);
    }
    while i < new_logs.len()
        invariant
            i <= new_logs@.len(),
            known == old_logs.deep_view(),
            new == new_logs.deep_view(),
            unseen == not_among(known),
            untracked_logs.deep_view() == new.take(i as int).filter(unseen),
        decreases new_logs@.len() - i,
    {
        proof {
            reveal(Seq::filter);
            assert(new.take(i + 1).drop_last() =~= new.take(i as int));
        }
        if !contains_line(old_logs, &new_logs[i]) {
            untracked_logs.push(new_logs[i].clone());
        }
        i += 1;
    }
    assert(new.take(new.len() as int) =~= new);
    // The lines to remember: those known before, then the new ones, as far as they are fresh.
    let ghost all = known + untracked_logs.deep_view();
    let mut previous: Vec<LogLine> = Vec::new();
    std::mem::swap(old_logs, &mut previous);
    proof {
        reveal(Seq::filter);
    }
    for line in it: previous
        invariant
            keep == fresh_at(now),
            it.seq().len() == known.len(),
            forall|k: int| 0 <= k < known.len() ==> (#[trigger] it.seq()[k])@ == known[k],
            all == known + untracked_logs.deep_view(),
            old_logs.deep_view() == all.take(it.index() as int).filter(keep),
    {
        proof {
            reveal(Seq::filter);
            assert(all.take(it.index() + 1).drop_last() =~= all.take(it.index() as int));
        }
        if fresh(&line, now) {
            old_logs.push(line);
        }
    }
    let n = untracked_logs.len();
    let mut j: usize = 0;
    while j < n
        invariant
            j <= n,
            n == untracked_logs@.len(),
            keep == fresh_at(now),
            all == known + untracked_logs.deep_view(),
            old_logs.deep_view() == all.take(known.len() + j).filter(keep),
        decreases n - j,
    {
        proof {
            reveal(Seq::filter);
            assert(all.take(known.len() + j + 1).drop_last() =~= all.take(known.len() + j));
        }
        if fresh(&untracked_logs[j], now) {
            old_logs.push(untracked_logs[j].clone());
        }
        j += 1;
    }
    assert(all.take(all.len() as int) =~= all);
    untracked_logs
}

/// Merges a fetch into the known lines as of now and returns the lines to publish.
///
/// The lines to publish do not depend on the clock; the lines remembered are
/// those that are fresh at the moment the clock shows.
pub fn merge_logs(old_logs: &mut Vec<LogLine>, new_logs: Vec<LogLine>) -> (untracked_logs: Vec<
    LogLine,
>)
    ensures
        untracked_logs.deep_view() == untracked(old(old_logs).deep_view(), new_logs.deep_view()),
        exists|now: u64| final(old_logs).deep_view() == #[trigger] merged(
                old(old_logs).deep_view(),
                new_logs.deep_view(),
                now,
            ),
{
    let now = unix_now();
    let untracked_logs = merge_logs_at(old_logs, new_logs, now);
    untracked_logs
}

/// One round of the admin log poller, after the fetch, at the moment
/// `now`: the lines that are not known yet are published in order, and the
/// known lines are brought up to date.  A failed fetch changes nothing.
pub fn poll_showlog_at<T>(
    di: &mut DiContainer<T>,
    known_logs: &mut Vec<LogLine>,
    fetched: Result<Vec<LogLine>, PoolError>,
    now: u64,
) -> (step: PollerStep)
    requires
        old(di).well_formed(),
    ensures
        final(di).well_formed(),
        final(di).game_master@ == old(di).game_master@,
        match fetched {
            Ok(lines) => {
                &&& step == PollerStep::Continue
                &&& final(known_logs).deep_view() == merged(
                    old(known_logs).deep_view(),
                    lines.deep_view(),
                    now,
                )
                &&& final(di).game_events@ == old(di).game_events@.after_sends(
                    log_events(untracked(old(known_logs).deep_view(), lines.deep_view())).map_values(
                        |e| ServerWsMessageView::Rcon(e),
                    ),
                )
            },
            Err(e) => {
                &&& step == step_after(false, Some(e@))
                &&& final(known_logs).deep_view() == old(known_logs).deep_view()
                &&& final(di).game_events@ == old(di).game_events@
            },
        },
{
    match fetched {
        Ok(lines) => {
            let untracked_logs = merge_logs_at(known_logs, lines, now);
            di.feed(IncomingState::Logs(untracked_logs));
            PollerStep::Continue
        },
        Err(e) => next_step(false, Some(&e)),
    }
}

/// One round of the admin log poller, after the fetch, as of now.
pub fn poll_showlog<T>(
    di: &mut DiContainer<T>,
    known_logs: &mut Vec<LogLine>,
    fetched: Result<Vec<LogLine>, PoolError>,
) -> (step: PollerStep)
    requires
        old(di).well_formed(),
    ensures
        final(di).well_formed(),
        final(di).game_master@ == old(di).game_master@,
        match fetched {
            Ok(lines) => {
                &&& step == PollerStep::Continue
                &&& exists|now: u64| final(known_logs).deep_view() == #[trigger] merged(
                        old(known_logs).deep_view(),
                        lines.deep_view(),
                        now,
                    )
                &&& final(di).game_events@ == old(di).game_events@.after_sends(
                    log_events(untracked(old(known_logs).deep_view(), lines.deep_view())).map_values(
                        |e| ServerWsMessageView::Rcon(e),
                    ),
                )
            },
            Err(e) => {
                &&& step == step_after(false, Some(e@))
                &&& final(known_logs).deep_view() == old(known_logs).deep_view()
                &&& final(di).game_events@ == old(di).game_events@
            },
        },
{
    let now = unix_now();
    let step = poll_showlog_at(di, known_logs, fetched, now);
    step
}

/// One round of the admin log poller that also keeps the book of pollers,
/// at the moment `now`: as [`poll_showlog_at`], and the lines that are
/// published are also handed to the manager, whose orders are returned.
pub fn poll_showlog_managed_at<T>(
    di: &mut DiContainer<T>,
    manager: &mut Manager,
    known_logs: &mut Vec<LogLine>,
    fetched: Result<Vec<LogLine>, PoolError>,
    now: u64,
) -> (r: (PollerStep, Vec<PollerOrder>))
    requires
        old(di).well_formed(),
        old(manager)@.well_formed(),
    ensures
        final(di).well_formed(),
        final(manager)@.well_formed(),
        final(di).game_master@ == old(di).game_master@,
        match fetched {
            Ok(lines) => {
                &&& r.0 == PollerStep::Continue
                &&& final(known_logs).deep_view() == merged(
                    old(known_logs).deep_view(),
                    lines.deep_view(),
                    now,
                )
                &&& final(di).game_events@ == old(di).game_events@.after_sends(
                    log_events(untracked(old(known_logs).deep_view(), lines.deep_view())).map_values(
                        |e| ServerWsMessageView::Rcon(e),
                    ),
                )
                &&& final(manager)@ == old(manager)@.after_logs(
                    untracked(old(known_logs).deep_view(), lines.deep_view()),
                )
                &&& r.1.deep_view() == old(manager)@.orders_of(
                    untracked(old(known_logs).deep_view(), lines.deep_view()),
                )
            },
            Err(e) => {
                &&& r.0 == step_after(false, Some(e@))
                &&& final(known_logs).deep_view() == old(known_logs).deep_view()
                &&& final(di).game_events@ == old(di).game_events@
                &&& final(manager)@ == old(manager)@
                &&& r.1@.len() == 0
            },
        },
{
    match fetched {
        Ok(lines) => {
            let untracked_logs = merge_logs_at(known_logs, lines, now);
            let orders = manager.handle_logs(&untracked_logs);
            di.feed(IncomingState::Logs(untracked_logs));
            (PollerStep::Continue, orders)
        },
        Err(e) => (next_step(false, Some(&e)), Vec::new()),
    }
}

/// One round of the admin log poller that also keeps the book of pollers, as of now.
pub fn poll_showlog_managed<T>(
    di: &mut DiContainer<T>,
    manager: &mut Manager,
    known_logs: &mut Vec<LogLine>,
    fetched: Result<Vec<LogLine>, PoolError>,
) -> (r: (PollerStep, Vec<PollerOrder>))
    requires
        old(di).well_formed(),
        old(manager)@.well_formed(),
    ensures
        final(di).well_formed(),
        final(manager)@.well_formed(),
        final(di).game_master@ == old(di).game_master@,
        match fetched {
            Ok(lines) => {
                &&& r.0 == PollerStep::Continue
                &&& final(di).game_events@ == old(di).game_events@.after_sends(
                    log_events(untracked(old(known_logs).deep_view(), lines.deep_view())).map_values(
                        |e| ServerWsMessageView::Rcon(e),
                    ),
                )
                &&& final(manager)@ == old(manager)@.after_logs(
                    untracked(old(known_logs).deep_view(), lines.deep_view()),
                )
                &&& r.1.deep_view() == old(manager)@.orders_of(
                    untracked(old(known_logs).deep_view(), lines.deep_view()),
                )
                &&& exists|now: u64| final(known_logs).deep_view() == #[trigger] merged(
                        old(known_logs).deep_view(),
                        lines.deep_view(),
                        now,
                    )
            },
            Err(e) => {
                &&& r.0 == step_after(false, Some(e@))
                &&& final(known_logs).deep_view() == old(known_logs).deep_view()
                &&& final(di).game_events@ == old(di).game_events@
                &&& final(manager)@ == old(manager)@
                &&& r.1@.len() == 0
            },
        },
{
    let now = unix_now();
    let r = poll_showlog_managed_at(di, manager, known_logs, fetched, now);
    r
}

} // verus!
