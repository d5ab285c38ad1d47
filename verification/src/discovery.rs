//! What a run of the locator amounts to.
//!
//! `discovered` says, for a state of the surroundings, which installation
//! is accepted: on a Unix host the candidate of the first strategy, in the
//! order of priority, whose candidate root holds the shared library. The
//! laws below tie the locator's steps to it.

use crate::layout::{
    alias_path, installation_of, unix_layout, unix_library, windows_layout, windows_library, DiscoveryResult,
    ImportAlias, Installation,
};
use crate::locator::{items_of, opening, remark_of, started, Locator, Position, Run};
use crate::notice::{Notice, Remark};
use crate::phase::{system_prefixes, Phase, Strategy};
use crate::platform::Platform;
use crate::probe::{Answer, Environment, Query, Question, Reply};
use vstd::prelude::*;

verus! {

/// The root of the first item, from the index `from` on, that passes the
/// gate of `phase` and stands for a root.
pub open spec fn first_root(env: Environment, phase: Phase, items: Seq<Seq<char>>, from: int)
    -> Option<Seq<char>>
    decreases items.len() - from,
{
    if from < 0 || from >= items.len() {
        None
    } else if env.affirms(phase.gate(items[from])) && phase.root_of(items[from]) is Some {
        phase.root_of(items[from])
    } else {
        first_root(env, phase, items, from + 1)
    }
}

/// The items that `phase` scans: none where its guard is not affirmed,
/// else those that its source gives, or the conventional system prefixes
/// where it has no source.
pub open spec fn phase_items(env: Environment, phase: Phase, home: Seq<char>) -> Seq<Seq<char>> {
    if phase.guard(home) is Some && !env.affirms(phase.guard(home)->0) {
        Seq::empty()
    } else {
        match phase.source(home) {
            Some(question) => items_of(env.reply(question)),
            None => system_prefixes(),
        }
    }
}

/// The candidate root that `phase` finds.
pub open spec fn phase_candidate(env: Environment, phase: Phase, home: Seq<char>) -> Option<
    Seq<char>,
> {
    first_root(env, phase, phase_items(env, phase, home), 0)
}

/// The candidate root that `phase` finds or, where it finds none, the
/// later phases of the same strategy.
pub open spec fn candidate_from(env: Environment, phase: Phase, home: Seq<char>) -> Option<
    Seq<char>,
>
    decreases 7 - phase.rank(),
{
    match phase_candidate(env, phase, home) {
        Some(root) => Some(root),
        None => match phase.successor() {
            Some(next) => if next.strategy() == phase.strategy() {
                candidate_from(env, next, home)
            } else {
                None
            },
            None => None,
        },
    }
}

/// The shared library exists below `root`.
pub open spec fn holds_library(env: Environment, root: Seq<char>) -> bool {
    env.affirms(Question::Exists(unix_library(root)))
}

/// The candidate root of a strategy. The system strategy settles on the
/// prefix that the registry records where that holds the shared library,
/// and else on the first conventional prefix that does. Every other
/// strategy settles on the root of its first phase that finds one.
pub open spec fn strategy_candidate(env: Environment, strategy: Strategy, home: Seq<char>)
    -> Option<Seq<char>> {
    match strategy {
        Strategy::System => match phase_candidate(env, Phase::SystemRegistry, home) {
            Some(root) => if holds_library(env, root) {
                Some(root)
            } else {
                phase_candidate(env, Phase::SystemPrefixes, home)
            },
            None => phase_candidate(env, Phase::SystemPrefixes, home),
        },
        _ => candidate_from(env, strategy.first_phase(), home),
    }
}

/// The strategy produces a candidate root that holds the shared library.
pub open spec fn strategy_accepts(env: Environment, strategy: Strategy, home: Seq<char>) -> bool {
    match strategy_candidate(env, strategy, home) {
        Some(root) => holds_library(env, root),
        None => false,
    }
}

/// The installation that a strategy yields, where it accepts.
pub open spec fn strategy_result(env: Environment, strategy: Strategy, home: Seq<char>)
    -> Installation {
    unix_layout(strategy_candidate(env, strategy, home)->0)
}

/// The installation that is accepted on a Unix host.
pub open spec fn discovered_unix(env: Environment, home: Seq<char>) -> Option<Installation> {
    if strategy_accepts(env, Strategy::System, home) {
        Some(strategy_result(env, Strategy::System, home))
    } else if strategy_accepts(env, Strategy::UserEnvironment, home) {
        Some(strategy_result(env, Strategy::UserEnvironment, home))
    } else if strategy_accepts(env, Strategy::AlternateManager, home) {
        Some(strategy_result(env, Strategy::AlternateManager, home))
    } else {
        None
    }
}

/// The installation that is accepted on a Windows host: the provisioned
/// tree below the profile directory, where its primary import library
/// exists.
pub open spec fn discovered_windows(env: Environment, profile: Seq<char>) -> Option<
    Installation,
> {
    if env.affirms(Question::Exists(windows_library(profile))) {
        Some(windows_layout(profile))
    } else {
        None
    }
}

/// The installation that is accepted in the environment `env`; none where
/// the home directory is not known.
pub open spec fn discovered(env: Environment, platform: Platform, home: Option<Seq<char>>)
    -> Option<Installation> {
    match home {
        None => None,
        Some(h) => match platform {
            Platform::Windows => discovered_windows(env, h),
            Platform::Unix => discovered_unix(env, h),
        },
    }
}

/// What becomes of a phase's finding: a root that holds the library is the
/// installation; for one that does not, `turned_down` stands; without a
/// root, `nothing`.
pub open spec fn resolved(
    env: Environment,
    found: Option<Seq<char>>,
    turned_down: Option<Installation>,
    nothing: Option<Installation>,
) -> Option<Installation> {
    match found {
        Some(root) => if holds_library(env, root) {
            Some(unix_layout(root))
        } else {
            turned_down
        },
        None => nothing,
    }
}

/// The phases that are left from `phase` on.
pub open spec fn phases_left(phase: Option<Phase>) -> nat {
    match phase {
        Some(p) => (7 - p.rank()) as nat,
        None => 0,
    }
}

/// The installation that the search yields from the beginning of `phase`
/// on.
pub open spec fn search_from(env: Environment, phase: Option<Phase>, home: Seq<char>) -> Option<
    Installation,
>
    decreases phases_left(phase),
{
    match phase {
        None => None,
        Some(p) => resolved(
            env,
            phase_candidate(env, p, home),
            search_from(env, p.after_refusal(), home),
            search_from(env, p.successor(), home),
        ),
    }
}

/// The installation that a run in the state `run` ends with in the
/// environment `env`.
pub open spec fn expected(env: Environment, run: Run) -> Option<Installation> {
    let home = run.home;
    match run.position {
        Position::Done(r) => r,
        Position::Verify { phase, root } => resolved(
            env,
            Some(root),
            search_from(env, phase.after_refusal(), home),
            None,
        ),
        Position::Gate { phase, items, index } => resolved(
            env,
            first_root(env, phase, items, index),
            search_from(env, phase.after_refusal(), home),
            search_from(env, phase.successor(), home),
        ),
        Position::Source(p) => resolved(
            env,
            first_root(env, p, items_of(env.reply(p.source(home)->0)), 0),
            search_from(env, p.after_refusal(), home),
            search_from(env, p.successor(), home),
        ),
        Position::Guard(p) => search_from(env, Some(p), home),
        Position::Primary => discovered_windows(env, home),
        Position::Alternate(_) | Position::Repair(_) => Some(windows_layout(home)),
    }
}

/// A run that stands at the beginning of a phase ends with what the search
/// yields from that phase on.
proof fn lemma_opening(env: Environment, phase: Phase, home: Seq<char>)
    ensures
        expected(env, Run { home, position: opening(phase, home) }) == search_from(
            env,
            Some(phase),
            home,
        ),
{
}

/// A step of the locator on the environment's reply to the pending
/// question does not change the installation that the run ends with.
pub proof fn lemma_step_keeps_expectation(env: Environment, run: Run)
    requires
        run.well_formed(),
        !run.finished(),
    ensures
        expected(env, run.advanced(env.reply(run.pending()->0)).0) == expected(env, run),
{
    let home = run.home;
    let reply = env.reply(run.pending()->0);
    match run.position {
        Position::Guard(p) => {
            if !(reply == Reply::Flag(true)) {
                assert(phase_items(env, p, home) =~= Seq::<Seq<char>>::empty());
                lemma_opening(env, p.successor()->0, home);
            }
        },
        Position::Source(p) => {
            let items = items_of(reply);
            if items.len() == 0 {
                assert(first_root(env, p, items, 0) is None);
                if p.successor() is Some {
                    lemma_opening(env, p.successor()->0, home);
                }
            }
        },
        Position::Gate { phase, items, index } => {
            if index + 1 >= items.len() {
                assert(first_root(env, phase, items, index + 1) is None);
                if phase.successor() is Some {
                    lemma_opening(env, phase.successor()->0, home);
                }
            }
        },
        Position::Verify { phase, root } => {
            if phase.after_refusal() is Some {
                lemma_opening(env, phase.after_refusal()->0, home);
            }
        },
        _ => {},
    }
}

/// The search from the first phase on yields the accepted installation.
proof fn lemma_search_is_discovery(env: Environment, home: Seq<char>)
    ensures
        search_from(env, Some(Phase::SystemRegistry), home) == discovered_unix(env, home),
{
    reveal_with_fuel(search_from, 8);
    reveal_with_fuel(candidate_from, 4);
}

/// A run ends with the accepted installation of the environment that
/// answers it.
pub proof fn lemma_start_expects_discovery(
    env: Environment,
    platform: Platform,
    home: Option<Seq<char>>,
)
    ensures
        started(platform, home).0.well_formed(),
        expected(env, started(platform, home).0) == discovered(env, platform, home),
{
    if home is Some && platform == Platform::Unix {
        lemma_opening(env, Phase::SystemRegistry, home->0);
        lemma_search_is_discovery(env, home->0);
    }
}

/// How far a position is from the end of the run, counted in the kinds of
/// question that can still follow.
pub open spec fn distance(position: Position) -> nat {
    match position {
        Position::Done(_) => 0,
        Position::Verify { phase, root } => (4 * (7 - phase.rank())) as nat,
        Position::Gate { phase, items, index } => (4 * (7 - phase.rank()) + 1) as nat,
        Position::Source(phase) => (4 * (7 - phase.rank()) + 2) as nat,
        Position::Guard(phase) => (4 * (7 - phase.rank()) + 3) as nat,
        Position::Primary => 5,
        Position::Alternate(ImportAlias::Interface) => 4,
        Position::Repair(ImportAlias::Interface) => 3,
        Position::Alternate(ImportAlias::Dynamic) => 2,
        Position::Repair(ImportAlias::Dynamic) => 1,
    }
}

/// The items that a scan has still to look at.
pub open spec fn items_left(position: Position) -> nat {
    match position {
        Position::Gate { phase, items, index } => (items.len() - index) as nat,
        _ => 0,
    }
}

/// Every step brings the run nearer to its end: it moves to a later kind
/// of question, or to the next item of the same scan.
pub proof fn lemma_step_makes_progress(run: Run, reply: Reply)
    requires
        run.well_formed(),
        !run.finished(),
    ensures
        run.advanced(reply).0.well_formed(),
        run.advanced(reply).0.home == run.home,
        distance(run.advanced(reply).0.position) < distance(run.position) || (distance(
            run.advanced(reply).0.position,
        ) == distance(run.position) && items_left(run.advanced(reply).0.position) < items_left(
            run.position,
        )),
{
}

/// The state in which a run that goes on from `run` ends, where every
/// pending question gets the reply of the environment `env`.
pub open spec fn concluded(env: Environment, run: Run) -> Run
    decreases distance(run.position), items_left(run.position),
    when run.well_formed()
    via concluded_decreases
{
    if run.finished() {
        run
    } else {
        concluded(env, run.advanced(env.reply(run.pending()->0)).0)
    }
}

#[via_fn]
proof fn concluded_decreases(env: Environment, run: Run) {
    if !run.finished() {
        lemma_step_makes_progress(run, env.reply(run.pending()->0));
    }
}

/// A run comes to an end, and ends with the installation that is expected
/// of its state.
pub proof fn lemma_run_concludes(env: Environment, run: Run)
    requires
        run.well_formed(),
    ensures
        concluded(env, run).finished(),
        concluded(env, run).outcome() == expected(env, run),
    decreases distance(run.position), items_left(run.position),
{
    if !run.finished() {
        let reply = env.reply(run.pending()->0);
        lemma_step_makes_progress(run, reply);
        lemma_step_keeps_expectation(env, run);
        lemma_run_concludes(env, run.advanced(reply).0);
    }
}

/// In every environment a run of the locator comes to an end, and the
/// installation that it ends with is the one that is accepted in that
/// environment: at most one, and on a Unix host that of the strategy of
/// highest priority whose candidate root holds the shared library.
pub proof fn lemma_run_ends_with_discovery(
    env: Environment,
    platform: Platform,
    home: Option<Seq<char>>,
)
    ensures
        concluded(env, started(platform, home).0).finished(),
        concluded(env, started(platform, home).0).outcome() == discovered(env, platform, home),
{
    lemma_start_expects_discovery(env, platform, home);
    lemma_run_concludes(env, started(platform, home).0);
}

/// The questions that the rest of a run asks in the environment `env`, in
/// order.
pub open spec fn asked_from(env: Environment, run: Run) -> Seq<Question>
    decreases distance(run.position), items_left(run.position),
    when run.well_formed()
    via asked_from_decreases
{
    if run.finished() {
        Seq::empty()
    } else {
        seq![run.pending()->0] + asked_from(
            env,
            run.advanced(env.reply(run.pending()->0)).0,
        )
    }
}

#[via_fn]
proof fn asked_from_decreases(env: Environment, run: Run) {
    if !run.finished() {
        lemma_step_makes_progress(run, env.reply(run.pending()->0));
    }
}

/// What a run on a Windows host asks about one alias of the primary import
/// library: whether it exists and, where it does not, for the copy that
/// makes it from the primary library.
pub open spec fn alias_questions(env: Environment, profile: Seq<char>, alias: ImportAlias) -> Seq<
    Question,
> {
    let present = Question::Exists(alias_path(profile, alias));
    if env.affirms(present) {
        seq![present]
    } else {
        seq![present, Question::Copy { from: windows_library(profile), to: alias_path(profile, alias) }]
    }
}

/// A run on a Windows host asks for the primary import library and, where
/// that exists, about each of its two aliases in turn: each alias that
/// does not exist is asked to be copied from the primary library, and none
/// that exists is.
pub proof fn lemma_windows_repairs_missing_aliases(env: Environment, profile: Seq<char>)
    ensures
        asked_from(env, started(Platform::Windows, Some(profile)).0) == if env.affirms(
            Question::Exists(windows_library(profile)),
        ) {
            seq![Question::Exists(windows_library(profile))] + alias_questions(
                env,
                profile,
                ImportAlias::Interface,
            ) + alias_questions(env, profile, ImportAlias::Dynamic)
        } else {
            seq![Question::Exists(windows_library(profile))]
        },
{
    let first = started(Platform::Windows, Some(profile)).0;
    let primary = Question::Exists(windows_library(profile));
    let done = Run { home: profile, position: Position::Done(Some(windows_layout(profile))) };
    assert(asked_from(env, done) =~= Seq::<Question>::empty());
    if env.affirms(primary) {
        let second = Run { home: profile, position: Position::Alternate(ImportAlias::Dynamic) };
        let mend = Run { home: profile, position: Position::Repair(ImportAlias::Dynamic) };
        assert(asked_from(env, mend) =~= seq![mend.pending()->0]);
        assert(asked_from(env, second) =~= alias_questions(env, profile, ImportAlias::Dynamic));
        let one = Run { home: profile, position: Position::Alternate(ImportAlias::Interface) };
        let patch = Run { home: profile, position: Position::Repair(ImportAlias::Interface) };
        assert(asked_from(env, patch) =~= seq![patch.pending()->0] + asked_from(env, second));
        assert(asked_from(env, one) =~= alias_questions(env, profile, ImportAlias::Interface)
            + alias_questions(env, profile, ImportAlias::Dynamic));
        assert(asked_from(env, first) =~= seq![primary] + asked_from(env, one));
    } else {
        let over = Run { home: profile, position: Position::Done(None) };
        assert(asked_from(env, over) =~= Seq::<Question>::empty());
        assert(asked_from(env, first) =~= seq![primary]);
    }
}

/// The installation that is accepted is that of the strategy of highest
/// priority that accepts: of the one before which no strategy accepts.
pub proof fn lemma_highest_priority_wins(env: Environment, home: Seq<char>, strategy: Strategy)
    requires
        strategy_accepts(env, strategy, home),
        forall|earlier: Strategy|
            earlier.rank() < strategy.rank() ==> !strategy_accepts(env, earlier, home),
    ensures
        discovered_unix(env, home) == Some(strategy_result(env, strategy, home)),
{
    if strategy.rank() > 0 {
        assert(!strategy_accepts(env, Strategy::System, home));
    }
    if strategy.rank() > 1 {
        assert(!strategy_accepts(env, Strategy::UserEnvironment, home));
    }
}

/// Where an installation is accepted, it is that of a strategy that
/// accepts, and no strategy of higher priority accepts; where none is
/// accepted, no strategy accepts.
pub proof fn lemma_discovery_is_first_acceptance(env: Environment, home: Seq<char>)
    ensures
        match discovered_unix(env, home) {
            Some(found) => exists|strategy: Strategy|
                {
                    &&& #[trigger] strategy_accepts(env, strategy, home)
                    &&& found == strategy_result(env, strategy, home)
                    &&& forall|earlier: Strategy|
                        earlier.rank() < strategy.rank() ==> !strategy_accepts(
                            env,
                            earlier,
                            home,
                        )
                },
            None => forall|strategy: Strategy| !strategy_accepts(env, strategy, home),
        },
{
    if strategy_accepts(env, Strategy::System, home) {
    } else if strategy_accepts(env, Strategy::UserEnvironment, home) {
    } else if strategy_accepts(env, Strategy::AlternateManager, home) {
    } else {
        assert forall|strategy: Strategy| !strategy_accepts(env, strategy, home) by {
            match strategy {
                Strategy::System => {},
                Strategy::UserEnvironment => {},
                Strategy::AlternateManager => {},
            }
        }
    }
}

/// The phase that a position belongs to, if it belongs to one.
pub open spec fn phase_of(position: Position) -> Option<Phase> {
    match position {
        Position::Guard(p) => Some(p),
        Position::Source(p) => Some(p),
        Position::Gate { phase, items, index } => Some(phase),
        Position::Verify { phase, root } => Some(phase),
        _ => None,
    }
}

/// The search moves through the phases in one fixed order. A run on a Unix
/// host begins in the first phase of the system strategy; no step leads
/// back to an earlier phase or strategy; a candidate that is turned down
/// leads to a later phase, and but for the registered prefix to a later
/// strategy, or ends the run; a step that leaves a strategy leads to the
/// beginning of the very next one; and a run that has left the phases does
/// not come back to one.
pub proof fn lemma_search_order_is_fixed(run: Run, reply: Reply)
    requires
        run.well_formed(),
    ensures
        forall|home: Seq<char>| #[trigger]
            phase_of(started(Platform::Unix, Some(home)).0.position) == Some(
                Phase::SystemRegistry,
            ),
        match (phase_of(run.position), phase_of(run.advanced(reply).0.position)) {
            (Some(before), Some(after)) => {
                &&& before.rank() <= after.rank()
                &&& before.strategy().rank() <= after.strategy().rank()
                &&& run.position is Verify ==> before.rank() < after.rank()
                &&& run.position is Verify && before != Phase::SystemRegistry
                    ==> before.strategy().rank() < after.strategy().rank()
                &&& before.strategy() != after.strategy() ==> {
                    &&& before.strategy().following() == Some(after.strategy())
                    &&& run.advanced(reply).0.position == opening(
                        after.strategy().first_phase(),
                        run.home,
                    )
                }
            },
            (None, after) => after is None,
            (Some(_), None) => run.advanced(reply).0.finished(),
        },
{
}

/// The diagnostics that a step reports: one or none.
pub open spec fn reported(remark: Option<Remark>) -> Seq<Remark> {
    match remark {
        Some(r) => seq![r],
        None => Seq::empty(),
    }
}

/// The diagnostics that the rest of a run reports in the environment
/// `env`, in order.
pub open spec fn remarks_from(env: Environment, run: Run) -> Seq<Remark>
    decreases distance(run.position), items_left(run.position),
    when run.well_formed()
    via remarks_from_decreases
{
    if run.finished() {
        Seq::empty()
    } else {
        let step = run.advanced(env.reply(run.pending()->0));
        reported(step.1) + remarks_from(env, step.0)
    }
}

#[via_fn]
proof fn remarks_from_decreases(env: Environment, run: Run) {
    if !run.finished() {
        lemma_step_makes_progress(run, env.reply(run.pending()->0));
    }
}

/// The diagnostics that a whole run reports in the environment `env`, in
/// order.
pub open spec fn remarks(env: Environment, platform: Platform, home: Option<Seq<char>>) -> Seq<
    Remark,
> {
    reported(started(platform, home).1) + remarks_from(env, started(platform, home).0)
}

/// A run that is not over and ends without an installation reports a
/// diagnostic on the way.
pub proof fn lemma_failure_is_reported(env: Environment, run: Run)
    requires
        run.well_formed(),
        !run.finished(),
        expected(env, run) is None,
    ensures
        remarks_from(env, run).len() > 0,
    decreases distance(run.position), items_left(run.position),
{
    let reply = env.reply(run.pending()->0);
    let step = run.advanced(reply);
    lemma_step_makes_progress(run, reply);
    lemma_step_keeps_expectation(env, run);
    if !step.0.finished() {
        lemma_failure_is_reported(env, step.0);
    }
}

/// Discovery that accepts nothing reports at least one diagnostic.
pub proof fn lemma_no_silent_failure(env: Environment, platform: Platform, home: Option<Seq<char>>)
    requires
        discovered(env, platform, home) is None,
    ensures
        remarks(env, platform, home).len() > 0,
{
    lemma_start_expects_discovery(env, platform, home);
    if !started(platform, home).0.finished() {
        lemma_failure_is_reported(env, started(platform, home).0);
    }
}

/// What a list of notices stands for in contracts.
pub open spec fn remarks_of(notices: Seq<Notice>) -> Seq<Remark> {
    notices.map_values(|n: Notice| n@)
}

/// The run that goes on from `run` in the environment `env` stands at
/// `position` at some step.
pub open spec fn visits(env: Environment, run: Run, position: Position) -> bool
    decreases distance(run.position), items_left(run.position),
    when run.well_formed()
    via visits_decreases
{
    run.position == position || (!run.finished() && visits(
        env,
        run.advanced(env.reply(run.pending()->0)).0,
        position,
    ))
}

#[via_fn]
proof fn visits_decreases(env: Environment, run: Run, position: Position) {
    if !run.finished() {
        lemma_step_makes_progress(run, env.reply(run.pending()->0));
    }
}

/// The questions that are asked from a position on, once a run stands
/// there, are the end of the questions of the run; and where the run does
/// not begin at that position, questions come before them.
pub proof fn lemma_visited_questions_come_last(env: Environment, run: Run, position: Position)
    requires
        run.well_formed(),
        visits(env, run, position),
    ensures
        (Run { home: run.home, position }).well_formed(),
        asked_from(env, Run { home: run.home, position }).is_suffix_of(asked_from(env, run)),
        run.position != position ==> asked_from(env, Run { home: run.home, position }).len()
            < asked_from(env, run).len(),
    decreases distance(run.position), items_left(run.position),
{
    let there = Run { home: run.home, position };
    let whole = asked_from(env, run);
    if run.position == position {
        assert(there == run);
        assert(whole.subrange(0, whole.len() as int) =~= whole);
    } else {
        let reply = env.reply(run.pending()->0);
        let next = run.advanced(reply).0;
        lemma_step_makes_progress(run, reply);
        lemma_visited_questions_come_last(env, next, position);
        let rest = asked_from(env, next);
        let tail = asked_from(env, there);
        assert(whole =~= seq![run.pending()->0] + rest);
        assert(whole.subrange(whole.len() - tail.len(), whole.len() as int) =~= rest.subrange(
            rest.len() - tail.len(),
            rest.len() as int,
        ));
    }
}

/// A run that has left the phases of the search does not stand in one
/// again.
pub proof fn lemma_phases_are_not_reentered(env: Environment, run: Run, later: Position)
    requires
        run.well_formed(),
        phase_of(run.position) is None,
        phase_of(later) is Some,
    ensures
        !visits(env, run, later),
    decreases distance(run.position), items_left(run.position),
{
    if !run.finished() {
        let reply = env.reply(run.pending()->0);
        lemma_step_makes_progress(run, reply);
        lemma_search_order_is_fixed(run, reply);
        lemma_phases_are_not_reentered(env, run.advanced(reply).0, later);
    }
}

/// No strategy is passed over: a run that stands in one strategy and
/// later in another stands in between at the beginning of every strategy
/// after the first and up to the second, and comes from there to the later
/// position.
pub proof fn lemma_no_strategy_is_skipped(
    env: Environment,
    run: Run,
    later: Position,
    strategy: Strategy,
)
    requires
        run.well_formed(),
        phase_of(run.position) is Some,
        phase_of(later) is Some,
        visits(env, run, later),
        phase_of(run.position)->0.strategy().rank() < strategy.rank() <= phase_of(
            later,
        )->0.strategy().rank(),
    ensures
        visits(env, run, opening(strategy.first_phase(), run.home)),
        visits(
            env,
            Run { home: run.home, position: opening(strategy.first_phase(), run.home) },
            later,
        ),
    decreases distance(run.position), items_left(run.position),
{
    let reply = env.reply(run.pending()->0);
    let next = run.advanced(reply).0;
    lemma_step_makes_progress(run, reply);
    lemma_search_order_is_fixed(run, reply);
    assert(run.position != later);
    assert(visits(env, next, later));
    if phase_of(next.position) is None {
        lemma_phases_are_not_reentered(env, next, later);
    } else if phase_of(next.position)->0.strategy() == strategy {
        if phase_of(run.position)->0.strategy() == strategy {
            assert(false);
        }
        let opened = opening(strategy.first_phase(), run.home);
        assert(next == Run { home: run.home, position: opened });
        assert(visits(env, next, opened));
        assert(visits(env, run, opened));
    } else {
        if phase_of(next.position)->0.strategy().rank() > strategy.rank() {
            assert(false);
        }
        lemma_no_strategy_is_skipped(env, next, later, strategy);
        assert(visits(env, run, opening(strategy.first_phase(), run.home)));
    }
}

/// On a Unix host the strategies are attempted in the order of their
/// priority, and none is attempted before the ones of higher priority
/// were: a run that comes to stand in the alternate manager's strategy
/// has first asked the registry for its prefix, after that whether the
/// user's environments directory exists, and only after that whether the
/// alternate manager's root exists.
pub proof fn lemma_third_strategy_comes_last(env: Environment, home: Seq<char>, later: Position)
    requires
        phase_of(later) is Some,
        phase_of(later)->0.strategy() == Strategy::AlternateManager,
        visits(env, started(Platform::Unix, Some(home)).0, later),
    ensures
        ({
            let system = asked_from(env, started(Platform::Unix, Some(home)).0);
            let user = asked_from(
                env,
                Run { home, position: opening(Phase::UserEnvironments, home) },
            );
            let alternate = asked_from(
                env,
                Run { home, position: opening(Phase::AlternateCommand, home) },
            );
            &&& system.len() > user.len() > alternate.len() > 0
            &&& system[0] == Question::RegistryPrefix
            &&& user[0] == Phase::UserEnvironments.guard(home)->0
            &&& alternate[0] == Phase::AlternateCommand.guard(home)->0
            &&& user.is_suffix_of(system)
            &&& alternate.is_suffix_of(user)
        }),
{
    let first = started(Platform::Unix, Some(home)).0;
    let second = Run { home, position: opening(Phase::UserEnvironments, home) };
    let third = Run { home, position: opening(Phase::AlternateCommand, home) };
    lemma_no_strategy_is_skipped(env, first, later, Strategy::UserEnvironment);
    lemma_no_strategy_is_skipped(env, second, later, Strategy::AlternateManager);
    lemma_visited_questions_come_last(env, first, second.position);
    lemma_visited_questions_come_last(env, second, third.position);
    assert(asked_from(env, first)[0] == Question::RegistryPrefix);
    assert(asked_from(env, second)[0] == Phase::UserEnvironments.guard(home)->0);
    assert(asked_from(env, third)[0] == Phase::AlternateCommand.guard(home)->0);
}

/// The outcome of a run: the installation that it settled on, if any, the
/// diagnostics of its steps, and the queries that were put, each in order.
#[derive(Debug)]
pub struct Report {
    pub result: Option<DiscoveryResult>,
    pub notices: Vec<Notice>,
    pub asked: Vec<Query>,
}

/// What a list of queries stands for in contracts.
pub open spec fn questions_of(queries: Seq<Query>) -> Seq<Question> {
    queries.map_values(|q: Query| q@)
}

/// What a list of answers stands for in contracts.
pub open spec fn replies_of(answers: Seq<Answer>) -> Seq<Reply> {
    answers.map_values(|a: Answer| a@)
}

/// The state of the run `run` after the replies `replies`, one to each
/// pending question in turn.
pub open spec fn replayed(run: Run, replies: Seq<Reply>) -> Run
    decreases replies.len(),
{
    if replies.len() == 0 {
        run
    } else {
        replayed(run, replies.drop_last()).advanced(replies.last()).0
    }
}

/// The diagnostics of the steps that the run `run` takes on the replies
/// `replies`, in order.
pub open spec fn remarks_in(run: Run, replies: Seq<Reply>) -> Seq<Remark>
    decreases replies.len(),
{
    if replies.len() == 0 {
        Seq::empty()
    } else {
        remarks_in(run, replies.drop_last()) + reported(
            replayed(run, replies.drop_last()).advanced(replies.last()).1,
        )
    }
}

/// The query at the place `k` of `asked` is the one that was pending after
/// the answers before it, and `oracle` gave the answer at `k` to it.
pub open spec fn put_at<F: Fn(&Query) -> Answer>(
    oracle: F,
    run: Run,
    asked: Seq<Query>,
    answers: Seq<Answer>,
    k: int,
) -> bool {
    &&& oracle.ensures((&asked[k],), answers[k])
    &&& Some(asked[k]@) == replayed(run, replies_of(answers).take(k)).pending()
}

/// The report is what the locator makes of the answers `answers`: they are
/// answers of `oracle` to the queries of the report, each query is the one
/// that was pending when it was put, the run is over after the last, and
/// the result and the diagnostics are those of the run.
pub open spec fn recounts<F: Fn(&Query) -> Answer>(
    oracle: F,
    platform: Platform,
    home: Option<Seq<char>>,
    report: Report,
    answers: Seq<Answer>,
) -> bool {
    let start = started(platform, home);
    let replies = replies_of(answers);
    &&& answers.len() == report.asked@.len()
    &&& forall|k: int|
        0 <= k < answers.len() ==> #[trigger] put_at(oracle, start.0, report.asked@, answers, k)
    &&& replayed(start.0, replies).finished()
    &&& installation_of(report.result) == replayed(start.0, replies).outcome()
    &&& remarks_of(report.notices@) == reported(start.1) + remarks_in(start.0, replies)
}

/// Whatever `oracle` answers to a query is the reply of `env` to it.
pub open spec fn answers_as<F: Fn(&Query) -> Answer>(oracle: F, env: Environment) -> bool {
    forall|query: &Query, answer: Answer| #[trigger]
        oracle.ensures((query,), answer) ==> answer@ == env.reply(query@)
}

/// Runs the locator to its end, putting each pending query to `oracle`.
///
/// Whatever `oracle` answers, the report is what the locator makes of the
/// answers that came back. In every environment that `oracle` answers for,
/// the result is the installation that is accepted in that environment,
/// and the diagnostics and the queries are those of a run in it.
pub fn discover_with<F: Fn(&Query) -> Answer>(
    platform: Platform,
    home: Option<String>,
    oracle: F,
) -> (r: Report)
    requires
        forall|query: &Query| oracle.requires((query,)),
    ensures
        exists|answers: Seq<Answer>| #[trigger]
            recounts(oracle, platform, home.deep_view(), r, answers),
        forall|env: Environment| #[trigger]
            answers_as(oracle, env) ==> {
                &&& installation_of(r.result) == discovered(env, platform, home.deep_view())
                &&& remarks_of(r.notices@) == remarks(env, platform, home.deep_view())
                &&& questions_of(r.asked@) == asked_from(
                    env,
                    started(platform, home.deep_view()).0,
                )
            },
{
    let ghost start = home.deep_view();
    let ghost origin = started(platform, start).0;
    let (mut locator, first) = Locator::new(platform, home);
    let mut notices: Vec<Notice> = Vec::new();
    let mut asked: Vec<Query> = Vec::new();
    let ghost mut answers: Seq<Answer> = Seq::empty();
    if let Some(notice) = first {
        notices.push(notice);
    }
    proof {
        assert(remarks_of(notices@) =~= reported(started(platform, start).1) + remarks_in(
            origin,
            replies_of(answers),
        ));
        assert(questions_of(asked@) =~= Seq::<Question>::empty());
        assert forall|env: Environment| #[trigger] answers_as(oracle, env) implies expected(
            env,
            locator@,
        ) == discovered(env, platform, start) && remarks_of(notices@) + remarks_from(
            env,
            locator@,
        ) == remarks(env, platform, start) && questions_of(asked@) + asked_from(env, locator@)
            == asked_from(env, origin) by {
            lemma_start_expects_discovery(env, platform, start);
            assert(questions_of(asked@) + asked_from(env, locator@) =~= asked_from(env, origin));
        }
    }
    loop
        invariant
            forall|query: &Query| oracle.requires((query,)),
            origin == started(platform, start).0,
            locator@.well_formed(),
            locator@ == replayed(origin, replies_of(answers)),
            answers.len() == asked@.len(),
            forall|k: int|
                0 <= k < answers.len() ==> #[trigger] put_at(oracle, origin, asked@, answers, k),
            remarks_of(notices@) == reported(started(platform, start).1) + remarks_in(
                origin,
                replies_of(answers),
            ),
            forall|env: Environment| #[trigger]
                answers_as(oracle, env) ==> {
                    &&& expected(env, locator@) == discovered(env, platform, start)
                    &&& remarks_of(notices@) + remarks_from(env, locator@) == remarks(
                        env,
                        platform,
                        start,
                    )
                    &&& questions_of(asked@) + asked_from(env, locator@) == asked_from(
                        env,
                        origin,
                    )
                },
        ensures
            locator@.finished(),
        decreases distance(locator@.position), items_left(locator@.position),
    {
        let query = match locator.pending() {
            Some(query) => query,
            None => {
                break ;
            },
        };
        let answer = oracle(&query);
        let ghost before = locator@;
        let ghost reply = answer@;
        let ghost earlier = notices@;
        let ghost put = asked@;
        let ghost given = answers;
        let ghost question = query@;
        proof {
            answers = answers.push(answer);
        }
        let (next, notice) = locator.advance(answer);
        locator = next;
        asked.push(query);
        if let Some(notice) = notice {
            notices.push(notice);
        }
        proof {
            lemma_step_makes_progress(before, reply);
            let replies = replies_of(answers);
            assert(replies.drop_last() =~= replies_of(given));
            assert(replies.last() == reply);
            assert(remarks_of(notices@) =~= remarks_of(earlier) + reported(
                before.advanced(reply).1,
            ));
            assert(questions_of(asked@) =~= questions_of(put) + seq![question]);
            assert forall|k: int| 0 <= k < answers.len() implies #[trigger] put_at(
                oracle,
                origin,
                asked@,
                answers,
                k,
            ) by {
                if k < given.len() {
                    assert(put_at(oracle, origin, put, given, k));
                    assert(replies.take(k) =~= replies_of(given).take(k));
                } else {
                    assert(replies.take(k) =~= replies_of(given));
                }
            }
            assert forall|env: Environment| #[trigger] answers_as(oracle, env) implies {
                &&& expected(env, locator@) == discovered(env, platform, start)
                &&& remarks_of(notices@) + remarks_from(env, locator@) == remarks(
                    env,
                    platform,
                    start,
                )
                &&& questions_of(asked@) + asked_from(env, locator@) == asked_from(env, origin)
            } by {
                assert(reply == env.reply(question));
                lemma_step_keeps_expectation(env, before);
                assert(remarks_of(notices@) + remarks_from(env, locator@) =~= remarks_of(earlier)
                    + remarks_from(env, before));
                assert(questions_of(asked@) + asked_from(env, locator@) =~= questions_of(put)
                    + asked_from(env, before));
            }
        }
    }
    let report = Report { result: locator.outcome(), notices, asked };
    proof {
        assert(recounts(oracle, platform, start, report, answers));
        assert forall|env: Environment| #[trigger] answers_as(oracle, env) implies {
            &&& remarks_of(report.notices@) == remarks(env, platform, start)
            &&& questions_of(report.asked@) == asked_from(env, origin)
        } by {
            assert(remarks_of(report.notices@) + remarks_from(env, locator@) =~= remarks_of(
                report.notices@,
            ));
            assert(questions_of(report.asked@) + asked_from(env, locator@) =~= questions_of(
                report.asked@,
            ));
        }
    }
    report
}

} // verus!
