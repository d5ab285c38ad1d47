//! The locator: a machine that asks one question at a time and settles on
//! at most one installation.
//!
//! The driver creates a `Locator`, answers the query that `pending` names,
//! hands the answer to `advance`, and repeats until `pending` is `None`.
//! What the machine does on each answer is `advanced`; what a whole run
//! amounts to is stated in the module `discovery`.

use crate::layout::{
    alias_path, installation_of, unix_layout, unix_library, windows_layout, windows_library,
    DiscoveryResult, ImportAlias, Installation,
};
use crate::notice::{Notice, Remark};
use crate::phase::{conventional_prefixes, system_prefixes, Phase};
use crate::platform::Platform;
use crate::probe::{Answer, Query, Question, Reply};
use crate::text::{decode_lossy, join, lossy_text, trim, trimmed};
use vstd::prelude::*;

verus! {

/// Where a run stands.
pub(crate) enum Stage {
    /// The guard of a phase has been asked.
    Guard(Phase),
    /// The items of a phase have been asked for.
    Source(Phase),
    /// Whether the entry at `index` is taken has been asked.
    Gate { phase: Phase, items: Vec<String>, index: usize },
    /// The shared library below the candidate `root` has been asked for.
    Verify { phase: Phase, root: String },
    /// The primary import library has been asked for.
    Primary,
    /// An alias of the primary import library has been asked for.
    Alternate(ImportAlias),
    /// The copy that creates an alias has been asked for.
    Repair(ImportAlias),
    /// The run is over, with or without an installation.
    Done(Option<DiscoveryResult>),
}

/// What a `Stage` stands for in contracts.
pub enum Position {
    Guard(Phase),
    Source(Phase),
    Gate { phase: Phase, items: Seq<Seq<char>>, index: int },
    Verify { phase: Phase, root: Seq<char> },
    Primary,
    Alternate(ImportAlias),
    Repair(ImportAlias),
    Done(Option<Installation>),
}

impl View for Stage {
    type V = Position;

    closed spec fn view(&self) -> Position {
        match self {
            Stage::Guard(p) => Position::Guard(*p),
            Stage::Source(p) => Position::Source(*p),
            Stage::Gate { phase, items, index } => Position::Gate {
                phase: *phase,
                items: items.deep_view(),
                index: *index as int,
            },
            Stage::Verify { phase, root } => Position::Verify { phase: *phase, root: root@ },
            Stage::Primary => Position::Primary,
            Stage::Alternate(a) => Position::Alternate(*a),
            Stage::Repair(a) => Position::Repair(*a),
            Stage::Done(r) => Position::Done(installation_of(*r)),
        }
    }
}

/// The state of a run: the directory it searches below, and where it
/// stands.
pub struct Run {
    pub home: Seq<char>,
    pub position: Position,
}

/// The items that the text of a program's output gives: the one path that
/// is the text without surrounding white space, unless that is empty.
pub open spec fn items_of_text(text: Seq<char>) -> Seq<Seq<char>> {
    if trimmed(text).len() > 0 {
        seq![trimmed(text)]
    } else {
        Seq::empty()
    }
}

/// The items that a reply gives a phase to scan. A list of paths gives its
/// paths. The output of a program that reported success gives what its
/// text, decoded lossily, gives. Every other reply gives nothing.
pub open spec fn items_of(reply: Reply) -> Seq<Seq<char>> {
    match reply {
        Reply::Paths(paths) => paths,
        Reply::Output { succeeded, stdout } => {
            if succeeded {
                items_of_text(lossy_text(stdout))
            } else {
                Seq::empty()
            }
        },
        _ => Seq::empty(),
    }
}

/// The position at which a phase begins.
pub open spec fn opening(phase: Phase, home: Seq<char>) -> Position {
    if phase.guard(home) is Some {
        Position::Guard(phase)
    } else if phase.source(home) is Some {
        Position::Source(phase)
    } else {
        Position::Gate { phase, items: system_prefixes(), index: 0 }
    }
}

/// The position and the diagnostic with which the search goes on after a
/// phase that found nothing.
pub open spec fn entered(phase: Option<Phase>, home: Seq<char>) -> (Position, Option<Remark>) {
    match phase {
        Some(p) => (opening(p, home), None),
        None => (Position::Done(None), Some(Remark::NotInstalled)),
    }
}

/// The position and the diagnostic with which a scan goes on at the item
/// `index`: at its gate, or past the phase where no item is left.
pub open spec fn scanned(phase: Phase, items: Seq<Seq<char>>, index: int, home: Seq<char>) -> (
    Position,
    Option<Remark>,
) {
    if index < items.len() {
        (Position::Gate { phase, items, index }, None)
    } else {
        entered(phase.successor(), home)
    }
}

/// The position after the alias `alias` has been dealt with.
pub open spec fn past_alias(alias: ImportAlias, home: Seq<char>) -> Position {
    match alias {
        ImportAlias::Interface => Position::Alternate(ImportAlias::Dynamic),
        ImportAlias::Dynamic => Position::Done(Some(windows_layout(home))),
    }
}

impl Run {
    /// The run is over.
    pub open spec fn finished(self) -> bool {
        self.position is Done
    }

    /// The installation that a finished run settled on.
    pub open spec fn outcome(self) -> Option<Installation> {
        match self.position {
            Position::Done(r) => r,
            _ => None,
        }
    }

    /// The state is one that a run can be in.
    pub open spec fn well_formed(self) -> bool {
        match self.position {
            Position::Guard(p) => p.guard(self.home) is Some && p.source(self.home) is Some,
            Position::Source(p) => p.source(self.home) is Some,
            Position::Gate { phase, items, index } => 0 <= index < items.len(),
            _ => true,
        }
    }

    /// The question that the driver has to answer next; none once the run
    /// is over.
    pub open spec fn pending(self) -> Option<Question> {
        match self.position {
            Position::Guard(p) => p.guard(self.home),
            Position::Source(p) => p.source(self.home),
            Position::Gate { phase, items, index } => Some(phase.gate(items[index])),
            Position::Verify { phase, root } => Some(Question::Exists(unix_library(root))),
            Position::Primary => Some(Question::Exists(windows_library(self.home))),
            Position::Alternate(a) => Some(Question::Exists(alias_path(self.home, a))),
            Position::Repair(a) => Some(
                Question::Copy { from: windows_library(self.home), to: alias_path(self.home, a) },
            ),
            Position::Done(_) => None,
        }
    }

    /// The state after the reply `reply` to the pending question, and the
    /// diagnostic that the step reports.
    pub open spec fn advanced(self, reply: Reply) -> (Run, Option<Remark>) {
        let yes = reply == Reply::Flag(true);
        let (position, remark) = match self.position {
            Position::Guard(p) => {
                if yes {
                    (Position::Source(p), None)
                } else {
                    entered(p.successor(), self.home)
                }
            },
            Position::Source(p) => scanned(p, items_of(reply), 0, self.home),
            Position::Gate { phase, items, index } => {
                if yes && phase.root_of(items[index]) is Some {
                    (Position::Verify { phase, root: phase.root_of(items[index])->0 }, None)
                } else {
                    scanned(phase, items, index + 1, self.home)
                }
            },
            Position::Verify { phase, root } => {
                if yes {
                    (Position::Done(Some(unix_layout(root))), None)
                } else {
                    (
                        match phase.after_refusal() {
                            Some(p) => opening(p, self.home),
                            None => Position::Done(None),
                        },
                        Some(Remark::LibraryMissing(unix_library(root))),
                    )
                }
            },
            Position::Primary => {
                if yes {
                    (Position::Alternate(ImportAlias::Interface), None)
                } else {
                    (
                        Position::Done(None),
                        Some(Remark::PrimaryMissing(windows_library(self.home))),
                    )
                }
            },
            Position::Alternate(a) => {
                if yes {
                    (past_alias(a, self.home), None)
                } else {
                    (Position::Repair(a), None)
                }
            },
            Position::Repair(a) => (
                past_alias(a, self.home),
                Some(
                    match reply {
                        Reply::Copied => Remark::AliasCreated(a),
                        Reply::Failed(message) => Remark::AliasFailed(a, message),
                        _ => Remark::AliasFailed(a, Seq::empty()),
                    },
                ),
            ),
            Position::Done(r) => (Position::Done(r), None),
        };
        (Run { home: self.home, position }, remark)
    }
}

/// The state in which a run begins, and the diagnostic that the beginning
/// reports. Without a home directory the run is over at once.
pub open spec fn started(platform: Platform, home: Option<Seq<char>>) -> (Run, Option<Remark>) {
    match home {
        None => (
            Run { home: Seq::empty(), position: Position::Done(None) },
            Some(
                match platform {
                    Platform::Windows => Remark::ProfileMissing,
                    Platform::Unix => Remark::HomeMissing,
                },
            ),
        ),
        Some(h) => (
            Run {
                home: h,
                position: match platform {
                    Platform::Windows => Position::Primary,
                    Platform::Unix => opening(Phase::SystemRegistry, h),
                },
            },
            None,
        ),
    }
}

/// The view of an optional notice.
pub open spec fn remark_of(notice: Option<Notice>) -> Option<Remark> {
    match notice {
        Some(n) => Some(n@),
        None => None,
    }
}

/// The items that the text of a program's output gives.
pub fn path_items(text: &str) -> (r: Vec<String>)
    ensures
        r.deep_view() == items_of_text(text@),
{
    let mut r: Vec<String> = Vec::new();
    let path = trim(text);
    if path.as_str().is_empty() {
        assert(r.deep_view() =~= Seq::<Seq<char>>::empty());
    } else {
        r.push(path);
        assert(r.deep_view() =~= seq![trimmed(text@)]);
    }
    r
}

/// The items that an answer gives a phase to scan.
pub fn items_from(answer: Answer) -> (r: Vec<String>)
    ensures
        r.deep_view() == items_of(answer@),
{
    match answer {
        Answer::Paths(paths) => paths,
        Answer::Output { succeeded: true, stdout } => path_items(decode_lossy(&stdout).as_str()),
        _ => {
            let r: Vec<String> = Vec::new();
            assert(r.deep_view() =~= Seq::<Seq<char>>::empty());
            r
        },
    }
}

/// A run of the locator.
pub struct Locator {
    home: String,
    stage: Stage,
}

impl View for Locator {
    type V = Run;

    closed spec fn view(&self) -> Run {
        Run { home: self.home@, position: self.stage@ }
    }
}

/// The stage at which a phase begins.
fn open_phase(phase: Phase, home: &str) -> (r: Stage)
    ensures
        r@ == opening(phase, home@),
{
    match phase {
        Phase::UserEnvironments | Phase::AlternateCommand => Stage::Guard(phase),
        Phase::SystemPrefixes => Stage::Gate {
            phase,
            items: conventional_prefixes(),
            index: 0,
        },
        _ => Stage::Source(phase),
    }
}

/// The stage and the diagnostic with which the search goes on after a phase
/// that found nothing.
fn enter(phase: Option<Phase>, home: &str) -> (r: (Stage, Option<Notice>))
    ensures
        (r.0@, remark_of(r.1)) == entered(phase, home@),
{
    match phase {
        Some(p) => (open_phase(p, home), None),
        None => (Stage::Done(None), Some(Notice::NotInstalled)),
    }
}

/// The stage and the diagnostic with which a scan goes on at the item
/// `index`.
fn scan(phase: Phase, items: Vec<String>, index: usize, home: &str) -> (r: (
    Stage,
    Option<Notice>,
))
    ensures
        (r.0@, remark_of(r.1)) == scanned(phase, items.deep_view(), index as int, home@),
{
    if index < items.len() {
        (Stage::Gate { phase, items, index }, None)
    } else {
        enter(phase.next(), home)
    }
}

/// The stage after an alias has been dealt with.
fn pass_alias(alias: ImportAlias, home: &str) -> (r: Stage)
    ensures
        r@ == past_alias(alias, home@),
{
    match alias {
        ImportAlias::Interface => Stage::Alternate(ImportAlias::Dynamic),
        ImportAlias::Dynamic => Stage::Done(Some(DiscoveryResult::windows(home))),
    }
}

impl Locator {
    #[verifier::type_invariant]
    spec fn sound(self) -> bool {
        self@.well_formed()
    }

    /// Begins a run on `platform` below the home directory `home` (on
    /// Windows: the profile directory). Without one the run is over at
    /// once, with a diagnostic and without an installation.
    pub fn new(platform: Platform, home: Option<String>) -> (r: (Locator, Option<Notice>))
        ensures
            (r.0@, remark_of(r.1)) == started(platform, home.deep_view()),
            r.0@.well_formed(),
    {
        match home {
            None => {
                let notice = match platform {
                    Platform::Windows => Notice::ProfileMissing,
                    Platform::Unix => Notice::HomeMissing,
                };
                (Locator { home: String::new(), stage: Stage::Done(None) }, Some(notice))
            },
            Some(h) => {
                let stage = match platform {
                    Platform::Windows => Stage::Primary,
                    Platform::Unix => open_phase(Phase::SystemRegistry, h.as_str()),
                };
                (Locator { home: h, stage }, None)
            },
        }
    }

    /// Whether the run is over.
    pub fn is_finished(&self) -> (r: bool)
        ensures
            r == self@.finished(),
    {
        match &self.stage {
            Stage::Done(_) => true,
            _ => false,
        }
    }

    /// The installation that the run settled on; `None` while the run is
    /// not over, and where it ended without one.
    pub fn outcome(&self) -> (r: Option<DiscoveryResult>)
        ensures
            installation_of(r) == self@.outcome(),
    {
        match &self.stage {
            Stage::Done(Some(found)) => Some(found.duplicate()),
            _ => None,
        }
    }

    /// The query that the driver has to answer next; `None` once the run
    /// is over.
    pub fn pending(&self) -> (r: Option<Query>)
        ensures
            self@.well_formed(),
            r.is_some() == !self@.finished(),
            r.is_some() == self@.pending().is_some(),
            r matches Some(q) ==> Some(q@) == self@.pending(),
    {
        proof {
            use_type_invariant(self);
        }
        let home = self.home.as_str();
        match &self.stage {
            Stage::Guard(p) => p.guard_query(home),
            Stage::Source(p) => p.source_query(home),
            Stage::Gate { phase, items, index } => Some(
                phase.gate_query(items[*index].as_str()),
            ),
            Stage::Verify { phase, root } => Some(
                Query::Exists(join(root.as_str(), "/lib/libgdal.so")),
            ),
            Stage::Primary => Some(
                Query::Exists(join(home, "\\.pixi\\envs\\gdal\\Library\\lib\\gdal.lib")),
            ),
            Stage::Alternate(a) => Some(Query::Exists(a.path_below(home))),
            Stage::Repair(a) => Some(
                Query::Copy {
                    from: join(home, "\\.pixi\\envs\\gdal\\Library\\lib\\gdal.lib"),
                    to: a.path_below(home),
                },
            ),
            Stage::Done(_) => None,
        }
    }

    /// Continues the run on the answer to the pending query, and reports
    /// the diagnostic of the step, if there is one. A run that is over
    /// stays as it is.
    pub fn advance(self, answer: Answer) -> (r: (Locator, Option<Notice>))
        ensures
            self@.well_formed(),
            (r.0@, remark_of(r.1)) == self@.advanced(answer@),
            r.0@.well_formed(),
    {
        proof {
            use_type_invariant(&self);
        }
        let Locator { home, stage } = self;
        let yes = answer.is_yes();
        let (next, notice) = match stage {
            Stage::Guard(p) => {
                if yes {
                    (Stage::Source(p), None)
                } else {
                    enter(p.next(), home.as_str())
                }
            },
            Stage::Source(p) => scan(p, items_from(answer), 0, home.as_str()),
            Stage::Gate { phase, items, index } => {
                assert(index < items.deep_view().len());
                assert(index < items.len());
                let root = if yes {
                    phase.candidate_root(items[index].as_str())
                } else {
                    None
                };
                match root {
                    Some(root) => (Stage::Verify { phase, root }, None),
                    None => scan(phase, items, index + 1, home.as_str()),
                }
            },
            Stage::Verify { phase, root } => {
                if yes {
                    (Stage::Done(Some(DiscoveryResult::unix(root.as_str()))), None)
                } else {
                    let next = match phase.next_after_refusal() {
                        Some(p) => open_phase(p, home.as_str()),
                        None => Stage::Done(None),
                    };
                    (next, Some(Notice::LibraryMissing(join(root.as_str(), "/lib/libgdal.so"))))
                }
            },
            Stage::Primary => {
                if yes {
                    (Stage::Alternate(ImportAlias::Interface), None)
                } else {
                    (
                        Stage::Done(None),
                        Some(
                            Notice::PrimaryMissing(
                                join(home.as_str(), "\\.pixi\\envs\\gdal\\Library\\lib\\gdal.lib"),
                            ),
                        ),
                    )
                }
            },
            Stage::Alternate(a) => {
                if yes {
                    (pass_alias(a, home.as_str()), None)
                } else {
                    (Stage::Repair(a), None)
                }
            },
            Stage::Repair(a) => {
                let notice = match answer {
                    Answer::Copied => Notice::AliasCreated(a),
                    Answer::Failed(message) => Notice::AliasFailed(a, message),
                    _ => Notice::AliasFailed(a, String::new()),
                };
                (pass_alias(a, home.as_str()), Some(notice))
            },
            Stage::Done(r) => (Stage::Done(r), None),
        };
        (Locator { home, stage: next }, notice)
    }
}

} // verus!
