//! The fixed order in which a Unix host is searched.
//!
//! Three strategies are tried in order. Each consists of one or two phases,
//! and each phase scans a list of items for the first that passes its gate.

use crate::probe::{Query, Question};
use crate::text::{join, strip_suffix, without_suffix};
use vstd::prelude::*;

verus! {

/// A discovery strategy of the Unix branch.
#[derive(Clone, Copy, Debug, PartialEq, Eq, Structural)]
pub enum Strategy {
    /// The system installation: the package-config registry, then a short
    /// list of conventional prefixes.
    System,
    /// The per-user environments of the environment manager: a scan of the
    /// environments directory, then a pattern over it.
    UserEnvironment,
    /// The alternate package manager: its locate command, then patterns
    /// over its installation tree.
    AlternateManager,
}

/// One phase of a strategy.
#[derive(Clone, Copy, Debug, PartialEq, Eq, Structural)]
pub enum Phase {
    /// The prefix that the package-config registry records.
    SystemRegistry,
    /// The conventional system prefixes.
    SystemPrefixes,
    /// The entries of the user's environments directory.
    UserEnvironments,
    /// The marker executables that a pattern over the environments
    /// directory finds.
    UserPattern,
    /// The location that the alternate package manager reports.
    AlternateCommand,
    /// The installation directories of the expected release.
    AlternateVersioned,
    /// The installation directories of any release.
    AlternateAny,
}

/// The path, below an environment's root, of the executable that marks the
/// environment as holding the library.
pub open spec fn marker_suffix() -> Seq<char> {
    "/bin/gdalinfo"@
}

/// The conventional system prefixes, in the order in which they are tried.
pub open spec fn system_prefixes() -> Seq<Seq<char>> {
    seq!["/usr"@, "/usr/local"@, "/opt/gdal"@]
}

impl Strategy {
    /// The place of this strategy in the order of priority, from 0.
    pub open spec fn rank(self) -> nat {
        match self {
            Strategy::System => 0,
            Strategy::UserEnvironment => 1,
            Strategy::AlternateManager => 2,
        }
    }

    /// The phase with which this strategy begins.
    pub open spec fn first_phase(self) -> Phase {
        match self {
            Strategy::System => Phase::SystemRegistry,
            Strategy::UserEnvironment => Phase::UserEnvironments,
            Strategy::AlternateManager => Phase::AlternateCommand,
        }
    }

    /// The strategy that is tried after this one.
    pub open spec fn following(self) -> Option<Strategy> {
        match self {
            Strategy::System => Some(Strategy::UserEnvironment),
            Strategy::UserEnvironment => Some(Strategy::AlternateManager),
            Strategy::AlternateManager => None,
        }
    }
}

impl Phase {
    /// The place of this phase in the order of the search, from 0.
    pub open spec fn rank(self) -> nat {
        match self {
            Phase::SystemRegistry => 0,
            Phase::SystemPrefixes => 1,
            Phase::UserEnvironments => 2,
            Phase::UserPattern => 3,
            Phase::AlternateCommand => 4,
            Phase::AlternateVersioned => 5,
            Phase::AlternateAny => 6,
        }
    }

    /// The strategy that this phase belongs to.
    pub open spec fn strategy(self) -> Strategy {
        match self {
            Phase::SystemRegistry | Phase::SystemPrefixes => Strategy::System,
            Phase::UserEnvironments | Phase::UserPattern => Strategy::UserEnvironment,
            Phase::AlternateCommand | Phase::AlternateVersioned | Phase::AlternateAny => {
                Strategy::AlternateManager
            },
        }
    }

    /// The phase that follows when this one finds nothing.
    pub open spec fn successor(self) -> Option<Phase> {
        match self {
            Phase::SystemRegistry => Some(Phase::SystemPrefixes),
            Phase::SystemPrefixes => Some(Phase::UserEnvironments),
            Phase::UserEnvironments => Some(Phase::UserPattern),
            Phase::UserPattern => Some(Phase::AlternateCommand),
            Phase::AlternateCommand => Some(Phase::AlternateVersioned),
            Phase::AlternateVersioned => Some(Phase::AlternateAny),
            Phase::AlternateAny => None,
        }
    }

    /// The first phase of the strategy after this phase's own.
    pub open spec fn past_strategy(self) -> Option<Phase> {
        match self.strategy().following() {
            Some(s) => Some(s.first_phase()),
            None => None,
        }
    }

    /// The phase that follows when the candidate of this phase is turned
    /// down for want of the shared library. The system strategy falls back
    /// to the conventional prefixes where the registered prefix lacks the
    /// library; a candidate of any other phase ends its strategy.
    pub open spec fn after_refusal(self) -> Option<Phase> {
        match self {
            Phase::SystemRegistry => Some(Phase::SystemPrefixes),
            _ => self.past_strategy(),
        }
    }

    /// The question that must be answered with yes before this phase
    /// looks for its items, if it has one.
    pub open spec fn guard(self, home: Seq<char>) -> Option<Question> {
        match self {
            Phase::UserEnvironments => Some(Question::Exists(home + "/.pixi/envs"@)),
            Phase::AlternateCommand => Some(Question::Exists(home + "/spack"@)),
            _ => None,
        }
    }

    /// The question whose answer gives this phase its items. The phase
    /// without one scans the conventional system prefixes.
    pub open spec fn source(self, home: Seq<char>) -> Option<Question> {
        match self {
            Phase::SystemRegistry => Some(Question::RegistryPrefix),
            Phase::SystemPrefixes => None,
            Phase::UserEnvironments => Some(Question::Entries(home + "/.pixi/envs"@)),
            Phase::UserPattern => Some(
                Question::Matches(home + "/.pixi/envs/*/bin/gdalinfo"@),
            ),
            Phase::AlternateCommand => Some(Question::PackageLocation),
            Phase::AlternateVersioned => Some(
                Question::Matches(home + "/spack/opt/spack/linux-*/gcc-*/gdal-3.10.3-*"@),
            ),
            Phase::AlternateAny => Some(
                Question::Matches(home + "/spack/opt/spack/linux-*/gcc-*/gdal-*"@),
            ),
        }
    }

    /// The question that decides whether `item` is taken.
    pub open spec fn gate(self, item: Seq<char>) -> Question {
        match self {
            Phase::SystemRegistry | Phase::AlternateCommand | Phase::UserPattern => {
                Question::Exists(item)
            },
            Phase::SystemPrefixes => Question::Exists(item + "/lib/libgdal.so"@),
            Phase::UserEnvironments => Question::Exists(item + marker_suffix()),
            Phase::AlternateVersioned | Phase::AlternateAny => Question::IsDirectory(item),
        }
    }

    /// The candidate root that the item `item` stands for. An item of the
    /// user pattern is the marker executable of an environment and stands
    /// for the environment's root; one that does not end with the marker's
    /// path stands for none. Every other item is a root itself.
    pub open spec fn root_of(self, item: Seq<char>) -> Option<Seq<char>> {
        match self {
            Phase::UserPattern => without_suffix(item, marker_suffix()),
            _ => Some(item),
        }
    }

    /// The place of this phase in the order of the search, from 0.
    pub fn position(&self) -> (r: u8)
        ensures
            r == self.rank(),
    {
        match self {
            Phase::SystemRegistry => 0,
            Phase::SystemPrefixes => 1,
            Phase::UserEnvironments => 2,
            Phase::UserPattern => 3,
            Phase::AlternateCommand => 4,
            Phase::AlternateVersioned => 5,
            Phase::AlternateAny => 6,
        }
    }

    /// The strategy that this phase belongs to.
    pub fn owner(&self) -> (r: Strategy)
        ensures
            r == self.strategy(),
    {
        match self {
            Phase::SystemRegistry | Phase::SystemPrefixes => Strategy::System,
            Phase::UserEnvironments | Phase::UserPattern => Strategy::UserEnvironment,
            Phase::AlternateCommand | Phase::AlternateVersioned | Phase::AlternateAny => {
                Strategy::AlternateManager
            },
        }
    }

    /// The phase that follows when this one finds nothing.
    pub fn next(&self) -> (r: Option<Phase>)
        ensures
            r == self.successor(),
    {
        match self {
            Phase::SystemRegistry => Some(Phase::SystemPrefixes),
            Phase::SystemPrefixes => Some(Phase::UserEnvironments),
            Phase::UserEnvironments => Some(Phase::UserPattern),
            Phase::UserPattern => Some(Phase::AlternateCommand),
            Phase::AlternateCommand => Some(Phase::AlternateVersioned),
            Phase::AlternateVersioned => Some(Phase::AlternateAny),
            Phase::AlternateAny => None,
        }
    }

    /// The phase that follows when the candidate of this phase is turned
    /// down.
    pub fn next_after_refusal(&self) -> (r: Option<Phase>)
        ensures
            r == self.after_refusal(),
    {
        match self {
            Phase::SystemRegistry => Some(Phase::SystemPrefixes),
            Phase::SystemPrefixes => Some(Phase::UserEnvironments),
            Phase::UserEnvironments | Phase::UserPattern => Some(Phase::AlternateCommand),
            Phase::AlternateCommand | Phase::AlternateVersioned | Phase::AlternateAny => None,
        }
    }

    /// The guard of this phase for the home directory `home`, if it has
    /// one.
    pub fn guard_query(&self, home: &str) -> (r: Option<Query>)
        ensures
            r.is_some() == self.guard(home@).is_some(),
            r matches Some(q) ==> Some(q@) == self.guard(home@),
    {
        match self {
            Phase::UserEnvironments => Some(Query::Exists(join(home, "/.pixi/envs"))),
            Phase::AlternateCommand => Some(Query::Exists(join(home, "/spack"))),
            _ => None,
        }
    }

    /// The query that gives this phase its items for the home directory
    /// `home`, if it has one.
    pub fn source_query(&self, home: &str) -> (r: Option<Query>)
        ensures
            r.is_some() == self.source(home@).is_some(),
            r matches Some(q) ==> Some(q@) == self.source(home@),
    {
        match self {
            Phase::SystemRegistry => Some(Query::RegistryPrefix),
            Phase::SystemPrefixes => None,
            Phase::UserEnvironments => Some(Query::Entries(join(home, "/.pixi/envs"))),
            Phase::UserPattern => Some(
                Query::Matches(join(home, "/.pixi/envs/*/bin/gdalinfo")),
            ),
            Phase::AlternateCommand => Some(Query::PackageLocation),
            Phase::AlternateVersioned => Some(
                Query::Matches(join(home, "/spack/opt/spack/linux-*/gcc-*/gdal-3.10.3-*")),
            ),
            Phase::AlternateAny => Some(
                Query::Matches(join(home, "/spack/opt/spack/linux-*/gcc-*/gdal-*")),
            ),
        }
    }

    /// The query that decides whether `item` is taken.
    pub fn gate_query(&self, item: &str) -> (r: Query)
        ensures
            r@ == self.gate(item@),
    {
        match self {
            Phase::SystemRegistry | Phase::AlternateCommand | Phase::UserPattern => {
                Query::Exists(item.to_owned())
            },
            Phase::SystemPrefixes => Query::Exists(join(item, "/lib/libgdal.so")),
            Phase::UserEnvironments => Query::Exists(join(item, "/bin/gdalinfo")),
            Phase::AlternateVersioned | Phase::AlternateAny => {
                Query::IsDirectory(item.to_owned())
            },
        }
    }

    /// The candidate root that `item` stands for, if it stands for one.
    pub fn candidate_root(&self, item: &str) -> (r: Option<String>)
        ensures
            r.is_some() == self.root_of(item@).is_some(),
            r matches Some(root) ==> Some(root@) == self.root_of(item@),
    {
        match self {
            Phase::UserPattern => strip_suffix(item, "/bin/gdalinfo"),
            _ => Some(item.to_owned()),
        }
    }
}

/// The conventional system prefixes, in the order in which they are tried.
pub fn conventional_prefixes() -> (r: Vec<String>)
    ensures
        r.deep_view() == system_prefixes(),
{
    let mut r: Vec<String> = Vec::new();
    r.push("/usr".to_owned());
    r.push("/usr/local".to_owned());
    r.push("/opt/gdal".to_owned());
    assert(r.deep_view() =~= system_prefixes());
    r
}

} // verus!
