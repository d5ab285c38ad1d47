//! The diagnostics that locating and staging report. None of them stops
//! the build.

use crate::layout::{alias_name, ImportAlias};
use crate::text::join;
use vstd::prelude::*;

verus! {

/// One diagnostic.
#[derive(Clone, Debug, PartialEq, Eq)]
pub enum Notice {
    /// The home directory of the invoking user is not known.
    HomeMissing,
    /// The profile directory of the invoking user is not known.
    ProfileMissing,
    /// A candidate root lacks the shared library; the path looked for.
    LibraryMissing(String),
    /// The primary import library is absent; the path looked for.
    PrimaryMissing(String),
    /// No strategy produced a candidate.
    NotInstalled,
    /// An alias of the primary import library was created.
    AliasCreated(ImportAlias),
    /// An alias of the primary import library could not be created; the
    /// system's message.
    AliasFailed(ImportAlias, String),
    /// A library file was staged: its source and its destination.
    Staged(String, String),
    /// A library file could not be staged: its source and the system's
    /// message.
    StagingFailed(String, String),
}

/// What a `Notice` stands for in contracts.
pub enum Remark {
    HomeMissing,
    ProfileMissing,
    LibraryMissing(Seq<char>),
    PrimaryMissing(Seq<char>),
    NotInstalled,
    AliasCreated(ImportAlias),
    AliasFailed(ImportAlias, Seq<char>),
    Staged(Seq<char>, Seq<char>),
    StagingFailed(Seq<char>, Seq<char>),
}

impl View for Notice {
    type V = Remark;

    open spec fn view(&self) -> Remark {
        match self {
            Notice::HomeMissing => Remark::HomeMissing,
            Notice::ProfileMissing => Remark::ProfileMissing,
            Notice::LibraryMissing(p) => Remark::LibraryMissing(p@),
            Notice::PrimaryMissing(p) => Remark::PrimaryMissing(p@),
            Notice::NotInstalled => Remark::NotInstalled,
            Notice::AliasCreated(a) => Remark::AliasCreated(*a),
            Notice::AliasFailed(a, m) => Remark::AliasFailed(*a, m@),
            Notice::Staged(s, d) => Remark::Staged(s@, d@),
            Notice::StagingFailed(s, m) => Remark::StagingFailed(s@, m@),
        }
    }
}

/// The text of a diagnostic.
pub open spec fn remark_text(remark: Remark) -> Seq<char> {
    match remark {
        Remark::HomeMissing => "HOME environment variable not found"@,
        Remark::ProfileMissing => "USERPROFILE environment variable not found"@,
        Remark::LibraryMissing(p) => "GDAL library not found at: "@ + p,
        Remark::PrimaryMissing(p) => "GDAL.LIB NOT FOUND AT: "@ + p,
        Remark::NotInstalled => "GDAL installation not found via system, pixi, or spack"@,
        Remark::AliasCreated(a) => "Created "@ + alias_name(a)
            + " from gdal.lib for compatibility"@,
        Remark::AliasFailed(a, m) => "Failed to create "@ + alias_name(a) + ": "@ + m,
        Remark::Staged(s, d) => "Copied "@ + s + " to "@ + d,
        Remark::StagingFailed(s, m) => "Failed to copy "@ + s + ": "@ + m,
    }
}

impl Notice {
    /// The text of this diagnostic, as it is written to the build log.
    pub fn message(&self) -> (r: String)
        ensures
            r@ == remark_text(self@),
    {
        match self {
            Notice::HomeMissing => "HOME environment variable not found".to_owned(),
            Notice::ProfileMissing => "USERPROFILE environment variable not found".to_owned(),
            Notice::LibraryMissing(p) => join("GDAL library not found at: ", p.as_str()),
            Notice::PrimaryMissing(p) => join("GDAL.LIB NOT FOUND AT: ", p.as_str()),
            Notice::NotInstalled => {
                "GDAL installation not found via system, pixi, or spack".to_owned()
            },
            Notice::AliasCreated(a) => {
                let mut r = join("Created ", a.file_name());
                r.append(" from gdal.lib for compatibility");
                r
            },
            Notice::AliasFailed(a, m) => {
                let mut r = join("Failed to create ", a.file_name());
                r.append(": ");
                r.append(m.as_str());
                r
            },
            Notice::Staged(s, d) => {
                let mut r = join("Copied ", s.as_str());
                r.append(" to ");
                r.append(d.as_str());
                r
            },
            Notice::StagingFailed(s, m) => {
                let mut r = join("Failed to copy ", s.as_str());
                r.append(": ");
                r.append(m.as_str());
                r
            },
        }
    }
}

} // verus!
