//! Where the parts of a GDAL installation lie below its root.

use crate::text::join;
use vstd::prelude::*;

verus! {

/// One candidate installation of the native library.
#[derive(Clone, Debug, PartialEq, Eq)]
pub struct DiscoveryResult {
    /// The installation root.
    pub root: String,
    /// The directory that holds the library files.
    pub lib_dir: String,
    /// The directory that holds the headers.
    pub include_dir: String,
    /// The library file whose presence makes the installation acceptable.
    pub lib_file: String,
}

/// What a `DiscoveryResult` stands for in contracts.
pub struct Installation {
    pub root: Seq<char>,
    pub lib_dir: Seq<char>,
    pub include_dir: Seq<char>,
    pub lib_file: Seq<char>,
}

impl View for DiscoveryResult {
    type V = Installation;

    open spec fn view(&self) -> Installation {
        Installation {
            root: self.root@,
            lib_dir: self.lib_dir@,
            include_dir: self.include_dir@,
            lib_file: self.lib_file@,
        }
    }
}

/// The view of an optional result.
pub open spec fn installation_of(found: Option<DiscoveryResult>) -> Option<Installation> {
    match found {
        Some(r) => Some(r@),
        None => None,
    }
}

/// The shared library below a Unix installation root.
pub open spec fn unix_library(root: Seq<char>) -> Seq<char> {
    root + "/lib/libgdal.so"@
}

/// The layout of a Unix installation at `root`.
pub open spec fn unix_layout(root: Seq<char>) -> Installation {
    Installation {
        root,
        lib_dir: root + "/lib"@,
        include_dir: root + "/include"@,
        lib_file: unix_library(root),
    }
}

/// The primary import library below a Windows profile directory.
pub open spec fn windows_library(profile: Seq<char>) -> Seq<char> {
    profile + "\\.pixi\\envs\\gdal\\Library\\lib\\gdal.lib"@
}

/// The layout of the provisioned library tree below a Windows profile
/// directory.
pub open spec fn windows_layout(profile: Seq<char>) -> Installation {
    Installation {
        root: profile + "\\.pixi\\envs\\gdal\\Library"@,
        lib_dir: profile + "\\.pixi\\envs\\gdal\\Library\\lib"@,
        include_dir: profile + "\\.pixi\\envs\\gdal\\Library\\include"@,
        lib_file: windows_library(profile),
    }
}

/// The alternately named import libraries that the linker looks for on
/// Windows.
#[derive(Clone, Copy, Debug, PartialEq, Eq, Structural)]
pub enum ImportAlias {
    /// `gdal_i.lib`
    Interface,
    /// `gdal.dll.lib`
    Dynamic,
}

/// The file name of an alias.
pub open spec fn alias_name(alias: ImportAlias) -> Seq<char> {
    match alias {
        ImportAlias::Interface => "gdal_i.lib"@,
        ImportAlias::Dynamic => "gdal.dll.lib"@,
    }
}

/// The path of an alias below a Windows profile directory.
pub open spec fn alias_path(profile: Seq<char>, alias: ImportAlias) -> Seq<char> {
    match alias {
        ImportAlias::Interface => profile + "\\.pixi\\envs\\gdal\\Library\\lib\\gdal_i.lib"@,
        ImportAlias::Dynamic => profile + "\\.pixi\\envs\\gdal\\Library\\lib\\gdal.dll.lib"@,
    }
}

impl ImportAlias {
    /// The file name of this alias.
    pub fn file_name(&self) -> (r: &'static str)
        ensures
            r@ == alias_name(*self),
    {
        match self {
            ImportAlias::Interface => "gdal_i.lib",
            ImportAlias::Dynamic => "gdal.dll.lib",
        }
    }

    /// The path of this alias below the profile directory `profile`.
    pub fn path_below(&self, profile: &str) -> (r: String)
        ensures
            r@ == alias_path(profile@, *self),
    {
        match self {
            ImportAlias::Interface => join(profile, "\\.pixi\\envs\\gdal\\Library\\lib\\gdal_i.lib"),
            ImportAlias::Dynamic => join(profile, "\\.pixi\\envs\\gdal\\Library\\lib\\gdal.dll.lib"),
        }
    }
}

impl DiscoveryResult {
    /// The installation at the Unix root `root`.
    pub fn unix(root: &str) -> (r: DiscoveryResult)
        ensures
            r@ == unix_layout(root@),
    {
        DiscoveryResult {
            root: root.to_owned(),
            lib_dir: join(root, "/lib"),
            include_dir: join(root, "/include"),
            lib_file: join(root, "/lib/libgdal.so"),
        }
    }

    /// The provisioned library tree below the Windows profile directory
    /// `profile`.
    pub fn windows(profile: &str) -> (r: DiscoveryResult)
        ensures
            r@ == windows_layout(profile@),
    {
        DiscoveryResult {
            root: join(profile, "\\.pixi\\envs\\gdal\\Library"),
            lib_dir: join(profile, "\\.pixi\\envs\\gdal\\Library\\lib"),
            include_dir: join(profile, "\\.pixi\\envs\\gdal\\Library\\include"),
            lib_file: join(profile, "\\.pixi\\envs\\gdal\\Library\\lib\\gdal.lib"),
        }
    }

    /// A copy of this result.
    pub fn duplicate(&self) -> (r: DiscoveryResult)
        ensures
            r@ == self@,
    {
        DiscoveryResult {
            root: self.root.clone(),
            lib_dir: self.lib_dir.clone(),
            include_dir: self.include_dir.clone(),
            lib_file: self.lib_file.clone(),
        }
    }
}

} // verus!
