//! The linkage configuration that follows from an accepted installation.

use crate::layout::{DiscoveryResult, Installation};
use crate::notice::{remark_text, Notice};
use crate::platform::Platform;
use crate::text::{contains, join, occurs_in};
use vstd::prelude::*;

verus! {

/// One step of the emission.
#[derive(Clone, Debug, PartialEq, Eq)]
pub enum Directive {
    /// Set a variable in the environment of the build process.
    Export { name: String, value: String },
    /// Hand a variable on to the compiler.
    CompilerVariable { name: String, value: String },
    /// Add a directory to the search path for native libraries.
    SearchPath(String),
    /// Link against a library, by its link name.
    LinkLibrary { name: String, dynamic: bool },
    /// Hand the linker a path as an argument of its own.
    LinkArgument(String),
}

/// What a `Directive` stands for in contracts.
pub enum Instruction {
    Export { name: Seq<char>, value: Seq<char> },
    CompilerVariable { name: Seq<char>, value: Seq<char> },
    SearchPath(Seq<char>),
    LinkLibrary { name: Seq<char>, dynamic: bool },
    LinkArgument(Seq<char>),
}

impl View for Directive {
    type V = Instruction;

    open spec fn view(&self) -> Instruction {
        match self {
            Directive::Export { name, value } => Instruction::Export {
                name: name@,
                value: value@,
            },
            Directive::CompilerVariable { name, value } => Instruction::CompilerVariable {
                name: name@,
                value: value@,
            },
            Directive::SearchPath(dir) => Instruction::SearchPath(dir@),
            Directive::LinkLibrary { name, dynamic } => Instruction::LinkLibrary {
                name: name@,
                dynamic: *dynamic,
            },
            Directive::LinkArgument(path) => Instruction::LinkArgument(path@),
        }
    }
}

/// What a list of directives stands for in contracts.
pub open spec fn instructions_of(directives: Seq<Directive>) -> Seq<Instruction> {
    directives.map_values(|d: Directive| d@)
}

/// The part of a root path that marks it as one of the user-environment
/// manager.
pub open spec fn environment_marker() -> Seq<char> {
    "pixi"@
}

/// The link declaration of the library on `platform`: the renamed
/// import-library stem, linked dynamically, on Windows; the plain library
/// name elsewhere.
pub open spec fn link_declaration(platform: Platform) -> Instruction {
    match platform {
        Platform::Windows => Instruction::LinkLibrary { name: "gdal_i"@, dynamic: true },
        Platform::Unix => Instruction::LinkLibrary { name: "gdal"@, dynamic: false },
    }
}

/// The emission for an installation, in order: the four variables exported
/// to the build process, the same four handed on to the compiler, the
/// search path, the link declaration, and the library file as a link
/// argument. Where the root holds the marker of the user-environment
/// manager, the search path follows once more.
pub open spec fn emission(platform: Platform, found: Installation) -> Seq<Instruction> {
    seq![
        Instruction::Export { name: "GDAL_ROOT"@, value: found.root },
        Instruction::Export { name: "GDAL_HOME"@, value: found.root },
        Instruction::Export { name: "GDAL_LIB_DIR"@, value: found.lib_dir },
        Instruction::Export { name: "GDAL_INCLUDE_DIR"@, value: found.include_dir },
        Instruction::CompilerVariable { name: "GDAL_ROOT"@, value: found.root },
        Instruction::CompilerVariable { name: "GDAL_HOME"@, value: found.root },
        Instruction::CompilerVariable { name: "GDAL_LIB_DIR"@, value: found.lib_dir },
        Instruction::CompilerVariable { name: "GDAL_INCLUDE_DIR"@, value: found.include_dir },
        Instruction::SearchPath(found.lib_dir),
        link_declaration(platform),
        Instruction::LinkArgument(found.lib_file),
    ] + if occurs_in(found.root, environment_marker()) {
        seq![Instruction::SearchPath(found.lib_dir)]
    } else {
        Seq::empty()
    }
}

/// The line that hands an instruction to the build toolchain. An export
/// has none: it acts on the build process itself.
pub open spec fn instruction_line(instruction: Instruction) -> Option<Seq<char>> {
    match instruction {
        Instruction::Export { name, value } => None,
        Instruction::CompilerVariable { name, value } => Some(
            "cargo:rustc-env="@ + name + "="@ + value,
        ),
        Instruction::SearchPath(dir) => Some("cargo:rustc-link-search=native="@ + dir),
        Instruction::LinkLibrary { name, dynamic } => Some(
            if dynamic {
                "cargo:rustc-link-lib=dylib="@ + name
            } else {
                "cargo:rustc-link-lib="@ + name
            },
        ),
        Instruction::LinkArgument(path) => Some("cargo:rustc-link-arg="@ + path),
    }
}

/// The emission for the accepted installation `found` on `platform`.
pub fn configure_gdal_paths(platform: Platform, found: &DiscoveryResult) -> (r: Vec<Directive>)
    ensures
        instructions_of(r@) == emission(platform, found@),
{
    let mut r: Vec<Directive> = Vec::new();
    r.push(Directive::Export { name: "GDAL_ROOT".to_owned(), value: found.root.clone() });
    r.push(Directive::Export { name: "GDAL_HOME".to_owned(), value: found.root.clone() });
    r.push(Directive::Export { name: "GDAL_LIB_DIR".to_owned(), value: found.lib_dir.clone() });
    r.push(
        Directive::Export {
            name: "GDAL_INCLUDE_DIR".to_owned(),
            value: found.include_dir.clone(),
        },
    );
    r.push(Directive::CompilerVariable { name: "GDAL_ROOT".to_owned(), value: found.root.clone() });
    r.push(Directive::CompilerVariable { name: "GDAL_HOME".to_owned(), value: found.root.clone() });
    r.push(
        Directive::CompilerVariable {
            name: "GDAL_LIB_DIR".to_owned(),
            value: found.lib_dir.clone(),
        },
    );
    r.push(
        Directive::CompilerVariable {
            name: "GDAL_INCLUDE_DIR".to_owned(),
            value: found.include_dir.clone(),
        },
    );
    r.push(Directive::SearchPath(found.lib_dir.clone()));
    match platform {
        Platform::Windows => {
            r.push(Directive::LinkLibrary { name: "gdal_i".to_owned(), dynamic: true });
        },
        Platform::Unix => {
            r.push(Directive::LinkLibrary { name: "gdal".to_owned(), dynamic: false });
        },
    }
    r.push(Directive::LinkArgument(found.lib_file.clone()));
    if contains(found.root.as_str(), "pixi") {
        r.push(Directive::SearchPath(found.lib_dir.clone()));
    }
    assert(instructions_of(r@) =~= emission(platform, found@));
    r
}

impl Directive {
    /// The line that hands this directive to the build toolchain; `None`
    /// for an export.
    pub fn line(&self) -> (r: Option<String>)
        ensures
            r.is_some() == instruction_line(self@).is_some(),
            r matches Some(text) ==> Some(text@) == instruction_line(self@),
    {
        match self {
            Directive::Export { name, value } => None,
            Directive::CompilerVariable { name, value } => {
                let mut text = join("cargo:rustc-env=", name.as_str());
                text.append("=");
                text.append(value.as_str());
                Some(text)
            },
            Directive::SearchPath(dir) => Some(
                join("cargo:rustc-link-search=native=", dir.as_str()),
            ),
            Directive::LinkLibrary { name, dynamic } => {
                if *dynamic {
                    Some(join("cargo:rustc-link-lib=dylib=", name.as_str()))
                } else {
                    Some(join("cargo:rustc-link-lib=", name.as_str()))
                }
            },
            Directive::LinkArgument(path) => Some(join("cargo:rustc-link-arg=", path.as_str())),
        }
    }
}

/// The line that writes a diagnostic to the build log as a warning.
pub fn warning_line(notice: &Notice) -> (r: String)
    ensures
        r@ == "cargo:warning="@ + remark_text(notice@),
{
    let message = notice.message();
    join("cargo:warning=", message.as_str())
}

} // verus!
