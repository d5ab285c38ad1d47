use gdal_locator::emission::{configure_gdal_paths, warning_line, Directive};
use gdal_locator::layout::{DiscoveryResult, ImportAlias};
use gdal_locator::notice::Notice;
use gdal_locator::platform::Platform;

fn export(name: &str, value: &str) -> Directive {
    Directive::Export { name: name.to_string(), value: value.to_string() }
}

fn variable(name: &str, value: &str) -> Directive {
    Directive::CompilerVariable { name: name.to_string(), value: value.to_string() }
}

#[test]
fn unix_layout_lies_below_the_root() {
    let found = DiscoveryResult::unix("/usr/local");
    assert_eq!(found.root, "/usr/local");
    assert_eq!(found.lib_dir, "/usr/local/lib");
    assert_eq!(found.include_dir, "/usr/local/include");
    assert_eq!(found.lib_file, "/usr/local/lib/libgdal.so");
    assert_eq!(found.duplicate(), found);
}

#[test]
fn windows_layout_lies_below_the_profile() {
    let found = DiscoveryResult::windows("C:\\Users\\ada");
    assert_eq!(found.root, "C:\\Users\\ada\\.pixi\\envs\\gdal\\Library");
    assert_eq!(found.lib_dir, "C:\\Users\\ada\\.pixi\\envs\\gdal\\Library\\lib");
    assert_eq!(found.include_dir, "C:\\Users\\ada\\.pixi\\envs\\gdal\\Library\\include");
    assert_eq!(found.lib_file, "C:\\Users\\ada\\.pixi\\envs\\gdal\\Library\\lib\\gdal.lib");
}

#[test]
fn alias_paths_lie_beside_the_primary_library() {
    assert_eq!(ImportAlias::Interface.file_name(), "gdal_i.lib");
    assert_eq!(ImportAlias::Dynamic.file_name(), "gdal.dll.lib");
    assert_eq!(
        ImportAlias::Interface.path_below("C:\\Users\\ada"),
        "C:\\Users\\ada\\.pixi\\envs\\gdal\\Library\\lib\\gdal_i.lib"
    );
    assert_eq!(
        ImportAlias::Dynamic.path_below("C:\\Users\\ada"),
        "C:\\Users\\ada\\.pixi\\envs\\gdal\\Library\\lib\\gdal.dll.lib"
    );
}

#[test]
fn unix_emission_is_exact() {
    let found = DiscoveryResult::unix("/usr");
    let directives = configure_gdal_paths(Platform::Unix, &found);
    assert_eq!(
        directives,
        vec![
            export("GDAL_ROOT", "/usr"),
            export("GDAL_HOME", "/usr"),
            export("GDAL_LIB_DIR", "/usr/lib"),
            export("GDAL_INCLUDE_DIR", "/usr/include"),
            variable("GDAL_ROOT", "/usr"),
            variable("GDAL_HOME", "/usr"),
            variable("GDAL_LIB_DIR", "/usr/lib"),
            variable("GDAL_INCLUDE_DIR", "/usr/include"),
            Directive::SearchPath("/usr/lib".to_string()),
            Directive::LinkLibrary { name: "gdal".to_string(), dynamic: false },
            Directive::LinkArgument("/usr/lib/libgdal.so".to_string()),
        ]
    );
    let lines: Vec<String> = directives.iter().filter_map(|d| d.line()).collect();
    assert_eq!(
        lines,
        vec![
            "cargo:rustc-env=GDAL_ROOT=/usr",
            "cargo:rustc-env=GDAL_HOME=/usr",
            "cargo:rustc-env=GDAL_LIB_DIR=/usr/lib",
            "cargo:rustc-env=GDAL_INCLUDE_DIR=/usr/include",
            "cargo:rustc-link-search=native=/usr/lib",
            "cargo:rustc-link-lib=gdal",
            "cargo:rustc-link-arg=/usr/lib/libgdal.so",
        ]
    );
}

#[test]
fn user_environment_root_repeats_the_search_path() {
    let found = DiscoveryResult::unix("/home/ada/.pixi/envs/geo");
    let directives = configure_gdal_paths(Platform::Unix, &found);
    assert_eq!(directives.len(), 12);
    assert_eq!(
        directives[11],
        Directive::SearchPath("/home/ada/.pixi/envs/geo/lib".to_string())
    );
    assert_eq!(directives[8], directives[11]);
}

#[test]
fn windows_emission_links_the_renamed_import_library() {
    let found = DiscoveryResult::windows("C:\\Users\\ada");
    let directives = configure_gdal_paths(Platform::Windows, &found);
    assert_eq!(directives.len(), 12);
    assert_eq!(
        directives[9],
        Directive::LinkLibrary { name: "gdal_i".to_string(), dynamic: true }
    );
    assert_eq!(directives[9].line(), Some("cargo:rustc-link-lib=dylib=gdal_i".to_string()));
    assert_eq!(
        directives[10].line(),
        Some(
            "cargo:rustc-link-arg=C:\\Users\\ada\\.pixi\\envs\\gdal\\Library\\lib\\gdal.lib"
                .to_string()
        )
    );
    assert_eq!(directives[0].line(), None);
}

#[test]
fn notices_have_their_texts() {
    assert_eq!(Notice::HomeMissing.message(), "HOME environment variable not found");
    assert_eq!(Notice::ProfileMissing.message(), "USERPROFILE environment variable not found");
    assert_eq!(
        Notice::LibraryMissing("/usr/lib/libgdal.so".to_string()).message(),
        "GDAL library not found at: /usr/lib/libgdal.so"
    );
    assert_eq!(
        Notice::PrimaryMissing("C:\\gdal.lib".to_string()).message(),
        "GDAL.LIB NOT FOUND AT: C:\\gdal.lib"
    );
    assert_eq!(
        Notice::NotInstalled.message(),
        "GDAL installation not found via system, pixi, or spack"
    );
    assert_eq!(
        Notice::AliasCreated(ImportAlias::Interface).message(),
        "Created gdal_i.lib from gdal.lib for compatibility"
    );
    assert_eq!(
        Notice::AliasCreated(ImportAlias::Dynamic).message(),
        "Created gdal.dll.lib from gdal.lib for compatibility"
    );
    assert_eq!(
        Notice::AliasFailed(ImportAlias::Dynamic, "disk full".to_string()).message(),
        "Failed to create gdal.dll.lib: disk full"
    );
    assert_eq!(
        Notice::Staged("a".to_string(), "b".to_string()).message(),
        "Copied a to b"
    );
    assert_eq!(
        Notice::StagingFailed("a".to_string(), "denied".to_string()).message(),
        "Failed to copy a: denied"
    );
}

#[test]
fn warnings_are_written_for_the_build_log() {
    assert_eq!(
        warning_line(&Notice::NotInstalled),
        "cargo:warning=GDAL installation not found via system, pixi, or spack"
    );
}
