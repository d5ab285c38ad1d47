use gdal_locator::locator::{items_from, path_items};
use gdal_locator::phase::{conventional_prefixes, Phase, Strategy};
use gdal_locator::probe::{Answer, Query};
use gdal_locator::text::{
    chars_of, contains, ends_with, is_blank, join, name_has_extension, same_text, starts_with,
    strip_suffix, trim,
};

#[test]
fn trim_takes_white_space_off_both_ends() {
    assert_eq!(trim("  /usr/local \n"), "/usr/local");
    assert_eq!(trim("/usr"), "/usr");
    assert_eq!(trim("\t\r\n"), "");
    assert_eq!(trim(""), "");
    assert_eq!(trim(" a b "), "a b");
    assert_eq!(trim("\u{a0}x\u{2003}"), "x");
    assert_eq!(trim("é "), "é");
}

#[test]
fn white_space_is_told_from_other_characters() {
    assert!(is_blank(' '));
    assert!(is_blank('\n'));
    assert!(is_blank('\u{a0}'));
    assert!(is_blank('\t'));
    assert!(!is_blank('\u{8d8a}'));
    assert!(!is_blank('/'));
    assert!(!is_blank('x'));
}

#[test]
fn output_text_gives_one_path_or_none() {
    assert_eq!(path_items("/opt/x\n"), vec!["/opt/x".to_string()]);
    assert_eq!(path_items("  /opt/my gdal \r\n"), vec!["/opt/my gdal".to_string()]);
    assert_eq!(path_items("/a\n/b\n"), vec!["/a\n/b".to_string()]);
    assert_eq!(path_items(""), Vec::<String>::new());
    assert_eq!(path_items(" \n"), Vec::<String>::new());
}

#[test]
fn prefix_suffix_and_infix() {
    assert!(starts_with("libgdal.so", "lib"));
    assert!(starts_with("lib", "lib"));
    assert!(starts_with("lib", ""));
    assert!(!starts_with("li", "lib"));
    assert!(!starts_with("glib", "lib"));
    assert!(ends_with("a/bin/gdalinfo", "/bin/gdalinfo"));
    assert!(!ends_with("gdalinfo", "/bin/gdalinfo"));
    assert!(ends_with("x", ""));
    assert!(contains("libgdal.so.3", ".so"));
    assert!(contains("/home/ada/.pixi/envs/geo", "pixi"));
    assert!(contains("pixi", "pixi"));
    assert!(contains("", ""));
    assert!(!contains("/usr/local", "pixi"));
    assert!(!contains("pix", "pixi"));
    assert!(!contains("", "a"));
}

#[test]
fn suffix_is_taken_off_where_it_is_there() {
    assert_eq!(
        strip_suffix("/home/ada/.pixi/envs/geo/bin/gdalinfo", "/bin/gdalinfo"),
        Some("/home/ada/.pixi/envs/geo".to_string())
    );
    assert_eq!(strip_suffix("/bin/gdalinfo", "/bin/gdalinfo"), Some(String::new()));
    assert_eq!(strip_suffix("/usr/bin/gdal_translate", "/bin/gdalinfo"), None);
    assert_eq!(strip_suffix("é/x", "/x"), Some("é".to_string()));
}

#[test]
fn extension_follows_the_last_dot() {
    assert!(name_has_extension("gdal.dll", "dll"));
    assert!(name_has_extension("a.b", "b"));
    assert!(name_has_extension("a.", ""));
    assert!(!name_has_extension("..", ""));
    assert!(!name_has_extension(".dll", "dll"));
    assert!(!name_has_extension("gdal.dll", "ll"));
    assert!(!name_has_extension("gdal.tar.gz", "tar.gz"));
    assert!(!name_has_extension("gdal", "dll"));
}

#[test]
fn texts_are_compared_and_joined_by_their_characters() {
    assert!(same_text("windows", "windows"));
    assert!(!same_text("windows", "window"));
    assert!(!same_text("windows", "windowz"));
    assert!(same_text("", ""));
    assert_eq!(join("/usr", "/lib"), "/usr/lib");
    assert_eq!(chars_of("aé"), vec!['a', 'é']);
}

#[test]
fn items_come_from_paths_and_from_output() {
    assert_eq!(
        items_from(Answer::Paths(vec!["/a".to_string(), "/b".to_string()])),
        vec!["/a".to_string(), "/b".to_string()]
    );
    assert_eq!(
        items_from(Answer::Output { succeeded: true, stdout: b" /opt/gdal\n".to_vec() }),
        vec!["/opt/gdal".to_string()]
    );
    assert_eq!(
        items_from(Answer::Output { succeeded: true, stdout: vec![b'/', 0xc3, 0x28] }),
        vec!["/\u{fffd}(".to_string()]
    );
    assert_eq!(
        items_from(Answer::Output { succeeded: false, stdout: b"/opt/gdal".to_vec() }),
        Vec::<String>::new()
    );
    assert_eq!(
        items_from(Answer::Output { succeeded: true, stdout: b"\n".to_vec() }),
        Vec::<String>::new()
    );
    assert_eq!(items_from(Answer::Flag(true)), Vec::<String>::new());
    assert_eq!(items_from(Answer::Copied), Vec::<String>::new());
    assert_eq!(items_from(Answer::Failed("x".to_string())), Vec::<String>::new());
}

#[test]
fn answers_other_than_a_plain_yes_are_no() {
    assert!(Answer::Flag(true).is_yes());
    assert!(!Answer::Flag(false).is_yes());
    assert!(!Answer::Copied.is_yes());
    assert!(!Answer::Paths(vec!["/usr".to_string()]).is_yes());
}

#[test]
fn phases_follow_one_another_in_a_fixed_order() {
    let order = [
        Phase::SystemRegistry,
        Phase::SystemPrefixes,
        Phase::UserEnvironments,
        Phase::UserPattern,
        Phase::AlternateCommand,
        Phase::AlternateVersioned,
        Phase::AlternateAny,
    ];
    for (place, phase) in order.iter().enumerate() {
        assert_eq!(phase.position() as usize, place);
        assert_eq!(phase.next(), order.get(place + 1).copied());
    }
    assert_eq!(Phase::SystemRegistry.owner(), Strategy::System);
    assert_eq!(Phase::SystemPrefixes.owner(), Strategy::System);
    assert_eq!(Phase::UserEnvironments.owner(), Strategy::UserEnvironment);
    assert_eq!(Phase::UserPattern.owner(), Strategy::UserEnvironment);
    assert_eq!(Phase::AlternateCommand.owner(), Strategy::AlternateManager);
    assert_eq!(Phase::AlternateAny.owner(), Strategy::AlternateManager);
    assert_eq!(Phase::SystemRegistry.next_after_refusal(), Some(Phase::SystemPrefixes));
    assert_eq!(Phase::SystemPrefixes.next_after_refusal(), Some(Phase::UserEnvironments));
    assert_eq!(Phase::UserEnvironments.next_after_refusal(), Some(Phase::AlternateCommand));
    assert_eq!(Phase::UserPattern.next_after_refusal(), Some(Phase::AlternateCommand));
    assert_eq!(Phase::AlternateCommand.next_after_refusal(), None);
    assert_eq!(Phase::AlternateVersioned.next_after_refusal(), None);
    assert_eq!(Phase::AlternateAny.next_after_refusal(), None);
}

#[test]
fn phases_name_their_queries() {
    let home = "/home/ada";
    assert_eq!(Phase::SystemRegistry.guard_query(home), None);
    assert_eq!(
        Phase::UserEnvironments.guard_query(home),
        Some(Query::Exists("/home/ada/.pixi/envs".to_string()))
    );
    assert_eq!(
        Phase::AlternateCommand.guard_query(home),
        Some(Query::Exists("/home/ada/spack".to_string()))
    );
    assert_eq!(Phase::SystemRegistry.source_query(home), Some(Query::RegistryPrefix));
    assert_eq!(Phase::SystemPrefixes.source_query(home), None);
    assert_eq!(
        Phase::UserEnvironments.source_query(home),
        Some(Query::Entries("/home/ada/.pixi/envs".to_string()))
    );
    assert_eq!(
        Phase::UserPattern.source_query(home),
        Some(Query::Matches("/home/ada/.pixi/envs/*/bin/gdalinfo".to_string()))
    );
    assert_eq!(Phase::AlternateCommand.source_query(home), Some(Query::PackageLocation));
    assert_eq!(
        Phase::AlternateVersioned.source_query(home),
        Some(Query::Matches(
            "/home/ada/spack/opt/spack/linux-*/gcc-*/gdal-3.10.3-*".to_string()
        ))
    );
    assert_eq!(
        Phase::AlternateAny.source_query(home),
        Some(Query::Matches("/home/ada/spack/opt/spack/linux-*/gcc-*/gdal-*".to_string()))
    );
    assert_eq!(
        Phase::SystemPrefixes.gate_query("/usr"),
        Query::Exists("/usr/lib/libgdal.so".to_string())
    );
    assert_eq!(
        Phase::UserEnvironments.gate_query("/e/geo"),
        Query::Exists("/e/geo/bin/gdalinfo".to_string())
    );
    assert_eq!(Phase::AlternateAny.gate_query("/s/g"), Query::IsDirectory("/s/g".to_string()));
    assert_eq!(
        Phase::UserPattern.candidate_root("/e/geo/bin/gdalinfo"),
        Some("/e/geo".to_string())
    );
    assert_eq!(Phase::UserPattern.candidate_root("/e/geo"), None);
    assert_eq!(Phase::SystemRegistry.candidate_root("/opt"), Some("/opt".to_string()));
    assert_eq!(
        conventional_prefixes(),
        vec!["/usr".to_string(), "/usr/local".to_string(), "/opt/gdal".to_string()]
    );
}
