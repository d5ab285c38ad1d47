use gdal_locator::notice::Notice;
use gdal_locator::platform::Platform;
use gdal_locator::staging::{
    bundled_directory, copy_gdal_libraries, is_library_file, plan_entry, staging_notice,
    staging_plan, CopyStep,
};
use std::cell::RefCell;
use std::collections::BTreeMap;

fn names(list: &[&str]) -> Vec<String> {
    list.iter().map(|n| n.to_string()).collect()
}

fn step(source: &str, destination: &str) -> CopyStep {
    CopyStep { source: source.to_string(), destination: destination.to_string() }
}

#[test]
fn bundle_directories_are_fixed() {
    assert_eq!(bundled_directory(Platform::Windows), "gdal-libs/windows");
    assert_eq!(bundled_directory(Platform::Unix), "gdal-libs/linux");
}

#[test]
fn unix_library_names_begin_with_lib_and_hold_so() {
    assert!(is_library_file(Platform::Unix, "libgdal.so"));
    assert!(is_library_file(Platform::Unix, "libgdal.so.36.3.10"));
    assert!(is_library_file(Platform::Unix, "lib.so"));
    assert!(is_library_file(Platform::Unix, "libfoo.sock"));
    assert!(!is_library_file(Platform::Unix, "gdal.so"));
    assert!(!is_library_file(Platform::Unix, "libgdal.a"));
    assert!(!is_library_file(Platform::Unix, "Libgdal.so"));
    assert!(!is_library_file(Platform::Unix, "li"));
    assert!(!is_library_file(Platform::Unix, ""));
    assert!(!is_library_file(Platform::Unix, "gdal.dll"));
}

#[test]
fn windows_library_names_have_the_dll_extension() {
    assert!(is_library_file(Platform::Windows, "gdal.dll"));
    assert!(is_library_file(Platform::Windows, "proj_9.dll"));
    assert!(is_library_file(Platform::Windows, "a.b.dll"));
    assert!(is_library_file(Platform::Windows, "..dll"));
    assert!(!is_library_file(Platform::Windows, ".dll"));
    assert!(!is_library_file(Platform::Windows, "dll"));
    assert!(!is_library_file(Platform::Windows, "gdal.DLL"));
    assert!(!is_library_file(Platform::Windows, "gdal.dll.bak"));
    assert!(!is_library_file(Platform::Windows, "gdaldll"));
    assert!(!is_library_file(Platform::Windows, "libgdal.so"));
}

#[test]
fn plan_entry_gives_source_and_destination() {
    assert_eq!(
        plan_entry(Platform::Unix, "libgdal.so"),
        Some(step("gdal-libs/linux/libgdal.so", "./libgdal.so"))
    );
    assert_eq!(
        plan_entry(Platform::Windows, "gdal.dll"),
        Some(step("gdal-libs/windows\\gdal.dll", ".\\gdal.dll"))
    );
    assert_eq!(plan_entry(Platform::Unix, "README.md"), None);
}

#[test]
fn plan_keeps_the_library_files_in_order() {
    let plan = staging_plan(
        Platform::Unix,
        &names(&["libproj.so.25", "notes.txt", "libgdal.so", "libgeos.so.3"]),
    );
    assert_eq!(
        plan,
        vec![
            step("gdal-libs/linux/libproj.so.25", "./libproj.so.25"),
            step("gdal-libs/linux/libgdal.so", "./libgdal.so"),
            step("gdal-libs/linux/libgeos.so.3", "./libgeos.so.3"),
        ]
    );
    assert_eq!(staging_plan(Platform::Unix, &Vec::new()), Vec::<CopyStep>::new());
}

#[test]
fn stager_copies_three_library_files_and_leaves_the_fourth() {
    let disk: RefCell<BTreeMap<String, Vec<u8>>> = RefCell::new(BTreeMap::new());
    for (name, bytes) in [
        ("libgdal.so", vec![1u8]),
        ("libproj.so.25", vec![2u8]),
        ("libgeos.so", vec![3u8]),
        ("LICENSE", vec![4u8]),
    ] {
        disk.borrow_mut().insert(format!("gdal-libs/linux/{}", name), bytes);
    }
    let report = copy_gdal_libraries(
        Platform::Unix,
        Some(names(&["libgdal.so", "libproj.so.25", "libgeos.so", "LICENSE"])),
        |s: &CopyStep| {
            let bytes = disk.borrow().get(&s.source).cloned();
            match bytes {
                Some(bytes) => {
                    disk.borrow_mut().insert(s.destination.clone(), bytes);
                    Ok(())
                }
                None => Err("no such file".to_string()),
            }
        },
    );
    assert_eq!(report.steps.len(), 3);
    assert_eq!(report.notices.len(), 3);
    let disk = disk.borrow();
    assert_eq!(disk.get("./libgdal.so"), Some(&vec![1u8]));
    assert_eq!(disk.get("./libproj.so.25"), Some(&vec![2u8]));
    assert_eq!(disk.get("./libgeos.so"), Some(&vec![3u8]));
    assert_eq!(disk.get("./LICENSE"), None);
    assert_eq!(disk.get("gdal-libs/linux/LICENSE"), Some(&vec![4u8]));
    assert_eq!(disk.len(), 7);
    assert_eq!(
        report.notices[1],
        Notice::Staged("gdal-libs/linux/libproj.so.25".to_string(), "./libproj.so.25".to_string())
    );
}

#[test]
fn one_failing_copy_does_not_stop_the_others() {
    let copied: RefCell<Vec<String>> = RefCell::new(Vec::new());
    let report = copy_gdal_libraries(
        Platform::Unix,
        Some(names(&["libgdal.so", "libproj.so.25", "libgeos.so", "LICENSE"])),
        |s: &CopyStep| {
            if s.destination == "./libproj.so.25" {
                Err("read-only".to_string())
            } else {
                copied.borrow_mut().push(s.destination.clone());
                Ok(())
            }
        },
    );
    assert_eq!(*copied.borrow(), vec!["./libgdal.so".to_string(), "./libgeos.so".to_string()]);
    assert_eq!(
        report.notices,
        vec![
            Notice::Staged("gdal-libs/linux/libgdal.so".to_string(), "./libgdal.so".to_string()),
            Notice::StagingFailed(
                "gdal-libs/linux/libproj.so.25".to_string(),
                "read-only".to_string()
            ),
            Notice::Staged("gdal-libs/linux/libgeos.so".to_string(), "./libgeos.so".to_string()),
        ]
    );
}

#[test]
fn absent_bundle_directory_stages_nothing() {
    let calls = RefCell::new(0);
    let report = copy_gdal_libraries(Platform::Windows, None, |_s: &CopyStep| {
        *calls.borrow_mut() += 1;
        Ok(())
    });
    assert!(report.steps.is_empty());
    assert!(report.notices.is_empty());
    assert_eq!(*calls.borrow(), 0);
}

#[test]
fn staging_notice_tells_success_from_failure() {
    let s = step("gdal-libs/windows\\gdal.dll", ".\\gdal.dll");
    assert_eq!(
        staging_notice(&s, &Ok(())).message(),
        "Copied gdal-libs/windows\\gdal.dll to .\\gdal.dll"
    );
    assert_eq!(
        staging_notice(&s, &Err("access denied".to_string())).message(),
        "Failed to copy gdal-libs/windows\\gdal.dll: access denied"
    );
}
