use gdal_locator::platform::Platform;
use gdal_locator::runtime::{
    get_dataset_info, get_gdal_info, search_path_variable, setup_gdal_runtime, DatasetInfo,
    GdalError, GdalInfo, RasterSummary, RuntimeSetup,
};

fn list(items: &[&str]) -> Vec<String> {
    items.iter().map(|i| i.to_string()).collect()
}

#[test]
fn no_drivers_give_an_empty_format_list() {
    let info = get_gdal_info("3.10.3".to_string(), Vec::new(), "linux".to_string());
    assert_eq!(
        info,
        Ok(GdalInfo {
            version: "3.10.3".to_string(),
            supported_formats: Vec::new(),
            platform: "linux".to_string(),
        })
    );
    assert!(!info.unwrap().version.is_empty());
}

#[test]
fn drivers_that_could_not_be_had_are_left_out() {
    let drivers = vec![
        Some("GTiff".to_string()),
        None,
        Some("PNG".to_string()),
        None,
        Some("GTiff".to_string()),
    ];
    let info = get_gdal_info("3.8.4".to_string(), drivers, "windows".to_string()).unwrap();
    assert_eq!(info.supported_formats, list(&["GTiff", "PNG", "GTiff"]));
    assert_eq!(info.version, "3.8.4");
    assert_eq!(info.platform, "windows");
}

#[test]
fn missing_file_is_refused_before_anything_is_opened() {
    let refused = get_dataset_info("/data/none.tif", false);
    assert_eq!(refused.err(), Some("File not found: /data/none.tif".to_string()));
}

#[test]
fn existing_file_is_opened_and_described() {
    let request = get_dataset_info("/data/dem.tif", true).unwrap();
    assert_eq!(request.path(), "/data/dem.tif");
    let info = request.complete(Ok(RasterSummary {
        width: 1024,
        height: 768,
        projection: "EPSG:4326".to_string(),
        band_count: 3,
        driver_name: "GeoTIFF".to_string(),
    }));
    assert_eq!(
        info,
        Ok(DatasetInfo {
            size_x: 1024,
            size_y: 768,
            projection: "EPSG:4326".to_string(),
            band_count: 3,
            driver_name: "GeoTIFF".to_string(),
        })
    );
}

#[test]
fn failure_to_open_hands_the_message_back() {
    let request = get_dataset_info("/data/broken.tif", true).unwrap();
    let info = request.complete(Err("not recognized as a supported file format".to_string()));
    assert_eq!(info, Err("not recognized as a supported file format".to_string()));
}

#[test]
fn errors_have_their_texts() {
    assert_eq!(
        GdalError::FileNotFound("/data/none.tif".to_string()).message(),
        "File not found: /data/none.tif"
    );
    assert_eq!(GdalError::Gdal("NullPointer".to_string()).message(), "GDAL error: NullPointer");
}

#[test]
fn loader_variable_depends_on_the_platform() {
    assert_eq!(search_path_variable(Platform::Windows), "PATH");
    assert_eq!(search_path_variable(Platform::Unix), "LD_LIBRARY_PATH");
}

#[test]
fn current_directory_goes_first() {
    assert_eq!(
        setup_gdal_runtime(
            Platform::Unix,
            Some("/app".to_string()),
            Some(list(&["/usr/lib", "/opt/lib"]))
        ),
        RuntimeSetup::Joined {
            variable: "LD_LIBRARY_PATH".to_string(),
            entries: list(&["/app", "/usr/lib", "/opt/lib"]),
        }
    );
    assert_eq!(
        setup_gdal_runtime(
            Platform::Windows,
            Some("C:\\app".to_string()),
            Some(list(&["C:\\Windows"]))
        ),
        RuntimeSetup::Joined {
            variable: "PATH".to_string(),
            entries: list(&["C:\\app", "C:\\Windows"]),
        }
    );
    assert_eq!(
        setup_gdal_runtime(Platform::Unix, Some("/app".to_string()), Some(Vec::new())),
        RuntimeSetup::Joined { variable: "LD_LIBRARY_PATH".to_string(), entries: list(&["/app"]) }
    );
}

#[test]
fn unset_variable_is_set_on_unix_only() {
    assert_eq!(
        setup_gdal_runtime(Platform::Unix, Some("/app".to_string()), None),
        RuntimeSetup::Single {
            variable: "LD_LIBRARY_PATH".to_string(),
            value: "/app".to_string(),
        }
    );
    assert_eq!(
        setup_gdal_runtime(Platform::Windows, Some("C:\\app".to_string()), None),
        RuntimeSetup::Unchanged
    );
}

#[test]
fn unknown_current_directory_changes_nothing() {
    assert_eq!(
        setup_gdal_runtime(Platform::Unix, None, Some(list(&["/usr/lib"]))),
        RuntimeSetup::Unchanged
    );
    assert_eq!(setup_gdal_runtime(Platform::Windows, None, None), RuntimeSetup::Unchanged);
}

#[test]
fn platform_is_named_by_the_operating_system() {
    assert_eq!(Platform::from_os("windows"), Platform::Windows);
    assert_eq!(Platform::from_os("linux"), Platform::Unix);
    assert_eq!(Platform::from_os("macos"), Platform::Unix);
    assert_eq!(Platform::from_os("Windows"), Platform::Unix);
    assert_eq!(Platform::from_os(""), Platform::Unix);
}
