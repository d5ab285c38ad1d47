//! What the running application asks of the raster library, and how the
//! answers are shaped for its front end.
//!
//! The calls into the raster library are made by the application. This
//! module decides what is asked and what is handed back.

use crate::platform::Platform;
use crate::text::join;
use vstd::prelude::*;

verus! {

/// The failures of a request.
#[derive(Clone, Debug, PartialEq, Eq)]
pub enum GdalError {
    /// The raster library failed; its message.
    Gdal(String),
    /// The file to describe does not exist; its path.
    FileNotFound(String),
}

/// What a `GdalError` stands for in contracts.
pub enum Fault {
    Gdal(Seq<char>),
    FileNotFound(Seq<char>),
}

impl View for GdalError {
    type V = Fault;

    open spec fn view(&self) -> Fault {
        match self {
            GdalError::Gdal(m) => Fault::Gdal(m@),
            GdalError::FileNotFound(p) => Fault::FileNotFound(p@),
        }
    }
}

/// The text of a failure.
pub open spec fn fault_text(fault: Fault) -> Seq<char> {
    match fault {
        Fault::Gdal(m) => "GDAL error: "@ + m,
        Fault::FileNotFound(p) => "File not found: "@ + p,
    }
}

impl GdalError {
    /// The text of this failure, as the front end shows it.
    pub fn message(&self) -> (r: String)
        ensures
            r@ == fault_text(self@),
    {
        match self {
            GdalError::Gdal(m) => join("GDAL error: ", m.as_str()),
            GdalError::FileNotFound(p) => join("File not found: ", p.as_str()),
        }
    }
}

/// The description of a raster file.
#[derive(Clone, Debug, PartialEq, Eq)]
pub struct DatasetInfo {
    pub size_x: usize,
    pub size_y: usize,
    pub projection: String,
    pub band_count: usize,
    pub driver_name: String,
}

/// What a `DatasetInfo` stands for in contracts.
pub struct DatasetFacts {
    pub size_x: usize,
    pub size_y: usize,
    pub projection: Seq<char>,
    pub band_count: usize,
    pub driver_name: Seq<char>,
}

impl View for DatasetInfo {
    type V = DatasetFacts;

    open spec fn view(&self) -> DatasetFacts {
        DatasetFacts {
            size_x: self.size_x,
            size_y: self.size_y,
            projection: self.projection@,
            band_count: self.band_count,
            driver_name: self.driver_name@,
        }
    }
}

/// The description of the installed raster library.
#[derive(Clone, Debug, PartialEq, Eq)]
pub struct GdalInfo {
    pub version: String,
    pub supported_formats: Vec<String>,
    pub platform: String,
}

/// What a `GdalInfo` stands for in contracts.
pub struct LibraryFacts {
    pub version: Seq<char>,
    pub supported_formats: Seq<Seq<char>>,
    pub platform: Seq<char>,
}

impl View for GdalInfo {
    type V = LibraryFacts;

    open spec fn view(&self) -> LibraryFacts {
        LibraryFacts {
            version: self.version@,
            supported_formats: self.supported_formats.deep_view(),
            platform: self.platform@,
        }
    }
}

/// What the raster library reports of a dataset that it opened.
#[derive(Clone, Debug, PartialEq, Eq)]
pub struct RasterSummary {
    /// The width, in pixels.
    pub width: usize,
    /// The height, in pixels.
    pub height: usize,
    /// The coordinate reference system.
    pub projection: String,
    /// The number of bands.
    pub band_count: usize,
    /// The long name of the driver that opened the dataset.
    pub driver_name: String,
}

/// The description that the summary `summary` gives.
pub open spec fn described(summary: RasterSummary) -> DatasetFacts {
    DatasetFacts {
        size_x: summary.width,
        size_y: summary.height,
        projection: summary.projection@,
        band_count: summary.band_count,
        driver_name: summary.driver_name@,
    }
}

/// The short names of the drivers that could be had, in the order of their
/// indices. `None` stands for an index at which the raster library gave no
/// driver.
pub open spec fn driver_names(drivers: Seq<Option<String>>) -> Seq<Seq<char>> {
    drivers.filter_map(
        |d: Option<String>|
            match d {
                Some(name) => Some(name@),
                None => None,
            },
    )
}

/// Describes the installed raster library from what it reported: its
/// release name, the short name of the driver at each index (`None` where
/// it gave none), and the name of the platform. Never fails.
pub fn get_gdal_info(version: String, drivers: Vec<Option<String>>, platform: String) -> (r:
    Result<GdalInfo, String>)
    ensures
        r is Ok,
        r->Ok_0@ == (LibraryFacts {
            version: version@,
            supported_formats: driver_names(drivers@),
            platform: platform@,
        }),
{
    let mut formats: Vec<String> = Vec::new();
    let mut drivers = drivers;
    let ghost all = drivers@;
    let ghost pick = |d: Option<String>|
        match d {
            Some(name) => Some(name@),
            None => None,
        };
    assert(all.take(0) =~= Seq::<Option<String>>::empty());
    assert(formats.deep_view() =~= all.take(0).filter_map(pick));
    let mut i: usize = 0;
    while i < drivers.len()
        invariant
            i <= drivers.len(),
            all == drivers@,
            pick == |d: Option<String>|
                match d {
                    Some(name) => Some(name@),
                    None => None,
                },
            formats.deep_view() == all.take(i as int).filter_map(pick),
        decreases drivers.len() - i,
    {
        let ghost before = formats.deep_view();
        proof {
            assert(all.take(i + 1).drop_last() =~= all.take(i as int));
            assert(all.take(i + 1).last() == drivers@[i as int]);
        }
        if let Some(name) = &drivers[i] {
            formats.push(name.clone());
            assert(formats.deep_view() =~= before + seq![name@]);
        }
        i += 1;
    }
    assert(all.take(drivers.len() as int) =~= all);
    Ok(GdalInfo { version, supported_formats: formats, platform })
}

/// The permission to open a file: given only for a file that exists.
#[derive(Debug)]
pub struct OpenRequest {
    path: String,
}

impl OpenRequest {
    /// The path of the file to open.
    pub closed spec fn target(&self) -> Seq<char> {
        self.path@
    }

    /// The path of the file to open.
    pub fn path(&self) -> (r: &str)
        ensures
            r@ == self.target(),
    {
        self.path.as_str()
    }

    /// Shapes what the raster library made of the request: the description
    /// of the dataset that it opened, or the message with which it failed.
    pub fn complete(self, opened: Result<RasterSummary, String>) -> (r: Result<
        DatasetInfo,
        String,
    >)
        ensures
            match opened {
                Ok(summary) => r is Ok && r->Ok_0@ == described(summary),
                Err(message) => r is Err && r->Err_0@ == message@,
            },
    {
        match opened {
            Ok(summary) => Ok(
                DatasetInfo {
                    size_x: summary.width,
                    size_y: summary.height,
                    projection: summary.projection,
                    band_count: summary.band_count,
                    driver_name: summary.driver_name,
                },
            ),
            Err(message) => Err(message),
        }
    }
}

/// Begins the description of the raster file at `file_path`, given whether
/// the file exists. For a file that exists the result is the request to
/// open it. For one that does not, it is the failure message, and there is
/// nothing to open.
pub fn get_dataset_info(file_path: &str, exists: bool) -> (r: Result<OpenRequest, String>)
    ensures
        exists ==> r is Ok && r->Ok_0.target() == file_path@,
        !exists ==> r is Err && r->Err_0@ == fault_text(Fault::FileNotFound(file_path@)),
{
    if exists {
        Ok(OpenRequest { path: file_path.to_owned() })
    } else {
        Err(GdalError::FileNotFound(file_path.to_owned()).message())
    }
}

/// A change to the search path of the dynamic loader.
#[derive(Clone, Debug, PartialEq, Eq)]
pub enum RuntimeSetup {
    /// Nothing is to be changed.
    Unchanged,
    /// The variable is to hold these directories, joined as a path list.
    Joined { variable: String, entries: Vec<String> },
    /// The variable is to hold this one directory.
    Single { variable: String, value: String },
}

/// What a `RuntimeSetup` stands for in contracts.
pub enum SearchPathChange {
    Unchanged,
    Joined { variable: Seq<char>, entries: Seq<Seq<char>> },
    Single { variable: Seq<char>, value: Seq<char> },
}

impl View for RuntimeSetup {
    type V = SearchPathChange;

    open spec fn view(&self) -> SearchPathChange {
        match self {
            RuntimeSetup::Unchanged => SearchPathChange::Unchanged,
            RuntimeSetup::Joined { variable, entries } => SearchPathChange::Joined {
                variable: variable@,
                entries: entries.deep_view(),
            },
            RuntimeSetup::Single { variable, value } => SearchPathChange::Single {
                variable: variable@,
                value: value@,
            },
        }
    }
}

/// The variable that holds the search path of the dynamic loader on
/// `platform`.
pub open spec fn loader_variable(platform: Platform) -> Seq<char> {
    match platform {
        Platform::Windows => "PATH"@,
        Platform::Unix => "LD_LIBRARY_PATH"@,
    }
}

/// The change that puts the current directory first in the loader's search
/// path. Without a current directory nothing changes. A variable that is
/// set gets the current directory in front of its entries. One that is not
/// set is left alone on Windows, and elsewhere set to the current
/// directory alone.
pub open spec fn runtime_change(
    platform: Platform,
    current_dir: Option<Seq<char>>,
    search_path: Option<Seq<Seq<char>>>,
) -> SearchPathChange {
    match current_dir {
        None => SearchPathChange::Unchanged,
        Some(dir) => match search_path {
            Some(entries) => SearchPathChange::Joined {
                variable: loader_variable(platform),
                entries: seq![dir] + entries,
            },
            None => match platform {
                Platform::Windows => SearchPathChange::Unchanged,
                Platform::Unix => SearchPathChange::Single {
                    variable: loader_variable(platform),
                    value: dir,
                },
            },
        },
    }
}

/// The variable that holds the search path of the dynamic loader on
/// `platform`.
pub fn search_path_variable(platform: Platform) -> (r: &'static str)
    ensures
        r@ == loader_variable(platform),
{
    match platform {
        Platform::Windows => "PATH",
        Platform::Unix => "LD_LIBRARY_PATH",
    }
}

/// The change that lets the application load the staged libraries from
/// its current directory, given that directory, if it is known, and the
/// entries of the loader's search path, if the variable is set.
pub fn setup_gdal_runtime(
    platform: Platform,
    current_dir: Option<String>,
    search_path: Option<Vec<String>>,
) -> (r: RuntimeSetup)
    ensures
        r@ == runtime_change(
            platform,
            current_dir.deep_view(),
            match search_path {
                Some(entries) => Some(entries.deep_view()),
                None => None,
            },
        ),
{
    let dir = match current_dir {
        Some(dir) => dir,
        None => {
            return RuntimeSetup::Unchanged;
        },
    };
    match search_path {
        Some(entries) => {
            let mut entries = entries;
            let ghost before = entries.deep_view();
            let ghost first = dir@;
            entries.insert(0, dir);
            assert(entries.deep_view() =~= seq![first] + before);
            RuntimeSetup::Joined { variable: search_path_variable(platform).to_owned(), entries }
        },
        None => match platform {
            Platform::Windows => RuntimeSetup::Unchanged,
            Platform::Unix => RuntimeSetup::Single {
                variable: search_path_variable(platform).to_owned(),
                value: dir,
            },
        },
    }
}

} // verus!
