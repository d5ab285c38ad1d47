//! Staging the bundled library files into the output directory, so that
//! the finished application finds them without a system-wide installation.

use crate::notice::{Notice, Remark};
use crate::platform::Platform;
use crate::text::{contains, has_extension, join, name_has_extension, occurs_in, starts_with};
use vstd::prelude::*;

verus! {

/// One file to copy.
#[derive(Clone, Debug, PartialEq, Eq)]
pub struct CopyStep {
    /// The bundled file.
    pub source: String,
    /// Its place in the output directory.
    pub destination: String,
}

/// What a `CopyStep` stands for in contracts.
pub struct Transfer {
    pub source: Seq<char>,
    pub destination: Seq<char>,
}

impl View for CopyStep {
    type V = Transfer;

    open spec fn view(&self) -> Transfer {
        Transfer { source: self.source@, destination: self.destination@ }
    }
}

/// What a list of copy steps stands for in contracts.
pub open spec fn transfers_of(steps: Seq<CopyStep>) -> Seq<Transfer> {
    steps.map_values(|s: CopyStep| s@)
}

/// The directory, relative to the build, that holds the bundled library
/// files of `platform`.
pub open spec fn bundle_directory(platform: Platform) -> Seq<char> {
    match platform {
        Platform::Windows => "gdal-libs/windows"@,
        Platform::Unix => "gdal-libs/linux"@,
    }
}

/// The separator with which `platform` joins a directory and a file name.
pub open spec fn separator(platform: Platform) -> Seq<char> {
    match platform {
        Platform::Windows => "\\"@,
        Platform::Unix => "/"@,
    }
}

/// Whether the file name `name` is that of a library file of `platform`:
/// on Windows one with the extension `dll`; elsewhere one that begins with
/// `lib` and holds `.so`.
pub open spec fn is_library_name(platform: Platform, name: Seq<char>) -> bool {
    match platform {
        Platform::Windows => has_extension(name, "dll"@),
        Platform::Unix => "lib"@.is_prefix_of(name) && occurs_in(name, ".so"@),
    }
}

/// The copy that stages the bundled file `name`, where it is a library
/// file: from the bundle directory into the current directory, under the
/// same name.
pub open spec fn transfer_of(platform: Platform, name: Seq<char>) -> Option<Transfer> {
    if is_library_name(platform, name) {
        Some(
            Transfer {
                source: bundle_directory(platform) + separator(platform) + name,
                destination: "."@ + separator(platform) + name,
            },
        )
    } else {
        None
    }
}

/// The copies that stage the library files among `names`, in the order of
/// `names`.
pub open spec fn staging(platform: Platform, names: Seq<Seq<char>>) -> Seq<Transfer> {
    names.filter_map(|name: Seq<char>| transfer_of(platform, name))
}

/// Exactly the library files are staged: every copy of the plan stages a
/// library file that is among `names`, every library file among `names`
/// has its copy in the plan, and the plan is no longer than `names`.
pub proof fn lemma_staging_is_exact(platform: Platform, names: Seq<Seq<char>>)
    ensures
        forall|t: Transfer| #[trigger]
            staging(platform, names).contains(t) ==> exists|name: Seq<char>| #[trigger]
                names.contains(name) && transfer_of(platform, name) == Some(t),
        forall|name: Seq<char>|
            #[trigger] names.contains(name) && is_library_name(platform, name) ==> staging(
                platform,
                names,
            ).contains(transfer_of(platform, name)->0),
        staging(platform, names).len() <= names.len(),
    decreases names.len(),
{
    let pick = |name: Seq<char>| transfer_of(platform, name);
    assert forall|t: Transfer| #[trigger] staging(platform, names).contains(t) implies exists|
        name: Seq<char>,
    | #[trigger]
        names.contains(name) && transfer_of(platform, name) == Some(t) by {
        names.lemma_filter_map_contains(pick, t);
    }
    if names.len() > 0 {
        let rest = names.drop_last();
        let last = names.last();
        lemma_staging_is_exact(platform, rest);
        let plan = staging(platform, names);
        assert forall|name: Seq<char>| #[trigger]
            names.contains(name) && is_library_name(platform, name) implies plan.contains(
            transfer_of(platform, name)->0,
        ) by {
            let t = transfer_of(platform, name)->0;
            if rest.contains(name) {
                let k = choose|k: int| 0 <= k < staging(platform, rest).len() && staging(
                    platform,
                    rest,
                )[k] == t;
                assert(plan[k] == t);
            } else {
                let j = choose|j: int| 0 <= j < names.len() && names[j] == name;
                if j < names.len() - 1 {
                    assert(rest[j] == name);
                    assert(false);
                }
                assert(plan[plan.len() - 1] == t);
            }
        }
    }
}

/// The diagnostic for a copy that was tried: that it was made, or the
/// message with which it failed.
pub open spec fn staging_remark(transfer: Transfer, failure: Option<Seq<char>>) -> Remark {
    match failure {
        None => Remark::Staged(transfer.source, transfer.destination),
        Some(message) => Remark::StagingFailed(transfer.source, message),
    }
}

/// The message with which a copy failed, if it did.
pub open spec fn failure_of(outcome: Result<(), String>) -> Option<Seq<char>> {
    match outcome {
        Ok(_) => None,
        Err(message) => Some(message@),
    }
}

/// The directory that holds the bundled library files of `platform`.
pub fn bundled_directory(platform: Platform) -> (r: &'static str)
    ensures
        r@ == bundle_directory(platform),
{
    match platform {
        Platform::Windows => "gdal-libs/windows",
        Platform::Unix => "gdal-libs/linux",
    }
}

/// Whether the file name `name` is that of a library file of `platform`.
pub fn is_library_file(platform: Platform, name: &str) -> (r: bool)
    ensures
        r == is_library_name(platform, name@),
{
    match platform {
        Platform::Windows => name_has_extension(name, "dll"),
        Platform::Unix => starts_with(name, "lib") && contains(name, ".so"),
    }
}

/// The copy that stages the bundled file `name`; `None` where it is no
/// library file.
pub fn plan_entry(platform: Platform, name: &str) -> (r: Option<CopyStep>)
    ensures
        r.is_some() == transfer_of(platform, name@).is_some(),
        r matches Some(step) ==> Some(step@) == transfer_of(platform, name@),
{
    if !is_library_file(platform, name) {
        return None;
    }
    let sep = match platform {
        Platform::Windows => "\\",
        Platform::Unix => "/",
    };
    let mut source = join(bundled_directory(platform), sep);
    source.append(name);
    let mut destination = join(".", sep);
    destination.append(name);
    Some(CopyStep { source, destination })
}

/// The copies that stage the library files among the file names `names`
/// of the bundle directory, in the order of `names`.
pub fn staging_plan(platform: Platform, names: &Vec<String>) -> (r: Vec<CopyStep>)
    ensures
        transfers_of(r@) == staging(platform, names.deep_view()),
{
    let mut r: Vec<CopyStep> = Vec::new();
    let ghost all = names.deep_view();
    let ghost pick = |name: Seq<char>| transfer_of(platform, name);
    assert(all.take(0) =~= Seq::<Seq<char>>::empty());
    assert(transfers_of(r@) =~= all.take(0).filter_map(pick));
    let mut i: usize = 0;
    while i < names.len()
        invariant
            i <= names.len(),
            all == names.deep_view(),
            pick == |name: Seq<char>| transfer_of(platform, name),
            transfers_of(r@) == all.take(i as int).filter_map(pick),
        decreases names.len() - i,
    {
        let ghost before = r@;
        proof {
            assert(all.take(i + 1).drop_last() =~= all.take(i as int));
            assert(all.take(i + 1).last() == names[i as int]@);
        }
        if let Some(step) = plan_entry(platform, names[i].as_str()) {
            let ghost added = step@;
            r.push(step);
            assert(transfers_of(r@) =~= transfers_of(before) + seq![added]);
        }
        i += 1;
    }
    assert(all.take(names.len() as int) =~= all);
    r
}

/// The diagnostic for a copy that was tried.
pub fn staging_notice(step: &CopyStep, outcome: &Result<(), String>) -> (r: Notice)
    ensures
        r@ == staging_remark(step@, failure_of(*outcome)),
{
    match outcome {
        Ok(_) => Notice::Staged(step.source.clone(), step.destination.clone()),
        Err(message) => Notice::StagingFailed(step.source.clone(), message.clone()),
    }
}

/// `notice` is the diagnostic of an outcome with which `copier` answered
/// the copy `step`.
pub open spec fn answered<F: Fn(&CopyStep) -> Result<(), String>>(
    copier: F,
    step: CopyStep,
    notice: Notice,
) -> bool {
    exists|outcome: Result<(), String>| #[trigger]
        copier.ensures((&step,), outcome) && notice@ == staging_remark(
            step@,
            failure_of(outcome),
        )
}

/// What staging did: the copies that it tried, and the diagnostic of
/// each, in the same order.
#[derive(Debug)]
pub struct StagingReport {
    pub steps: Vec<CopyStep>,
    pub notices: Vec<Notice>,
}

/// Stages the library files among the file names `listing` of the bundle
/// directory, handing each copy to `copier`. A listing of `None` stands
/// for a bundle directory that is absent or cannot be read: nothing is
/// staged then.
///
/// Every planned copy is tried, whatever became of the others, and each
/// has its diagnostic.
pub fn copy_gdal_libraries<F: Fn(&CopyStep) -> Result<(), String>>(
    platform: Platform,
    listing: Option<Vec<String>>,
    copier: F,
) -> (r: StagingReport)
    requires
        forall|step: &CopyStep| copier.requires((step,)),
    ensures
        transfers_of(r.steps@) == match listing {
            Some(names) => staging(platform, names.deep_view()),
            None => Seq::empty(),
        },
        r.notices@.len() == r.steps@.len(),
        forall|k: int|
            0 <= k < r.steps@.len() ==> answered(copier, #[trigger] r.steps@[k], r.notices@[k]),
{
    let steps = match listing {
        Some(names) => staging_plan(platform, &names),
        None => {
            let none: Vec<CopyStep> = Vec::new();
            assert(transfers_of(none@) =~= Seq::<Transfer>::empty());
            none
        },
    };
    let mut notices: Vec<Notice> = Vec::new();
    let mut i: usize = 0;
    while i < steps.len()
        invariant
            i <= steps.len(),
            notices@.len() == i,
            forall|step: &CopyStep| copier.requires((step,)),
            forall|k: int| 0 <= k < i ==> answered(copier, #[trigger] steps@[k], notices@[k]),
        decreases steps.len() - i,
    {
        let outcome = copier(&steps[i]);
        let notice = staging_notice(&steps[i], &outcome);
        notices.push(notice);
        assert(copier.ensures((&steps@[i as int],), outcome));
        assert(answered(copier, steps@[i as int], notices@[i as int]));
        i += 1;
    }
    StagingReport { steps, notices }
}

} // verus!
