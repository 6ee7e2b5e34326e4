use vstd::prelude::*;

use crate::error::Error;
use crate::platform::{spec_downloader_url, voicevox_downloader_url};

verus! {

/// What has to be done so that the engine's assets stand in the asset directory.
#[derive(Debug, Clone, PartialEq, Eq)]
pub enum ProvisionPlan {
    /// The shared library is already there: nothing is fetched or run.
    AlreadyPresent,
    /// Fetch the downloader from `url`, then run it with `downloader_args`.
    Fetch { url: String, downloader_args: Vec<String> },
}

/// The arguments with which the downloader is run: the output directory, then
/// the caller's own arguments in their order.
pub open spec fn spec_downloader_args(target_dir: Seq<char>, extra: Seq<Seq<char>>) -> Seq<
    Seq<char>,
> {
    seq!["-o"@, target_dir] + extra
}

/// Builds the downloader's argument list: `-o`, `target_dir`, then `extra`.
pub fn downloader_args(target_dir: &str, extra: &Vec<String>) -> (r: Vec<String>)
    ensures
        r.deep_view() == spec_downloader_args(target_dir@, extra.deep_view()),
{
    let mut r: Vec<String> = Vec::new();
    r.push(String::from_str("-o"));
    r.push(String::from_str(target_dir));
    let mut i: usize = 0;
    while i < extra.len()
        invariant
            i <= extra@.len(),
            r@.len() == 2 + i,
            r@[0]@ == "-o"@,
            r@[1]@ == target_dir@,
            forall|j: int| 0 <= j < i ==> #[trigger] r@[2 + j]@ == extra@[j]@,
        decreases extra@.len() - i,
    {
        r.push(extra[i].clone());
        i = i + 1;
    }
    let ghost want = spec_downloader_args(target_dir@, extra.deep_view());
    assert forall|j: int| 0 <= j < want.len() implies #[trigger] r.deep_view()[j] == want[j] by {
        if j >= 2 {
            assert(r@[2 + (j - 2)]@ == extra@[j - 2]@);
        }
    }
    assert(r.deep_view() =~= want);
    r
}

/// Decides how to provision the assets into `target_dir`, on the platform
/// named by `os` and `arch`. Where the shared library is present the plan is
/// to do nothing, whatever the platform: provisioning a second time fetches
/// and runs nothing. Otherwise the plan fetches the platform's downloader and
/// runs it with `-o target_dir` and `extra_args`, or fails with
/// `UnsupportedPlatform` where no downloader is published.
pub fn plan_provision(
    library_present: bool,
    os: &str,
    arch: &str,
    target_dir: &str,
    extra_args: &Vec<String>,
) -> (r: Result<ProvisionPlan, Error>)
    ensures
        library_present ==> r matches Ok(ProvisionPlan::AlreadyPresent),
        !library_present ==> (r is Ok <==> spec_downloader_url(os@, arch@) is Some),
        !library_present ==> (r matches Ok(p) ==> p matches ProvisionPlan::Fetch { url, downloader_args }
            && spec_downloader_url(os@, arch@) == Some(url@)
            && downloader_args.deep_view() == spec_downloader_args(target_dir@, extra_args.deep_view())),
        r matches Err(e) ==> e == Error::UnsupportedPlatform,
{
    if library_present {
        return Ok(ProvisionPlan::AlreadyPresent);
    }
    match voicevox_downloader_url(os, arch) {
        Ok(url) => Ok(ProvisionPlan::Fetch { url, downloader_args: downloader_args(target_dir, extra_args) }),
        Err(e) => Err(e),
    }
}

/// Reads how the downloader ended: its exit code, or `None` where it could not
/// be started or was ended by a signal. Only exit code zero is success.
pub fn downloader_outcome(exit_code: Option<i32>) -> (r: Result<(), Error>)
    ensures
        r is Ok <==> exit_code == Some(0i32),
        r matches Err(e) ==> e == Error::DownloaderFailed(exit_code),
{
    match exit_code {
        Some(0) => Ok(()),
        _ => Err(Error::DownloaderFailed(exit_code)),
    }
}

} // verus!
