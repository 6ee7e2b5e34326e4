use voicevox_dyn::{downloader_args, downloader_outcome, plan_provision, Error, ProvisionPlan};

#[test]
fn present_library_needs_nothing() {
    let extra = vec!["--device".to_string(), "cuda".to_string()];
    assert_eq!(
        plan_provision(true, "linux", "x86_64", "/opt/app", &extra),
        Ok(ProvisionPlan::AlreadyPresent)
    );
    // a second provisioning once the library is there fetches nothing, on any platform
    assert_eq!(
        plan_provision(true, "plan9", "mips", "/opt/app", &extra),
        Ok(ProvisionPlan::AlreadyPresent)
    );
}

#[test]
fn missing_library_fetches_and_runs_downloader() {
    let extra = vec!["--device".to_string(), "cuda".to_string()];
    let plan = plan_provision(false, "linux", "aarch64", "/opt/app", &extra).unwrap();
    assert_eq!(
        plan,
        ProvisionPlan::Fetch {
            url: "https://github.com/VOICEVOX/voicevox_core/releases/latest/download/download-linux-arm64"
                .to_string(),
            downloader_args: vec![
                "-o".to_string(),
                "/opt/app".to_string(),
                "--device".to_string(),
                "cuda".to_string()
            ],
        }
    );
}

#[test]
fn missing_library_on_unsupported_platform() {
    assert_eq!(
        plan_provision(false, "haiku", "x86_64", "/opt/app", &Vec::new()),
        Err(Error::UnsupportedPlatform)
    );
}

#[test]
fn downloader_args_without_extra() {
    assert_eq!(
        downloader_args("C:\\bin", &Vec::new()),
        vec!["-o".to_string(), "C:\\bin".to_string()]
    );
}

#[test]
fn downloader_exit_status() {
    assert_eq!(downloader_outcome(Some(0)), Ok(()));
    assert_eq!(downloader_outcome(Some(1)), Err(Error::DownloaderFailed(Some(1))));
    assert_eq!(downloader_outcome(None), Err(Error::DownloaderFailed(None)));
}
