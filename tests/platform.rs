use voicevox_dyn::{library_file_name, voicevox_downloader_url, Error};

const BASE: &str = "https://github.com/VOICEVOX/voicevox_core/releases/latest/download/download-";

#[test]
fn downloader_url_for_every_supported_platform() {
    let cases = [
        ("windows", "x86_64", "windows-x64.exe"),
        ("windows", "aarch64", "windows-arm64.exe"),
        ("linux", "x86_64", "linux-x64"),
        ("linux", "aarch64", "linux-arm64"),
        ("macos", "x86_64", "osx-x64"),
        ("macos", "aarch64", "osx-arm64"),
    ];
    for (os, arch, tail) in cases {
        let url = voicevox_downloader_url(os, arch).unwrap();
        assert_eq!(url, format!("{BASE}{tail}"));
    }
}

#[test]
fn downloader_url_unsupported_platform() {
    assert_eq!(voicevox_downloader_url("freebsd", "x86_64"), Err(Error::UnsupportedPlatform));
    assert_eq!(voicevox_downloader_url("linux", "riscv64"), Err(Error::UnsupportedPlatform));
    assert_eq!(voicevox_downloader_url("osx", "x86_64"), Err(Error::UnsupportedPlatform));
    assert_eq!(voicevox_downloader_url("", ""), Err(Error::UnsupportedPlatform));
    assert_eq!(voicevox_downloader_url("macos", "x64"), Err(Error::UnsupportedPlatform));
}

#[test]
fn library_file_names() {
    assert_eq!(library_file_name("windows"), Ok("voicevox_core.dll"));
    assert_eq!(library_file_name("linux"), Ok("libvoicevox_core.so"));
    assert_eq!(library_file_name("macos"), Ok("libvoicevox_core.dylib"));
    assert_eq!(library_file_name("ios"), Err(Error::UnsupportedPlatform));
}
