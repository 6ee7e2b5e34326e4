use vstd::prelude::*;
use vstd::string::*;

use crate::error::Error;

verus! {

/// Where every downloader is published; the platform's name follows.
pub const DOWNLOADER_URL_BASE: &'static str =
    "https://github.com/VOICEVOX/voicevox_core/releases/latest/download/download-";

/// The name under which the downloader is saved in the asset directory.
pub const DOWNLOADER_FILE_NAME: &'static str = "voicevox_downloader";

/// The dictionary directory that the downloader unpacks beside the library.
pub const DICT_DIR_NAME: &'static str = "open_jtalk_dic_utf_8-1.11";

/// The exports of the engine's shared library that the layer resolves.
pub const INITIALIZE_SYMBOL: &'static str = "voicevox_initialize";

pub const LOAD_MODEL_SYMBOL: &'static str = "voicevox_load_model";

pub const TTS_SYMBOL: &'static str = "voicevox_tts";

pub const WAV_FREE_SYMBOL: &'static str = "voicevox_wav_free";

/// The name that the downloads use for an operating system, for the three
/// systems that have a downloader.
pub open spec fn spec_os_segment(os: Seq<char>) -> Option<Seq<char>> {
    if os == "windows"@ {
        Some("windows"@)
    } else if os == "linux"@ {
        Some("linux"@)
    } else if os == "macos"@ {
        Some("osx"@)
    } else {
        None
    }
}

/// The name that the downloads use for a processor architecture, for the two
/// architectures that have a downloader.
pub open spec fn spec_arch_segment(arch: Seq<char>) -> Option<Seq<char>> {
    if arch == "x86_64"@ {
        Some("x64"@)
    } else if arch == "aarch64"@ {
        Some("arm64"@)
    } else {
        None
    }
}

/// The file extension of an executable on an operating system.
pub open spec fn spec_exe_extension(os: Seq<char>) -> Seq<char> {
    if os == "windows"@ {
        ".exe"@
    } else {
        ""@
    }
}

/// The address of the downloader for an operating system and an architecture,
/// as std names them; `None` where no downloader is published.
pub open spec fn spec_downloader_url(os: Seq<char>, arch: Seq<char>) -> Option<Seq<char>> {
    match (spec_os_segment(os), spec_arch_segment(arch)) {
        (Some(o), Some(a)) => Some(
            DOWNLOADER_URL_BASE@ + o + "-"@ + a + spec_exe_extension(os),
        ),
        _ => None,
    }
}

/// The file name of the engine's shared library on an operating system.
pub open spec fn spec_library_file_name(os: Seq<char>) -> Option<Seq<char>> {
    if os == "windows"@ {
        Some("voicevox_core.dll"@)
    } else if os == "linux"@ {
        Some("libvoicevox_core.so"@)
    } else if os == "macos"@ {
        Some("libvoicevox_core.dylib"@)
    } else {
        None
    }
}

/// A downloader is published exactly for the operating systems windows, linux
/// and macos on the architectures x86_64 and aarch64; its address is the base,
/// the system's name in the downloads (`osx` for macos), a dash, the
/// architecture's (`x64`, `arm64`), and `.exe` on windows.
pub proof fn lemma_downloader_platforms(os: Seq<char>, arch: Seq<char>)
    ensures
        spec_downloader_url(os, arch) is Some <==> ((os == "windows"@ || os == "linux"@ || os
            == "macos"@) && (arch == "x86_64"@ || arch == "aarch64"@)),
        os == "macos"@ && arch == "aarch64"@ ==> spec_downloader_url(os, arch) == Some(
            DOWNLOADER_URL_BASE@ + "osx"@ + "-"@ + "arm64"@ + ""@,
        ),
        os == "windows"@ && arch == "x86_64"@ ==> spec_downloader_url(os, arch) == Some(
            DOWNLOADER_URL_BASE@ + "windows"@ + "-"@ + "x64"@ + ".exe"@,
        ),
        os == "linux"@ && arch == "x86_64"@ ==> spec_downloader_url(os, arch) == Some(
            DOWNLOADER_URL_BASE@ + "linux"@ + "-"@ + "x64"@ + ""@,
        ),
{
    reveal_strlit("windows");
    reveal_strlit("linux");
    reveal_strlit("macos");
    reveal_strlit("x86_64");
    reveal_strlit("aarch64");
    assert("macos"@[0] != "linux"@[0]);
    assert("macos"@ != "windows"@ && "macos"@ != "linux"@);
    assert("aarch64"@.len() == 7 && "x86_64"@.len() == 6);
}

/// Whether two texts hold the same characters.
pub fn same_text(a: &str, b: &str) -> (r: bool)
    ensures
        r == (a@ == b@),
{
    let n = a.unicode_len();
    if n != b.unicode_len() {
        return false;
    }
    let mut i: usize = 0;
    while i < n
        invariant
            n == a@.len(),
            n == b@.len(),
            i <= n,
            forall|j: int| 0 <= j < i ==> a@[j] == b@[j],
        decreases n - i,
    {
        if a.get_char(i) != b.get_char(i) {
            return false;
        }
        i = i + 1;
    }
    assert(a@ =~= b@);
    true
}

fn os_segment(os: &str) -> (r: Option<&'static str>)
    ensures
        r matches Some(s) ==> spec_os_segment(os@) == Some(s@),
        r is None ==> spec_os_segment(os@) is None,
{
    if same_text(os, "windows") {
        Some("windows")
    } else if same_text(os, "linux") {
        Some("linux")
    } else if same_text(os, "macos") {
        Some("osx")
    } else {
        None
    }
}

fn arch_segment(arch: &str) -> (r: Option<&'static str>)
    ensures
        r matches Some(s) ==> spec_arch_segment(arch@) == Some(s@),
        r is None ==> spec_arch_segment(arch@) is None,
{
    if same_text(arch, "x86_64") {
        Some("x64")
    } else if same_text(arch, "aarch64") {
        Some("arm64")
    } else {
        None
    }
}

/// The address of the downloader for `os` and `arch`, given as
/// `std::env::consts` names them. Fails with `UnsupportedPlatform` on an
/// operating system other than windows, linux and macos, or an architecture
/// other than x86_64 and aarch64.
pub fn voicevox_downloader_url(os: &str, arch: &str) -> (r: Result<String, Error>)
    ensures
        r is Ok <==> spec_downloader_url(os@, arch@) is Some,
        r matches Ok(u) ==> spec_downloader_url(os@, arch@) == Some(u@),
        r matches Err(e) ==> e == Error::UnsupportedPlatform,
{
    let o = match os_segment(os) {
        Some(o) => o,
        None => return Err(Error::UnsupportedPlatform),
    };
    let a = match arch_segment(arch) {
        Some(a) => a,
        None => return Err(Error::UnsupportedPlatform),
    };
    let mut url = String::from_str(DOWNLOADER_URL_BASE);
    url.append(o);
    url.append("-");
    url.append(a);
    if same_text(os, "windows") {
        url.append(".exe");
    } else {
        url.append("");
    }
    Ok(url)
}

/// The file name of the engine's shared library on `os`. Fails with
/// `UnsupportedPlatform` on an operating system other than windows, linux and
/// macos.
pub fn library_file_name(os: &str) -> (r: Result<&'static str, Error>)
    ensures
        r is Ok <==> spec_library_file_name(os@) is Some,
        r matches Ok(n) ==> spec_library_file_name(os@) == Some(n@),
        r matches Err(e) ==> e == Error::UnsupportedPlatform,
{
    if same_text(os, "windows") {
        Ok("voicevox_core.dll")
    } else if same_text(os, "linux") {
        Ok("libvoicevox_core.so")
    } else if same_text(os, "macos") {
        Ok("libvoicevox_core.dylib")
    } else {
        Err(Error::UnsupportedPlatform)
    }
}

} // verus!
