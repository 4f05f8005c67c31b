//! Which release asset and which executable belong to a platform.
use vstd::prelude::*;
use vstd::string::*;
use crate::error::{unsupported_architecture, unsupported_file_type, ErrorKind, ResolveError};
use crate::text::ends_with;

verus! {

/// An operating system the editor runs on.
#[derive(Clone, Copy, Debug, PartialEq, Eq, Hash, Structural)]
pub enum Os {
    Mac,
    Linux,
    Windows,
}

/// A processor architecture the editor runs on.
#[derive(Clone, Copy, Debug, PartialEq, Eq, Hash, Structural)]
pub enum Architecture {
    Aarch64,
    X86,
    X8664,
}

/// The container format of a release asset.
#[derive(Clone, Copy, Debug, PartialEq, Eq, Hash, Structural)]
pub enum ArchiveKind {
    Zip,
    GzipTar,
}

/// The file name of the debugger's executable.
pub open spec fn executable_name(os: Os) -> Seq<char> {
    if os is Windows {
        "netcoredbg.exe"@
    } else {
        "netcoredbg"@
    }
}

/// The part of an asset's name that stands for the platform, where a build exists.
/// Windows on AArch64 has no build of its own and takes the 64-bit x86 one.
pub open spec fn platform_arch(os: Os, arch: Architecture) -> Option<Seq<char>> {
    match (os, arch) {
        (_, Architecture::X86) => None,
        (Os::Linux, Architecture::X8664) => Some("linux-amd64"@),
        (Os::Linux, Architecture::Aarch64) => Some("linux-arm64"@),
        (Os::Mac, Architecture::X8664) => Some("osx-amd64"@),
        (Os::Mac, Architecture::Aarch64) => Some("osx-arm64"@),
        (Os::Windows, _) => Some("win64"@),
    }
}

/// The extension of the archives published for an operating system.
pub open spec fn archive_extension(os: Os) -> Seq<char> {
    if os is Windows {
        ".zip"@
    } else {
        ".tar.gz"@
    }
}

/// The name of the release asset for a platform: base name, platform, extension.
pub open spec fn asset_name(os: Os, arch: Architecture) -> Option<Seq<char>> {
    match platform_arch(os, arch) {
        Some(platform) => Some("netcoredbg-"@ + platform + archive_extension(os)),
        None => None,
    }
}

/// The archive kind that a file name's extension stands for.
pub open spec fn archive_kind_of(name: Seq<char>) -> Option<ArchiveKind> {
    if ".zip"@.is_suffix_of(name) {
        Some(ArchiveKind::Zip)
    } else if ".tar.gz"@.is_suffix_of(name) {
        Some(ArchiveKind::GzipTar)
    } else {
        None
    }
}

/// The file name of the debugger's executable on the given operating system.
pub fn get_executable_name(os: Os) -> (r: &'static str)
    ensures
        r@ == executable_name(os),
{
    match os {
        Os::Windows => "netcoredbg.exe",
        _ => "netcoredbg",
    }
}

/// The name of the release asset to download for the given platform.
///
/// Fails for 32-bit x86, whatever the operating system, and for nothing else.
pub fn get_platform_asset_name(os: Os, arch: Architecture) -> (r: Result<String, ResolveError>)
    ensures
        r is Err <==> arch is X86,
        match r {
            Ok(name) => asset_name(os, arch) == Some(name@),
            Err(e) => asset_name(os, arch) is None && e@ == unsupported_architecture(),
        },
{
    let (platform, extension) = match (os, arch) {
        (_, Architecture::X86) => {
            return Err(ResolveError::unsupported_architecture());
        },
        (Os::Linux, Architecture::X8664) => ("linux-amd64", ".tar.gz"),
        (Os::Linux, Architecture::Aarch64) => ("linux-arm64", ".tar.gz"),
        (Os::Mac, Architecture::X8664) => ("osx-amd64", ".tar.gz"),
        (Os::Mac, Architecture::Aarch64) => ("osx-arm64", ".tar.gz"),
        (Os::Windows, _) => ("win64", ".zip"),
    };
    let mut name = String::from_str("netcoredbg-");
    name.append(platform);
    name.append(extension);
    Ok(name)
}

/// The archive kind of an asset, read off its extension.
///
/// `.zip` is a ZIP archive and `.tar.gz` a gzipped tar archive; any other
/// name is refused.
pub fn archive_kind(name: &str) -> (r: Result<ArchiveKind, ResolveError>)
    ensures
        match r {
            Ok(kind) => archive_kind_of(name@) == Some(kind),
            Err(e) => archive_kind_of(name@) is None && e@ == unsupported_file_type(name@),
        },
{
    if ends_with(name, ".zip") {
        Ok(ArchiveKind::Zip)
    } else if ends_with(name, ".tar.gz") {
        Ok(ArchiveKind::GzipTar)
    } else {
        Err(ResolveError::new(ErrorKind::UnsupportedFileType, "Unsupported file type for asset: ", name))
    }
}

/// The asset names, written out: for every platform with a build the name is
/// exactly the one listed here.
pub proof fn asset_name_table(os: Os, arch: Architecture)
    ensures
        arch is X86 ==> asset_name(os, arch) is None,
        os is Linux && arch is X8664 ==> asset_name(os, arch) == Some("netcoredbg-linux-amd64.tar.gz"@),
        os is Linux && arch is Aarch64 ==> asset_name(os, arch) == Some("netcoredbg-linux-arm64.tar.gz"@),
        os is Mac && arch is X8664 ==> asset_name(os, arch) == Some("netcoredbg-osx-amd64.tar.gz"@),
        os is Mac && arch is Aarch64 ==> asset_name(os, arch) == Some("netcoredbg-osx-arm64.tar.gz"@),
        os is Windows && !(arch is X86) ==> asset_name(os, arch) == Some("netcoredbg-win64.zip"@),
{
    reveal_strlit("netcoredbg-");
    reveal_strlit("linux-amd64");
    reveal_strlit("linux-arm64");
    reveal_strlit("osx-amd64");
    reveal_strlit("osx-arm64");
    reveal_strlit("win64");
    reveal_strlit(".zip");
    reveal_strlit(".tar.gz");
    reveal_strlit("netcoredbg-linux-amd64.tar.gz");
    reveal_strlit("netcoredbg-linux-arm64.tar.gz");
    reveal_strlit("netcoredbg-osx-amd64.tar.gz");
    reveal_strlit("netcoredbg-osx-arm64.tar.gz");
    reveal_strlit("netcoredbg-win64.zip");
    if arch is X86 {
    } else if os is Linux && arch is X8664 {
        assert("netcoredbg-"@ + "linux-amd64"@ + ".tar.gz"@ =~= "netcoredbg-linux-amd64.tar.gz"@);
    } else if os is Linux {
        assert("netcoredbg-"@ + "linux-arm64"@ + ".tar.gz"@ =~= "netcoredbg-linux-arm64.tar.gz"@);
    } else if os is Mac && arch is X8664 {
        assert("netcoredbg-"@ + "osx-amd64"@ + ".tar.gz"@ =~= "netcoredbg-osx-amd64.tar.gz"@);
    } else if os is Mac {
        assert("netcoredbg-"@ + "osx-arm64"@ + ".tar.gz"@ =~= "netcoredbg-osx-arm64.tar.gz"@);
    } else {
        assert("netcoredbg-"@ + "win64"@ + ".zip"@ =~= "netcoredbg-win64.zip"@);
    }
}

/// Every asset name has a known archive kind: ZIP on Windows, gzipped tar elsewhere.
pub proof fn asset_name_has_archive_kind(os: Os, arch: Architecture)
    requires
        !(arch is X86),
    ensures
        asset_name(os, arch) is Some,
        archive_kind_of(asset_name(os, arch)->0) == Some(
            if os is Windows {
                ArchiveKind::Zip
            } else {
                ArchiveKind::GzipTar
            },
        ),
{
    let platform = platform_arch(os, arch)->0;
    let head = "netcoredbg-"@ + platform;
    let name = head + archive_extension(os);
    reveal_strlit(".zip");
    reveal_strlit(".tar.gz");
    assert(name.subrange(name.len() - archive_extension(os).len(), name.len() as int)
        =~= archive_extension(os));
    if !(os is Windows) {
        assert(name[name.len() - 1] == 'z');
        assert(".zip"@[3] == 'p');
        if ".zip"@.is_suffix_of(name) {
            assert(name.subrange(name.len() - 4, name.len() as int)[3] == 'p');
        }
    }
}

} // verus!
