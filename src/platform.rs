//! Naming of release assets and of the install layout for each platform.

use vstd::prelude::*;
use vstd::string::*;

verus! {

/// Operating systems for which upstream publishes a build.
#[derive(Clone, Copy, Debug, PartialEq, Eq, Structural)]
pub enum Os {
    Mac,
    Linux,
    Windows,
}

/// CPU architectures for which upstream publishes a build.
#[derive(Clone, Copy, Debug, PartialEq, Eq, Structural)]
pub enum Architecture {
    Aarch64,
    X86,
    X8664,
}

/// How a downloaded release archive is unpacked.
#[derive(Clone, Copy, Debug, PartialEq, Eq, Structural)]
pub enum DownloadKind {
    Zip,
    GzipTar,
}

pub open spec fn arch_token_spec(arch: Architecture) -> Seq<char> {
    match arch {
        Architecture::Aarch64 => "aarch64"@,
        Architecture::X86 => "x86"@,
        Architecture::X8664 => "x86_64"@,
    }
}

pub open spec fn os_token_spec(os: Os) -> Seq<char> {
    match os {
        Os::Mac => "apple-darwin"@,
        Os::Linux => "unknown-linux-gnu"@,
        Os::Windows => "pc-windows-msvc"@,
    }
}

pub open spec fn archive_ext_spec(os: Os) -> Seq<char> {
    match os {
        Os::Windows => "zip"@,
        _ => "tar.gz"@,
    }
}

pub open spec fn exe_suffix_spec(os: Os) -> Seq<char> {
    match os {
        Os::Windows => ".exe"@,
        _ => ""@,
    }
}

/// `rumdl-<arch>-<os>.<ext>`.
pub open spec fn asset_name_spec(os: Os, arch: Architecture) -> Seq<char> {
    "rumdl-"@ + arch_token_spec(arch) + "-"@ + os_token_spec(os) + "."@ + archive_ext_spec(os)
}

/// `rumdl-<version>`.
pub open spec fn version_dir_spec(version: Seq<char>) -> Seq<char> {
    "rumdl-"@ + version
}

/// `rumdl-<version>/rumdl`, with `.exe` appended on Windows.
pub open spec fn binary_path_spec(version: Seq<char>, os: Os) -> Seq<char> {
    version_dir_spec(version) + "/rumdl"@ + exe_suffix_spec(os)
}

pub open spec fn download_kind_spec(os: Os) -> DownloadKind {
    match os {
        Os::Windows => DownloadKind::Zip,
        _ => DownloadKind::GzipTar,
    }
}

/// The token that names an architecture in asset file names.
pub fn arch_token(arch: Architecture) -> (r: &'static str)
    ensures
        r@ == arch_token_spec(arch),
{
    match arch {
        Architecture::Aarch64 => "aarch64",
        Architecture::X86 => "x86",
        Architecture::X8664 => "x86_64",
    }
}

/// The target-triple tail that names an operating system in asset file names.
pub fn os_token(os: Os) -> (r: &'static str)
    ensures
        r@ == os_token_spec(os),
{
    match os {
        Os::Mac => "apple-darwin",
        Os::Linux => "unknown-linux-gnu",
        Os::Windows => "pc-windows-msvc",
    }
}

/// The archive extension: `zip` on Windows, `tar.gz` elsewhere.
pub fn archive_ext(os: Os) -> (r: &'static str)
    ensures
        r@ == archive_ext_spec(os),
{
    match os {
        Os::Windows => "zip",
        _ => "tar.gz",
    }
}

/// The executable suffix: `.exe` on Windows, nothing elsewhere.
pub fn exe_suffix(os: Os) -> (r: &'static str)
    ensures
        r@ == exe_suffix_spec(os),
{
    match os {
        Os::Windows => ".exe",
        _ => "",
    }
}

/// The file name of the release asset built for `os` and `arch`.
pub fn asset_name(os: Os, arch: Architecture) -> (r: String)
    ensures
        r@ == asset_name_spec(os, arch),
{
    let mut s = String::from_str("rumdl-");
    s.append(arch_token(arch));
    s.append("-");
    s.append(os_token(os));
    s.append(".");
    s.append(archive_ext(os));
    s
}

/// The install directory of a release version, relative to the working directory.
pub fn version_dir(version: &str) -> (r: String)
    ensures
        r@ == version_dir_spec(version@),
{
    let mut s = String::from_str("rumdl-");
    s.append(version);
    s
}

/// The path of the server binary inside the install directory of `version`.
pub fn binary_path(version: &str, os: Os) -> (r: String)
    ensures
        r@ == binary_path_spec(version@, os),
{
    let mut s = version_dir(version);
    s.append("/rumdl");
    s.append(exe_suffix(os));
    s
}

/// How the asset for `os` is unpacked: zip on Windows, gzip-compressed tar elsewhere.
pub fn download_kind(os: Os) -> (r: DownloadKind)
    ensures
        r == download_kind_spec(os),
{
    match os {
        Os::Windows => DownloadKind::Zip,
        _ => DownloadKind::GzipTar,
    }
}

} // verus!
