use vstd::prelude::*;
use vstd::string::*;

verus! {

/// The release channel of a Rust compiler.
#[derive(Clone, Copy, Debug, PartialEq, Eq, Structural)]
pub enum Channel {
    Dev,
    Nightly,
    Beta,
    Stable,
}

/// A semantic version: numbers, then pre-release and build labels (empty when
/// absent).
pub struct Version {
    pub major: u64,
    pub minor: u64,
    pub patch: u64,
    pub pre: String,
    pub build: String,
}

#[derive(Clone, Copy, Debug, PartialEq, Eq, Structural)]
pub struct LlvmVersion {
    pub major: u64,
    pub minor: u64,
}

/// What is known of the compiler that built this library.
pub struct VersionMeta {
    pub semver: Version,
    pub host: String,
    pub short_version_string: String,
    pub commit_hash: Option<String>,
    pub commit_date: Option<String>,
    pub build_date: Option<String>,
    pub channel: Channel,
    pub llvm_version: Option<LlvmVersion>,
}

pub open spec fn text_is(t: Option<String>, s: Seq<char>) -> bool {
    t matches Some(v) && v@ == s
}

/// The version and metadata of the compiler that built this library:
/// rustc 1.80.1 (stable, commit 3f5fd8dd4 of 2024-08-06, LLVM 18.1) on
/// x86_64 Linux.
pub fn version_meta() -> (r: VersionMeta)
    ensures
        r.semver.major == 1 && r.semver.minor == 80 && r.semver.patch == 1,
        r.semver.pre@ == ""@ && r.semver.build@ == ""@,
        r.host@ == "x86_64-unknown-linux-gnu"@,
        r.short_version_string@ == "rustc 1.80.1 (3f5fd8dd4 2024-08-06)"@,
        text_is(r.commit_hash, "3f5fd8dd41153bc5fdca9427e9e05be2c767ba23"@),
        text_is(r.commit_date, "2024-08-06"@),
        r.build_date is None,
        r.channel == Channel::Stable,
        r.llvm_version == Some(LlvmVersion { major: 18, minor: 1 }),
{
    VersionMeta {
        semver: Version {
            major: 1,
            minor: 80,
            patch: 1,
            pre: String::from_str(""),
            build: String::from_str(""),
        },
        host: String::from_str("x86_64-unknown-linux-gnu"),
        short_version_string: String::from_str("rustc 1.80.1 (3f5fd8dd4 2024-08-06)"),
        commit_hash: Some(String::from_str("3f5fd8dd41153bc5fdca9427e9e05be2c767ba23")),
        commit_date: Some(String::from_str("2024-08-06")),
        build_date: None,
        channel: Channel::Stable,
        llvm_version: Some(LlvmVersion { major: 18, minor: 1 }),
    }
}

} // verus!
