//! The runtime manager's decision core: which runtime major version a
//! target version requires, where that runtime's archive comes from per
//! platform, where a provisioned runtime lives on disk, and whether a
//! probed system runtime is compatible.

use vstd::prelude::*;
use vstd::string::{StrSliceExecFns, StringExecFns};
use crate::java::java_config::{spec_parse_version, spec_triple_lt, JavaConfig};
use crate::platform::Platform;
use crate::strutil::{
    all_digits,
    has_prefix,
    has_substring,
    has_suffix,
    contains_substr,
    parse_u32,
    seq_value,
    seq_views,
    spec_split,
    split_on,
    u64_to_string,
};

verus! {

/// How a runtime archive is unpacked.
#[derive(Clone, Copy, Debug, PartialEq, Eq, Structural)]
pub enum ArchiveKind {
    Zip,
    TarGz,
    Other,
}

/// One provisionable runtime: its major version, the platform archive it
/// is downloaded as, and that archive's local file name.
pub struct JavaVersion {
    pub major_version: u8,
    pub download_url: String,
    pub filename: String,
}

impl JavaVersion {
    /// A field-for-field copy.
    pub fn duplicate(&self) -> (r: JavaVersion)
        ensures
            r == *self,
    {
        JavaVersion {
            major_version: self.major_version,
            download_url: self.download_url.clone(),
            filename: self.filename.clone(),
        }
    }
}

/// The archive URL of a runtime major version on a platform. Platforms
/// outside the catalog fall back to the macOS archive.
pub open spec fn spec_runtime_url(major: u8, platform: Platform) -> Seq<char> {
    if major == 8 {
        if platform == Platform::Windows {
            "https://github.com/adoptium/temurin8-binaries/releases/download/jdk8u392-b08/OpenJDK8U-jdk_x64_windows_hotspot_8u392b08.zip"@
        } else if platform == Platform::Linux {
            "https://github.com/adoptium/temurin8-binaries/releases/download/jdk8u392-b08/OpenJDK8U-jdk_x64_linux_hotspot_8u392b08.tar.gz"@
        } else {
            "https://github.com/adoptium/temurin8-binaries/releases/download/jdk8u392-b08/OpenJDK8U-jdk_x64_mac_hotspot_8u392b08.tar.gz"@
        }
    } else if major == 17 {
        if platform == Platform::Windows {
            "https://github.com/adoptium/temurin17-binaries/releases/download/jdk-17.0.9%2B9/OpenJDK17U-jdk_x64_windows_hotspot_17.0.9_9.zip"@
        } else if platform == Platform::Linux {
            "https://github.com/adoptium/temurin17-binaries/releases/download/jdk-17.0.9%2B9/OpenJDK17U-jdk_x64_linux_hotspot_17.0.9_9.tar.gz"@
        } else {
            "https://github.com/adoptium/temurin17-binaries/releases/download/jdk-17.0.9%2B9/OpenJDK17U-jdk_x64_mac_hotspot_17.0.9_9.tar.gz"@
        }
    } else {
        if platform == Platform::Windows {
            "https://github.com/adoptium/temurin21-binaries/releases/download/jdk-21.0.1%2B12/OpenJDK21U-jdk_x64_windows_hotspot_21.0.1_12.zip"@
        } else if platform == Platform::Linux {
            "https://github.com/adoptium/temurin21-binaries/releases/download/jdk-21.0.1%2B12/OpenJDK21U-jdk_x64_linux_hotspot_21.0.1_12.tar.gz"@
        } else {
            "https://github.com/adoptium/temurin21-binaries/releases/download/jdk-21.0.1%2B12/OpenJDK21U-jdk_x64_mac_hotspot_21.0.1_12.tar.gz"@
        }
    }
}

/// The local file name of a runtime archive on a platform.
pub open spec fn spec_runtime_filename(major: u8, platform: Platform) -> Seq<char> {
    if major == 8 {
        if platform == Platform::Windows {
            "openjdk-8.zip"@
        } else {
            "openjdk-8.tar.gz"@
        }
    } else if major == 17 {
        if platform == Platform::Windows {
            "openjdk-17.zip"@
        } else {
            "openjdk-17.tar.gz"@
        }
    } else {
        if platform == Platform::Windows {
            "openjdk-21.zip"@
        } else {
            "openjdk-21.tar.gz"@
        }
    }
}

/// The runtime major version a target version requires: a range table
/// over parsed triples — everything before the first threshold takes the
/// oldest runtime, everything before the second the middle one — and the
/// most recent supported major for anything newer or unparseable.
pub open spec fn spec_required_major(version: Option<Seq<char>>) -> u8 {
    match version {
        None => 21,
        Some(s) => match spec_parse_version(s) {
            Some(t) => if spec_triple_lt(t, (1u32, 17u32, 0u32)) {
                8
            } else if spec_triple_lt(t, (1u32, 21u32, 0u32)) {
                17
            } else {
                21
            },
            None => 21,
        },
    }
}

/// The runtime of a manager that `spec_required_major` selects.
pub open spec fn spec_java_for(m: JavaManager, version: Option<Seq<char>>) -> JavaVersion {
    if spec_required_major(version) == 8 {
        m.java8
    } else if spec_required_major(version) == 17 {
        m.java17
    } else {
        m.java21
    }
}

/// Selects and locates runtimes: holds one provisionable runtime per
/// supported major version for one platform.
pub struct JavaManager {
    pub platform: Platform,
    pub java8: JavaVersion,
    pub java17: JavaVersion,
    pub java21: JavaVersion,
}

impl JavaManager {
    /// The runtime archive catalog entry for one supported major version.
    pub fn runtime_spec_for(major: u8, platform: Platform) -> (r: JavaVersion)
        requires
            major == 8 || major == 17 || major == 21,
        ensures
            r.major_version == major,
            r.download_url@ == spec_runtime_url(major, platform),
            r.filename@ == spec_runtime_filename(major, platform),
    {
        if major == 8 {
            match platform {
                Platform::Windows => JavaVersion {
                    major_version: 8,
                    download_url: String::from_str(
                        "https://github.com/adoptium/temurin8-binaries/releases/download/jdk8u392-b08/OpenJDK8U-jdk_x64_windows_hotspot_8u392b08.zip",
                    ),
                    filename: String::from_str("openjdk-8.zip"),
                },
                Platform::Linux => JavaVersion {
                    major_version: 8,
                    download_url: String::from_str(
                        "https://github.com/adoptium/temurin8-binaries/releases/download/jdk8u392-b08/OpenJDK8U-jdk_x64_linux_hotspot_8u392b08.tar.gz",
                    ),
                    filename: String::from_str("openjdk-8.tar.gz"),
                },
                _ => JavaVersion {
                    major_version: 8,
                    download_url: String::from_str(
                        "https://github.com/adoptium/temurin8-binaries/releases/download/jdk8u392-b08/OpenJDK8U-jdk_x64_mac_hotspot_8u392b08.tar.gz",
                    ),
                    filename: String::from_str("openjdk-8.tar.gz"),
                },
            }
        } else if major == 17 {
            match platform {
                Platform::Windows => JavaVersion {
                    major_version: 17,
                    download_url: String::from_str(
                        "https://github.com/adoptium/temurin17-binaries/releases/download/jdk-17.0.9%2B9/OpenJDK17U-jdk_x64_windows_hotspot_17.0.9_9.zip",
                    ),
                    filename: String::from_str("openjdk-17.zip"),
                },
                Platform::Linux => JavaVersion {
                    major_version: 17,
                    download_url: String::from_str(
                        "https://github.com/adoptium/temurin17-binaries/releases/download/jdk-17.0.9%2B9/OpenJDK17U-jdk_x64_linux_hotspot_17.0.9_9.tar.gz",
                    ),
                    filename: String::from_str("openjdk-17.tar.gz"),
                },
                _ => JavaVersion {
                    major_version: 17,
                    download_url: String::from_str(
                        "https://github.com/adoptium/temurin17-binaries/releases/download/jdk-17.0.9%2B9/OpenJDK17U-jdk_x64_mac_hotspot_17.0.9_9.tar.gz",
                    ),
                    filename: String::from_str("openjdk-17.tar.gz"),
                },
            }
        } else {
            match platform {
                Platform::Windows => JavaVersion {
                    major_version: 21,
                    download_url: String::from_str(
                        "https://github.com/adoptium/temurin21-binaries/releases/download/jdk-21.0.1%2B12/OpenJDK21U-jdk_x64_windows_hotspot_21.0.1_12.zip",
                    ),
                    filename: String::from_str("openjdk-21.zip"),
                },
                Platform::Linux => JavaVersion {
                    major_version: 21,
                    download_url: String::from_str(
                        "https://github.com/adoptium/temurin21-binaries/releases/download/jdk-21.0.1%2B12/OpenJDK21U-jdk_x64_linux_hotspot_21.0.1_12.tar.gz",
                    ),
                    filename: String::from_str("openjdk-21.tar.gz"),
                },
                _ => JavaVersion {
                    major_version: 21,
                    download_url: String::from_str(
                        "https://github.com/adoptium/temurin21-binaries/releases/download/jdk-21.0.1%2B12/OpenJDK21U-jdk_x64_mac_hotspot_21.0.1_12.tar.gz",
                    ),
                    filename: String::from_str("openjdk-21.tar.gz"),
                },
            }
        }
    }

    /// A manager holding the three supported runtimes for `platform`.
    pub fn new(platform: Platform) -> (r: JavaManager)
        ensures
            r.platform == platform,
            r.java8.major_version == 8,
            r.java8.download_url@ == spec_runtime_url(8, platform),
            r.java8.filename@ == spec_runtime_filename(8, platform),
            r.java17.major_version == 17,
            r.java17.download_url@ == spec_runtime_url(17, platform),
            r.java17.filename@ == spec_runtime_filename(17, platform),
            r.java21.major_version == 21,
            r.java21.download_url@ == spec_runtime_url(21, platform),
            r.java21.filename@ == spec_runtime_filename(21, platform),
    {
        JavaManager {
            platform,
            java8: Self::runtime_spec_for(8, platform),
            java17: Self::runtime_spec_for(17, platform),
            java21: Self::runtime_spec_for(21, platform),
        }
    }

    /// The runtime a target version requires; the most recent supported
    /// runtime for unknown, unparseable or absent versions.
    pub fn get_java_for_minecraft<'a>(&'a self, minecraft_version: Option<&str>) -> (r:
        &'a JavaVersion)
        ensures
            minecraft_version matches Some(v) ==> *r == spec_java_for(*self, Some(v@)),
            minecraft_version is None ==> *r == spec_java_for(*self, None),
    {
        match minecraft_version {
            None => &self.java21,
            Some(v) => match JavaConfig::parse_version_number_static(v) {
                Some((major, minor, patch)) => {
                    if major < 1 || (major == 1 && minor < 17) {
                        &self.java8
                    } else if major == 1 && minor < 21 {
                        &self.java17
                    } else {
                        &self.java21
                    }
                },
                None => &self.java21,
            },
        }
    }

    /// The per-major directory a provisioned runtime lives in.
    pub fn java_dir_name(major: u8) -> (r: String)
        ensures
            has_prefix(r@, "java-"@),
            r@.len() > "java-"@.len(),
            all_digits(r@.skip("java-"@.len() as int)),
            seq_value(r@.skip("java-"@.len() as int)) == major,
    {
        let digits = u64_to_string(major as u64);
        let mut s = String::from_str("java-");
        s.append(digits.as_str());
        proof {
            assert(s@ =~= "java-"@ + digits@);
            assert(s@.subrange(0, "java-"@.len() as int) =~= "java-"@);
            assert(s@.skip("java-"@.len() as int) =~= digits@);
        }
        s
    }

    /// The runtime executable's file name on a platform.
    pub fn java_executable_name(platform: Platform) -> (r: String)
        ensures
            platform == Platform::Windows ==> r@ == "java.exe"@,
            platform != Platform::Windows ==> r@ == "java"@,
    {
        match platform {
            Platform::Windows => String::from_str("java.exe"),
            _ => String::from_str("java"),
        }
    }

    /// The direct candidate location of a runtime executable below a
    /// provisioning directory.
    pub fn java_bin_path(java_dir: &str, platform: Platform) -> (r: String)
        ensures
            platform == Platform::Windows ==> r@ == java_dir@ + "/bin/"@ + "java.exe"@,
            platform != Platform::Windows ==> r@ == java_dir@ + "/bin/"@ + "java"@,
    {
        let exe = Self::java_executable_name(platform);
        let mut s = String::from_str(java_dir);
        s.append("/bin/");
        s.append(exe.as_str());
        proof {
            assert(s@ =~= java_dir@ + "/bin/"@ + exe@);
        }
        s
    }

    /// Which extractor a runtime archive takes, by its file name: the
    /// system archive expander for zip files, the tape archiver for
    /// compressed tarballs, and nothing for anything else.
    pub fn archive_kind(filename: &str) -> (r: ArchiveKind)
        ensures
            r == ArchiveKind::Zip <==> has_suffix(filename@, ".zip"@),
            r == ArchiveKind::TarGz <==> (!has_suffix(filename@, ".zip"@) && has_suffix(
                filename@,
                ".tar.gz"@,
            )),
    {
        if crate::strutil::ends_with(filename, ".zip") {
            ArchiveKind::Zip
        } else if crate::strutil::ends_with(filename, ".tar.gz") {
            ArchiveKind::TarGz
        } else {
            ArchiveKind::Other
        }
    }

    /// Whether a runtime of this major version has already been
    /// provisioned: a probe of its per-major directory, so nothing is
    /// promised of the answer.
    pub fn is_java_installed(&self, java_version: &JavaVersion) -> bool {
        let dir = Self::java_dir_name(java_version.major_version);
        crate::filesystem::path_exists(dir.as_str())
    }

    /// Whether a probed runtime's version report is compatible with the
    /// required major, as `spec_system_java_compatible` states.
    pub fn is_system_java_compatible(&self, version_output: &str, required_major: u8) -> (r: bool)
        ensures
            r == spec_system_java_compatible(version_output@, required_major),
    {
        if contains_substr(version_output, "1.8.") && required_major == 8 {
            return true;
        }
        let lines = split_on(version_output, '\n');
        let n = lines.len();
        let mut i: usize = 0;
        proof {
            assert(seq_views(lines@).skip(0) =~= seq_views(lines@));
        }
        while i < n
            invariant
                n == lines@.len(),
                i <= n,
                !(has_substring(version_output@, "1.8."@) && required_major == 8),
                spec_scan_lines(seq_views(lines@), required_major) == spec_scan_lines(
                    seq_views(lines@).skip(i as int),
                    required_major,
                ),
                seq_views(lines@) == spec_split(version_output@, '\n'),
            decreases n - i,
        {
            proof {
                assert(seq_views(lines@).skip(i as int)[0] == seq_views(lines@)[i as int]);
                assert(seq_views(lines@)[i as int] == lines@[i as int]@);
                assert(seq_views(lines@).skip(i as int).drop_first() =~= seq_views(lines@).skip(
                    i + 1,
                ));
            }
            match Self::line_verdict(lines[i].as_str(), required_major) {
                Some(b) => {
                    return b;
                },
                None => {},
            }
            i += 1;
        }
        proof {
            assert(seq_views(lines@).skip(n as int) =~= Seq::<Seq<char>>::empty());
        }
        false
    }

    /// The verdict one report line gives: for the first quoted field of a
    /// line that mentions a version, whether its leading dot-component
    /// equals the required major; no verdict otherwise.
    fn line_verdict(line: &str, required_major: u8) -> (r: Option<bool>)
        ensures
            r == spec_line_verdict(line@, required_major),
    {
        if !contains_substr(line, "version") {
            return None;
        }
        let qparts = split_on(line, '"');
        proof {
            assert(forall|t: int|
                0 <= t < qparts@.len() ==> seq_views(qparts@)[t] == (#[trigger] qparts@[t])@);
        }
        if qparts.len() < 2 {
            return None;
        }
        let dparts = split_on(qparts[1].as_str(), '.');
        proof {
            assert(forall|t: int|
                0 <= t < dparts@.len() ==> seq_views(dparts@)[t] == (#[trigger] dparts@[t])@);
        }
        match parse_u32(dparts[0].as_str()) {
            Some(m) => {
                if m <= 255 {
                    Some(m == required_major as u32)
                } else {
                    None
                }
            },
            None => None,
        }
    }
}

/// `s` is a nonempty digit string whose value fits in a `u8`.
pub open spec fn spec_is_u8(s: Seq<char>) -> bool {
    s.len() > 0 && all_digits(s) && seq_value(s) <= 255
}

/// The verdict of one version-report line: if it mentions a version and
/// has a quoted field whose first dot-component is a small number, whether
/// that number equals the required major; otherwise no verdict.
pub open spec fn spec_line_verdict(line: Seq<char>, required: u8) -> Option<bool> {
    if !has_substring(line, "version"@) {
        None
    } else {
        let qparts = spec_split(line, '"');
        if qparts.len() < 2 {
            None
        } else {
            let dparts = spec_split(qparts[1], '.');
            if spec_is_u8(dparts[0]) {
                Some(seq_value(dparts[0]) == required)
            } else {
                None
            }
        }
    }
}

/// The first line with a verdict decides; with none, the report is
/// incompatible.
pub open spec fn spec_scan_lines(lines: Seq<Seq<char>>, required: u8) -> bool
    decreases lines.len(),
{
    if lines.len() == 0 {
        false
    } else {
        match spec_line_verdict(lines[0], required) {
            Some(b) => b,
            None => spec_scan_lines(lines.drop_first(), required),
        }
    }
}

/// A version report is compatible when it names the legacy line and that
/// line's runtime is required, or when the first decisive line agrees
/// with the required major.
pub open spec fn spec_system_java_compatible(s: Seq<char>, required: u8) -> bool {
    (has_substring(s, "1.8."@) && required == 8) || spec_scan_lines(spec_split(s, '\n'), required)
}

} // verus!
