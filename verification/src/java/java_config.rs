//! The version-aware launch command builder. A parsed `(major, minor,
//! patch)` triple drives three independent compatibility thresholds: a
//! legacy identity argument, legacy display flags, and the native-library
//! search path.

use vstd::prelude::*;
use vstd::string::{StrSliceExecFns, StringExecFns};
use crate::platform::Platform;
use crate::strutil::{
    all_digits,
    contains_char,
    contains_substr,
    has_prefix,
    has_substring,
    parse_u32,
    seq_value,
    seq_views,
    spec_split,
    split_on,
    starts_with,
    str_eq,
};

verus! {

/// `s` is a nonempty digit string whose value fits in a `u32`.
pub open spec fn spec_is_u32(s: Seq<char>) -> bool {
    s.len() > 0 && all_digits(s) && seq_value(s) <= u32::MAX
}

/// The parsed `(major, minor, patch)` triple of a version string. Recent
/// snapshot spellings parse as the newest threshold; otherwise the first
/// two dot-separated parts must be numbers, and a missing or malformed
/// third part counts as zero.
pub open spec fn spec_parse_version(s: Seq<char>) -> Option<(u32, u32, u32)> {
    if (s.contains('w') || has_substring(s, "pre"@) || has_substring(s, "rc"@)) && (has_prefix(
        s,
        "24w"@,
    ) || has_prefix(s, "25w"@)) {
        Some((1u32, 21u32, 0u32))
    } else {
        let parts = spec_split(s, '.');
        if parts.len() >= 2 && spec_is_u32(parts[0]) && spec_is_u32(parts[1]) {
            Some(
                (
                    seq_value(parts[0]) as u32,
                    seq_value(parts[1]) as u32,
                    if parts.len() >= 3 && spec_is_u32(parts[2]) {
                        seq_value(parts[2]) as u32
                    } else {
                        0u32
                    },
                ),
            )
        } else {
            None
        }
    }
}

/// Strict lexicographic order on version triples.
pub open spec fn spec_triple_lt(a: (u32, u32, u32), b: (u32, u32, u32)) -> bool {
    a.0 < b.0 || (a.0 == b.0 && (a.1 < b.1 || (a.1 == b.1 && a.2 < b.2)))
}

/// Whether a version needs the legacy identity argument: releases up to
/// the identity threshold, anything that looks like a snapshot or is too
/// short to parse, and a few named releases.
pub open spec fn spec_needs_user_properties(s: Seq<char>) -> bool {
    ||| (spec_parse_version(s) matches Some(v) && v.0 == 1 && v.1 <= 8)
    ||| s.contains('w')
    ||| has_substring(s, "pre"@)
    ||| has_substring(s, "rc"@)
    ||| s.len() < 3
    ||| s == "1.6.4"@
    ||| s == "1.7.2"@
    ||| s == "1.7.10"@
}

/// Whether a version needs the legacy display flags on macOS: releases up
/// to the display threshold, named releases of that line, and unparseable
/// strings of the oldest line.
pub open spec fn spec_needs_legacy_macos(s: Seq<char>) -> bool {
    ||| (spec_parse_version(s) matches Some(v) && v.0 == 1 && v.1 <= 12)
    ||| s == "1.12.2"@
    ||| s == "1.12.1"@
    ||| s == "1.12"@
    ||| ((s.contains('w') || s.len() < 3 || has_prefix(s, "1."@)) && spec_parse_version(s) is None
        && has_prefix(s, "1."@))
}

/// Whether a version needs the native-library search path: everything
/// before the threshold where the runtime locates natives itself, and
/// anything unparseable.
pub open spec fn spec_needs_natives(s: Seq<char>) -> bool {
    match spec_parse_version(s) {
        Some(v) => spec_triple_lt(v, (1u32, 21u32, 0u32)),
        None => true,
    }
}

/// The views of a sequence of argument pairs.
pub open spec fn pair_views(v: Seq<(String, String)>) -> Seq<(Seq<char>, Seq<char>)> {
    v.map_values(|p: (String, String)| (p.0@, p.1@))
}

/// Appending a pair appends its views.
pub proof fn lemma_pair_views_push(v: Seq<(String, String)>, x: (String, String))
    ensures
        pair_views(v.push(x)) == pair_views(v).push((x.0@, x.1@)),
{
    assert(pair_views(v.push(x)) =~~= pair_views(v).push((x.0@, x.1@)));
}

/// Argument pairs flattened into a single argument list, in order.
pub open spec fn spec_flatten(ps: Seq<(Seq<char>, Seq<char>)>) -> Seq<Seq<char>>
    decreases ps.len(),
{
    if ps.len() == 0 {
        Seq::<Seq<char>>::empty()
    } else {
        spec_flatten(ps.drop_last()) + seq![ps.last().0, ps.last().1]
    }
}

/// The game argument pairs of a version: fixed placeholder identity,
/// channel and version arguments, plus the legacy identity argument where
/// the version needs it.
pub open spec fn spec_game_args(s: Seq<char>) -> Seq<(Seq<char>, Seq<char>)> {
    seq![
        ("--username"@, "Player"@),
        ("--uuid"@, "00000000-0000-0000-0000-000000000000"@),
        ("--accessToken"@, "0"@),
        ("--userType"@, "legacy"@),
        ("--versionType"@, "release"@),
        ("--version"@, s),
    ] + if spec_needs_user_properties(s) {
        seq![("--userProperties"@, "{}"@)]
    } else {
        Seq::<(Seq<char>, Seq<char>)>::empty()
    }
}

/// The virtual-machine arguments: memory bounds everywhere; on macOS the
/// first-thread flag, and the legacy display flag set where the version
/// needs it.
pub open spec fn spec_jvm_args(s: Seq<char>, platform: Platform) -> Seq<Seq<char>> {
    seq!["-Xmx6G"@, "-Xms1G"@] + if platform == Platform::Macos {
        seq!["-XstartOnFirstThread"@] + if spec_needs_legacy_macos(s) {
            seq![
                "-Djava.awt.headless=false"@,
                "-Dapple.awt.application.name=Minecraft"@,
                "-Dos.name=Mac OS X"@,
                "-Dos.version=10.15"@,
                "-Dfile.encoding=UTF-8"@,
            ]
        } else {
            Seq::<Seq<char>>::empty()
        }
    } else {
        Seq::<Seq<char>>::empty()
    }
}

/// Configuration for one launch: virtual-machine arguments, platform
/// arguments, game argument pairs, and the target version.
pub struct JavaConfig {
    pub jvm_args: Vec<String>,
    pub platform_args: Vec<String>,
    pub game_args: Vec<(String, String)>,
    pub version: String,
}

impl JavaConfig {
    /// Builds the configuration for `version` on `platform`.
    pub fn new(version: &str, platform: Platform) -> (r: JavaConfig)
        ensures
            seq_views(r.jvm_args@) == spec_jvm_args(version@, platform),
            pair_views(r.game_args@) == spec_game_args(version@),
            r.platform_args@.len() == 0,
            r.version@ == version@,
    {
        let mut jvm_args: Vec<String> = Vec::new();
        jvm_args.push(String::from_str("-Xmx6G"));
        jvm_args.push(String::from_str("-Xms1G"));
        if platform.is_macos() {
            jvm_args.push(String::from_str("-XstartOnFirstThread"));
            if Self::needs_legacy_macos_args(version) {
                jvm_args.push(String::from_str("-Djava.awt.headless=false"));
                jvm_args.push(String::from_str("-Dapple.awt.application.name=Minecraft"));
                jvm_args.push(String::from_str("-Dos.name=Mac OS X"));
                jvm_args.push(String::from_str("-Dos.version=10.15"));
                jvm_args.push(String::from_str("-Dfile.encoding=UTF-8"));
            }
        }
        let game_args = Self::get_version_specific_args(version);
        let r = JavaConfig {
            jvm_args,
            platform_args: Vec::new(),
            game_args,
            version: String::from_str(version),
        };
        proof {
            assert(seq_views(r.jvm_args@) =~~= spec_jvm_args(version@, platform));
        }
        r
    }

    /// The game argument pairs for `version`, as `spec_game_args` states.
    pub fn get_version_specific_args(version: &str) -> (r: Vec<(String, String)>)
        ensures
            pair_views(r@) == spec_game_args(version@),
    {
        let mut args: Vec<(String, String)> = Vec::new();
        args.push((String::from_str("--username"), String::from_str("Player")));
        args.push(
            (String::from_str("--uuid"), String::from_str("00000000-0000-0000-0000-000000000000")),
        );
        args.push((String::from_str("--accessToken"), String::from_str("0")));
        args.push((String::from_str("--userType"), String::from_str("legacy")));
        args.push((String::from_str("--versionType"), String::from_str("release")));
        args.push((String::from_str("--version"), String::from_str(version)));
        if Self::needs_user_properties(version) {
            args.push((String::from_str("--userProperties"), String::from_str("{}")));
        }
        proof {
            assert(pair_views(args@) =~~= spec_game_args(version@));
        }
        args
    }

    /// Whether `version` needs the legacy identity argument.
    pub fn needs_user_properties(version: &str) -> (r: bool)
        ensures
            r == spec_needs_user_properties(version@),
    {
        match Self::parse_version_number_static(version) {
            Some((major, minor, _)) => {
                if major == 1 && minor <= 8 {
                    return true;
                }
            },
            None => {},
        }
        if contains_char(version, 'w') || contains_substr(version, "pre") || contains_substr(
            version,
            "rc",
        ) || version.unicode_len() < 3 {
            return true;
        }
        if str_eq(version, "1.6.4") || str_eq(version, "1.7.2") || str_eq(version, "1.7.10") {
            return true;
        }
        false
    }

    /// Whether `version` needs the legacy display flags on macOS.
    pub fn needs_legacy_macos_args(version: &str) -> (r: bool)
        ensures
            r == spec_needs_legacy_macos(version@),
    {
        match Self::parse_version_number_static(version) {
            Some((major, minor, _)) => {
                if major == 1 && minor <= 12 {
                    return true;
                }
            },
            None => {},
        }
        if str_eq(version, "1.12.2") || str_eq(version, "1.12.1") || str_eq(version, "1.12") {
            return true;
        }
        if contains_char(version, 'w') || version.unicode_len() < 3 || starts_with(version, "1.") {
            match Self::parse_version_number_static(version) {
                Some((major, minor, _)) => {
                    if major == 1 && minor <= 12 {
                        return true;
                    }
                },
                None => {
                    return starts_with(version, "1.");
                },
            }
        }
        false
    }

    /// Whether this configuration's version needs the native-library
    /// search path.
    pub fn needs_natives_directory(&self) -> (r: bool)
        ensures
            r == spec_needs_natives(self.version@),
    {
        match self.parse_version_number() {
            Some((major, minor, patch)) => {
                major < 1 || (major == 1 && (minor < 21 || (minor == 21 && patch < 0)))
            },
            None => true,
        }
    }

    /// Parses this configuration's version string.
    pub fn parse_version_number(&self) -> (r: Option<(u32, u32, u32)>)
        ensures
            r == spec_parse_version(self.version@),
    {
        Self::parse_version_number_static(self.version.as_str())
    }

    /// Parses a version string into `(major, minor, patch)`, as
    /// `spec_parse_version` states.
    pub fn parse_version_number_static(version: &str) -> (r: Option<(u32, u32, u32)>)
        ensures
            r == spec_parse_version(version@),
    {
        if contains_char(version, 'w') || contains_substr(version, "pre") || contains_substr(
            version,
            "rc",
        ) {
            if starts_with(version, "24w") || starts_with(version, "25w") {
                return Some((1, 21, 0));
            }
        }
        let parts = split_on(version, '.');
        proof {
            assert(forall|i: int|
                0 <= i < parts@.len() ==> seq_views(parts@)[i] == (#[trigger] parts@[i])@);
        }
        if parts.len() >= 2 {
            let p0 = parse_u32(parts[0].as_str());
            let p1 = parse_u32(parts[1].as_str());
            match (p0, p1) {
                (Some(major), Some(minor)) => {
                    let patch: u32 = if parts.len() >= 3 {
                        match parse_u32(parts[2].as_str()) {
                            Some(p) => p,
                            None => 0,
                        }
                    } else {
                        0
                    };
                    Some((major, minor, patch))
                },
                _ => None,
            }
        } else {
            None
        }
    }

    /// The full launch invocation: the runtime executable followed by its
    /// arguments, exactly as `spec_launch_command` lays them out.
    pub fn build_command_with_executable(
        &self,
        java_executable: &str,
        classpath: &str,
        main_class: &str,
        minecraft_dir: &str,
        asset_index_id: &str,
    ) -> (r: Vec<String>)
        ensures
            seq_views(r@) == spec_launch_command(
                *self,
                java_executable@,
                classpath@,
                main_class@,
                minecraft_dir@,
                asset_index_id@,
            ),
    {
        let mut out: Vec<String> = Vec::new();
        out.push(String::from_str(java_executable));
        let jn = self.jvm_args.len();
        let mut i: usize = 0;
        while i < jn
            invariant
                jn == self.jvm_args@.len(),
                i <= jn,
                seq_views(out@) =~~= seq![java_executable@] + seq_views(
                    self.jvm_args@.take(i as int),
                ),
            decreases jn - i,
        {
            let ghost prev = out@;
            out.push(self.jvm_args[i].clone());
            proof {
                assert(out@ == prev.push(out@[prev.len() as int]));
                crate::strutil::lemma_seq_views_push(prev, out@[prev.len() as int]);
                assert(out@[prev.len() as int]@ == self.jvm_args@[i as int]@);
                assert(self.jvm_args@.take(i + 1) =~= self.jvm_args@.take(i as int).push(
                    self.jvm_args@[i as int],
                ));
                crate::strutil::lemma_seq_views_push(
                    self.jvm_args@.take(i as int),
                    self.jvm_args@[i as int],
                );
                assert(seq_views(out@) =~~= seq![java_executable@] + seq_views(
                    self.jvm_args@.take(i + 1),
                ));
            }
            i += 1;
        }
        proof {
            assert(self.jvm_args@.take(jn as int) =~= self.jvm_args@);
        }
        if self.needs_natives_directory() {
            let mut flag = String::from_str("-Djava.library.path=");
            flag.append(minecraft_dir);
            flag.append("/versions/");
            flag.append(self.version.as_str());
            flag.append("/natives");
            proof {
                assert(flag@ =~= "-Djava.library.path="@ + minecraft_dir@ + "/versions/"@
                    + self.version@ + "/natives"@);
            }
            out.push(flag);
        }
        out.push(String::from_str("-Dminecraft.launcher.brand=Dream Launcher"));
        out.push(String::from_str("-Dminecraft.launcher.version=1.0.0"));
        out.push(String::from_str("-cp"));
        out.push(String::from_str(classpath));
        out.push(String::from_str(main_class));
        let ghost mid = seq![java_executable@] + seq_views(self.jvm_args@) + spec_natives_flag(
            self.version@,
            minecraft_dir@,
        ) + seq![
            "-Dminecraft.launcher.brand=Dream Launcher"@,
            "-Dminecraft.launcher.version=1.0.0"@,
            "-cp"@,
            classpath@,
            main_class@,
        ];
        proof {
            assert(seq_views(out@) =~~= mid);
        }
        let gn = self.game_args.len();
        let mut k: usize = 0;
        while k < gn
            invariant
                gn == self.game_args@.len(),
                k <= gn,
                seq_views(out@) =~~= mid + spec_flatten(pair_views(self.game_args@).take(k as int)),
            decreases gn - k,
        {
            let ghost ft = pair_views(self.game_args@);
            let ghost prev = out@;
            proof {
                assert(ft.take(k + 1).drop_last() =~= ft.take(k as int));
                assert(ft.take(k + 1).last() == ft[k as int]);
                assert(ft[k as int] == (self.game_args@[k as int].0@, self.game_args@[
                    k as int].1@));
            }
            out.push(self.game_args[k].0.clone());
            out.push(self.game_args[k].1.clone());
            proof {
                assert(out@ == prev.push(out@[prev.len() as int]).push(
                    out@[prev.len() as int + 1],
                ));
                crate::strutil::lemma_seq_views_push(prev, out@[prev.len() as int]);
                crate::strutil::lemma_seq_views_push(
                    prev.push(out@[prev.len() as int]),
                    out@[prev.len() as int + 1],
                );
                assert(out@[prev.len() as int]@ == self.game_args@[k as int].0@);
                assert(out@[prev.len() as int + 1]@ == self.game_args@[k as int].1@);
                assert(spec_flatten(ft.take(k + 1)) == spec_flatten(ft.take(k as int)) + seq![
                    ft[k as int].0,
                    ft[k as int].1,
                ]);
                assert(seq_views(out@) =~~= mid + spec_flatten(
                    pair_views(self.game_args@).take(k + 1),
                ));
            }
            k += 1;
        }
        proof {
            assert(pair_views(self.game_args@).take(gn as int) =~= pair_views(self.game_args@));
        }
        out.push(String::from_str("--gameDir"));
        out.push(String::from_str(minecraft_dir));
        out.push(String::from_str("--assetsDir"));
        let mut assets = String::from_str(minecraft_dir);
        assets.append("/assets");
        out.push(assets);
        out.push(String::from_str("--assetIndex"));
        out.push(String::from_str(asset_index_id));
        proof {
            assert(seq_views(out@) =~~= spec_launch_command(
                *self,
                java_executable@,
                classpath@,
                main_class@,
                minecraft_dir@,
                asset_index_id@,
            ));
        }
        out
    }
}

/// The native-library search path flag, present exactly when the version
/// needs it.
pub open spec fn spec_natives_flag(version: Seq<char>, dir: Seq<char>) -> Seq<Seq<char>> {
    if spec_needs_natives(version) {
        seq!["-Djava.library.path="@ + dir + "/versions/"@ + version + "/natives"@]
    } else {
        Seq::<Seq<char>>::empty()
    }
}

/// The complete launch invocation of a configuration: executable,
/// virtual-machine arguments, the conditional native-library path, the
/// launcher identity and classpath flags, the entry point, the flattened
/// game arguments, and the trailing directory and asset-index arguments.
pub open spec fn spec_launch_command(
    cfg: JavaConfig,
    exe: Seq<char>,
    classpath: Seq<char>,
    main_class: Seq<char>,
    dir: Seq<char>,
    asset_index_id: Seq<char>,
) -> Seq<Seq<char>> {
    seq![exe] + seq_views(cfg.jvm_args@) + spec_natives_flag(cfg.version@, dir) + seq![
        "-Dminecraft.launcher.brand=Dream Launcher"@,
        "-Dminecraft.launcher.version=1.0.0"@,
        "-cp"@,
        classpath,
        main_class,
    ] + spec_flatten(pair_views(cfg.game_args@)) + seq![
        "--gameDir"@,
        dir,
        "--assetsDir"@,
        dir + "/assets"@,
        "--assetIndex"@,
        asset_index_id,
    ]
}

} // verus!
