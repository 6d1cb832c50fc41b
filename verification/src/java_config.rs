//! The fixed launch command builder: one default version, constant
//! memory flags and placeholder identity arguments, the first-thread flag
//! on macOS.

use vstd::prelude::*;
use vstd::string::{StrSliceExecFns, StringExecFns};
use crate::java::java_config::{lemma_pair_views_push, pair_views, spec_flatten};
use crate::platform::Platform;
use crate::strutil::{lemma_seq_views_push, seq_views};

verus! {

/// The fixed virtual-machine arguments.
pub open spec fn spec_fixed_jvm_args() -> Seq<Seq<char>> {
    seq!["-Xmx4G"@, "-Xms1G"@]
}

/// The platform arguments: the first-thread flag on macOS, nothing
/// elsewhere.
pub open spec fn spec_fixed_platform_args(platform: Platform) -> Seq<Seq<char>> {
    if platform == Platform::Macos {
        seq!["-XstartOnFirstThread"@]
    } else {
        Seq::<Seq<char>>::empty()
    }
}

/// The fixed game argument pairs, pinned to the default version.
pub open spec fn spec_fixed_game_args() -> Seq<(Seq<char>, Seq<char>)> {
    seq![
        ("--username"@, "Player"@),
        ("--version"@, "1.21.7"@),
        ("--userType"@, "mojang"@),
        ("--versionType"@, "release"@),
        ("--uuid"@, "00000000-0000-0000-0000-000000000000"@),
        ("--accessToken"@, "0"@),
    ]
}

/// The fixed invocation: the runtime from the search path, memory and
/// platform flags, classpath, entry point, flattened game arguments, and
/// the trailing directory and asset-index arguments.
pub open spec fn spec_fixed_command(
    cfg: JavaConfig,
    classpath: Seq<char>,
    main_class: Seq<char>,
    dir: Seq<char>,
    asset_index_id: Seq<char>,
) -> Seq<Seq<char>> {
    seq!["java"@] + seq_views(cfg.jvm_args@) + seq_views(cfg.platform_args@) + seq![
        "-cp"@,
        classpath,
        main_class,
    ] + spec_flatten(pair_views(cfg.game_args@)) + seq![
        "--gameDir"@,
        dir,
        "--assetsDir"@,
        dir + "/assets"@,
        "--assetIndex"@,
        asset_index_id,
    ]
}

/// Configuration for a launch of the default version.
pub struct JavaConfig {
    pub jvm_args: Vec<String>,
    pub platform_args: Vec<String>,
    pub game_args: Vec<(String, String)>,
}

impl JavaConfig {
    /// The default configuration on `platform`.
    pub fn new(platform: Platform) -> (r: JavaConfig)
        ensures
            seq_views(r.jvm_args@) == spec_fixed_jvm_args(),
            seq_views(r.platform_args@) == spec_fixed_platform_args(platform),
            pair_views(r.game_args@) == spec_fixed_game_args(),
    {
        let mut jvm_args: Vec<String> = Vec::new();
        jvm_args.push(String::from_str("-Xmx4G"));
        jvm_args.push(String::from_str("-Xms1G"));
        let mut platform_args: Vec<String> = Vec::new();
        if platform.is_macos() {
            platform_args.push(String::from_str("-XstartOnFirstThread"));
        }
        let mut game_args: Vec<(String, String)> = Vec::new();
        game_args.push((String::from_str("--username"), String::from_str("Player")));
        game_args.push((String::from_str("--version"), String::from_str("1.21.7")));
        game_args.push((String::from_str("--userType"), String::from_str("mojang")));
        game_args.push((String::from_str("--versionType"), String::from_str("release")));
        game_args.push(
            (String::from_str("--uuid"), String::from_str("00000000-0000-0000-0000-000000000000")),
        );
        game_args.push((String::from_str("--accessToken"), String::from_str("0")));
        let r = JavaConfig { jvm_args, platform_args, game_args };
        proof {
            assert(seq_views(r.jvm_args@) =~~= spec_fixed_jvm_args());
            assert(seq_views(r.platform_args@) =~~= spec_fixed_platform_args(platform));
            assert(pair_views(r.game_args@) =~~= spec_fixed_game_args());
        }
        r
    }

    /// The launch invocation for the default version, exactly as
    /// `spec_fixed_command` lays it out.
    pub fn build_command(
        &self,
        classpath: &str,
        main_class: &str,
        minecraft_dir: &str,
        asset_index_id: &str,
    ) -> (r: Vec<String>)
        ensures
            seq_views(r@) == spec_fixed_command(
                *self,
                classpath@,
                main_class@,
                minecraft_dir@,
                asset_index_id@,
            ),
    {
        let mut out: Vec<String> = Vec::new();
        out.push(String::from_str("java"));
        let jn = self.jvm_args.len();
        let mut i: usize = 0;
        while i < jn
            invariant
                jn == self.jvm_args@.len(),
                i <= jn,
                seq_views(out@) =~~= seq!["java"@] + seq_views(self.jvm_args@.take(i as int)),
            decreases jn - i,
        {
            let ghost prev = out@;
            out.push(self.jvm_args[i].clone());
            proof {
                assert(out@ == prev.push(out@[prev.len() as int]));
                lemma_seq_views_push(prev, out@[prev.len() as int]);
                lemma_seq_views_push(self.jvm_args@.take(i as int), self.jvm_args@[i as int]);
                assert(self.jvm_args@.take(i + 1) =~= self.jvm_args@.take(i as int).push(
                    self.jvm_args@[i as int],
                ));
                assert(seq_views(out@) =~~= seq!["java"@] + seq_views(self.jvm_args@.take(i + 1)));
            }
            i += 1;
        }
        proof {
            assert(self.jvm_args@.take(jn as int) =~= self.jvm_args@);
        }
        let pn = self.platform_args.len();
        let mut p: usize = 0;
        while p < pn
            invariant
                pn == self.platform_args@.len(),
                p <= pn,
                seq_views(out@) =~~= seq!["java"@] + seq_views(self.jvm_args@) + seq_views(
                    self.platform_args@.take(p as int),
                ),
            decreases pn - p,
        {
            let ghost prev = out@;
            out.push(self.platform_args[p].clone());
            proof {
                assert(out@ == prev.push(out@[prev.len() as int]));
                lemma_seq_views_push(prev, out@[prev.len() as int]);
                lemma_seq_views_push(
                    self.platform_args@.take(p as int),
                    self.platform_args@[p as int],
                );
                assert(self.platform_args@.take(p + 1) =~= self.platform_args@.take(
                    p as int,
                ).push(self.platform_args@[p as int]));
                assert(seq_views(out@) =~~= seq!["java"@] + seq_views(self.jvm_args@) + seq_views(
                    self.platform_args@.take(p + 1),
                ));
            }
            p += 1;
        }
        proof {
            assert(self.platform_args@.take(pn as int) =~= self.platform_args@);
        }
        out.push(String::from_str("-cp"));
        out.push(String::from_str(classpath));
        out.push(String::from_str(main_class));
        let ghost mid = seq!["java"@] + seq_views(self.jvm_args@) + seq_views(self.platform_args@)
            + seq!["-cp"@, classpath@, main_class@];
        proof {
            assert(seq_views(out@) =~~= mid);
        }
        let gn = self.game_args.len();
        let mut k: usize = 0;
        while k < gn
            invariant
                gn == self.game_args@.len(),
                k <= gn,
                seq_views(out@) =~~= mid + spec_flatten(pair_views(self.game_args@).take(k as int)),
            decreases gn - k,
        {
            let ghost ft = pair_views(self.game_args@);
            let ghost prev = out@;
            proof {
                assert(ft.take(k + 1).drop_last() =~= ft.take(k as int));
                assert(ft.take(k + 1).last() == ft[k as int]);
                assert(ft[k as int] == (self.game_args@[k as int].0@, self.game_args@[
                    k as int].1@));
            }
            out.push(self.game_args[k].0.clone());
            out.push(self.game_args[k].1.clone());
            proof {
                assert(out@ == prev.push(out@[prev.len() as int]).push(
                    out@[prev.len() as int + 1],
                ));
                lemma_seq_views_push(prev, out@[prev.len() as int]);
                lemma_seq_views_push(
                    prev.push(out@[prev.len() as int]),
                    out@[prev.len() as int + 1],
                );
                assert(out@[prev.len() as int]@ == self.game_args@[k as int].0@);
                assert(out@[prev.len() as int + 1]@ == self.game_args@[k as int].1@);
                assert(spec_flatten(ft.take(k + 1)) == spec_flatten(ft.take(k as int)) + seq![
                    ft[k as int].0,
                    ft[k as int].1,
                ]);
                assert(seq_views(out@) =~~= mid + spec_flatten(
                    pair_views(self.game_args@).take(k + 1),
                ));
            }
            k += 1;
        }
        proof {
            assert(pair_views(self.game_args@).take(gn as int) =~= pair_views(self.game_args@));
        }
        out.push(String::from_str("--gameDir"));
        out.push(String::from_str(minecraft_dir));
        out.push(String::from_str("--assetsDir"));
        let mut assets = String::from_str(minecraft_dir);
        assets.append("/assets");
        out.push(assets);
        out.push(String::from_str("--assetIndex"));
        out.push(String::from_str(asset_index_id));
        proof {
            assert(seq_views(out@) =~~= spec_fixed_command(
                *self,
                classpath@,
                main_class@,
                minecraft_dir@,
                asset_index_id@,
            ));
        }
        out
    }
}

} // verus!
