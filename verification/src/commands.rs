//! The textual command surface the shell drives: which pipeline a typed
//! command starts, which version a launch uses when the prompt is left
//! blank, and where the launcher's data folder lives per platform.

use vstd::prelude::*;
use vstd::string::{StrSliceExecFns, StringExecFns};
use crate::platform::Platform;
use crate::strutil::{spec_trim, str_eq, trim};

verus! {

/// What a typed command asks for; anything unrecognized is echoed back
/// as an error line, never a crash.
pub enum LauncherCommand {
    LaunchVanilla,
    LaunchFabric,
    LaunchForge,
    Quit,
    Unknown(String),
}

/// Interprets one input line, whitespace-trimmed.
pub fn parse_command(input: &str) -> (r: LauncherCommand)
    ensures
        r is LaunchVanilla <==> spec_trim(input@) == "1"@,
        r is LaunchFabric <==> spec_trim(input@) == "2"@,
        r is LaunchForge <==> spec_trim(input@) == "3"@,
        r is Quit <==> spec_trim(input@) == "4"@,
        r matches LauncherCommand::Unknown(s) ==> s@ == spec_trim(input@),
{
    proof {
        reveal_strlit("1");
        reveal_strlit("2");
        reveal_strlit("3");
        reveal_strlit("4");
        assert("1"@ =~= seq!['1']);
        assert("2"@ =~= seq!['2']);
        assert("3"@ =~= seq!['3']);
        assert("4"@ =~= seq!['4']);
        assert("1"@[0] == '1' && "2"@[0] == '2' && "3"@[0] == '3' && "4"@[0] == '4');
        assert("1"@ != "2"@ && "1"@ != "3"@ && "1"@ != "4"@);
        assert("2"@ != "3"@ && "2"@ != "4"@ && "3"@ != "4"@);
    }
    let t = trim(input);
    if str_eq(t.as_str(), "1") {
        LauncherCommand::LaunchVanilla
    } else if str_eq(t.as_str(), "2") {
        LauncherCommand::LaunchFabric
    } else if str_eq(t.as_str(), "3") {
        LauncherCommand::LaunchForge
    } else if str_eq(t.as_str(), "4") {
        LauncherCommand::Quit
    } else {
        LauncherCommand::Unknown(t)
    }
}

/// The default version a blank prompt launches.
pub open spec fn spec_default_version() -> Seq<char> {
    "1.21.7"@
}

/// The version a launch uses: the trimmed input, or the default when the
/// prompt was left blank.
pub fn choose_version(input: &str) -> (r: String)
    ensures
        spec_trim(input@).len() == 0 ==> r@ == spec_default_version(),
        spec_trim(input@).len() > 0 ==> r@ == spec_trim(input@),
{
    let t = trim(input);
    if t.as_str().unicode_len() == 0 {
        String::from_str("1.21.7")
    } else {
        t
    }
}

/// The launcher's data folder below the platform's base directory: the
/// application-support tree on macOS, the data directory elsewhere.
pub fn data_folder_path(platform: Platform, base_dir: &str) -> (r: String)
    ensures
        platform == Platform::Macos ==> r@ == base_dir@
            + "/Library/Application Support/DreamLauncher"@,
        platform != Platform::Macos ==> r@ == base_dir@ + "/DreamLauncher"@,
{
    let mut s = String::from_str(base_dir);
    if platform.is_macos() {
        s.append("/Library/Application Support/DreamLauncher");
    } else {
        s.append("/DreamLauncher");
    }
    s
}

} // verus!
