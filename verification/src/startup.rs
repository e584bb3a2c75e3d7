//! Starting with Windows: the `reg.exe` command line that registers or
//! unregisters the application under the current user's Run key.
use vstd::prelude::*;

verus! {

/// The registry key, under the current user, whose values Windows runs at logon.
pub open spec fn run_key() -> Seq<char> {
    "HKCU\\SOFTWARE\\Microsoft\\Windows\\CurrentVersion\\Run"@
}

/// The name of the value that holds the application's command.
pub open spec fn run_value_name() -> Seq<char> {
    "PulseStream"@
}

/// The arguments of `reg.exe`: to register, `add` the value with the quoted
/// path of the executable followed by ` --minimized` as its data (so that a
/// launch at logon starts hidden in the tray), overwriting; to unregister,
/// `delete` the value.
pub open spec fn registry_args(enable: bool, exe: Seq<char>) -> Seq<Seq<char>> {
    if enable {
        seq![
            "add"@,
            run_key(),
            "/v"@,
            run_value_name(),
            "/t"@,
            "REG_SZ"@,
            "/d"@,
            "\""@ + exe + "\" --minimized"@,
            "/f"@,
        ]
    } else {
        seq!["delete"@, run_key(), "/v"@, run_value_name(), "/f"@]
    }
}

/// The arguments of the `reg.exe` call that registers (`enable`) or
/// unregisters the executable at `exe` to start with Windows.
pub fn startup_registry_args(enable: bool, exe: &str) -> (r: Vec<String>)
    ensures
        r@.map_values(|s: String| s@) == registry_args(enable, exe@),
{
    let mut args: Vec<String> = Vec::new();
    if enable {
        args.push(String::from_str("add"));
        args.push(String::from_str("HKCU\\SOFTWARE\\Microsoft\\Windows\\CurrentVersion\\Run"));
        args.push(String::from_str("/v"));
        args.push(String::from_str("PulseStream"));
        args.push(String::from_str("/t"));
        args.push(String::from_str("REG_SZ"));
        args.push(String::from_str("/d"));
        let mut quoted = String::from_str("\"");
        quoted.append(exe);
        quoted.append("\" --minimized");
        args.push(quoted);
        args.push(String::from_str("/f"));
    } else {
        args.push(String::from_str("delete"));
        args.push(String::from_str("HKCU\\SOFTWARE\\Microsoft\\Windows\\CurrentVersion\\Run"));
        args.push(String::from_str("/v"));
        args.push(String::from_str("PulseStream"));
        args.push(String::from_str("/f"));
    }
    assert(args@.map_values(|s: String| s@) =~= registry_args(enable, exe@));
    args
}

/// The command-line flag that the Run value adds, so that a launch at logon
/// starts hidden in the tray.
pub open spec fn minimized_flag() -> Seq<char> {
    "--minimized"@
}

/// Whether the program was launched at logon and so starts hidden: one of
/// its command-line arguments is the flag that the Run value adds.  A launch
/// by the user, without the flag, shows the window.
pub fn launched_minimized(args: &Vec<String>) -> (r: bool)
    ensures
        r == exists|i: int| 0 <= i < args.len() && #[trigger] args@[i]@ == minimized_flag(),
{
    let flag = String::from_str("--minimized");
    let mut i: usize = 0;
    while i < args.len()
        invariant
            i <= args.len(),
            flag@ == minimized_flag(),
            forall|j: int| 0 <= j < i ==> #[trigger] args@[j]@ != minimized_flag(),
        decreases args.len() - i,
    {
        if args[i] == flag {
            return true;
        }
        i += 1;
    }
    false
}

} // verus!
