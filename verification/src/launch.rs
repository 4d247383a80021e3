//! The viewer commands to try for opening the produced document, per
//! platform, as an ordered list of candidate command lines.

use vstd::prelude::*;
use vstd::string::StringExecFns;

verus! {

/// The kind of host the tool runs on, as far as the launcher cares.
#[derive(Clone, Copy, PartialEq, Eq, Structural, Debug)]
pub enum Platform {
    /// A Windows-class host: the shell's own open association is used.
    Windows,
    /// A macOS-class host: the `open` utility is used.
    MacOs,
    /// Any other Unix-like host: office suites are tried, then `xdg-open`.
    OtherUnix,
}

/// The candidate command lines for opening the document at `path`, in the
/// order they are to be tried: the first one whose process spawns wins.
pub open spec fn launcher_commands_spec(platform: Platform, path: Seq<char>) -> Seq<
    Seq<Seq<char>>,
> {
    match platform {
        Platform::Windows => seq![seq!["cmd"@, "/C"@, "start"@, ""@, path]],
        Platform::MacOs => seq![seq!["open"@, path]],
        Platform::OtherUnix => seq![
            seq!["libreoffice"@, path],
            seq!["openoffice"@, path],
            seq!["xdg-open"@, path],
        ],
    }
}

fn command(words: Vec<String>, path: &str) -> (r: Vec<String>)
    ensures
        r.deep_view() == words.deep_view() + seq![path@],
{
    let ghost w0 = words.deep_view();
    let mut r = words;
    r.push(path.to_owned());
    proof {
        assert(r.deep_view() =~= w0 + seq![path@]);
    }
    r
}

/// Builds the candidate command lines for the platform, each ending in the
/// document's path.
pub fn launcher_commands(platform: Platform, path: &str) -> (r: Vec<Vec<String>>)
    ensures
        r.deep_view() == launcher_commands_spec(platform, path@),
{
    let mut r: Vec<Vec<String>> = Vec::new();
    match platform {
        Platform::Windows => {
            let mut w: Vec<String> = Vec::new();
            w.push(String::from_str("cmd"));
            w.push(String::from_str("/C"));
            w.push(String::from_str("start"));
            w.push(String::from_str(""));
            r.push(command(w, path));
        },
        Platform::MacOs => {
            let mut w: Vec<String> = Vec::new();
            w.push(String::from_str("open"));
            r.push(command(w, path));
        },
        Platform::OtherUnix => {
            let mut w1: Vec<String> = Vec::new();
            w1.push(String::from_str("libreoffice"));
            r.push(command(w1, path));
            let mut w2: Vec<String> = Vec::new();
            w2.push(String::from_str("openoffice"));
            r.push(command(w2, path));
            let mut w3: Vec<String> = Vec::new();
            w3.push(String::from_str("xdg-open"));
            r.push(command(w3, path));
        },
    }
    proof {
        assert(r.deep_view() =~~= launcher_commands_spec(platform, path@));
    }
    r
}

} // verus!
