//! The experiment runner's fixed texts: what is copied where, the command
//! that makes the benchmark executable, the driver's command line, and the
//! name of the log.

use vstd::prelude::*;
use vstd::string::StringExecFns;
use crate::grid::texts;

verus! {

/// The local artifacts of a run and the names they get on the remote host.
#[derive(Clone, Debug)]
pub struct Artifacts {
    /// Local path of the benchmark binary.
    pub bench_local: String,
    /// Local path of the experiment driver script.
    pub script_local: String,
    /// Remote name of the benchmark binary, relative to the login directory.
    pub bench_remote: String,
    /// Remote name of the driver script, relative to the login directory.
    pub script_remote: String,
}

/// The final component of a path, as `std::path::Path::file_name` reads it
/// off the path's text: the file name of a file's path, the directory name
/// of a directory's path, and `None` where the path ends in the component
/// `..` or has no component at all.
///
/// Which characters separate the components is the path syntax of the
/// platform that the library is built for. The file system is not looked
/// at: on one platform the same text always has the same final component,
/// and that is all that is known of it here.
pub uninterp spec fn final_component_of(path: Seq<char>) -> Option<Seq<char>>;

impl Artifacts {
    /// Puts the artifacts together from the local paths and their final
    /// components: `None` as soon as one path has no final component.
    pub fn from_components(
        bench_local: &str,
        script_local: &str,
        bench_name: Option<String>,
        script_name: Option<String>,
    ) -> (r: Option<Artifacts>)
        ensures
            r is Some <==> bench_name is Some && script_name is Some,
            r matches Some(a) ==> {
                &&& a.bench_local@ == bench_local@
                &&& a.script_local@ == script_local@
                &&& a.bench_remote@ == bench_name->0@
                &&& a.script_remote@ == script_name->0@
            },
    {
        match (bench_name, script_name) {
            (Some(bench_remote), Some(script_remote)) => Some(
                Artifacts {
                    bench_local: String::from_str(bench_local),
                    script_local: String::from_str(script_local),
                    bench_remote,
                    script_remote,
                },
            ),
            _ => None,
        }
    }

    /// Derives the remote names: each is the final component of its local
    /// path, and there are artifacts exactly when both paths have one. Two
    /// local paths with one final component collide; that is accepted.
    pub fn derive(bench_local: &str, script_local: &str) -> (r: Option<Artifacts>)
        ensures
            r is Some <==> final_component_of(bench_local@) is Some && final_component_of(
                script_local@,
            ) is Some,
            r matches Some(a) ==> {
                &&& a.bench_local@ == bench_local@
                &&& a.script_local@ == script_local@
                &&& final_component_of(bench_local@) == Some(a.bench_remote@)
                &&& final_component_of(script_local@) == Some(a.script_remote@)
            },
    {
        let bench_name = final_component(bench_local);
        let script_name = final_component(script_local);
        Artifacts::from_components(bench_local, script_local, bench_name, script_name)
    }
}

/// Calls `std::path::Path::file_name` on `path` and hands the final
/// component back as text.
///
/// Unproved claim: what comes back is the final component that the path's
/// text has, `None` where it has none. The component of a path given as
/// UTF-8 text is UTF-8 text itself, so turning it into a `String` loses
/// nothing and never fails.
#[verifier::external_body]
pub(crate) fn final_component(path: &str) -> (name: Option<String>)
    ensures
        match name {
            Some(n) => final_component_of(path@) == Some(n@),
            None => final_component_of(path@) is None,
        },
{
    std::path::Path::new(path).file_name().and_then(|n| n.to_str()).map(|n| n.to_string())
}

pub open spec fn chmod_command_spec(bench_remote: Seq<char>) -> Seq<char> {
    "chmod +x "@ + bench_remote
}

/// The shell command that makes the copied benchmark binary executable.
pub fn chmod_command(bench_remote: &str) -> (cmd: String)
    ensures
        cmd@ == chmod_command_spec(bench_remote@),
{
    let mut cmd = String::from_str("chmod +x ");
    cmd.append(bench_remote);
    cmd
}

pub open spec fn driver_program_spec() -> Seq<char> {
    "python3"@
}

/// The interpreter that runs the experiment driver.
pub fn driver_program() -> (program: &'static str)
    ensures
        program@ == driver_program_spec(),
{
    "python3"
}

/// The driver's arguments: the script, the benchmark binary as a path
/// relative to the current directory, the provider tag.
pub open spec fn driver_args_spec(
    script_remote: Seq<char>,
    bench_remote: Seq<char>,
    provider: Seq<char>,
) -> Seq<Seq<char>> {
    seq![script_remote, "./"@ + bench_remote, provider]
}

pub fn driver_args(script_remote: &str, bench_remote: &str, provider: &str) -> (args: Vec<String>)
    ensures
        texts(args@) == driver_args_spec(script_remote@, bench_remote@, provider@),
{
    let mut bench = String::from_str("./");
    bench.append(bench_remote);
    let mut args: Vec<String> = Vec::new();
    args.push(String::from_str(script_remote));
    args.push(bench);
    args.push(String::from_str(provider));
    assert(texts(args@) =~= driver_args_spec(script_remote@, bench_remote@, provider@));
    args
}

pub open spec fn log_file_name_spec(provider: Seq<char>) -> Seq<char> {
    provider + ".log"@
}

/// The local file that receives the driver's standard output.
pub fn log_file_name(provider: &str) -> (name: String)
    ensures
        name@ == log_file_name_spec(provider@),
{
    let mut name = String::from_str(provider);
    name.append(".log");
    name
}

} // verus!
