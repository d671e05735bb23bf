//! The names under which `harper-ls` is released and installed.

use crate::platform::{Cpu, Os};
use vstd::prelude::*;

verus! {

/// The name of the release asset built for a platform:
/// `harper-ls-<cpu>-<os>.<extension>`.
pub open spec fn spec_asset_name(os: Os, cpu: Cpu) -> Seq<char> {
    "harper-ls-"@ + cpu.spec_target_tag() + "-"@ + os.spec_target_tag() + "."@
        + os.spec_archive_extension()
}

/// The platform as error messages name it: `<cpu>-<os>`.
pub open spec fn spec_target_name(os: Os, cpu: Cpu) -> Seq<char> {
    cpu.spec_target_tag() + "-"@ + os.spec_target_tag()
}

/// The name of the directory that holds one version: `harper-ls-<version>`.
pub open spec fn spec_version_dir(version: Seq<char>) -> Seq<char> {
    "harper-ls-"@ + version
}

/// The name of the executable file: `harper-ls`, with `.exe` on Windows.
pub open spec fn spec_binary_file(os: Os) -> Seq<char> {
    "harper-ls"@ + os.spec_executable_suffix()
}

/// The path of the executable inside the directory of its version.
pub open spec fn spec_binary_path(version: Seq<char>, os: Os) -> Seq<char> {
    spec_version_dir(version) + "/"@ + spec_binary_file(os)
}

pub fn asset_name(os: Os, cpu: Cpu) -> (name: String)
    ensures
        name@ == spec_asset_name(os, cpu),
{
    let mut name = String::from_str("harper-ls-");
    name.append(cpu.target_tag());
    name.append("-");
    name.append(os.target_tag());
    name.append(".");
    name.append(os.archive_extension());
    name
}

pub fn target_name(os: Os, cpu: Cpu) -> (name: String)
    ensures
        name@ == spec_target_name(os, cpu),
{
    let mut name = String::from_str(cpu.target_tag());
    name.append("-");
    name.append(os.target_tag());
    name
}

pub fn version_dir(version: &str) -> (dir: String)
    ensures
        dir@ == spec_version_dir(version@),
{
    let mut dir = String::from_str("harper-ls-");
    dir.append(version);
    dir
}

pub fn binary_file(os: Os) -> (file: String)
    ensures
        file@ == spec_binary_file(os),
{
    let mut file = String::from_str("harper-ls");
    file.append(os.executable_suffix());
    file
}

pub fn binary_path(version: &str, os: Os) -> (path: String)
    ensures
        path@ == spec_binary_path(version@, os),
{
    let mut path = version_dir(version);
    path.append("/");
    path.append(binary_file(os).as_str());
    path
}

} // verus!
