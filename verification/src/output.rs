//! Where the configuration files go: the directory, and one file per profile.

use crate::clippy::model::ClippyLevel;
use vstd::prelude::*;

verus! {

/// The file that holds the configuration for a novice.
pub const NOVICE_CONFIGURATION_FILENAME: &'static str = "novice.toml";

/// The file that holds the configuration for an expert.
pub const EXPERT_CONFIGURATION_FILENAME: &'static str = "expert.toml";

/// The file that holds the configuration for a master.
pub const MASTER_CONFIGURATION_FILENAME: &'static str = "master.toml";

/// The directory that holds the configuration files.
pub const CONFIG_DIRECTORY: &'static str = "config";

/// A configuration file that is ready to be written: its name inside the
/// configuration directory, and its whole text.
#[derive(Debug, PartialEq, Eq)]
pub struct ConfigFile {
    pub filename: &'static str,
    pub contents: String,
}

/// The profiles, in the order in which their files are written.
pub open spec fn config_levels() -> Seq<ClippyLevel> {
    seq![ClippyLevel::Novice, ClippyLevel::Expert, ClippyLevel::Master]
}

/// The name of the file that holds the configuration for `level`.
pub open spec fn filename_for(level: ClippyLevel) -> &'static str {
    match level {
        ClippyLevel::Novice => NOVICE_CONFIGURATION_FILENAME,
        ClippyLevel::Expert => EXPERT_CONFIGURATION_FILENAME,
        ClippyLevel::Master => MASTER_CONFIGURATION_FILENAME,
    }
}

/// The name of the file that holds the configuration for `level`.
pub fn filename(level: &ClippyLevel) -> (name: &'static str)
    ensures
        name == filename_for(*level),
{
    match level {
        ClippyLevel::Novice => NOVICE_CONFIGURATION_FILENAME,
        ClippyLevel::Expert => EXPERT_CONFIGURATION_FILENAME,
        ClippyLevel::Master => MASTER_CONFIGURATION_FILENAME,
    }
}

/// `files` are the files of the three profiles, in order, each under its
/// name and with the text that `text` gives for its profile.
pub open spec fn holds_profiles(files: Seq<ConfigFile>, text: spec_fn(ClippyLevel) -> Seq<char>) -> bool {
    &&& files.len() == config_levels().len()
    &&& forall|i: int|
        0 <= i < files.len() ==> {
            &&& (#[trigger] files[i]).filename == filename_for(config_levels()[i])
            &&& files[i].contents@ == text(config_levels()[i])
        }
}

/// Writing twice gives the same files: two results for the same texts have
/// as many files, under the same names, with the same characters.
pub proof fn lemma_output_determined(
    first: Seq<ConfigFile>,
    second: Seq<ConfigFile>,
    text: spec_fn(ClippyLevel) -> Seq<char>,
)
    requires
        holds_profiles(first, text),
        holds_profiles(second, text),
    ensures
        first.len() == second.len(),
        forall|i: int|
            0 <= i < first.len() ==> {
                &&& (#[trigger] first[i]).filename == second[i].filename
                &&& first[i].contents@ == second[i].contents@
            },
{
    assert forall|i: int| 0 <= i < first.len() implies {
        &&& (#[trigger] first[i]).filename == second[i].filename
        &&& first[i].contents@ == second[i].contents@
    } by {
        assert(second[i].filename == filename_for(config_levels()[i]));
    }
}

} // verus!
