use crate::init::DEFAULT_PIPELINE;
use vstd::prelude::*;

verus! {

/// The name of the subcommand that shows the diff of a change.
pub const SUBCOMMAND_NAME: &'static str = "diff";

/// The options of the `diff` subcommand.
#[derive(Debug)]
pub struct DiffClapOptions<'n> {
    pub change: &'n str,
    pub patchset: &'n str,
    pub pipeline: &'n str,
    pub local: bool,
    pub fips: bool,
    pub fips_git_port: &'n str,
}

impl<'n> Default for DiffClapOptions<'n> {
    fn default() -> (options: Self)
        ensures
            options.change@.len() == 0,
            options.patchset@.len() == 0,
            options.pipeline@ == DEFAULT_PIPELINE@,
            !options.local,
            !options.fips,
            options.fips_git_port@.len() == 0,
    {
        proof {
            reveal_strlit("");
        }
        DiffClapOptions {
            change: "",
            patchset: "",
            pipeline: DEFAULT_PIPELINE,
            local: false,
            fips: false,
            fips_git_port: "",
        }
    }
}

impl<'n> DiffClapOptions<'n> {
    /// The options with the values that the command line gave.
    pub fn new(
        change: &'n str,
        patchset: &'n str,
        pipeline: &'n str,
        local: bool,
        fips: bool,
        fips_git_port: &'n str,
    ) -> (options: Self)
        ensures
            options.change@ == change@,
            options.patchset@ == patchset@,
            options.pipeline@ == pipeline@,
            options.local == local,
            options.fips == fips,
            options.fips_git_port@ == fips_git_port@,
    {
        DiffClapOptions {
            change: change,
            patchset: patchset,
            pipeline: pipeline,
            local: local,
            fips: fips,
            fips_git_port: fips_git_port,
        }
    }

    /// Whether the project on the server is needed to show the diff: it is
    /// not where the diff is against the local branch.
    pub fn needs_project(&self) -> (needed: bool)
        ensures
            needed == !self.local,
    {
        !self.local
    }
}

} // verus!
