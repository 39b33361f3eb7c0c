//! The start of a program: from its command line to the supervisor of its
//! pipeline. Nothing is built before the command line has been read.

use crate::args::{parse_args, parse_outcome, Config, Role};
use crate::assembly::{assembly_plan, assembly_steps};
use crate::error::PipelineError;
use crate::supervisor::{Command, Supervisor, SupervisorView};
use vstd::prelude::*;

verus! {

/// A program that has read its command line and is about to build its
/// pipeline.
#[derive(Clone, Debug)]
pub struct Launch {
    /// What the program was started with.
    pub config: Config,
    /// The supervisor of the pipeline, of which nothing has been built yet.
    pub supervisor: Supervisor,
    /// The supervisor's first commands.
    pub commands: Vec<Command>,
}

/// Starts the program of `role` with the command line `argv`, which opens
/// with the name by which the program was called. A command line that is
/// not in order is reported, a wrong number of arguments as a usage error,
/// and then there is no supervisor and nothing is commanded, so that
/// nothing is built. Else the supervisor of the pipeline of the
/// configuration is handed out, with its first commands.
pub fn launch(role: Role, argv: &Vec<String>) -> (r: Result<Launch, PipelineError>)
    ensures
        match parse_outcome(role, argv.deep_view()) {
            Ok(config) => r matches Ok(launched) && launched.config@ == config
                && launched.supervisor.wf() && (launched.supervisor@, launched.commands@)
                == SupervisorView::begin(assembly_steps(config)),
            Err(error) => r matches Err(e) && e@ == error,
        },
{
    match parse_args(role, argv) {
        Ok(config) => {
            let (supervisor, commands) = Supervisor::new(assembly_plan(&config));
            Ok(Launch { config, supervisor, commands })
        },
        Err(error) => Err(error),
    }
}

} // verus!
