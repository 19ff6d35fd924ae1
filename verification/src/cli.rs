//! The command that a run of the program was given.

use crate::app::{lemma_bound_accepts, Application};
use crate::cmd::{run, Command};
use crate::failure::{Failure, FailureView};
use crate::query::{
    queries_of, to_queries, Category, CpuQuery, DriveQuery, MemoryQuery, NetworkQuery, OsQuery,
    Query, SensorQuery, SwapQuery,
};
use crate::text::texts;
use vstd::prelude::*;

verus! {

/// A span of time: whole seconds and the nanoseconds beyond them.
#[derive(Debug, Clone, Copy, PartialEq, Eq, Structural)]
pub struct Interval {
    pub secs: u64,
    pub nanos: u32,
}

/// What a run of the program was asked to do.
#[derive(Debug, Clone, PartialEq, Eq)]
pub struct Cli {
    /// The pause after each execution of the command; not used where the
    /// command is executed once.
    pub interval: Option<Interval>,
    /// How many times the command is executed; 0 stands for without end.
    pub run_times: u32,
    /// What separates the texts of the fields, with escape sequences as they
    /// were written.
    pub delimiter: String,
    pub cmd: CliCommand,
    /// The template to format in place of the command's own fields.
    pub fmt: Option<String>,
}

/// One command: its category, the name of the entity it asks about where the
/// category takes one, and the fields asked for, in order.
#[derive(Debug, Clone, PartialEq, Eq)]
#[allow(inconsistent_fields)]
pub enum CliCommand {
    Os { queries: Vec<OsQuery> },
    Cpu { name: String, queries: Vec<CpuQuery> },
    Memory { queries: Vec<MemoryQuery> },
    Swap { queries: Vec<SwapQuery> },
    Drive { name: String, queries: Vec<DriveQuery> },
    Sensor { name: String, queries: Vec<SensorQuery> },
    Network { name: String, queries: Vec<NetworkQuery> },
    /// List all available sensors.
    ListSensors,
    /// List all available CPUs.
    ListCpus,
    /// List all available network interfaces.
    ListNetworks,
}

impl CliCommand {
    /// The category of the command.
    pub open spec fn spec_category(&self) -> Category {
        match self {
            CliCommand::Os { .. } => Category::Os,
            CliCommand::Cpu { .. } => Category::Cpu,
            CliCommand::Memory { .. } => Category::Memory,
            CliCommand::Swap { .. } => Category::Swap,
            CliCommand::Drive { .. } => Category::Drive,
            CliCommand::Sensor { .. } => Category::Sensor,
            CliCommand::Network { .. } => Category::Network,
            CliCommand::ListSensors => Category::ListSensors,
            CliCommand::ListCpus => Category::ListCpus,
            CliCommand::ListNetworks => Category::ListNetworks,
        }
    }

    /// The name of the entity that the command asks about; the empty text
    /// where the category takes no name.
    pub open spec fn target_name(&self) -> Seq<char> {
        match self {
            CliCommand::Cpu { name, .. } => name@,
            CliCommand::Drive { name, .. } => name@,
            CliCommand::Sensor { name, .. } => name@,
            CliCommand::Network { name, .. } => name@,
            _ => Seq::empty(),
        }
    }

    /// The fields that the command asks for, each as a query, in order.
    pub open spec fn spec_queries(&self) -> Seq<Query> {
        match self {
            CliCommand::Os { queries } => queries_of(queries@),
            CliCommand::Cpu { queries, .. } => queries_of(queries@),
            CliCommand::Memory { queries } => queries_of(queries@),
            CliCommand::Swap { queries } => queries_of(queries@),
            CliCommand::Drive { queries, .. } => queries_of(queries@),
            CliCommand::Sensor { queries, .. } => queries_of(queries@),
            CliCommand::Network { queries, .. } => queries_of(queries@),
            _ => Seq::empty(),
        }
    }

    #[verifier::when_used_as_spec(spec_category)]
    pub fn category(&self) -> (r: Category)
        ensures
            r == self.spec_category(),
    {
        match self {
            CliCommand::Os { .. } => Category::Os,
            CliCommand::Cpu { .. } => Category::Cpu,
            CliCommand::Memory { .. } => Category::Memory,
            CliCommand::Swap { .. } => Category::Swap,
            CliCommand::Drive { .. } => Category::Drive,
            CliCommand::Sensor { .. } => Category::Sensor,
            CliCommand::Network { .. } => Category::Network,
            CliCommand::ListSensors => Category::ListSensors,
            CliCommand::ListCpus => Category::ListCpus,
            CliCommand::ListNetworks => Category::ListNetworks,
        }
    }

    /// The fields that the command asks for, each as a query, in order.
    pub fn queries(&self) -> (r: Vec<Query>)
        ensures
            r@ == self.spec_queries(),
    {
        match self {
            CliCommand::Os { queries } => to_queries(queries),
            CliCommand::Cpu { queries, .. } => to_queries(queries),
            CliCommand::Memory { queries } => to_queries(queries),
            CliCommand::Swap { queries } => to_queries(queries),
            CliCommand::Drive { queries, .. } => to_queries(queries),
            CliCommand::Sensor { queries, .. } => to_queries(queries),
            CliCommand::Network { queries, .. } => to_queries(queries),
            _ => Vec::new(),
        }
    }

    /// Runs the command on the snapshot of `app`: binds it to its target and
    /// answers all of its queries at once. It yields every text or none.
    pub fn exec(&self, app: &Application) -> (r: Result<Vec<String>, Failure>)
        ensures
            match r {
                Ok(output) => !app.lacks_target(self) && texts(output@) == app.output(self),
                Err(e) => {
                    &&& app.lacks_target(self)
                    &&& e@ == (FailureView::TargetNotFound {
                        category: self.category(),
                        name: self.target_name(),
                    })
                },
            },
    {
        let (mut cmd, queries) = match app.command_from_cli(self) {
            Ok(bound) => bound,
            Err(e) => {
                return Err(e);
            },
        };
        proof {
            lemma_bound_accepts(app, self, Query::Nothing);
            assert forall|i: int| 0 <= i < queries.len() implies cmd.accepts(
                #[trigger] queries[i],
            ) by {
                self.lemma_queries_in_category(i);
                lemma_bound_accepts(app, self, queries[i]);
            }
        }
        Ok(run(&mut cmd, &queries))
    }

    /// Every query of the command is a field of the command's category.
    pub proof fn lemma_queries_in_category(&self, i: int)
        requires
            0 <= i < self.spec_queries().len(),
        ensures
            self.spec_queries()[i].category() == Some(self.spec_category()),
    {
    }
}

} // verus!
