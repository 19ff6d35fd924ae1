//! What has to be read anew before a snapshot is taken for a command.
//!
//! Reading is not done here. This says what a command needs, once for the
//! whole command: a template that names one field many times needs no more
//! than a template that names it once.

use crate::cli::CliCommand;
use crate::query::{Category, OsQuery, Query};
use crate::template::{placeholders, specifiers, terminated};
use crate::text::texts;
use vstd::prelude::*;

verus! {

/// The part of the machine that is read anew.
#[derive(Debug, Clone, Copy, PartialEq, Eq, Structural)]
pub enum Refresh {
    /// Nothing: what the command asks about is read as it is.
    Nothing,
    /// The usage of the CPUs, which takes two readings.
    CpuUsage,
    /// The CPUs, read once.
    CpuList,
    Memory,
    Drives,
    Sensors,
    Networks,
}

/// One step of reading the machine.
#[derive(Debug, Clone, Copy, PartialEq, Eq, Structural)]
pub enum Reading {
    /// Read the CPUs.
    Cpus,
    /// Wait for the shortest time that has to pass between two readings of
    /// the CPUs.
    Pause,
    Memory,
    Drives,
    Sensors,
    Networks,
}

impl Refresh {
    /// The steps in which the part is read, in order. The usage of a CPU is
    /// what it did between two readings, so it takes a reading, a pause and
    /// another reading.
    pub open spec fn spec_steps(self) -> Seq<Reading> {
        match self {
            Refresh::Nothing => seq![],
            Refresh::CpuUsage => seq![Reading::Cpus, Reading::Pause, Reading::Cpus],
            Refresh::CpuList => seq![Reading::Cpus],
            Refresh::Memory => seq![Reading::Memory],
            Refresh::Drives => seq![Reading::Drives],
            Refresh::Sensors => seq![Reading::Sensors],
            Refresh::Networks => seq![Reading::Networks],
        }
    }

    /// The steps in which the part is read, in order.
    pub fn steps(&self) -> (r: Vec<Reading>)
        ensures
            r@ == self.spec_steps(),
    {
        match self {
            Refresh::Nothing => Vec::new(),
            Refresh::CpuUsage => vec![Reading::Cpus, Reading::Pause, Reading::Cpus],
            Refresh::CpuList => vec![Reading::Cpus],
            Refresh::Memory => vec![Reading::Memory],
            Refresh::Drives => vec![Reading::Drives],
            Refresh::Sensors => vec![Reading::Sensors],
            Refresh::Networks => vec![Reading::Networks],
        }
    }
}

/// Whether the usage of all CPUs is among what is asked of the system: among
/// the fields of the command or, where there is a template, among the
/// placeholders of the template. A template that is not terminated asks
/// for nothing.
pub open spec fn asks_cpu_usage(cmd: &CliCommand, fmt: Option<Seq<char>>) -> bool {
    match fmt {
        Some(t) => terminated(t) && exists|i: int|
            0 <= i < placeholders(t).len() && names_cpu_usage(
                cmd.category(),
                #[trigger] placeholders(t)[i],
            ),
        None => cmd.spec_queries().contains(Query::Os(OsQuery::TotalCpuUsage)),
    }
}

/// Whether `k` names the usage of all CPUs in `category`.
pub open spec fn names_cpu_usage(category: Category, k: Seq<char>) -> bool {
    Query::parsed(category, k) == Some(Query::Os(OsQuery::TotalCpuUsage))
}

/// What has to be read anew for `cmd`, with the template `fmt` if there is one.
pub open spec fn refresh_needed(cmd: &CliCommand, fmt: Option<Seq<char>>) -> Refresh {
    match cmd.category() {
        Category::Os => if asks_cpu_usage(cmd, fmt) {
            Refresh::CpuUsage
        } else {
            Refresh::Nothing
        },
        Category::Cpu => Refresh::CpuUsage,
        Category::Memory => Refresh::Memory,
        Category::Swap => Refresh::Memory,
        Category::Drive => Refresh::Drives,
        Category::Sensor => Refresh::Sensors,
        Category::Network => Refresh::Networks,
        Category::ListSensors => Refresh::Sensors,
        Category::ListCpus => Refresh::CpuList,
        Category::ListNetworks => Refresh::Networks,
    }
}

fn in_template(cmd: &CliCommand, fmt: &str) -> (r: bool)
    ensures
        r == asks_cpu_usage(cmd, Some(fmt@)),
{
    let specs = match specifiers(fmt) {
        Ok(specs) => specs,
        Err(_) => {
            return false;
        },
    };
    let mut i: usize = 0;
    while i < specs.len()
        invariant
            i <= specs.len(),
            terminated(fmt@),
            texts(specs@) == placeholders(fmt@),
            forall|j: int|
                0 <= j < i ==> !names_cpu_usage(cmd.category(), #[trigger] placeholders(fmt@)[j]),
        decreases specs.len() - i,
    {
        match Query::from_str(cmd, specs[i].as_str()) {
            Ok(q) => {
                if q == Query::Os(OsQuery::TotalCpuUsage) {
                    assert(names_cpu_usage(cmd.category(), placeholders(fmt@)[i as int]));
                    return true;
                }
            },
            Err(_) => {},
        }
        i += 1;
    }
    false
}

fn in_queries(queries: &Vec<Query>) -> (r: bool)
    ensures
        r == queries@.contains(Query::Os(OsQuery::TotalCpuUsage)),
{
    let mut i: usize = 0;
    while i < queries.len()
        invariant
            i <= queries.len(),
            forall|j: int| 0 <= j < i ==> queries@[j] != Query::Os(OsQuery::TotalCpuUsage),
        decreases queries.len() - i,
    {
        if queries[i] == Query::Os(OsQuery::TotalCpuUsage) {
            return true;
        }
        i += 1;
    }
    false
}

/// Says what has to be read anew before the snapshot for `cmd` is taken.
pub fn refresh_for(cmd: &CliCommand, fmt: Option<&str>) -> (r: Refresh)
    ensures
        r == refresh_needed(
            cmd,
            match fmt {
                Some(t) => Some(t@),
                None => None,
            },
        ),
{
    match cmd.category() {
        Category::Os => {
            let asked = match fmt {
                Some(t) => in_template(cmd, t),
                None => in_queries(&cmd.queries()),
            };
            if asked {
                Refresh::CpuUsage
            } else {
                Refresh::Nothing
            }
        },
        Category::Cpu => Refresh::CpuUsage,
        Category::Memory => Refresh::Memory,
        Category::Swap => Refresh::Memory,
        Category::Drive => Refresh::Drives,
        Category::Sensor => Refresh::Sensors,
        Category::Network => Refresh::Networks,
        Category::ListSensors => Refresh::Sensors,
        Category::ListCpus => Refresh::CpuList,
        Category::ListNetworks => Refresh::Networks,
    }
}

} // verus!
