//! The commands: each is bound to the part of a snapshot that it asks about
//! and renders the fields of its category as text.
//!
//! A command of a category with fields answers a query with one text, and
//! `Query::Nothing` with none. A listing command answers every query with the
//! names of all the entities of its kind, in the order of the snapshot.

use crate::app::Application;
use crate::query::{
    CpuQuery, DriveQuery, MemoryQuery, NetworkQuery, OsQuery, Query, SensorQuery, SwapQuery,
};
use crate::snapshot::{
    list, names, CpuInfo, DriveInfo, DriveView, LoadAverage, MemoryInfo, NetworkInfo, SensorInfo,
    SwapInfo, SystemInfo,
};
use crate::text::{decimal, decimal_text, owned, texts};
use crate::units::{data_text, DataUnit, DataValue};
use vstd::prelude::*;
use vstd::string::*;

verus! {

/// Something that answers queries with text.
pub trait Command {
    /// Whether the command answers `q`.
    spec fn accepts(&self, q: Query) -> bool;

    /// The texts with which the command answers `q`.
    spec fn answer(&self, q: Query) -> Seq<Seq<char>>;

    fn exec(&mut self, q: Query) -> (out: Vec<String>)
        requires
            old(self).accepts(q),
        ensures
            texts(out@) == old(self).answer(q),
            forall|p: Query| final(self).accepts(p) == old(self).accepts(p),
            forall|p: Query| final(self).answer(p) == old(self).answer(p),
    ;
}

/// The text of an optional string: empty where there is none.
pub open spec fn text_or_empty(s: Option<String>) -> Seq<char> {
    match s {
        Some(t) => t@,
        None => Seq::empty(),
    }
}

/// The text of a yes or no: `1` or `0`.
pub open spec fn flag_text(b: bool) -> Seq<char> {
    if b {
        seq!['1']
    } else {
        seq!['0']
    }
}

/// One load average of the three; empty where the system has none.
pub open spec fn load_text(load: Option<LoadAverage>, f: OsQuery) -> Seq<char> {
    match load {
        Some(l) => match f {
            OsQuery::LoadAverage1m => l.one.text(),
            OsQuery::LoadAverage5m => l.five.text(),
            _ => l.fifteen.text(),
        },
        None => Seq::empty(),
    }
}

/// The text of field `f` of the system.
pub open spec fn os_text(sys: &SystemInfo, f: OsQuery) -> Seq<char> {
    match f {
        OsQuery::BootTime => decimal(sys.boot_time as nat),
        OsQuery::LoadAverage1m => load_text(sys.load_average, f),
        OsQuery::LoadAverage5m => load_text(sys.load_average, f),
        OsQuery::LoadAverage15m => load_text(sys.load_average, f),
        OsQuery::Name => text_or_empty(sys.name),
        OsQuery::KernelVersion => text_or_empty(sys.kernel_version),
        OsQuery::Version => text_or_empty(sys.os_version),
        OsQuery::LongVersion => text_or_empty(sys.long_os_version),
        OsQuery::ReleaseId => sys.distribution_id@,
        OsQuery::HostName => text_or_empty(sys.host_name),
        OsQuery::PhysicalCoreCount => match sys.physical_core_count {
            Some(n) => decimal(n as nat),
            None => Seq::empty(),
        },
        OsQuery::TotalCpuUsage => sys.global_cpu_usage.text(),
        OsQuery::CpuArch => text_or_empty(sys.cpu_arch),
    }
}

/// The text of field `f` of a CPU.
pub open spec fn cpu_text(cpu: &CpuInfo, f: CpuQuery) -> Seq<char> {
    match f {
        CpuQuery::Usage => cpu.usage.text(),
        CpuQuery::Frequency => decimal(cpu.frequency as nat),
        CpuQuery::Brand => cpu.brand@,
        CpuQuery::VendorId => cpu.vendor_id@,
    }
}

/// The text of field `f` of the memory, in `unit`.
pub open spec fn memory_text(memory: MemoryInfo, unit: DataUnit, f: MemoryQuery) -> Seq<char> {
    match f {
        MemoryQuery::Usage => data_text(memory.used as nat, unit),
        MemoryQuery::Total => data_text(memory.total as nat, unit),
        MemoryQuery::Available => data_text(memory.available as nat, unit),
        MemoryQuery::Free => data_text(memory.free as nat, unit),
    }
}

/// The text of field `f` of the swap memory, in `unit`.
pub open spec fn swap_text(swap: SwapInfo, unit: DataUnit, f: SwapQuery) -> Seq<char> {
    match f {
        SwapQuery::Usage => data_text(swap.used as nat, unit),
        SwapQuery::Total => data_text(swap.total as nat, unit),
        SwapQuery::Available => data_text(swap.free as nat, unit),
    }
}

/// The text of field `f` of a drive, amounts of space in `unit`.
pub open spec fn drive_text(drive: DriveView, unit: DataUnit, f: DriveQuery) -> Seq<char> {
    match f {
        DriveQuery::Usage => data_text(drive.used_space(), unit),
        DriveQuery::Fs => drive.file_system,
        DriveQuery::IsRemovable => flag_text(drive.is_removable),
        DriveQuery::Kind => drive.kind,
        DriveQuery::MountPoint => drive.mount_point,
        DriveQuery::Total => data_text(drive.total_space, unit),
        DriveQuery::Available => data_text(drive.available_space, unit),
    }
}

/// The text of field `f` of a sensor; empty for a critical temperature that
/// the sensor does not define.
pub open spec fn sensor_text(sensor: &SensorInfo, f: SensorQuery) -> Seq<char> {
    match f {
        SensorQuery::CriticalTemp => match sensor.critical {
            Some(t) => t.text(),
            None => Seq::empty(),
        },
        SensorQuery::MaxTemp => sensor.max.text(),
        SensorQuery::Temperature => sensor.temperature.text(),
    }
}

/// The text of field `f` of a network interface, amounts of data in `unit`.
pub open spec fn network_text(network: &NetworkInfo, unit: DataUnit, f: NetworkQuery) -> Seq<
    char,
> {
    match f {
        NetworkQuery::MacAddress => network.mac_address@,
        NetworkQuery::TotalIncomingErrors => decimal(network.total_errors_on_received as nat),
        NetworkQuery::TotalOutcomingErrors => decimal(network.total_errors_on_transmitted as nat),
        NetworkQuery::TotalReceivedData => data_text(network.total_received as nat, unit),
        NetworkQuery::TotalTransmittedData => data_text(network.total_transmitted as nat, unit),
        NetworkQuery::TotalReceivedPackets => decimal(network.total_packets_received as nat),
        NetworkQuery::TotalTransmittedPackets => decimal(
            network.total_packets_transmitted as nat,
        ),
    }
}

fn optional_text(s: &Option<String>) -> (r: String)
    ensures
        r@ == text_or_empty(*s),
{
    match s {
        Some(t) => t.clone(),
        None => String::new(),
    }
}

fn flag(b: bool) -> (r: String)
    ensures
        r@ == flag_text(b),
{
    proof {
        reveal_strlit("1");
        reveal_strlit("0");
    }
    if b {
        owned("1")
    } else {
        owned("0")
    }
}

fn load(average: &Option<LoadAverage>, f: OsQuery) -> (r: String)
    ensures
        r@ == load_text(*average, f),
{
    match average {
        Some(l) => match f {
            OsQuery::LoadAverage1m => l.one.render(),
            OsQuery::LoadAverage5m => l.five.render(),
            _ => l.fifteen.render(),
        },
        None => String::new(),
    }
}

fn data(bytes: u64, unit: DataUnit) -> (r: String)
    ensures
        r@ == data_text(bytes as nat, unit),
{
    DataValue::from_bytes(bytes, unit).value_str()
}

/// Answers for the operating system.
pub struct OsCommand<'a> {
    pub app: &'a Application,
}

impl Command for OsCommand<'_> {
    open spec fn accepts(&self, q: Query) -> bool {
        q is Nothing || q is Os
    }

    open spec fn answer(&self, q: Query) -> Seq<Seq<char>> {
        match q {
            Query::Os(f) => seq![os_text(&self.app.sys, f)],
            _ => Seq::empty(),
        }
    }

    fn exec(&mut self, q: Query) -> (out: Vec<String>) {
        let sys = &self.app.sys;
        match q {
            Query::Os(f) => {
                let s = match f {
                    OsQuery::BootTime => decimal_text(sys.boot_time as u128),
                    OsQuery::LoadAverage1m => load(&sys.load_average, f),
                    OsQuery::LoadAverage5m => load(&sys.load_average, f),
                    OsQuery::LoadAverage15m => load(&sys.load_average, f),
                    OsQuery::Name => optional_text(&sys.name),
                    OsQuery::KernelVersion => optional_text(&sys.kernel_version),
                    OsQuery::Version => optional_text(&sys.os_version),
                    OsQuery::LongVersion => optional_text(&sys.long_os_version),
                    OsQuery::ReleaseId => sys.distribution_id.clone(),
                    OsQuery::HostName => optional_text(&sys.host_name),
                    OsQuery::PhysicalCoreCount => match sys.physical_core_count {
                        Some(n) => decimal_text(n as u128),
                        None => String::new(),
                    },
                    OsQuery::TotalCpuUsage => sys.global_cpu_usage.render(),
                    OsQuery::CpuArch => optional_text(&sys.cpu_arch),
                };
                vec![s]
            },
            _ => Vec::new(),
        }
    }
}

impl<'a> OsCommand<'a> {
    pub fn new(app: &'a Application) -> (r: Self)
        ensures
            r.app == app,
    {
        Self { app }
    }
}

/// Answers for one CPU.
pub struct CpuCommand<'a> {
    pub cpu: &'a CpuInfo,
}

impl Command for CpuCommand<'_> {
    open spec fn accepts(&self, q: Query) -> bool {
        q is Nothing || q is Cpu
    }

    open spec fn answer(&self, q: Query) -> Seq<Seq<char>> {
        match q {
            Query::Cpu(f) => seq![cpu_text(self.cpu, f)],
            _ => Seq::empty(),
        }
    }

    fn exec(&mut self, q: Query) -> (out: Vec<String>) {
        match q {
            Query::Cpu(f) => {
                let s = match f {
                    CpuQuery::Usage => self.cpu.usage.render(),
                    CpuQuery::Frequency => decimal_text(self.cpu.frequency as u128),
                    CpuQuery::Brand => self.cpu.brand.clone(),
                    CpuQuery::VendorId => self.cpu.vendor_id.clone(),
                };
                vec![s]
            },
            _ => Vec::new(),
        }
    }
}

impl<'a> CpuCommand<'a> {
    pub fn new(cpu: &'a CpuInfo) -> (r: Self)
        ensures
            r.cpu == cpu,
    {
        Self { cpu }
    }
}

/// Answers for the memory.
pub struct MemoryCommand<'a> {
    pub app: &'a Application,
    pub data_unit: DataUnit,
}

impl Command for MemoryCommand<'_> {
    open spec fn accepts(&self, q: Query) -> bool {
        q is Nothing || q is Memory
    }

    open spec fn answer(&self, q: Query) -> Seq<Seq<char>> {
        match q {
            Query::Memory(f) => seq![memory_text(self.app.sys.memory, self.data_unit, f)],
            _ => Seq::empty(),
        }
    }

    fn exec(&mut self, q: Query) -> (out: Vec<String>) {
        let memory = &self.app.sys.memory;
        match q {
            Query::Memory(f) => {
                let value = match f {
                    MemoryQuery::Usage => memory.used,
                    MemoryQuery::Total => memory.total,
                    MemoryQuery::Available => memory.available,
                    MemoryQuery::Free => memory.free,
                };
                vec![data(value, self.data_unit)]
            },
            _ => Vec::new(),
        }
    }
}

impl<'a> MemoryCommand<'a> {
    pub fn new(app: &'a Application, data_unit: DataUnit) -> (r: Self)
        ensures
            r.app == app,
            r.data_unit == data_unit,
    {
        Self { app, data_unit }
    }
}

/// Answers for the swap memory.
pub struct SwapCommand<'a> {
    pub app: &'a Application,
    pub data_unit: DataUnit,
}

impl Command for SwapCommand<'_> {
    open spec fn accepts(&self, q: Query) -> bool {
        q is Nothing || q is Swap
    }

    open spec fn answer(&self, q: Query) -> Seq<Seq<char>> {
        match q {
            Query::Swap(f) => seq![swap_text(self.app.sys.swap, self.data_unit, f)],
            _ => Seq::empty(),
        }
    }

    fn exec(&mut self, q: Query) -> (out: Vec<String>) {
        let swap = &self.app.sys.swap;
        match q {
            Query::Swap(f) => {
                let value = match f {
                    SwapQuery::Usage => swap.used,
                    SwapQuery::Total => swap.total,
                    SwapQuery::Available => swap.free,
                };
                vec![data(value, self.data_unit)]
            },
            _ => Vec::new(),
        }
    }
}

impl<'a> SwapCommand<'a> {
    pub fn new(app: &'a Application, data_unit: DataUnit) -> (r: Self)
        ensures
            r.app == app,
            r.data_unit == data_unit,
    {
        Self { app, data_unit }
    }
}

/// Answers for one drive.
pub struct DriveCommand<'a> {
    pub drive: &'a DriveInfo,
    pub data_unit: DataUnit,
}

impl Command for DriveCommand<'_> {
    open spec fn accepts(&self, q: Query) -> bool {
        q is Nothing || q is Drive
    }

    open spec fn answer(&self, q: Query) -> Seq<Seq<char>> {
        match q {
            Query::Drive(f) => seq![drive_text(self.drive@, self.data_unit, f)],
            _ => Seq::empty(),
        }
    }

    fn exec(&mut self, q: Query) -> (out: Vec<String>) {
        let total_space = self.drive.total_space();
        let avail_space = self.drive.available_space();
        let used_space = self.drive.used_space();
        match q {
            Query::Drive(f) => {
                let s = match f {
                    DriveQuery::Usage => data(used_space, self.data_unit),
                    DriveQuery::Fs => owned(self.drive.file_system()),
                    DriveQuery::IsRemovable => flag(self.drive.is_removable()),
                    DriveQuery::Kind => owned(self.drive.kind()),
                    DriveQuery::MountPoint => owned(self.drive.mount_point()),
                    DriveQuery::Total => data(total_space, self.data_unit),
                    DriveQuery::Available => data(avail_space, self.data_unit),
                };
                vec![s]
            },
            _ => Vec::new(),
        }
    }
}

impl<'a> DriveCommand<'a> {
    pub fn new(drive: &'a DriveInfo, data_unit: DataUnit) -> (r: Self)
        ensures
            r.drive == drive,
            r.data_unit == data_unit,
    {
        Self { drive, data_unit }
    }
}

/// Answers for one sensor.
pub struct SensorCommand<'a> {
    pub sensor: &'a SensorInfo,
}

impl Command for SensorCommand<'_> {
    open spec fn accepts(&self, q: Query) -> bool {
        q is Nothing || q is Sensor
    }

    open spec fn answer(&self, q: Query) -> Seq<Seq<char>> {
        match q {
            Query::Sensor(f) => seq![sensor_text(self.sensor, f)],
            _ => Seq::empty(),
        }
    }

    fn exec(&mut self, q: Query) -> (out: Vec<String>) {
        match q {
            Query::Sensor(f) => {
                let s = match f {
                    SensorQuery::CriticalTemp => match self.sensor.critical {
                        Some(t) => t.render(),
                        None => String::new(),
                    },
                    SensorQuery::MaxTemp => self.sensor.max.render(),
                    SensorQuery::Temperature => self.sensor.temperature.render(),
                };
                vec![s]
            },
            _ => Vec::new(),
        }
    }
}

impl<'a> SensorCommand<'a> {
    pub fn new(sensor: &'a SensorInfo) -> (r: Self)
        ensures
            r.sensor == sensor,
    {
        Self { sensor }
    }
}

/// Answers for one network interface.
pub struct NetworkCommand<'a> {
    pub network: &'a NetworkInfo,
    pub data_unit: DataUnit,
}

impl Command for NetworkCommand<'_> {
    open spec fn accepts(&self, q: Query) -> bool {
        q is Nothing || q is Network
    }

    open spec fn answer(&self, q: Query) -> Seq<Seq<char>> {
        match q {
            Query::Network(f) => seq![network_text(self.network, self.data_unit, f)],
            _ => Seq::empty(),
        }
    }

    fn exec(&mut self, q: Query) -> (out: Vec<String>) {
        let network = self.network;
        match q {
            Query::Network(f) => {
                let s = match f {
                    NetworkQuery::MacAddress => network.mac_address.clone(),
                    NetworkQuery::TotalIncomingErrors => decimal_text(
                        network.total_errors_on_received as u128,
                    ),
                    NetworkQuery::TotalOutcomingErrors => decimal_text(
                        network.total_errors_on_transmitted as u128,
                    ),
                    NetworkQuery::TotalReceivedData => data(network.total_received, self.data_unit),
                    NetworkQuery::TotalTransmittedData => data(
                        network.total_transmitted,
                        self.data_unit,
                    ),
                    NetworkQuery::TotalReceivedPackets => decimal_text(
                        network.total_packets_received as u128,
                    ),
                    NetworkQuery::TotalTransmittedPackets => decimal_text(
                        network.total_packets_transmitted as u128,
                    ),
                };
                vec![s]
            },
            _ => Vec::new(),
        }
    }
}

impl<'a> NetworkCommand<'a> {
    pub fn new(network: &'a NetworkInfo, data_unit: DataUnit) -> (r: Self)
        ensures
            r.network == network,
            r.data_unit == data_unit,
    {
        Self { network, data_unit }
    }
}

/// Lists the names of the CPUs.
pub struct ListCpusCommand<'a> {
    pub app: &'a Application,
}

impl Command for ListCpusCommand<'_> {
    open spec fn accepts(&self, q: Query) -> bool {
        true
    }

    open spec fn answer(&self, q: Query) -> Seq<Seq<char>> {
        names(self.app.sys.cpus@)
    }

    fn exec(&mut self, _q: Query) -> (out: Vec<String>) {
        list(&self.app.sys.cpus)
    }
}

impl<'a> ListCpusCommand<'a> {
    pub fn new(app: &'a Application) -> (r: Self)
        ensures
            r.app == app,
    {
        Self { app }
    }
}

/// Lists the labels of the sensors.
pub struct ListSensorsCommand<'a> {
    pub app: &'a Application,
}

impl Command for ListSensorsCommand<'_> {
    open spec fn accepts(&self, q: Query) -> bool {
        true
    }

    open spec fn answer(&self, q: Query) -> Seq<Seq<char>> {
        names(self.app.sensors@)
    }

    fn exec(&mut self, _q: Query) -> (out: Vec<String>) {
        list(&self.app.sensors)
    }
}

impl<'a> ListSensorsCommand<'a> {
    pub fn new(app: &'a Application) -> (r: Self)
        ensures
            r.app == app,
    {
        Self { app }
    }
}

/// Lists the names of the network interfaces.
pub struct ListNetworksCommand<'a> {
    pub app: &'a Application,
}

impl Command for ListNetworksCommand<'_> {
    open spec fn accepts(&self, q: Query) -> bool {
        true
    }

    open spec fn answer(&self, q: Query) -> Seq<Seq<char>> {
        names(self.app.networks@)
    }

    fn exec(&mut self, _q: Query) -> (out: Vec<String>) {
        list(&self.app.networks)
    }
}

impl<'a> ListNetworksCommand<'a> {
    pub fn new(app: &'a Application) -> (r: Self)
        ensures
            r.app == app,
    {
        Self { app }
    }
}

/// A command bound to its target: one of the ten kinds.
pub enum Executor<'a> {
    Os(OsCommand<'a>),
    Cpu(CpuCommand<'a>),
    Memory(MemoryCommand<'a>),
    Swap(SwapCommand<'a>),
    Drive(DriveCommand<'a>),
    Sensor(SensorCommand<'a>),
    Network(NetworkCommand<'a>),
    ListSensors(ListSensorsCommand<'a>),
    ListCpus(ListCpusCommand<'a>),
    ListNetworks(ListNetworksCommand<'a>),
}

impl Command for Executor<'_> {
    open spec fn accepts(&self, q: Query) -> bool {
        match self {
            Executor::Os(c) => c.accepts(q),
            Executor::Cpu(c) => c.accepts(q),
            Executor::Memory(c) => c.accepts(q),
            Executor::Swap(c) => c.accepts(q),
            Executor::Drive(c) => c.accepts(q),
            Executor::Sensor(c) => c.accepts(q),
            Executor::Network(c) => c.accepts(q),
            Executor::ListSensors(c) => c.accepts(q),
            Executor::ListCpus(c) => c.accepts(q),
            Executor::ListNetworks(c) => c.accepts(q),
        }
    }

    open spec fn answer(&self, q: Query) -> Seq<Seq<char>> {
        match self {
            Executor::Os(c) => c.answer(q),
            Executor::Cpu(c) => c.answer(q),
            Executor::Memory(c) => c.answer(q),
            Executor::Swap(c) => c.answer(q),
            Executor::Drive(c) => c.answer(q),
            Executor::Sensor(c) => c.answer(q),
            Executor::Network(c) => c.answer(q),
            Executor::ListSensors(c) => c.answer(q),
            Executor::ListCpus(c) => c.answer(q),
            Executor::ListNetworks(c) => c.answer(q),
        }
    }

    fn exec(&mut self, q: Query) -> (out: Vec<String>) {
        match self {
            Executor::Os(c) => c.exec(q),
            Executor::Cpu(c) => c.exec(q),
            Executor::Memory(c) => c.exec(q),
            Executor::Swap(c) => c.exec(q),
            Executor::Drive(c) => c.exec(q),
            Executor::Sensor(c) => c.exec(q),
            Executor::Network(c) => c.exec(q),
            Executor::ListSensors(c) => c.exec(q),
            Executor::ListCpus(c) => c.exec(q),
            Executor::ListNetworks(c) => c.exec(q),
        }
    }
}

/// The answers to `queries`, one after the other.
pub open spec fn answers<C: Command>(cmd: &C, queries: Seq<Query>) -> Seq<Seq<char>>
    decreases queries.len(),
{
    if queries.len() == 0 {
        Seq::empty()
    } else {
        answers(cmd, queries.drop_last()) + cmd.answer(queries.last())
    }
}

/// What a run on `queries` yields: the answers to the queries in order, or,
/// where there is no query, the answer to `Query::Nothing`.
pub open spec fn batch<C: Command>(cmd: &C, queries: Seq<Query>) -> Seq<Seq<char>> {
    if queries.len() == 0 {
        cmd.answer(Query::Nothing)
    } else {
        answers(cmd, queries)
    }
}

/// Runs `cmd` on all of `queries` at once and gathers the answers in order.
/// With no query it runs `cmd` once, on `Query::Nothing`.
pub fn run<C: Command>(cmd: &mut C, queries: &Vec<Query>) -> (out: Vec<String>)
    requires
        old(cmd).accepts(Query::Nothing),
        forall|i: int| 0 <= i < queries.len() ==> old(cmd).accepts(#[trigger] queries[i]),
    ensures
        texts(out@) == batch(old(cmd), queries@),
        forall|p: Query| final(cmd).accepts(p) == old(cmd).accepts(p),
        forall|p: Query| final(cmd).answer(p) == old(cmd).answer(p),
{
    if queries.len() == 0 {
        return cmd.exec(Query::Nothing);
    }
    let mut output: Vec<String> = Vec::new();
    let mut i: usize = 0;
    while i < queries.len()
        invariant
            i <= queries.len(),
            forall|j: int| 0 <= j < queries.len() ==> old(cmd).accepts(#[trigger] queries[j]),
            forall|p: Query| cmd.accepts(p) == old(cmd).accepts(p),
            forall|p: Query| cmd.answer(p) == old(cmd).answer(p),
            texts(output@) == answers(old(cmd), queries@.take(i as int)),
        decreases queries.len() - i,
    {
        let mut part = cmd.exec(queries[i]);
        output.append(&mut part);
        proof {
            assert(queries@.take(i + 1).drop_last() =~= queries@.take(i as int));
        }
        i += 1;
    }
    assert(queries@.take(queries.len() as int) =~= queries@);
    output
}

/// Where every query has exactly one text for an answer, the answers are
/// those texts, position by position.
pub proof fn lemma_answers_one_each<C: Command>(cmd: &C, queries: Seq<Query>)
    requires
        forall|i: int| 0 <= i < queries.len() ==> (#[trigger] cmd.answer(queries[i])).len() == 1,
    ensures
        answers(cmd, queries) == Seq::new(queries.len(), |i: int| cmd.answer(queries[i])[0]),
    decreases queries.len(),
{
    if queries.len() > 0 {
        let init = queries.drop_last();
        assert forall|i: int| 0 <= i < init.len() implies (#[trigger] cmd.answer(init[i])).len()
            == 1 by {
            assert(init[i] == queries[i]);
        }
        lemma_answers_one_each(cmd, init);
    }
    assert(answers(cmd, queries) =~= Seq::new(
        queries.len(),
        |i: int| cmd.answer(queries[i])[0],
    ));
}

} // verus!
