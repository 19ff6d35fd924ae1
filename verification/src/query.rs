//! The catalog of queries: the categories, the fields of each category with
//! their tokens, and the parsing of a token into a field.
//!
//! A token names a field of its category up to the case of ASCII letters, and
//! within one category no two fields share a token.

use crate::cli::CliCommand;
use crate::failure::{Failure, FailureView};
use crate::text::{eq_ignore_case, is_lower, lemma_folded_of_lower, owned, same_ignoring_case};
use vstd::prelude::*;
use vstd::string::*;

verus! {

/// What a command asks about.
#[derive(Debug, Clone, Copy, PartialEq, Eq, Structural)]
pub enum Category {
    Os,
    Cpu,
    Memory,
    Swap,
    Drive,
    Sensor,
    Network,
    ListSensors,
    ListCpus,
    ListNetworks,
}

impl Category {
    /// The category's name as it is written on the command line.
    pub open spec fn spec_name(self) -> Seq<char> {
        match self {
            Category::Os => "os"@,
            Category::Cpu => "cpu"@,
            Category::Memory => "memory"@,
            Category::Swap => "swap"@,
            Category::Drive => "drive"@,
            Category::Sensor => "sensor"@,
            Category::Network => "network"@,
            Category::ListSensors => "list-sensors"@,
            Category::ListCpus => "list-cpus"@,
            Category::ListNetworks => "list-networks"@,
        }
    }

    /// Whether the category has fields. The three listing categories have none.
    pub open spec fn spec_has_fields(self) -> bool {
        !(self == Category::ListSensors || self == Category::ListCpus || self
            == Category::ListNetworks)
    }

    /// Whether a command of the category names the entity that it asks about.
    pub open spec fn spec_takes_name(self) -> bool {
        self == Category::Cpu || self == Category::Drive || self == Category::Sensor || self
            == Category::Network
    }

    pub fn name(&self) -> (r: &'static str)
        ensures
            r@ == self.spec_name(),
    {
        match self {
            Category::Os => "os",
            Category::Cpu => "cpu",
            Category::Memory => "memory",
            Category::Swap => "swap",
            Category::Drive => "drive",
            Category::Sensor => "sensor",
            Category::Network => "network",
            Category::ListSensors => "list-sensors",
            Category::ListCpus => "list-cpus",
            Category::ListNetworks => "list-networks",
        }
    }

    #[verifier::when_used_as_spec(spec_has_fields)]
    pub fn has_fields(self) -> (r: bool)
        ensures
            r == self.spec_has_fields(),
    {
        match self {
            Category::ListSensors | Category::ListCpus | Category::ListNetworks => false,
            _ => true,
        }
    }

    #[verifier::when_used_as_spec(spec_takes_name)]
    pub fn takes_name(self) -> (r: bool)
        ensures
            r == self.spec_takes_name(),
    {
        match self {
            Category::Cpu | Category::Drive | Category::Sensor | Category::Network => true,
            _ => false,
        }
    }
}

/// The fields of one category.
pub trait Field: Copy {
    /// Every field of the category, in the order of their declaration.
    spec fn all() -> Seq<Self>;

    /// The field's token, in lower case.
    spec fn token(self) -> Seq<char>;

    fn variants() -> (v: Vec<Self>)
        ensures
            v@ == Self::all(),
    ;

    fn name(&self) -> (r: &'static str)
        ensures
            r@ == self.token(),
    ;

    /// The query for this field.
    spec fn query(self) -> Query;

    fn to_query(self) -> (q: Query)
        ensures
            q == self.query(),
    ;

    /// No field is missing from `all`.
    proof fn lemma_all_complete(f: Self)
        ensures
            Self::all().contains(f),
    ;

    /// Two fields of one category differ in their tokens, whatever the case.
    proof fn lemma_tokens_distinct(a: Self, b: Self)
        requires
            a != b,
        ensures
            !same_ignoring_case(a.token(), b.token()),
    ;
}

/// The field of `F` that `s` names, if it names one.
pub open spec fn parsed<F: Field>(s: Seq<char>) -> Option<F> {
    if exists|f: F| same_ignoring_case(#[trigger] f.token(), s) {
        Some(choose|f: F| same_ignoring_case(#[trigger] f.token(), s))
    } else {
        None
    }
}

/// `s` names `f` exactly when it is `f`'s token up to the case of ASCII letters.
pub proof fn lemma_parsed_iff<F: Field>(s: Seq<char>, f: F)
    ensures
        parsed::<F>(s) == Some(f) <==> same_ignoring_case(f.token(), s),
{
    if same_ignoring_case(f.token(), s) {
        let g = choose|g: F| same_ignoring_case(#[trigger] g.token(), s);
        if g != f {
            F::lemma_tokens_distinct(g, f);
        }
    }
}

/// Two tokens that differ only in the case of ASCII letters name the same field.
pub proof fn lemma_parsed_ignores_case<F: Field>(s: Seq<char>, t: Seq<char>)
    requires
        same_ignoring_case(s, t),
    ensures
        parsed::<F>(s) == parsed::<F>(t),
{
    match parsed::<F>(s) {
        Some(f) => {
            lemma_parsed_iff::<F>(s, f);
            lemma_parsed_iff::<F>(t, f);
        },
        None => {
            match parsed::<F>(t) {
                Some(g) => {
                    lemma_parsed_iff::<F>(t, g);
                    lemma_parsed_iff::<F>(s, g);
                },
                None => {},
            }
        },
    }
}

/// A field is named by its own token, in lower case or in any other.
pub proof fn lemma_parsed_own_token<F: Field>(f: F)
    ensures
        parsed::<F>(f.token()) == Some(f),
{
    lemma_parsed_iff::<F>(f.token(), f);
}

/// Parses `s` as a field of `F`.
pub fn parse<F: Field>(s: &str) -> (r: Option<F>)
    ensures
        r == parsed::<F>(s@),
{
    let all = F::variants();
    let mut i: usize = 0;
    while i < all.len()
        invariant
            i <= all.len(),
            all@ == F::all(),
            forall|j: int| 0 <= j < i ==> !same_ignoring_case(#[trigger] all@[j].token(), s@),
        decreases all.len() - i,
    {
        let f = all[i];
        if eq_ignore_case(f.name(), s) {
            proof {
                lemma_parsed_iff::<F>(s@, f);
            }
            return Some(f);
        }
        i += 1;
    }
    proof {
        assert forall|f: F| !same_ignoring_case(#[trigger] f.token(), s@) by {
            F::lemma_all_complete(f);
            let j = choose|j: int| 0 <= j < all@.len() && all@[j] == f;
            assert(!same_ignoring_case(all@[j].token(), s@));
        }
    }
    None
}

/// The queries for `fields`, position by position.
pub open spec fn queries_of<F: Field>(fields: Seq<F>) -> Seq<Query> {
    Seq::new(fields.len(), |i: int| fields[i].query())
}

/// Turns each field into its query.
pub fn to_queries<F: Field>(fields: &Vec<F>) -> (r: Vec<Query>)
    ensures
        r@ == queries_of(fields@),
{
    let mut r: Vec<Query> = Vec::new();
    let mut i: usize = 0;
    while i < fields.len()
        invariant
            i <= fields.len(),
            r.len() == i,
            forall|j: int| 0 <= j < i ==> r@[j] == fields@[j].query(),
        decreases fields.len() - i,
    {
        r.push(fields[i].to_query());
        i += 1;
    }
    r
}

/// The fields of the operating system.
#[derive(Debug, Clone, Copy, PartialEq, Eq, Structural)]
pub enum OsQuery {
    /// Time when the system booted since UNIX epoch (seconds).
    BootTime,
    /// The load average within 1 minute, 2 decimal places; nothing where the
    /// system has no load average.
    LoadAverage1m,
    /// The load average within 5 minutes, 2 decimal places; nothing where the
    /// system has no load average.
    LoadAverage5m,
    /// The load average within 15 minutes, 2 decimal places; nothing where
    /// the system has no load average.
    LoadAverage15m,
    /// The name of the OS. Nothing if not available.
    Name,
    /// The kernel version. Nothing if not available.
    KernelVersion,
    /// The OS version. Nothing if not available.
    Version,
    /// The long OS version (e.g. "MacOS 11.2 BigSur"). Nothing if not available.
    LongVersion,
    /// The os-release ID.
    ReleaseId,
    /// Host name based off DNS. Nothing if not available.
    HostName,
    /// Count of physical cores, over all CPUs. Nothing if not available.
    PhysicalCoreCount,
    /// Total CPU usage (percentage, 2 decimal places).
    TotalCpuUsage,
    /// CPU architecture (e.g. x86, amd64, aarch64, ...). Nothing if not available.
    CpuArch,
}

/// The fields of a CPU.
#[derive(Debug, Clone, Copy, PartialEq, Eq, Structural)]
pub enum CpuQuery {
    /// CPU usage (percentage, 2 decimal places).
    Usage,
    /// The frequency of the CPU (the unit is not defined; can be MHz, GHz, etc).
    Frequency,
    /// The brand of the CPU (e.g. "Intel(R) Core(TM) i9-9900K CPU @ 3.60GHz").
    Brand,
    /// ID of the CPU's vendor (e.g. "GenuineIntel").
    VendorId,
}

/// The fields of the memory.
#[derive(Debug, Clone, Copy, PartialEq, Eq, Structural)]
pub enum MemoryQuery {
    /// Total memory usage.
    Usage,
    /// Total memory capacity.
    Total,
    /// Reusable memory.
    Available,
    /// Unallocated memory.
    Free,
}

/// The fields of the swap memory.
#[derive(Debug, Clone, Copy, PartialEq, Eq, Structural)]
pub enum SwapQuery {
    /// Total swap usage.
    Usage,
    /// Total swap capacity.
    Total,
    /// Available swap memory.
    Available,
}

/// The fields of a drive.
#[derive(Debug, Clone, Copy, PartialEq, Eq, Structural)]
pub enum DriveQuery {
    /// Total used drive space.
    Usage,
    /// The drive's filesystem name.
    Fs,
    /// Whether the drive is removable (1 or 0).
    IsRemovable,
    /// The kind of the drive.
    Kind,
    /// The path where the drive is mounted.
    MountPoint,
    /// Total space.
    Total,
    /// Total available space.
    Available,
}

/// The fields of a temperature sensor.
#[derive(Debug, Clone, Copy, PartialEq, Eq, Structural)]
pub enum SensorQuery {
    /// The sensor's critical temperature (Celsius, 2 decimal places). Nothing
    /// if the sensor has none.
    CriticalTemp,
    /// The sensor's maximal temperature (Celsius, 2 decimal places).
    MaxTemp,
    /// The sensor's current temperature (Celsius, 2 decimal places).
    Temperature,
}

/// The fields of a network interface.
#[derive(Debug, Clone, Copy, PartialEq, Eq, Structural)]
pub enum NetworkQuery {
    /// MAC address associated with the network.
    MacAddress,
    /// Total number of incoming errors.
    TotalIncomingErrors,
    /// Total number of outcoming errors.
    TotalOutcomingErrors,
    /// Total amount of received data.
    TotalReceivedData,
    /// Total amount of transmitted data.
    TotalTransmittedData,
    /// Total number of received packets.
    TotalReceivedPackets,
    /// Total number of transmitted packets.
    TotalTransmittedPackets,
}

impl Field for OsQuery {
    open spec fn all() -> Seq<Self> {
        seq![
            OsQuery::BootTime,
            OsQuery::LoadAverage1m,
            OsQuery::LoadAverage5m,
            OsQuery::LoadAverage15m,
            OsQuery::Name,
            OsQuery::KernelVersion,
            OsQuery::Version,
            OsQuery::LongVersion,
            OsQuery::ReleaseId,
            OsQuery::HostName,
            OsQuery::PhysicalCoreCount,
            OsQuery::TotalCpuUsage,
            OsQuery::CpuArch,
        ]
    }

    open spec fn token(self) -> Seq<char> {
        match self {
            OsQuery::BootTime => "boot-time"@,
            OsQuery::LoadAverage1m => "load-average1m"@,
            OsQuery::LoadAverage5m => "load-average5m"@,
            OsQuery::LoadAverage15m => "load-average15m"@,
            OsQuery::Name => "name"@,
            OsQuery::KernelVersion => "kernel-version"@,
            OsQuery::Version => "version"@,
            OsQuery::LongVersion => "long-version"@,
            OsQuery::ReleaseId => "release-id"@,
            OsQuery::HostName => "host-name"@,
            OsQuery::PhysicalCoreCount => "physical-core-count"@,
            OsQuery::TotalCpuUsage => "total-cpu-usage"@,
            OsQuery::CpuArch => "cpu-arch"@,
        }
    }

    fn variants() -> (v: Vec<Self>) {
        vec![
            OsQuery::BootTime,
            OsQuery::LoadAverage1m,
            OsQuery::LoadAverage5m,
            OsQuery::LoadAverage15m,
            OsQuery::Name,
            OsQuery::KernelVersion,
            OsQuery::Version,
            OsQuery::LongVersion,
            OsQuery::ReleaseId,
            OsQuery::HostName,
            OsQuery::PhysicalCoreCount,
            OsQuery::TotalCpuUsage,
            OsQuery::CpuArch,
        ]
    }

    fn name(&self) -> (r: &'static str) {
        match self {
            OsQuery::BootTime => "boot-time",
            OsQuery::LoadAverage1m => "load-average1m",
            OsQuery::LoadAverage5m => "load-average5m",
            OsQuery::LoadAverage15m => "load-average15m",
            OsQuery::Name => "name",
            OsQuery::KernelVersion => "kernel-version",
            OsQuery::Version => "version",
            OsQuery::LongVersion => "long-version",
            OsQuery::ReleaseId => "release-id",
            OsQuery::HostName => "host-name",
            OsQuery::PhysicalCoreCount => "physical-core-count",
            OsQuery::TotalCpuUsage => "total-cpu-usage",
            OsQuery::CpuArch => "cpu-arch",
        }
    }

    open spec fn query(self) -> Query {
        Query::Os(self)
    }

    fn to_query(self) -> (q: Query) {
        Query::Os(self)
    }

    proof fn lemma_all_complete(f: Self) {
        let all = Self::all();
        match f {
            OsQuery::BootTime => assert(all[0] == f),
            OsQuery::LoadAverage1m => assert(all[1] == f),
            OsQuery::LoadAverage5m => assert(all[2] == f),
            OsQuery::LoadAverage15m => assert(all[3] == f),
            OsQuery::Name => assert(all[4] == f),
            OsQuery::KernelVersion => assert(all[5] == f),
            OsQuery::Version => assert(all[6] == f),
            OsQuery::LongVersion => assert(all[7] == f),
            OsQuery::ReleaseId => assert(all[8] == f),
            OsQuery::HostName => assert(all[9] == f),
            OsQuery::PhysicalCoreCount => assert(all[10] == f),
            OsQuery::TotalCpuUsage => assert(all[11] == f),
            OsQuery::CpuArch => assert(all[12] == f),
        }
    }

    proof fn lemma_tokens_distinct(a: Self, b: Self) {
        reveal_strlit("boot-time");
        reveal_strlit("load-average1m");
        reveal_strlit("load-average5m");
        reveal_strlit("load-average15m");
        reveal_strlit("name");
        reveal_strlit("kernel-version");
        reveal_strlit("version");
        reveal_strlit("long-version");
        reveal_strlit("release-id");
        reveal_strlit("host-name");
        reveal_strlit("physical-core-count");
        reveal_strlit("total-cpu-usage");
        reveal_strlit("cpu-arch");
        let (x, y) = (a.token(), b.token());
        assert(x.len() != y.len() || x[0] != y[0] || x[12] != y[12]);
        lemma_distinct_lower(x, y);
    }
}

impl Field for CpuQuery {
    open spec fn all() -> Seq<Self> {
        seq![
            CpuQuery::Usage,
            CpuQuery::Frequency,
            CpuQuery::Brand,
            CpuQuery::VendorId,
        ]
    }

    open spec fn token(self) -> Seq<char> {
        match self {
            CpuQuery::Usage => "usage"@,
            CpuQuery::Frequency => "frequency"@,
            CpuQuery::Brand => "brand"@,
            CpuQuery::VendorId => "vendor-id"@,
        }
    }

    fn variants() -> (v: Vec<Self>) {
        vec![
            CpuQuery::Usage,
            CpuQuery::Frequency,
            CpuQuery::Brand,
            CpuQuery::VendorId,
        ]
    }

    fn name(&self) -> (r: &'static str) {
        match self {
            CpuQuery::Usage => "usage",
            CpuQuery::Frequency => "frequency",
            CpuQuery::Brand => "brand",
            CpuQuery::VendorId => "vendor-id",
        }
    }

    open spec fn query(self) -> Query {
        Query::Cpu(self)
    }

    fn to_query(self) -> (q: Query) {
        Query::Cpu(self)
    }

    proof fn lemma_all_complete(f: Self) {
        let all = Self::all();
        match f {
            CpuQuery::Usage => assert(all[0] == f),
            CpuQuery::Frequency => assert(all[1] == f),
            CpuQuery::Brand => assert(all[2] == f),
            CpuQuery::VendorId => assert(all[3] == f),
        }
    }

    proof fn lemma_tokens_distinct(a: Self, b: Self) {
        reveal_strlit("usage");
        reveal_strlit("frequency");
        reveal_strlit("brand");
        reveal_strlit("vendor-id");
        let (x, y) = (a.token(), b.token());
        assert(x.len() != y.len() || x[0] != y[0]);
        lemma_distinct_lower(x, y);
    }
}

impl Field for MemoryQuery {
    open spec fn all() -> Seq<Self> {
        seq![
            MemoryQuery::Usage,
            MemoryQuery::Total,
            MemoryQuery::Available,
            MemoryQuery::Free,
        ]
    }

    open spec fn token(self) -> Seq<char> {
        match self {
            MemoryQuery::Usage => "usage"@,
            MemoryQuery::Total => "total"@,
            MemoryQuery::Available => "available"@,
            MemoryQuery::Free => "free"@,
        }
    }

    fn variants() -> (v: Vec<Self>) {
        vec![
            MemoryQuery::Usage,
            MemoryQuery::Total,
            MemoryQuery::Available,
            MemoryQuery::Free,
        ]
    }

    fn name(&self) -> (r: &'static str) {
        match self {
            MemoryQuery::Usage => "usage",
            MemoryQuery::Total => "total",
            MemoryQuery::Available => "available",
            MemoryQuery::Free => "free",
        }
    }

    open spec fn query(self) -> Query {
        Query::Memory(self)
    }

    fn to_query(self) -> (q: Query) {
        Query::Memory(self)
    }

    proof fn lemma_all_complete(f: Self) {
        let all = Self::all();
        match f {
            MemoryQuery::Usage => assert(all[0] == f),
            MemoryQuery::Total => assert(all[1] == f),
            MemoryQuery::Available => assert(all[2] == f),
            MemoryQuery::Free => assert(all[3] == f),
        }
    }

    proof fn lemma_tokens_distinct(a: Self, b: Self) {
        reveal_strlit("usage");
        reveal_strlit("total");
        reveal_strlit("available");
        reveal_strlit("free");
        let (x, y) = (a.token(), b.token());
        assert(x.len() != y.len() || x[0] != y[0]);
        lemma_distinct_lower(x, y);
    }
}

impl Field for SwapQuery {
    open spec fn all() -> Seq<Self> {
        seq![
            SwapQuery::Usage,
            SwapQuery::Total,
            SwapQuery::Available,
        ]
    }

    open spec fn token(self) -> Seq<char> {
        match self {
            SwapQuery::Usage => "usage"@,
            SwapQuery::Total => "total"@,
            SwapQuery::Available => "available"@,
        }
    }

    fn variants() -> (v: Vec<Self>) {
        vec![
            SwapQuery::Usage,
            SwapQuery::Total,
            SwapQuery::Available,
        ]
    }

    fn name(&self) -> (r: &'static str) {
        match self {
            SwapQuery::Usage => "usage",
            SwapQuery::Total => "total",
            SwapQuery::Available => "available",
        }
    }

    open spec fn query(self) -> Query {
        Query::Swap(self)
    }

    fn to_query(self) -> (q: Query) {
        Query::Swap(self)
    }

    proof fn lemma_all_complete(f: Self) {
        let all = Self::all();
        match f {
            SwapQuery::Usage => assert(all[0] == f),
            SwapQuery::Total => assert(all[1] == f),
            SwapQuery::Available => assert(all[2] == f),
        }
    }

    proof fn lemma_tokens_distinct(a: Self, b: Self) {
        reveal_strlit("usage");
        reveal_strlit("total");
        reveal_strlit("available");
        let (x, y) = (a.token(), b.token());
        assert(x.len() != y.len() || x[0] != y[0]);
        lemma_distinct_lower(x, y);
    }
}

impl Field for DriveQuery {
    open spec fn all() -> Seq<Self> {
        seq![
            DriveQuery::Usage,
            DriveQuery::Fs,
            DriveQuery::IsRemovable,
            DriveQuery::Kind,
            DriveQuery::MountPoint,
            DriveQuery::Total,
            DriveQuery::Available,
        ]
    }

    open spec fn token(self) -> Seq<char> {
        match self {
            DriveQuery::Usage => "usage"@,
            DriveQuery::Fs => "fs"@,
            DriveQuery::IsRemovable => "is-removable"@,
            DriveQuery::Kind => "kind"@,
            DriveQuery::MountPoint => "mount-point"@,
            DriveQuery::Total => "total"@,
            DriveQuery::Available => "available"@,
        }
    }

    fn variants() -> (v: Vec<Self>) {
        vec![
            DriveQuery::Usage,
            DriveQuery::Fs,
            DriveQuery::IsRemovable,
            DriveQuery::Kind,
            DriveQuery::MountPoint,
            DriveQuery::Total,
            DriveQuery::Available,
        ]
    }

    fn name(&self) -> (r: &'static str) {
        match self {
            DriveQuery::Usage => "usage",
            DriveQuery::Fs => "fs",
            DriveQuery::IsRemovable => "is-removable",
            DriveQuery::Kind => "kind",
            DriveQuery::MountPoint => "mount-point",
            DriveQuery::Total => "total",
            DriveQuery::Available => "available",
        }
    }

    open spec fn query(self) -> Query {
        Query::Drive(self)
    }

    fn to_query(self) -> (q: Query) {
        Query::Drive(self)
    }

    proof fn lemma_all_complete(f: Self) {
        let all = Self::all();
        match f {
            DriveQuery::Usage => assert(all[0] == f),
            DriveQuery::Fs => assert(all[1] == f),
            DriveQuery::IsRemovable => assert(all[2] == f),
            DriveQuery::Kind => assert(all[3] == f),
            DriveQuery::MountPoint => assert(all[4] == f),
            DriveQuery::Total => assert(all[5] == f),
            DriveQuery::Available => assert(all[6] == f),
        }
    }

    proof fn lemma_tokens_distinct(a: Self, b: Self) {
        reveal_strlit("usage");
        reveal_strlit("fs");
        reveal_strlit("is-removable");
        reveal_strlit("kind");
        reveal_strlit("mount-point");
        reveal_strlit("total");
        reveal_strlit("available");
        let (x, y) = (a.token(), b.token());
        assert(x.len() != y.len() || x[0] != y[0]);
        lemma_distinct_lower(x, y);
    }
}

impl Field for SensorQuery {
    open spec fn all() -> Seq<Self> {
        seq![
            SensorQuery::CriticalTemp,
            SensorQuery::MaxTemp,
            SensorQuery::Temperature,
        ]
    }

    open spec fn token(self) -> Seq<char> {
        match self {
            SensorQuery::CriticalTemp => "critical-temp"@,
            SensorQuery::MaxTemp => "max-temp"@,
            SensorQuery::Temperature => "temperature"@,
        }
    }

    fn variants() -> (v: Vec<Self>) {
        vec![
            SensorQuery::CriticalTemp,
            SensorQuery::MaxTemp,
            SensorQuery::Temperature,
        ]
    }

    fn name(&self) -> (r: &'static str) {
        match self {
            SensorQuery::CriticalTemp => "critical-temp",
            SensorQuery::MaxTemp => "max-temp",
            SensorQuery::Temperature => "temperature",
        }
    }

    open spec fn query(self) -> Query {
        Query::Sensor(self)
    }

    fn to_query(self) -> (q: Query) {
        Query::Sensor(self)
    }

    proof fn lemma_all_complete(f: Self) {
        let all = Self::all();
        match f {
            SensorQuery::CriticalTemp => assert(all[0] == f),
            SensorQuery::MaxTemp => assert(all[1] == f),
            SensorQuery::Temperature => assert(all[2] == f),
        }
    }

    proof fn lemma_tokens_distinct(a: Self, b: Self) {
        reveal_strlit("critical-temp");
        reveal_strlit("max-temp");
        reveal_strlit("temperature");
        let (x, y) = (a.token(), b.token());
        lemma_distinct_lower(x, y);
    }
}

impl Field for NetworkQuery {
    open spec fn all() -> Seq<Self> {
        seq![
            NetworkQuery::MacAddress,
            NetworkQuery::TotalIncomingErrors,
            NetworkQuery::TotalOutcomingErrors,
            NetworkQuery::TotalReceivedData,
            NetworkQuery::TotalTransmittedData,
            NetworkQuery::TotalReceivedPackets,
            NetworkQuery::TotalTransmittedPackets,
        ]
    }

    open spec fn token(self) -> Seq<char> {
        match self {
            NetworkQuery::MacAddress => "mac-address"@,
            NetworkQuery::TotalIncomingErrors => "total-incoming-errors"@,
            NetworkQuery::TotalOutcomingErrors => "total-outcoming-errors"@,
            NetworkQuery::TotalReceivedData => "total-received-data"@,
            NetworkQuery::TotalTransmittedData => "total-transmitted-data"@,
            NetworkQuery::TotalReceivedPackets => "total-received-packets"@,
            NetworkQuery::TotalTransmittedPackets => "total-transmitted-packets"@,
        }
    }

    fn variants() -> (v: Vec<Self>) {
        vec![
            NetworkQuery::MacAddress,
            NetworkQuery::TotalIncomingErrors,
            NetworkQuery::TotalOutcomingErrors,
            NetworkQuery::TotalReceivedData,
            NetworkQuery::TotalTransmittedData,
            NetworkQuery::TotalReceivedPackets,
            NetworkQuery::TotalTransmittedPackets,
        ]
    }

    fn name(&self) -> (r: &'static str) {
        match self {
            NetworkQuery::MacAddress => "mac-address",
            NetworkQuery::TotalIncomingErrors => "total-incoming-errors",
            NetworkQuery::TotalOutcomingErrors => "total-outcoming-errors",
            NetworkQuery::TotalReceivedData => "total-received-data",
            NetworkQuery::TotalTransmittedData => "total-transmitted-data",
            NetworkQuery::TotalReceivedPackets => "total-received-packets",
            NetworkQuery::TotalTransmittedPackets => "total-transmitted-packets",
        }
    }

    open spec fn query(self) -> Query {
        Query::Network(self)
    }

    fn to_query(self) -> (q: Query) {
        Query::Network(self)
    }

    proof fn lemma_all_complete(f: Self) {
        let all = Self::all();
        match f {
            NetworkQuery::MacAddress => assert(all[0] == f),
            NetworkQuery::TotalIncomingErrors => assert(all[1] == f),
            NetworkQuery::TotalOutcomingErrors => assert(all[2] == f),
            NetworkQuery::TotalReceivedData => assert(all[3] == f),
            NetworkQuery::TotalTransmittedData => assert(all[4] == f),
            NetworkQuery::TotalReceivedPackets => assert(all[5] == f),
            NetworkQuery::TotalTransmittedPackets => assert(all[6] == f),
        }
    }

    proof fn lemma_tokens_distinct(a: Self, b: Self) {
        reveal_strlit("mac-address");
        reveal_strlit("total-incoming-errors");
        reveal_strlit("total-outcoming-errors");
        reveal_strlit("total-received-data");
        reveal_strlit("total-transmitted-data");
        reveal_strlit("total-received-packets");
        reveal_strlit("total-transmitted-packets");
        let (x, y) = (a.token(), b.token());
        assert(x.len() != y.len() || x[6] != y[6]);
        lemma_distinct_lower(x, y);
    }
}

/// Two different texts without upper-case letters differ whatever the case.
proof fn lemma_distinct_lower(a: Seq<char>, b: Seq<char>)
    requires
        is_lower(a),
        is_lower(b),
        a != b,
    ensures
        !same_ignoring_case(a, b),
{
    lemma_folded_of_lower(a);
    lemma_folded_of_lower(b);
}

/// One field of one category, or `Nothing`: no field at all.
#[derive(Debug, Clone, Copy, PartialEq, Eq, Structural)]
pub enum Query {
    Nothing,
    Os(OsQuery),
    Cpu(CpuQuery),
    Memory(MemoryQuery),
    Swap(SwapQuery),
    Drive(DriveQuery),
    Sensor(SensorQuery),
    Network(NetworkQuery),
}

impl Query {
    /// The category whose field the query is. `Nothing` is a field of none.
    pub open spec fn category(self) -> Option<Category> {
        match self {
            Query::Nothing => None,
            Query::Os(_) => Some(Category::Os),
            Query::Cpu(_) => Some(Category::Cpu),
            Query::Memory(_) => Some(Category::Memory),
            Query::Swap(_) => Some(Category::Swap),
            Query::Drive(_) => Some(Category::Drive),
            Query::Sensor(_) => Some(Category::Sensor),
            Query::Network(_) => Some(Category::Network),
        }
    }

    /// The token of the query's field. `Nothing` has the empty token.
    pub open spec fn token(self) -> Seq<char> {
        match self {
            Query::Nothing => Seq::empty(),
            Query::Os(f) => f.token(),
            Query::Cpu(f) => f.token(),
            Query::Memory(f) => f.token(),
            Query::Swap(f) => f.token(),
            Query::Drive(f) => f.token(),
            Query::Sensor(f) => f.token(),
            Query::Network(f) => f.token(),
        }
    }

    /// The query that `s` names in `category`, if it names one.
    pub open spec fn parsed(category: Category, s: Seq<char>) -> Option<Query> {
        match category {
            Category::Os => match parsed::<OsQuery>(s) {
                Some(f) => Some(Query::Os(f)),
                None => None,
            },
            Category::Cpu => match parsed::<CpuQuery>(s) {
                Some(f) => Some(Query::Cpu(f)),
                None => None,
            },
            Category::Memory => match parsed::<MemoryQuery>(s) {
                Some(f) => Some(Query::Memory(f)),
                None => None,
            },
            Category::Swap => match parsed::<SwapQuery>(s) {
                Some(f) => Some(Query::Swap(f)),
                None => None,
            },
            Category::Drive => match parsed::<DriveQuery>(s) {
                Some(f) => Some(Query::Drive(f)),
                None => None,
            },
            Category::Sensor => match parsed::<SensorQuery>(s) {
                Some(f) => Some(Query::Sensor(f)),
                None => None,
            },
            Category::Network => match parsed::<NetworkQuery>(s) {
                Some(f) => Some(Query::Network(f)),
                None => None,
            },
            _ => None,
        }
    }

    /// The failure that reports a token which names no field of `category`.
    pub open spec fn refusal(category: Category, s: Seq<char>) -> FailureView {
        if category.has_fields() {
            FailureView::UnknownField { category, token: s }
        } else {
            FailureView::UnsupportedForTemplate { category }
        }
    }

    /// Parses `s` as a field of the command's category, whatever the case of
    /// its ASCII letters. A category without fields refuses every token.
    pub fn from_str(cmd: &CliCommand, s: &str) -> (r: Result<Self, Failure>)
        ensures
            match r {
                Ok(q) => Query::parsed(cmd.category(), s@) == Some(q),
                Err(e) => Query::parsed(cmd.category(), s@) is None && e@ == Query::refusal(
                    cmd.category(),
                    s@,
                ),
            },
    {
        let category = cmd.category();
        let q = match cmd {
            CliCommand::Os { .. } => match parse::<OsQuery>(s) {
                Some(f) => Some(Query::Os(f)),
                None => None,
            },
            CliCommand::Cpu { .. } => match parse::<CpuQuery>(s) {
                Some(f) => Some(Query::Cpu(f)),
                None => None,
            },
            CliCommand::Memory { .. } => match parse::<MemoryQuery>(s) {
                Some(f) => Some(Query::Memory(f)),
                None => None,
            },
            CliCommand::Swap { .. } => match parse::<SwapQuery>(s) {
                Some(f) => Some(Query::Swap(f)),
                None => None,
            },
            CliCommand::Drive { .. } => match parse::<DriveQuery>(s) {
                Some(f) => Some(Query::Drive(f)),
                None => None,
            },
            CliCommand::Sensor { .. } => match parse::<SensorQuery>(s) {
                Some(f) => Some(Query::Sensor(f)),
                None => None,
            },
            CliCommand::Network { .. } => match parse::<NetworkQuery>(s) {
                Some(f) => Some(Query::Network(f)),
                None => None,
            },
            _ => {
                return Err(Failure::UnsupportedForTemplate { category });
            },
        };
        match q {
            Some(q) => Ok(q),
            None => Err(Failure::UnknownField { category, token: owned(s) }),
        }
    }
}

/// A token names a query of a category exactly when the query is a field of
/// that category and the token is the field's token up to the case of ASCII
/// letters.
pub proof fn lemma_query_parsed_iff(category: Category, s: Seq<char>, q: Query)
    ensures
        Query::parsed(category, s) == Some(q) <==> q.category() == Some(category)
            && same_ignoring_case(q.token(), s),
{
    match q {
        Query::Nothing => {},
        Query::Os(f) => lemma_parsed_iff::<OsQuery>(s, f),
        Query::Cpu(f) => lemma_parsed_iff::<CpuQuery>(s, f),
        Query::Memory(f) => lemma_parsed_iff::<MemoryQuery>(s, f),
        Query::Swap(f) => lemma_parsed_iff::<SwapQuery>(s, f),
        Query::Drive(f) => lemma_parsed_iff::<DriveQuery>(s, f),
        Query::Sensor(f) => lemma_parsed_iff::<SensorQuery>(s, f),
        Query::Network(f) => lemma_parsed_iff::<NetworkQuery>(s, f),
    }
}

/// Parsing does not look at the case of ASCII letters: two tokens that differ
/// in nothing else name the same query, or both name none.
pub proof fn lemma_parsing_ignores_case(category: Category, s: Seq<char>, t: Seq<char>)
    requires
        same_ignoring_case(s, t),
    ensures
        Query::parsed(category, s) == Query::parsed(category, t),
{
    lemma_parsed_ignores_case::<OsQuery>(s, t);
    lemma_parsed_ignores_case::<CpuQuery>(s, t);
    lemma_parsed_ignores_case::<MemoryQuery>(s, t);
    lemma_parsed_ignores_case::<SwapQuery>(s, t);
    lemma_parsed_ignores_case::<DriveQuery>(s, t);
    lemma_parsed_ignores_case::<SensorQuery>(s, t);
    lemma_parsed_ignores_case::<NetworkQuery>(s, t);
}

/// Two queries of one category have different tokens, whatever the case.
pub proof fn lemma_tokens_distinct(a: Query, b: Query)
    requires
        a != b,
        a.category() == b.category(),
        a.category() is Some,
    ensures
        !same_ignoring_case(a.token(), b.token()),
{
    match (a, b) {
        (Query::Os(f), Query::Os(g)) => OsQuery::lemma_tokens_distinct(f, g),
        (Query::Cpu(f), Query::Cpu(g)) => CpuQuery::lemma_tokens_distinct(f, g),
        (Query::Memory(f), Query::Memory(g)) => MemoryQuery::lemma_tokens_distinct(f, g),
        (Query::Swap(f), Query::Swap(g)) => SwapQuery::lemma_tokens_distinct(f, g),
        (Query::Drive(f), Query::Drive(g)) => DriveQuery::lemma_tokens_distinct(f, g),
        (Query::Sensor(f), Query::Sensor(g)) => SensorQuery::lemma_tokens_distinct(f, g),
        (Query::Network(f), Query::Network(g)) => NetworkQuery::lemma_tokens_distinct(f, g),
        _ => {},
    }
}

} // verus!
