//! A snapshot of the machine as plain values: what was read of the system, of
//! its CPUs, drives, sensors and network interfaces at one point in time.
//!
//! Lists keep the order in which the entities were read. Where a name occurs
//! twice in a list, the first entry is the one that a command finds.

use crate::text::texts;
use crate::units::Hundredths;
use vstd::prelude::*;

verus! {

/// The load averages of the system.
#[derive(Debug, Clone, Copy, PartialEq, Eq, Structural)]
pub struct LoadAverage {
    pub one: Hundredths,
    pub five: Hundredths,
    pub fifteen: Hundredths,
}

/// One CPU.
#[derive(Debug, Clone, PartialEq, Eq)]
pub struct CpuInfo {
    pub name: String,
    /// Usage in percent.
    pub usage: Hundredths,
    pub frequency: u64,
    pub brand: String,
    pub vendor_id: String,
}

/// Amounts of memory, in bytes.
#[derive(Debug, Clone, Copy, PartialEq, Eq, Structural)]
pub struct MemoryInfo {
    pub used: u64,
    pub total: u64,
    pub available: u64,
    pub free: u64,
}

/// Amounts of swap memory, in bytes.
#[derive(Debug, Clone, Copy, PartialEq, Eq, Structural)]
pub struct SwapInfo {
    pub used: u64,
    pub total: u64,
    pub free: u64,
}

/// The operating system, the CPUs and the memory. An optional value is `None`
/// where the system does not offer it.
#[derive(Debug, Clone, PartialEq, Eq)]
pub struct SystemInfo {
    /// Seconds between the UNIX epoch and the boot.
    pub boot_time: u64,
    pub load_average: Option<LoadAverage>,
    pub name: Option<String>,
    pub kernel_version: Option<String>,
    pub os_version: Option<String>,
    pub long_os_version: Option<String>,
    pub distribution_id: String,
    pub host_name: Option<String>,
    pub physical_core_count: Option<u64>,
    /// Usage of all CPUs together, in percent.
    pub global_cpu_usage: Hundredths,
    pub cpu_arch: Option<String>,
    pub cpus: Vec<CpuInfo>,
    pub memory: MemoryInfo,
    pub swap: SwapInfo,
}

/// A drive. Its available space never exceeds its total space.
#[derive(Debug, PartialEq, Eq)]
pub struct DriveInfo {
    name: String,
    file_system: String,
    is_removable: bool,
    kind: String,
    mount_point: String,
    total_space: u64,
    available_space: u64,
}

/// A drive as the contracts speak of it.
pub ghost struct DriveView {
    pub name: Seq<char>,
    pub file_system: Seq<char>,
    pub is_removable: bool,
    pub kind: Seq<char>,
    pub mount_point: Seq<char>,
    pub total_space: nat,
    pub available_space: nat,
}

impl DriveView {
    /// The space in use: what is not available of the total.
    pub open spec fn used_space(self) -> nat {
        (self.total_space - self.available_space) as nat
    }
}

impl View for DriveInfo {
    type V = DriveView;

    closed spec fn view(&self) -> DriveView {
        DriveView {
            name: self.name@,
            file_system: self.file_system@,
            is_removable: self.is_removable,
            kind: self.kind@,
            mount_point: self.mount_point@,
            total_space: self.total_space as nat,
            available_space: self.available_space as nat,
        }
    }
}

impl DriveInfo {
    #[verifier::type_invariant]
    spec fn space_fits(self) -> bool {
        self.available_space <= self.total_space
    }

    /// A drive of the given values; `None` where more space would be
    /// available than the drive has.
    pub fn new(
        name: String,
        file_system: String,
        is_removable: bool,
        kind: String,
        mount_point: String,
        total_space: u64,
        available_space: u64,
    ) -> (r: Option<Self>)
        ensures
            r is Some <==> available_space <= total_space,
            r matches Some(d) ==> d@ == (DriveView {
                name: name@,
                file_system: file_system@,
                is_removable,
                kind: kind@,
                mount_point: mount_point@,
                total_space: total_space as nat,
                available_space: available_space as nat,
            }),
    {
        if available_space <= total_space {
            Some(
                DriveInfo {
                    name,
                    file_system,
                    is_removable,
                    kind,
                    mount_point,
                    total_space,
                    available_space,
                },
            )
        } else {
            None
        }
    }

    pub fn name(&self) -> (r: &String)
        ensures
            r@ == self@.name,
    {
        &self.name
    }

    pub fn file_system(&self) -> (r: &str)
        ensures
            r@ == self@.file_system,
    {
        self.file_system.as_str()
    }

    pub fn is_removable(&self) -> (r: bool)
        ensures
            r == self@.is_removable,
    {
        self.is_removable
    }

    pub fn kind(&self) -> (r: &str)
        ensures
            r@ == self@.kind,
    {
        self.kind.as_str()
    }

    pub fn mount_point(&self) -> (r: &str)
        ensures
            r@ == self@.mount_point,
    {
        self.mount_point.as_str()
    }

    pub fn total_space(&self) -> (r: u64)
        ensures
            r == self@.total_space,
    {
        self.total_space
    }

    pub fn available_space(&self) -> (r: u64)
        ensures
            r == self@.available_space,
            r <= self@.total_space,
    {
        proof {
            use_type_invariant(self);
        }
        self.available_space
    }

    pub fn used_space(&self) -> (r: u64)
        ensures
            r == self@.used_space(),
    {
        proof {
            use_type_invariant(self);
        }
        self.total_space - self.available_space
    }
}

impl Clone for DriveInfo {
    fn clone(&self) -> (r: Self)
        ensures
            r@ == self@,
    {
        proof {
            use_type_invariant(self);
        }
        DriveInfo {
            name: self.name.clone(),
            file_system: self.file_system.clone(),
            is_removable: self.is_removable,
            kind: self.kind.clone(),
            mount_point: self.mount_point.clone(),
            total_space: self.total_space,
            available_space: self.available_space,
        }
    }
}

/// A temperature sensor. Temperatures are in degrees Celsius.
#[derive(Debug, Clone, PartialEq, Eq)]
pub struct SensorInfo {
    pub label: String,
    /// The temperature at which the component halts, where one is defined.
    pub critical: Option<Hundredths>,
    pub max: Hundredths,
    pub temperature: Hundredths,
}

/// A network interface with what passed through it since the system booted.
#[derive(Debug, Clone, PartialEq, Eq)]
pub struct NetworkInfo {
    pub name: String,
    pub mac_address: String,
    pub total_errors_on_received: u64,
    pub total_errors_on_transmitted: u64,
    /// Bytes received.
    pub total_received: u64,
    /// Bytes transmitted.
    pub total_transmitted: u64,
    pub total_packets_received: u64,
    pub total_packets_transmitted: u64,
}

/// An entity that a command finds by what it is called.
pub trait Named {
    /// What the entity is called: its name or, for a sensor, its label.
    spec fn spec_called(&self) -> Seq<char>;

    fn called(&self) -> (r: &String)
        ensures
            r@ == self.spec_called(),
    ;
}

impl Named for CpuInfo {
    open spec fn spec_called(&self) -> Seq<char> {
        self.name@
    }

    fn called(&self) -> (r: &String) {
        &self.name
    }
}

impl Named for DriveInfo {
    open spec fn spec_called(&self) -> Seq<char> {
        self@.name
    }

    fn called(&self) -> (r: &String) {
        self.name()
    }
}

impl Named for SensorInfo {
    open spec fn spec_called(&self) -> Seq<char> {
        self.label@
    }

    fn called(&self) -> (r: &String) {
        &self.label
    }
}

impl Named for NetworkInfo {
    open spec fn spec_called(&self) -> Seq<char> {
        self.name@
    }

    fn called(&self) -> (r: &String) {
        &self.name
    }
}

/// What the entities of a list are called, in the order of the list.
pub open spec fn names<T: Named>(entities: Seq<T>) -> Seq<Seq<char>> {
    Seq::new(entities.len(), |i: int| entities[i].spec_called())
}

/// Where `name` first occurs in `names`, if it occurs.
pub open spec fn first_named(names: Seq<Seq<char>>, name: Seq<char>) -> Option<int> {
    if names.contains(name) {
        Some(choose|i: int| is_first_named(names, name, i))
    } else {
        None
    }
}

/// `names[i]` is `name`, and no entry before it is.
pub open spec fn is_first_named(names: Seq<Seq<char>>, name: Seq<char>, i: int) -> bool {
    &&& 0 <= i < names.len()
    &&& names[i] == name
    &&& forall|j: int| 0 <= j < i ==> names[j] != name
}

/// The first occurrence is the only index that `is_first_named` holds of.
pub proof fn lemma_first_named(names: Seq<Seq<char>>, name: Seq<char>, i: int)
    requires
        is_first_named(names, name, i),
    ensures
        first_named(names, name) == Some(i),
{
    let k = choose|k: int| is_first_named(names, name, k);
    assert(is_first_named(names, name, k));
}

/// Finds the first entity of the list that is called `name`.
pub fn find<T: Named>(entities: &Vec<T>, name: &String) -> (r: Option<usize>)
    ensures
        match r {
            Some(i) => i < entities.len() && first_named(names(entities@), name@) == Some(
                i as int,
            ),
            None => first_named(names(entities@), name@) is None,
        },
{
    let mut i: usize = 0;
    while i < entities.len()
        invariant
            i <= entities.len(),
            forall|j: int| 0 <= j < i ==> names(entities@)[j] != name@,
        decreases entities.len() - i,
    {
        if *entities[i].called() == *name {
            proof {
                lemma_first_named(names(entities@), name@, i as int);
            }
            return Some(i);
        }
        i += 1;
    }
    None
}

/// Lists what the entities are called, in the order of the list.
pub fn list<T: Named>(entities: &Vec<T>) -> (r: Vec<String>)
    ensures
        texts(r@) == names(entities@),
{
    let mut r: Vec<String> = Vec::new();
    let mut i: usize = 0;
    while i < entities.len()
        invariant
            i <= entities.len(),
            r.len() == i,
            forall|j: int| 0 <= j < i ==> r@[j]@ == entities@[j].spec_called(),
        decreases entities.len() - i,
    {
        r.push(entities[i].called().clone());
        i += 1;
    }
    r
}

} // verus!
