//! The snapshot: one complete bundle of system, CPU, memory, disk and GPU
//! values, assembled from the readings of a single sampling pass.
//!
//! No unavailable reading fails the assembly. Each one is replaced by the
//! fallback that the table below gives for its field.

use vstd::prelude::*;
use vstd::string::StringExecFns;
use crate::readings::{
    CpuReading, CpuReadingView, DiskReading, DiskReadingView, GpuReading, GpuReadingView,
    RamReading, Readings, ReadingsView, SystemReading, SystemReadingView,
};

verus! {

/// Reported in place of a clock that could not be read, in MHz.
pub const CLOCK_FALLBACK: u32 = 101;

/// Reported in place of a temperature that could not be read.
pub const TEMPERATURE_FALLBACK: u32 = 0;

/// Stands in for a power value that could not be read, in milliwatts.
pub const POWER_FALLBACK_MILLIWATTS: u32 = 1000;

/// Reported in place of a utilisation or a memory size that could not be
/// read.
pub const COUNTER_FALLBACK: u32 = 0;

/// Reported in place of a text that could not be read.
pub open spec fn error_text() -> Seq<char> {
    "error"@
}

pub open spec fn text_or_error(text: Option<Seq<char>>) -> Seq<char> {
    match text {
        Some(s) => s,
        None => error_text(),
    }
}

pub open spec fn clock_or_fallback(clock: Option<u32>) -> u32 {
    match clock {
        Some(mhz) => mhz,
        None => CLOCK_FALLBACK,
    }
}

pub open spec fn temperature_or_fallback(temperature: Option<u32>) -> u32 {
    match temperature {
        Some(degrees) => degrees,
        None => TEMPERATURE_FALLBACK,
    }
}

/// Whole watts of a power reading in milliwatts, rounded down; 1 W where
/// there is no reading.
pub open spec fn watts_or_fallback(power: Option<u32>) -> u32 {
    match power {
        Some(milliwatts) => milliwatts / 1000,
        None => POWER_FALLBACK_MILLIWATTS / 1000,
    }
}

pub open spec fn percent_or_fallback(percent: Option<u32>) -> u32 {
    match percent {
        Some(p) => p,
        None => COUNTER_FALLBACK,
    }
}

pub open spec fn bytes_or_fallback(bytes: Option<u64>) -> u64 {
    match bytes {
        Some(b) => b,
        None => COUNTER_FALLBACK as u64,
    }
}

/// The space in use on a volume: what is not available of the total, and
/// nothing where the provider reports more available than there is.
pub open spec fn used_space(total: u64, available: u64) -> u64 {
    if available <= total {
        (total - available) as u64
    } else {
        0
    }
}

pub struct SystemInfo {
    pub name: String,
    pub kernel_ver: String,
    pub os_ver: String,
    pub host_name: String,
    pub uptime: u64,
}

pub struct SystemInfoView {
    pub name: Seq<char>,
    pub kernel_ver: Seq<char>,
    pub os_ver: Seq<char>,
    pub host_name: Seq<char>,
    pub uptime: u64,
}

impl View for SystemInfo {
    type V = SystemInfoView;

    open spec fn view(&self) -> SystemInfoView {
        SystemInfoView {
            name: self.name@,
            kernel_ver: self.kernel_ver@,
            os_ver: self.os_ver@,
            host_name: self.host_name@,
            uptime: self.uptime,
        }
    }
}

pub struct CpuInfo {
    pub brand: String,
    pub usage_bits: u32,
    pub frequency: u64,
}

pub struct CpuInfoView {
    pub brand: Seq<char>,
    pub usage_bits: u32,
    pub frequency: u64,
}

impl View for CpuInfo {
    type V = CpuInfoView;

    open spec fn view(&self) -> CpuInfoView {
        CpuInfoView {
            brand: self.brand@,
            usage_bits: self.usage_bits,
            frequency: self.frequency,
        }
    }
}

pub struct RamInfo {
    pub total_memory: u64,
    pub used_memory: u64,
    pub total_swap: u64,
    pub used_swap: u64,
}

pub struct DiskInfo {
    pub mount_point: String,
    pub name: String,
    pub size: u64,
    pub used_space: u64,
}

pub struct DiskInfoView {
    pub mount_point: Seq<char>,
    pub name: Seq<char>,
    pub size: u64,
    pub used_space: u64,
}

impl View for DiskInfo {
    type V = DiskInfoView;

    open spec fn view(&self) -> DiskInfoView {
        DiskInfoView {
            mount_point: self.mount_point@,
            name: self.name@,
            size: self.size,
            used_space: self.used_space,
        }
    }
}

/// Clocks in MHz, power in watts.
pub struct GpuInfo {
    pub name: String,
    pub util: u32,
    pub encoder_util: u32,
    pub decoder_util: u32,
    pub used_memory: u64,
    pub total_memory: u64,
    pub graphic_clock: u32,
    pub max_graphic_clock: u32,
    pub memory_clock: u32,
    pub memory_clock_max: u32,
    pub sm_clock: u32,
    pub sm_clock_max: u32,
    pub video_clock: u32,
    pub video_clock_max: u32,
    pub power: u32,
    pub max_power: u32,
    pub temperature: u32,
}

pub struct GpuInfoView {
    pub name: Seq<char>,
    pub util: u32,
    pub encoder_util: u32,
    pub decoder_util: u32,
    pub used_memory: u64,
    pub total_memory: u64,
    pub graphic_clock: u32,
    pub max_graphic_clock: u32,
    pub memory_clock: u32,
    pub memory_clock_max: u32,
    pub sm_clock: u32,
    pub sm_clock_max: u32,
    pub video_clock: u32,
    pub video_clock_max: u32,
    pub power: u32,
    pub max_power: u32,
    pub temperature: u32,
}

impl View for GpuInfo {
    type V = GpuInfoView;

    open spec fn view(&self) -> GpuInfoView {
        GpuInfoView {
            name: self.name@,
            util: self.util,
            encoder_util: self.encoder_util,
            decoder_util: self.decoder_util,
            used_memory: self.used_memory,
            total_memory: self.total_memory,
            graphic_clock: self.graphic_clock,
            max_graphic_clock: self.max_graphic_clock,
            memory_clock: self.memory_clock,
            memory_clock_max: self.memory_clock_max,
            sm_clock: self.sm_clock,
            sm_clock_max: self.sm_clock_max,
            video_clock: self.video_clock,
            video_clock_max: self.video_clock_max,
            power: self.power,
            max_power: self.max_power,
            temperature: self.temperature,
        }
    }
}

/// One complete bundle of values. It is built once and not changed after.
pub struct Snapshot {
    pub system_details: SystemInfo,
    pub cpu: Vec<CpuInfo>,
    pub ram: RamInfo,
    pub disk: Vec<DiskInfo>,
    pub gpu: GpuInfo,
}

pub struct SnapshotView {
    pub system_details: SystemInfoView,
    pub cpu: Seq<CpuInfoView>,
    pub ram: RamInfo,
    pub disk: Seq<DiskInfoView>,
    pub gpu: GpuInfoView,
}

impl View for Snapshot {
    type V = SnapshotView;

    open spec fn view(&self) -> SnapshotView {
        SnapshotView {
            system_details: self.system_details@,
            cpu: self.cpu@.map_values(|c: CpuInfo| c@),
            ram: self.ram,
            disk: self.disk@.map_values(|d: DiskInfo| d@),
            gpu: self.gpu@,
        }
    }
}

pub open spec fn system_info_of(reading: SystemReadingView) -> SystemInfoView {
    SystemInfoView {
        name: text_or_error(reading.name),
        kernel_ver: text_or_error(reading.kernel_ver),
        os_ver: text_or_error(reading.os_ver),
        host_name: text_or_error(reading.host_name),
        uptime: reading.uptime,
    }
}

pub open spec fn cpu_info_of(reading: CpuReadingView) -> CpuInfoView {
    CpuInfoView {
        brand: reading.brand,
        usage_bits: reading.usage_bits,
        frequency: reading.frequency,
    }
}

pub open spec fn ram_info_of(reading: RamReading) -> RamInfo {
    RamInfo {
        total_memory: reading.total_memory,
        used_memory: reading.used_memory,
        total_swap: reading.total_swap,
        used_swap: reading.used_swap,
    }
}

pub open spec fn disk_info_of(reading: DiskReadingView) -> DiskInfoView {
    DiskInfoView {
        mount_point: text_or_error(reading.mount_point),
        name: text_or_error(reading.name),
        size: reading.total_space,
        used_space: used_space(reading.total_space, reading.available_space),
    }
}

pub open spec fn gpu_info_of(reading: GpuReadingView) -> GpuInfoView {
    GpuInfoView {
        name: text_or_error(reading.name),
        util: percent_or_fallback(reading.util),
        encoder_util: percent_or_fallback(reading.encoder_util),
        decoder_util: percent_or_fallback(reading.decoder_util),
        used_memory: bytes_or_fallback(reading.used_memory),
        total_memory: bytes_or_fallback(reading.total_memory),
        graphic_clock: clock_or_fallback(reading.graphic_clock),
        max_graphic_clock: clock_or_fallback(reading.max_graphic_clock),
        memory_clock: clock_or_fallback(reading.memory_clock),
        memory_clock_max: clock_or_fallback(reading.memory_clock_max),
        sm_clock: clock_or_fallback(reading.sm_clock),
        sm_clock_max: clock_or_fallback(reading.sm_clock_max),
        video_clock: clock_or_fallback(reading.video_clock),
        video_clock_max: clock_or_fallback(reading.video_clock_max),
        power: watts_or_fallback(reading.power_milliwatts),
        max_power: watts_or_fallback(reading.max_power_milliwatts),
        temperature: temperature_or_fallback(reading.temperature),
    }
}

/// The snapshot that one pass's readings give: one entry for each core and
/// each volume, in the order of the readings.
pub open spec fn snapshot_of(readings: ReadingsView) -> SnapshotView {
    SnapshotView {
        system_details: system_info_of(readings.system),
        cpu: readings.cpus.map_values(|c: CpuReadingView| cpu_info_of(c)),
        ram: ram_info_of(readings.ram),
        disk: readings.disks.map_values(|d: DiskReadingView| disk_info_of(d)),
        gpu: gpu_info_of(readings.gpu),
    }
}

fn text_or_error_of(text: &Option<String>) -> (out: String)
    ensures
        out@ == text_or_error(crate::readings::text_view(*text)),
{
    match text {
        Some(s) => s.clone(),
        None => String::from_str("error"),
    }
}

fn clock_of(clock: Option<u32>) -> (out: u32)
    ensures
        out == clock_or_fallback(clock),
{
    match clock {
        Some(mhz) => mhz,
        None => CLOCK_FALLBACK,
    }
}

fn watts_of(power: Option<u32>) -> (out: u32)
    ensures
        out == watts_or_fallback(power),
{
    match power {
        Some(milliwatts) => milliwatts / 1000,
        None => POWER_FALLBACK_MILLIWATTS / 1000,
    }
}

fn percent_of(percent: Option<u32>) -> (out: u32)
    ensures
        out == percent_or_fallback(percent),
{
    match percent {
        Some(p) => p,
        None => COUNTER_FALLBACK,
    }
}

fn bytes_of(bytes: Option<u64>) -> (out: u64)
    ensures
        out == bytes_or_fallback(bytes),
{
    match bytes {
        Some(b) => b,
        None => 0,
    }
}

/// The system details of a pass, with `error` for each missing text.
pub fn build_system_info(reading: &SystemReading) -> (info: SystemInfo)
    ensures
        info@ == system_info_of(reading@),
{
    SystemInfo {
        name: text_or_error_of(&reading.name),
        kernel_ver: text_or_error_of(&reading.kernel_ver),
        os_ver: text_or_error_of(&reading.os_ver),
        host_name: text_or_error_of(&reading.host_name),
        uptime: reading.uptime,
    }
}

/// The entry for one core.
pub fn build_cpu_info(reading: &CpuReading) -> (info: CpuInfo)
    ensures
        info@ == cpu_info_of(reading@),
{
    CpuInfo {
        brand: reading.brand.clone(),
        usage_bits: reading.usage_bits,
        frequency: reading.frequency,
    }
}

/// The memory and swap figures of a pass.
pub fn build_ram_info(reading: &RamReading) -> (info: RamInfo)
    ensures
        info == ram_info_of(*reading),
{
    RamInfo {
        total_memory: reading.total_memory,
        used_memory: reading.used_memory,
        total_swap: reading.total_swap,
        used_swap: reading.used_swap,
    }
}

/// The entry for one volume.
pub fn build_disk_info(reading: &DiskReading) -> (info: DiskInfo)
    ensures
        info@ == disk_info_of(reading@),
{
    let used: u64 = if reading.available_space <= reading.total_space {
        reading.total_space - reading.available_space
    } else {
        0
    };
    DiskInfo {
        mount_point: text_or_error_of(&reading.mount_point),
        name: text_or_error_of(&reading.name),
        size: reading.total_space,
        used_space: used,
    }
}

/// The GPU values of a pass, each unavailable counter replaced by its
/// fallback.
pub fn build_gpu_info(reading: &GpuReading) -> (info: GpuInfo)
    ensures
        info@ == gpu_info_of(reading@),
{
    let temperature: u32 = match reading.temperature {
        Some(degrees) => degrees,
        None => TEMPERATURE_FALLBACK,
    };
    GpuInfo {
        name: text_or_error_of(&reading.name),
        util: percent_of(reading.util),
        encoder_util: percent_of(reading.encoder_util),
        decoder_util: percent_of(reading.decoder_util),
        used_memory: bytes_of(reading.used_memory),
        total_memory: bytes_of(reading.total_memory),
        graphic_clock: clock_of(reading.graphic_clock),
        max_graphic_clock: clock_of(reading.max_graphic_clock),
        memory_clock: clock_of(reading.memory_clock),
        memory_clock_max: clock_of(reading.memory_clock_max),
        sm_clock: clock_of(reading.sm_clock),
        sm_clock_max: clock_of(reading.sm_clock_max),
        video_clock: clock_of(reading.video_clock),
        video_clock_max: clock_of(reading.video_clock_max),
        power: watts_of(reading.power_milliwatts),
        max_power: watts_of(reading.max_power_milliwatts),
        temperature,
    }
}

/// Assembles the snapshot of one sampling pass. It succeeds on every
/// `Readings` value: no missing field aborts it. The snapshot has one entry
/// for each core and each volume of the readings.
pub fn build_snapshot(readings: &Readings) -> (snapshot: Snapshot)
    ensures
        snapshot@ == snapshot_of(readings@),
        snapshot.cpu.len() == readings.cpus.len(),
        snapshot.disk.len() == readings.disks.len(),
{
    let mut cpu: Vec<CpuInfo> = Vec::new();
    let mut i: usize = 0;
    while i < readings.cpus.len()
        invariant
            i <= readings.cpus.len(),
            cpu.len() == i,
            forall|k: int| 0 <= k < i ==> (#[trigger] cpu[k])@ == cpu_info_of(readings.cpus[k]@),
        decreases readings.cpus.len() - i,
    {
        cpu.push(build_cpu_info(&readings.cpus[i]));
        i += 1;
    }
    let mut disk: Vec<DiskInfo> = Vec::new();
    let mut j: usize = 0;
    while j < readings.disks.len()
        invariant
            j <= readings.disks.len(),
            disk.len() == j,
            forall|k: int| 0 <= k < j ==> (#[trigger] disk[k])@ == disk_info_of(readings.disks[k]@),
        decreases readings.disks.len() - j,
    {
        disk.push(build_disk_info(&readings.disks[j]));
        j += 1;
    }
    let snapshot = Snapshot {
        system_details: build_system_info(&readings.system),
        cpu,
        ram: build_ram_info(&readings.ram),
        disk,
        gpu: build_gpu_info(&readings.gpu),
    };
    assert(snapshot@.cpu =~= snapshot_of(readings@).cpu);
    assert(snapshot@.disk =~= snapshot_of(readings@).disk);
    snapshot
}

/// Every numeric reading of the pass is available and holds `stamp`: the
/// readings of a provider whose values are the number of the pass that
/// sampled them. Power is stamped in whole watts, and nothing is free on a
/// volume, so that its space in use is stamped too.
pub open spec fn sampled_in_pass(readings: ReadingsView, stamp: u32) -> bool {
    &&& readings.system.uptime == stamp
    &&& forall|i: int|
        0 <= i < readings.cpus.len() ==> (#[trigger] readings.cpus[i]).usage_bits == stamp
            && readings.cpus[i].frequency == stamp
    &&& readings.ram.total_memory == stamp
    &&& readings.ram.used_memory == stamp
    &&& readings.ram.total_swap == stamp
    &&& readings.ram.used_swap == stamp
    &&& forall|i: int|
        0 <= i < readings.disks.len() ==> (#[trigger] readings.disks[i]).total_space == stamp
            && readings.disks[i].available_space == 0
    &&& readings.gpu.util == Some(stamp)
    &&& readings.gpu.encoder_util == Some(stamp)
    &&& readings.gpu.decoder_util == Some(stamp)
    &&& readings.gpu.used_memory == Some(stamp as u64)
    &&& readings.gpu.total_memory == Some(stamp as u64)
    &&& readings.gpu.graphic_clock == Some(stamp)
    &&& readings.gpu.max_graphic_clock == Some(stamp)
    &&& readings.gpu.memory_clock == Some(stamp)
    &&& readings.gpu.memory_clock_max == Some(stamp)
    &&& readings.gpu.sm_clock == Some(stamp)
    &&& readings.gpu.sm_clock_max == Some(stamp)
    &&& readings.gpu.video_clock == Some(stamp)
    &&& readings.gpu.video_clock_max == Some(stamp)
    &&& readings.gpu.power_milliwatts is Some
    &&& readings.gpu.power_milliwatts->0 / 1000 == stamp
    &&& readings.gpu.max_power_milliwatts is Some
    &&& readings.gpu.max_power_milliwatts->0 / 1000 == stamp
    &&& readings.gpu.temperature == Some(stamp)
}

/// Every numeric field of the snapshot holds `stamp`.
pub open spec fn shows_pass(snapshot: SnapshotView, stamp: u32) -> bool {
    &&& snapshot.system_details.uptime == stamp
    &&& forall|i: int|
        0 <= i < snapshot.cpu.len() ==> (#[trigger] snapshot.cpu[i]).usage_bits == stamp
            && snapshot.cpu[i].frequency == stamp
    &&& snapshot.ram.total_memory == stamp
    &&& snapshot.ram.used_memory == stamp
    &&& snapshot.ram.total_swap == stamp
    &&& snapshot.ram.used_swap == stamp
    &&& forall|i: int|
        0 <= i < snapshot.disk.len() ==> (#[trigger] snapshot.disk[i]).size == stamp
            && snapshot.disk[i].used_space == stamp
    &&& snapshot.gpu.util == stamp
    &&& snapshot.gpu.encoder_util == stamp
    &&& snapshot.gpu.decoder_util == stamp
    &&& snapshot.gpu.used_memory == stamp
    &&& snapshot.gpu.total_memory == stamp
    &&& snapshot.gpu.graphic_clock == stamp
    &&& snapshot.gpu.max_graphic_clock == stamp
    &&& snapshot.gpu.memory_clock == stamp
    &&& snapshot.gpu.memory_clock_max == stamp
    &&& snapshot.gpu.sm_clock == stamp
    &&& snapshot.gpu.sm_clock_max == stamp
    &&& snapshot.gpu.video_clock == stamp
    &&& snapshot.gpu.video_clock_max == stamp
    &&& snapshot.gpu.power == stamp
    &&& snapshot.gpu.max_power == stamp
    &&& snapshot.gpu.temperature == stamp
}

/// A snapshot holds one entry for each core and one for each volume that
/// the pass reported, in the order of the pass.
pub proof fn lemma_snapshot_lists_every_core_and_volume(readings: ReadingsView)
    ensures
        snapshot_of(readings).cpu.len() == readings.cpus.len(),
        snapshot_of(readings).disk.len() == readings.disks.len(),
        forall|i: int|
            0 <= i < readings.cpus.len() ==> #[trigger] snapshot_of(readings).cpu[i]
                == cpu_info_of(readings.cpus[i]),
        forall|i: int|
            0 <= i < readings.disks.len() ==> #[trigger] snapshot_of(readings).disk[i]
                == disk_info_of(readings.disks[i]),
{
}

/// A reading that the provider could not deliver surfaces in the snapshot
/// as the fallback of its field: `error` for a text, 101 for a clock, 0 for
/// the temperature, a utilisation or a memory size, 1 W for a power value.
pub proof fn lemma_unavailable_reading_surfaces_as_fallback(readings: ReadingsView)
    ensures
        readings.system.name is None ==> snapshot_of(readings).system_details.name == error_text(),
        readings.system.kernel_ver is None ==> snapshot_of(readings).system_details.kernel_ver
            == error_text(),
        readings.system.os_ver is None ==> snapshot_of(readings).system_details.os_ver
            == error_text(),
        readings.system.host_name is None ==> snapshot_of(readings).system_details.host_name
            == error_text(),
        forall|i: int|
            0 <= i < readings.disks.len() && readings.disks[i].mount_point is None
                ==> (#[trigger] snapshot_of(readings).disk[i]).mount_point == error_text(),
        forall|i: int|
            0 <= i < readings.disks.len() && readings.disks[i].name is None ==> (
            #[trigger] snapshot_of(readings).disk[i]).name == error_text(),
        readings.gpu.name is None ==> snapshot_of(readings).gpu.name == error_text(),
        readings.gpu.util is None ==> snapshot_of(readings).gpu.util == 0,
        readings.gpu.encoder_util is None ==> snapshot_of(readings).gpu.encoder_util == 0,
        readings.gpu.decoder_util is None ==> snapshot_of(readings).gpu.decoder_util == 0,
        readings.gpu.used_memory is None ==> snapshot_of(readings).gpu.used_memory == 0,
        readings.gpu.total_memory is None ==> snapshot_of(readings).gpu.total_memory == 0,
        readings.gpu.graphic_clock is None ==> snapshot_of(readings).gpu.graphic_clock == 101,
        readings.gpu.max_graphic_clock is None ==> snapshot_of(readings).gpu.max_graphic_clock
            == 101,
        readings.gpu.memory_clock is None ==> snapshot_of(readings).gpu.memory_clock == 101,
        readings.gpu.memory_clock_max is None ==> snapshot_of(readings).gpu.memory_clock_max
            == 101,
        readings.gpu.sm_clock is None ==> snapshot_of(readings).gpu.sm_clock == 101,
        readings.gpu.sm_clock_max is None ==> snapshot_of(readings).gpu.sm_clock_max == 101,
        readings.gpu.video_clock is None ==> snapshot_of(readings).gpu.video_clock == 101,
        readings.gpu.video_clock_max is None ==> snapshot_of(readings).gpu.video_clock_max == 101,
        readings.gpu.power_milliwatts is None ==> snapshot_of(readings).gpu.power == 1,
        readings.gpu.max_power_milliwatts is None ==> snapshot_of(readings).gpu.max_power == 1,
        readings.gpu.temperature is None ==> snapshot_of(readings).gpu.temperature == 0,
{
}

/// A snapshot is drawn from one pass and no other: where every numeric
/// reading of the pass holds the pass's stamp, every numeric field of the
/// snapshot holds it, so none holds the stamp of another pass.
pub proof fn lemma_snapshot_shows_one_pass(readings: ReadingsView, stamp: u32, other: u32)
    requires
        sampled_in_pass(readings, stamp),
    ensures
        shows_pass(snapshot_of(readings), stamp),
        other != stamp ==> snapshot_of(readings).system_details.uptime != other,
        other != stamp ==> snapshot_of(readings).gpu.temperature != other,
        other != stamp ==> forall|i: int|
            0 <= i < snapshot_of(readings).cpu.len() ==> (#[trigger] snapshot_of(
                readings,
            ).cpu[i]).frequency != other,
        other != stamp ==> forall|i: int|
            0 <= i < snapshot_of(readings).disk.len() ==> (#[trigger] snapshot_of(
                readings,
            ).disk[i]).size != other,
{
    let snapshot = snapshot_of(readings);
    assert forall|i: int| 0 <= i < snapshot.cpu.len() implies (#[trigger] snapshot.cpu[i]).usage_bits
        == stamp && snapshot.cpu[i].frequency == stamp by {
        assert(snapshot.cpu[i] == cpu_info_of(readings.cpus[i]));
    }
    assert forall|i: int| 0 <= i < snapshot.disk.len() implies (#[trigger] snapshot.disk[i]).size
        == stamp && snapshot.disk[i].used_space == stamp by {
        assert(snapshot.disk[i] == disk_info_of(readings.disks[i]));
    }
}

} // verus!
