//! What the sensor provider reported in one sampling pass, as plain values.
//!
//! A sub-reading that the provider could not deliver is `None`. The caller
//! samples every field of one `Readings` value while it holds the provider
//! exclusively, so that one value stands for one point in time.

use vstd::prelude::*;

verus! {

/// The view of an optional text: the characters, where there are any.
pub open spec fn text_view(text: Option<String>) -> Option<Seq<char>> {
    match text {
        Some(s) => Some(s@),
        None => None,
    }
}

/// Identity of the host, and how long it has been up, in seconds.
pub struct SystemReading {
    pub name: Option<String>,
    pub kernel_ver: Option<String>,
    pub os_ver: Option<String>,
    pub host_name: Option<String>,
    pub uptime: u64,
}

pub struct SystemReadingView {
    pub name: Option<Seq<char>>,
    pub kernel_ver: Option<Seq<char>>,
    pub os_ver: Option<Seq<char>>,
    pub host_name: Option<Seq<char>>,
    pub uptime: u64,
}

impl View for SystemReading {
    type V = SystemReadingView;

    open spec fn view(&self) -> SystemReadingView {
        SystemReadingView {
            name: text_view(self.name),
            kernel_ver: text_view(self.kernel_ver),
            os_ver: text_view(self.os_ver),
            host_name: text_view(self.host_name),
            uptime: self.uptime,
        }
    }
}

/// One logical core. `usage_bits` holds the bit pattern of the usage
/// percentage, a single-precision number; `frequency` is in MHz.
pub struct CpuReading {
    pub brand: String,
    pub usage_bits: u32,
    pub frequency: u64,
}

pub struct CpuReadingView {
    pub brand: Seq<char>,
    pub usage_bits: u32,
    pub frequency: u64,
}

impl View for CpuReading {
    type V = CpuReadingView;

    open spec fn view(&self) -> CpuReadingView {
        CpuReadingView {
            brand: self.brand@,
            usage_bits: self.usage_bits,
            frequency: self.frequency,
        }
    }
}

/// Memory and swap, in bytes.
pub struct RamReading {
    pub total_memory: u64,
    pub used_memory: u64,
    pub total_swap: u64,
    pub used_swap: u64,
}

/// One mounted volume, sizes in bytes. The texts are `None` where the
/// provider's value is not valid UTF-8.
pub struct DiskReading {
    pub mount_point: Option<String>,
    pub name: Option<String>,
    pub total_space: u64,
    pub available_space: u64,
}

pub struct DiskReadingView {
    pub mount_point: Option<Seq<char>>,
    pub name: Option<Seq<char>>,
    pub total_space: u64,
    pub available_space: u64,
}

impl View for DiskReading {
    type V = DiskReadingView;

    open spec fn view(&self) -> DiskReadingView {
        DiskReadingView {
            mount_point: text_view(self.mount_point),
            name: text_view(self.name),
            total_space: self.total_space,
            available_space: self.available_space,
        }
    }
}

/// The counters of the graphics device. Utilisation in percent, memory in
/// bytes, clocks in MHz, power in milliwatts, temperature in degrees
/// Celsius.
pub struct GpuReading {
    pub name: Option<String>,
    pub util: Option<u32>,
    pub encoder_util: Option<u32>,
    pub decoder_util: Option<u32>,
    pub used_memory: Option<u64>,
    pub total_memory: Option<u64>,
    pub graphic_clock: Option<u32>,
    pub max_graphic_clock: Option<u32>,
    pub memory_clock: Option<u32>,
    pub memory_clock_max: Option<u32>,
    pub sm_clock: Option<u32>,
    pub sm_clock_max: Option<u32>,
    pub video_clock: Option<u32>,
    pub video_clock_max: Option<u32>,
    pub power_milliwatts: Option<u32>,
    pub max_power_milliwatts: Option<u32>,
    pub temperature: Option<u32>,
}

pub struct GpuReadingView {
    pub name: Option<Seq<char>>,
    pub util: Option<u32>,
    pub encoder_util: Option<u32>,
    pub decoder_util: Option<u32>,
    pub used_memory: Option<u64>,
    pub total_memory: Option<u64>,
    pub graphic_clock: Option<u32>,
    pub max_graphic_clock: Option<u32>,
    pub memory_clock: Option<u32>,
    pub memory_clock_max: Option<u32>,
    pub sm_clock: Option<u32>,
    pub sm_clock_max: Option<u32>,
    pub video_clock: Option<u32>,
    pub video_clock_max: Option<u32>,
    pub power_milliwatts: Option<u32>,
    pub max_power_milliwatts: Option<u32>,
    pub temperature: Option<u32>,
}

impl GpuReadingView {
    /// No counter of the device could be read.
    pub open spec fn unavailable() -> GpuReadingView {
        GpuReadingView {
            name: None,
            util: None,
            encoder_util: None,
            decoder_util: None,
            used_memory: None,
            total_memory: None,
            graphic_clock: None,
            max_graphic_clock: None,
            memory_clock: None,
            memory_clock_max: None,
            sm_clock: None,
            sm_clock_max: None,
            video_clock: None,
            video_clock_max: None,
            power_milliwatts: None,
            max_power_milliwatts: None,
            temperature: None,
        }
    }
}

impl View for GpuReading {
    type V = GpuReadingView;

    open spec fn view(&self) -> GpuReadingView {
        GpuReadingView {
            name: text_view(self.name),
            util: self.util,
            encoder_util: self.encoder_util,
            decoder_util: self.decoder_util,
            used_memory: self.used_memory,
            total_memory: self.total_memory,
            graphic_clock: self.graphic_clock,
            max_graphic_clock: self.max_graphic_clock,
            memory_clock: self.memory_clock,
            memory_clock_max: self.memory_clock_max,
            sm_clock: self.sm_clock,
            sm_clock_max: self.sm_clock_max,
            video_clock: self.video_clock,
            video_clock_max: self.video_clock_max,
            power_milliwatts: self.power_milliwatts,
            max_power_milliwatts: self.max_power_milliwatts,
            temperature: self.temperature,
        }
    }
}

impl GpuReading {
    /// The reading of a device that could not be reached at all.
    pub fn unavailable() -> (reading: GpuReading)
        ensures
            reading@ == GpuReadingView::unavailable(),
    {
        GpuReading {
            name: None,
            util: None,
            encoder_util: None,
            decoder_util: None,
            used_memory: None,
            total_memory: None,
            graphic_clock: None,
            max_graphic_clock: None,
            memory_clock: None,
            memory_clock_max: None,
            sm_clock: None,
            sm_clock_max: None,
            video_clock: None,
            video_clock_max: None,
            power_milliwatts: None,
            max_power_milliwatts: None,
            temperature: None,
        }
    }
}

/// Everything that one sampling pass delivered: the cores and the volumes
/// in the provider's order of enumeration.
pub struct Readings {
    pub system: SystemReading,
    pub cpus: Vec<CpuReading>,
    pub ram: RamReading,
    pub disks: Vec<DiskReading>,
    pub gpu: GpuReading,
}

pub struct ReadingsView {
    pub system: SystemReadingView,
    pub cpus: Seq<CpuReadingView>,
    pub ram: RamReading,
    pub disks: Seq<DiskReadingView>,
    pub gpu: GpuReadingView,
}

impl View for Readings {
    type V = ReadingsView;

    open spec fn view(&self) -> ReadingsView {
        ReadingsView {
            system: self.system@,
            cpus: self.cpus@.map_values(|c: CpuReading| c@),
            ram: self.ram,
            disks: self.disks@.map_values(|d: DiskReading| d@),
            gpu: self.gpu@,
        }
    }
}

} // verus!
