//! The sensors known by name.

use crate::apple::{
    Platform, Sensor, SensorGroup, SensorKind, ALL, ALL_M1, APPLE_SILICON, INTEL, M2,
};
use crate::smc::code::{code_of, lemma_code_of_ascii};
use crate::ComponentType;
use vstd::prelude::*;

verus! {

/// The temperatures around the hardware.
pub open spec fn ambient_sensors() -> Seq<Sensor> {
    seq![
        Sensor::of_group(
            "TA%P",
            "Ambient %",
            SensorGroup::Sensor,
            SensorKind::Temperature,
            Platform { bits: ALL },
        ),
        Sensor::of_group(
            "Th%H",
            "Heatpipe %",
            SensorGroup::Sensor,
            SensorKind::Temperature,
            Platform { bits: ALL },
        ),
        Sensor::of_group(
            "TZ%C",
            "Thermal Zone %",
            SensorGroup::Sensor,
            SensorKind::Temperature,
            Platform { bits: ALL },
        ),
    ]
}

fn push_ambient_sensors(v: &mut Vec<Sensor>)
    ensures
        final(v)@ == old(v)@ + ambient_sensors(),
{
    v.push(Sensor::sensor("TA%P", "Ambient %", SensorKind::Temperature, Platform { bits: ALL }));
    v.push(Sensor::sensor("Th%H", "Heatpipe %", SensorKind::Temperature, Platform { bits: ALL }));
    v.push(
        Sensor::sensor(
            "TZ%C",
            "Thermal Zone %",
            SensorKind::Temperature,
            Platform { bits: ALL },
        ),
    );
    assert(v@ =~= old(v)@ + ambient_sensors());
}

/// The temperatures of the CPU.
pub open spec fn cpu_sensors() -> Seq<Sensor> {
    seq![
        Sensor::of_group(
            "TC0D",
            "CPU diode",
            SensorGroup::Cpu,
            SensorKind::Temperature,
            Platform { bits: ALL },
        ),
        Sensor::of_group(
            "TC0E",
            "CPU diode virtual",
            SensorGroup::Cpu,
            SensorKind::Temperature,
            Platform { bits: ALL },
        ),
        Sensor::of_group(
            "TC0F",
            "CPU diode filtered",
            SensorGroup::Cpu,
            SensorKind::Temperature,
            Platform { bits: ALL },
        ),
        Sensor::of_group(
            "TC0H",
            "CPU heatsink",
            SensorGroup::Cpu,
            SensorKind::Temperature,
            Platform { bits: ALL },
        ),
        Sensor::of_group(
            "TC0P",
            "CPU proximity",
            SensorGroup::Cpu,
            SensorKind::Temperature,
            Platform { bits: ALL },
        ),
        Sensor::of_group(
            "TCAD",
            "CPU package",
            SensorGroup::Cpu,
            SensorKind::Temperature,
            Platform { bits: ALL },
        ),
        Sensor {
            average: true,
            ..Sensor::of_group(
                "TC%c",
                "CPU Core %",
                SensorGroup::Cpu,
                SensorKind::Temperature,
                Platform { bits: ALL },
            )
        },
        Sensor {
            average: true,
            ..Sensor::of_group(
                "TC%C",
                "CPU Core %",
                SensorGroup::Cpu,
                SensorKind::Temperature,
                Platform { bits: ALL },
            )
        },
    ]
}

fn push_cpu_sensors(v: &mut Vec<Sensor>)
    ensures
        final(v)@ == old(v)@ + cpu_sensors(),
{
    v.push(Sensor::cpu("TC0D", "CPU diode", SensorKind::Temperature, Platform { bits: ALL }));
    v.push(
        Sensor::cpu(
            "TC0E",
            "CPU diode virtual",
            SensorKind::Temperature,
            Platform { bits: ALL },
        ),
    );
    v.push(
        Sensor::cpu(
            "TC0F",
            "CPU diode filtered",
            SensorKind::Temperature,
            Platform { bits: ALL },
        ),
    );
    v.push(Sensor::cpu("TC0H", "CPU heatsink", SensorKind::Temperature, Platform { bits: ALL }));
    v.push(Sensor::cpu("TC0P", "CPU proximity", SensorKind::Temperature, Platform { bits: ALL }));
    v.push(Sensor::cpu("TCAD", "CPU package", SensorKind::Temperature, Platform { bits: ALL }));
    v.push(
        Sensor::cpu(
            "TC%c",
            "CPU Core %",
            SensorKind::Temperature,
            Platform { bits: ALL },
        ).average(),
    );
    v.push(
        Sensor::cpu(
            "TC%C",
            "CPU Core %",
            SensorKind::Temperature,
            Platform { bits: ALL },
        ).average(),
    );
    assert(v@ =~= old(v)@ + cpu_sensors());
}

/// The temperatures of the GPU.
pub open spec fn gpu_sensors() -> Seq<Sensor> {
    seq![
        Sensor::of_group(
            "TCGC",
            "GPU Intel Graphics",
            SensorGroup::Gpu,
            SensorKind::Temperature,
            Platform { bits: ALL },
        ),
        Sensor::of_group(
            "TG0D",
            "GPU diode",
            SensorGroup::Gpu,
            SensorKind::Temperature,
            Platform { bits: ALL },
        ),
        Sensor::of_group(
            "TGDD",
            "GPU AMD Radeon",
            SensorGroup::Gpu,
            SensorKind::Temperature,
            Platform { bits: ALL },
        ),
        Sensor::of_group(
            "TG0H",
            "GPU heatsink",
            SensorGroup::Gpu,
            SensorKind::Temperature,
            Platform { bits: ALL },
        ),
        Sensor::of_group(
            "TG0P",
            "GPU proximity",
            SensorGroup::Gpu,
            SensorKind::Temperature,
            Platform { bits: ALL },
        ),
    ]
}

fn push_gpu_sensors(v: &mut Vec<Sensor>)
    ensures
        final(v)@ == old(v)@ + gpu_sensors(),
{
    v.push(
        Sensor::gpu(
            "TCGC",
            "GPU Intel Graphics",
            SensorKind::Temperature,
            Platform { bits: ALL },
        ),
    );
    v.push(Sensor::gpu("TG0D", "GPU diode", SensorKind::Temperature, Platform { bits: ALL }));
    v.push(Sensor::gpu("TGDD", "GPU AMD Radeon", SensorKind::Temperature, Platform { bits: ALL }));
    v.push(Sensor::gpu("TG0H", "GPU heatsink", SensorKind::Temperature, Platform { bits: ALL }));
    v.push(Sensor::gpu("TG0P", "GPU proximity", SensorKind::Temperature, Platform { bits: ALL }));
    assert(v@ =~= old(v)@ + gpu_sensors());
}

/// The temperatures of the rest of the system.
pub open spec fn system_sensors() -> Seq<Sensor> {
    seq![
        Sensor::of_group(
            "Tm0P",
            "Mainboard",
            SensorGroup::System,
            SensorKind::Temperature,
            Platform { bits: ALL },
        ),
        Sensor::of_group(
            "Tp0P",
            "Powerboard",
            SensorGroup::System,
            SensorKind::Temperature,
            Platform { bits: INTEL },
        ),
        Sensor::of_group(
            "TB1T",
            "Battery",
            SensorGroup::System,
            SensorKind::Temperature,
            Platform { bits: INTEL },
        ),
        Sensor::of_group(
            "TW0P",
            "Airport",
            SensorGroup::System,
            SensorKind::Temperature,
            Platform { bits: ALL },
        ),
        Sensor::of_group(
            "TL0P",
            "Display",
            SensorGroup::System,
            SensorKind::Temperature,
            Platform { bits: ALL },
        ),
        Sensor::of_group(
            "TI%P",
            "Thunderbolt %",
            SensorGroup::System,
            SensorKind::Temperature,
            Platform { bits: ALL },
        ),
        Sensor::of_group(
            "TH%A",
            "Disk % (A)",
            SensorGroup::System,
            SensorKind::Temperature,
            Platform { bits: ALL },
        ),
        Sensor::of_group(
            "TH%B",
            "Disk % (B)",
            SensorGroup::System,
            SensorKind::Temperature,
            Platform { bits: ALL },
        ),
        Sensor::of_group(
            "TH%C",
            "Disk % (C)",
            SensorGroup::System,
            SensorKind::Temperature,
            Platform { bits: ALL },
        ),
        Sensor {
            component_type: ComponentType::Motherboard,
            ..Sensor::of_group(
                "TN0D",
                "Northbridge diode",
                SensorGroup::System,
                SensorKind::Temperature,
                Platform { bits: ALL },
            )
        },
        Sensor {
            component_type: ComponentType::Motherboard,
            ..Sensor::of_group(
                "TN0H",
                "Northbridge heatsink",
                SensorGroup::System,
                SensorKind::Temperature,
                Platform { bits: ALL },
            )
        },
        Sensor {
            component_type: ComponentType::Motherboard,
            ..Sensor::of_group(
                "TN0P",
                "Northbridge proximity",
                SensorGroup::System,
                SensorKind::Temperature,
                Platform { bits: ALL },
            )
        },
    ]
}

fn push_system_sensors(v: &mut Vec<Sensor>)
    ensures
        final(v)@ == old(v)@ + system_sensors(),
{
    v.push(Sensor::system("Tm0P", "Mainboard", SensorKind::Temperature, Platform { bits: ALL }));
    v.push(Sensor::system("Tp0P", "Powerboard", SensorKind::Temperature, Platform { bits: INTEL }));
    v.push(Sensor::system("TB1T", "Battery", SensorKind::Temperature, Platform { bits: INTEL }));
    v.push(Sensor::system("TW0P", "Airport", SensorKind::Temperature, Platform { bits: ALL }));
    v.push(Sensor::system("TL0P", "Display", SensorKind::Temperature, Platform { bits: ALL }));
    v.push(
        Sensor::system(
            "TI%P",
            "Thunderbolt %",
            SensorKind::Temperature,
            Platform { bits: ALL },
        ),
    );
    v.push(Sensor::system("TH%A", "Disk % (A)", SensorKind::Temperature, Platform { bits: ALL }));
    v.push(Sensor::system("TH%B", "Disk % (B)", SensorKind::Temperature, Platform { bits: ALL }));
    v.push(Sensor::system("TH%C", "Disk % (C)", SensorKind::Temperature, Platform { bits: ALL }));
    v.push(
        Sensor::system(
            "TN0D",
            "Northbridge diode",
            SensorKind::Temperature,
            Platform { bits: ALL },
        ).component_type(ComponentType::Motherboard),
    );
    v.push(
        Sensor::system(
            "TN0H",
            "Northbridge heatsink",
            SensorKind::Temperature,
            Platform { bits: ALL },
        ).component_type(ComponentType::Motherboard),
    );
    v.push(
        Sensor::system(
            "TN0P",
            "Northbridge proximity",
            SensorKind::Temperature,
            Platform { bits: ALL },
        ).component_type(ComponentType::Motherboard),
    );
    assert(v@ =~= old(v)@ + system_sensors());
}

/// The temperatures of the cores of the M1 series.
pub open spec fn m1_cpu_sensors() -> Seq<Sensor> {
    seq![
        Sensor {
            average: true,
            ..Sensor::of_group(
                "Tp09",
                "CPU efficiency core 1",
                SensorGroup::Cpu,
                SensorKind::Temperature,
                Platform { bits: ALL_M1 },
            )
        },
        Sensor {
            average: true,
            ..Sensor::of_group(
                "Tp0T",
                "CPU efficiency core 2",
                SensorGroup::Cpu,
                SensorKind::Temperature,
                Platform { bits: ALL_M1 },
            )
        },
        Sensor {
            average: true,
            ..Sensor::of_group(
                "Tp01",
                "CPU performance core 1",
                SensorGroup::Cpu,
                SensorKind::Temperature,
                Platform { bits: ALL_M1 },
            )
        },
        Sensor {
            average: true,
            ..Sensor::of_group(
                "Tp05",
                "CPU performance core 2",
                SensorGroup::Cpu,
                SensorKind::Temperature,
                Platform { bits: ALL_M1 },
            )
        },
        Sensor {
            average: true,
            ..Sensor::of_group(
                "Tp0D",
                "CPU performance core 3",
                SensorGroup::Cpu,
                SensorKind::Temperature,
                Platform { bits: ALL_M1 },
            )
        },
        Sensor {
            average: true,
            ..Sensor::of_group(
                "Tp0H",
                "CPU performance core 4",
                SensorGroup::Cpu,
                SensorKind::Temperature,
                Platform { bits: ALL_M1 },
            )
        },
        Sensor {
            average: true,
            ..Sensor::of_group(
                "Tp0L",
                "CPU performance core 5",
                SensorGroup::Cpu,
                SensorKind::Temperature,
                Platform { bits: ALL_M1 },
            )
        },
        Sensor {
            average: true,
            ..Sensor::of_group(
                "Tp0P",
                "CPU performance core 6",
                SensorGroup::Cpu,
                SensorKind::Temperature,
                Platform { bits: ALL_M1 },
            )
        },
        Sensor {
            average: true,
            ..Sensor::of_group(
                "Tp0X",
                "CPU performance core 7",
                SensorGroup::Cpu,
                SensorKind::Temperature,
                Platform { bits: ALL_M1 },
            )
        },
        Sensor {
            average: true,
            ..Sensor::of_group(
                "Tp0b",
                "CPU performance core 8",
                SensorGroup::Cpu,
                SensorKind::Temperature,
                Platform { bits: ALL_M1 },
            )
        },
    ]
}

fn push_m1_cpu_sensors(v: &mut Vec<Sensor>)
    ensures
        final(v)@ == old(v)@ + m1_cpu_sensors(),
{
    v.push(
        Sensor::cpu(
            "Tp09",
            "CPU efficiency core 1",
            SensorKind::Temperature,
            Platform { bits: ALL_M1 },
        ).average(),
    );
    v.push(
        Sensor::cpu(
            "Tp0T",
            "CPU efficiency core 2",
            SensorKind::Temperature,
            Platform { bits: ALL_M1 },
        ).average(),
    );
    v.push(
        Sensor::cpu(
            "Tp01",
            "CPU performance core 1",
            SensorKind::Temperature,
            Platform { bits: ALL_M1 },
        ).average(),
    );
    v.push(
        Sensor::cpu(
            "Tp05",
            "CPU performance core 2",
            SensorKind::Temperature,
            Platform { bits: ALL_M1 },
        ).average(),
    );
    v.push(
        Sensor::cpu(
            "Tp0D",
            "CPU performance core 3",
            SensorKind::Temperature,
            Platform { bits: ALL_M1 },
        ).average(),
    );
    v.push(
        Sensor::cpu(
            "Tp0H",
            "CPU performance core 4",
            SensorKind::Temperature,
            Platform { bits: ALL_M1 },
        ).average(),
    );
    v.push(
        Sensor::cpu(
            "Tp0L",
            "CPU performance core 5",
            SensorKind::Temperature,
            Platform { bits: ALL_M1 },
        ).average(),
    );
    v.push(
        Sensor::cpu(
            "Tp0P",
            "CPU performance core 6",
            SensorKind::Temperature,
            Platform { bits: ALL_M1 },
        ).average(),
    );
    v.push(
        Sensor::cpu(
            "Tp0X",
            "CPU performance core 7",
            SensorKind::Temperature,
            Platform { bits: ALL_M1 },
        ).average(),
    );
    v.push(
        Sensor::cpu(
            "Tp0b",
            "CPU performance core 8",
            SensorKind::Temperature,
            Platform { bits: ALL_M1 },
        ).average(),
    );
    assert(v@ =~= old(v)@ + m1_cpu_sensors());
}

/// The temperatures of the GPU clusters of the M1 series.
pub open spec fn m1_gpu_sensors() -> Seq<Sensor> {
    seq![
        Sensor {
            average: true,
            ..Sensor::of_group(
                "Tg05",
                "GPU Cluster 1",
                SensorGroup::Gpu,
                SensorKind::Temperature,
                Platform { bits: ALL_M1 },
            )
        },
        Sensor {
            average: true,
            ..Sensor::of_group(
                "Tg0D",
                "GPU Cluster 2",
                SensorGroup::Gpu,
                SensorKind::Temperature,
                Platform { bits: ALL_M1 },
            )
        },
        Sensor {
            average: true,
            ..Sensor::of_group(
                "Tg0L",
                "GPU Cluster 3",
                SensorGroup::Gpu,
                SensorKind::Temperature,
                Platform { bits: ALL_M1 },
            )
        },
        Sensor {
            average: true,
            ..Sensor::of_group(
                "Tg0T",
                "GPU Cluster 4",
                SensorGroup::Gpu,
                SensorKind::Temperature,
                Platform { bits: ALL_M1 },
            )
        },
    ]
}

fn push_m1_gpu_sensors(v: &mut Vec<Sensor>)
    ensures
        final(v)@ == old(v)@ + m1_gpu_sensors(),
{
    v.push(
        Sensor::gpu(
            "Tg05",
            "GPU Cluster 1",
            SensorKind::Temperature,
            Platform { bits: ALL_M1 },
        ).average(),
    );
    v.push(
        Sensor::gpu(
            "Tg0D",
            "GPU Cluster 2",
            SensorKind::Temperature,
            Platform { bits: ALL_M1 },
        ).average(),
    );
    v.push(
        Sensor::gpu(
            "Tg0L",
            "GPU Cluster 3",
            SensorKind::Temperature,
            Platform { bits: ALL_M1 },
        ).average(),
    );
    v.push(
        Sensor::gpu(
            "Tg0T",
            "GPU Cluster 4",
            SensorKind::Temperature,
            Platform { bits: ALL_M1 },
        ).average(),
    );
    assert(v@ =~= old(v)@ + m1_gpu_sensors());
}

/// The temperatures of the cores of the M2.
pub open spec fn m2_cpu_sensors() -> Seq<Sensor> {
    seq![
        Sensor {
            average: true,
            ..Sensor::of_group(
                "Tp05",
                "CPU efficiency core 1",
                SensorGroup::Cpu,
                SensorKind::Temperature,
                Platform { bits: M2 },
            )
        },
        Sensor {
            average: true,
            ..Sensor::of_group(
                "Tp0D",
                "CPU efficiency core 2",
                SensorGroup::Cpu,
                SensorKind::Temperature,
                Platform { bits: M2 },
            )
        },
        Sensor {
            average: true,
            ..Sensor::of_group(
                "Tp0j",
                "CPU efficiency core 3",
                SensorGroup::Cpu,
                SensorKind::Temperature,
                Platform { bits: M2 },
            )
        },
        Sensor {
            average: true,
            ..Sensor::of_group(
                "Tp0r",
                "CPU efficiency core 4",
                SensorGroup::Cpu,
                SensorKind::Temperature,
                Platform { bits: M2 },
            )
        },
        Sensor {
            average: true,
            ..Sensor::of_group(
                "Tp01",
                "CPU performance core 1",
                SensorGroup::Cpu,
                SensorKind::Temperature,
                Platform { bits: M2 },
            )
        },
        Sensor {
            average: true,
            ..Sensor::of_group(
                "Tp09",
                "CPU performance core 2",
                SensorGroup::Cpu,
                SensorKind::Temperature,
                Platform { bits: M2 },
            )
        },
        Sensor {
            average: true,
            ..Sensor::of_group(
                "Tp0f",
                "CPU performance core 3",
                SensorGroup::Cpu,
                SensorKind::Temperature,
                Platform { bits: M2 },
            )
        },
        Sensor {
            average: true,
            ..Sensor::of_group(
                "Tp0n",
                "CPU performance core 4",
                SensorGroup::Cpu,
                SensorKind::Temperature,
                Platform { bits: M2 },
            )
        },
    ]
}

fn push_m2_cpu_sensors(v: &mut Vec<Sensor>)
    ensures
        final(v)@ == old(v)@ + m2_cpu_sensors(),
{
    v.push(
        Sensor::cpu(
            "Tp05",
            "CPU efficiency core 1",
            SensorKind::Temperature,
            Platform { bits: M2 },
        ).average(),
    );
    v.push(
        Sensor::cpu(
            "Tp0D",
            "CPU efficiency core 2",
            SensorKind::Temperature,
            Platform { bits: M2 },
        ).average(),
    );
    v.push(
        Sensor::cpu(
            "Tp0j",
            "CPU efficiency core 3",
            SensorKind::Temperature,
            Platform { bits: M2 },
        ).average(),
    );
    v.push(
        Sensor::cpu(
            "Tp0r",
            "CPU efficiency core 4",
            SensorKind::Temperature,
            Platform { bits: M2 },
        ).average(),
    );
    v.push(
        Sensor::cpu(
            "Tp01",
            "CPU performance core 1",
            SensorKind::Temperature,
            Platform { bits: M2 },
        ).average(),
    );
    v.push(
        Sensor::cpu(
            "Tp09",
            "CPU performance core 2",
            SensorKind::Temperature,
            Platform { bits: M2 },
        ).average(),
    );
    v.push(
        Sensor::cpu(
            "Tp0f",
            "CPU performance core 3",
            SensorKind::Temperature,
            Platform { bits: M2 },
        ).average(),
    );
    v.push(
        Sensor::cpu(
            "Tp0n",
            "CPU performance core 4",
            SensorKind::Temperature,
            Platform { bits: M2 },
        ).average(),
    );
    assert(v@ =~= old(v)@ + m2_cpu_sensors());
}

/// The temperatures of the GPU clusters of the M2.
pub open spec fn m2_gpu_sensors() -> Seq<Sensor> {
    seq![
        Sensor {
            average: true,
            ..Sensor::of_group(
                "Tg0f",
                "GPU Cluster 1",
                SensorGroup::Gpu,
                SensorKind::Temperature,
                Platform { bits: M2 },
            )
        },
        Sensor {
            average: true,
            ..Sensor::of_group(
                "Tg0n",
                "GPU Cluster 2",
                SensorGroup::Gpu,
                SensorKind::Temperature,
                Platform { bits: M2 },
            )
        },
    ]
}

fn push_m2_gpu_sensors(v: &mut Vec<Sensor>)
    ensures
        final(v)@ == old(v)@ + m2_gpu_sensors(),
{
    v.push(
        Sensor::gpu(
            "Tg0f",
            "GPU Cluster 1",
            SensorKind::Temperature,
            Platform { bits: M2 },
        ).average(),
    );
    v.push(
        Sensor::gpu(
            "Tg0n",
            "GPU Cluster 2",
            SensorKind::Temperature,
            Platform { bits: M2 },
        ).average(),
    );
    assert(v@ =~= old(v)@ + m2_gpu_sensors());
}

/// The temperatures of the rest of a system with Apple silicon.
pub open spec fn silicon_sensors() -> Seq<Sensor> {
    seq![
        Sensor::of_group(
            "TaLP",
            "Airflow left",
            SensorGroup::System,
            SensorKind::Temperature,
            Platform { bits: APPLE_SILICON },
        ),
        Sensor::of_group(
            "TaRF",
            "Airflow right",
            SensorGroup::System,
            SensorKind::Temperature,
            Platform { bits: APPLE_SILICON },
        ),
        Sensor::of_group(
            "TH0x",
            "NAND",
            SensorGroup::System,
            SensorKind::Temperature,
            Platform { bits: APPLE_SILICON },
        ),
        Sensor {
            component_type: ComponentType::Battery,
            ..Sensor::of_group(
                "TB1T",
                "Battery 1",
                SensorGroup::System,
                SensorKind::Temperature,
                Platform { bits: APPLE_SILICON },
            )
        },
        Sensor {
            component_type: ComponentType::Battery,
            ..Sensor::of_group(
                "TB2T",
                "Battery 2",
                SensorGroup::System,
                SensorKind::Temperature,
                Platform { bits: APPLE_SILICON },
            )
        },
        Sensor::of_group(
            "TW0P",
            "Airport",
            SensorGroup::System,
            SensorKind::Temperature,
            Platform { bits: APPLE_SILICON },
        ),
    ]
}

fn push_silicon_sensors(v: &mut Vec<Sensor>)
    ensures
        final(v)@ == old(v)@ + silicon_sensors(),
{
    v.push(
        Sensor::system(
            "TaLP",
            "Airflow left",
            SensorKind::Temperature,
            Platform { bits: APPLE_SILICON },
        ),
    );
    v.push(
        Sensor::system(
            "TaRF",
            "Airflow right",
            SensorKind::Temperature,
            Platform { bits: APPLE_SILICON },
        ),
    );
    v.push(
        Sensor::system(
            "TH0x",
            "NAND",
            SensorKind::Temperature,
            Platform { bits: APPLE_SILICON },
        ),
    );
    v.push(
        Sensor::system(
            "TB1T",
            "Battery 1",
            SensorKind::Temperature,
            Platform { bits: APPLE_SILICON },
        ).component_type(ComponentType::Battery),
    );
    v.push(
        Sensor::system(
            "TB2T",
            "Battery 2",
            SensorKind::Temperature,
            Platform { bits: APPLE_SILICON },
        ).component_type(ComponentType::Battery),
    );
    v.push(
        Sensor::system(
            "TW0P",
            "Airport",
            SensorKind::Temperature,
            Platform { bits: APPLE_SILICON },
        ),
    );
    assert(v@ =~= old(v)@ + silicon_sensors());
}

/// The voltages.
pub open spec fn voltage_sensors() -> Seq<Sensor> {
    seq![
        Sensor::of_group(
            "VCAC",
            "CPU IA",
            SensorGroup::System,
            SensorKind::Voltage,
            Platform { bits: ALL },
        ),
        Sensor::of_group(
            "VCSC",
            "CPU System Agent",
            SensorGroup::System,
            SensorKind::Voltage,
            Platform { bits: ALL },
        ),
        Sensor::of_group(
            "VC%C",
            "CPU Core %",
            SensorGroup::System,
            SensorKind::Voltage,
            Platform { bits: ALL },
        ),
        Sensor::of_group(
            "VCTC",
            "GPU Intel Graphics",
            SensorGroup::System,
            SensorKind::Voltage,
            Platform { bits: ALL },
        ),
        Sensor::of_group(
            "VG0C",
            "GPU",
            SensorGroup::System,
            SensorKind::Voltage,
            Platform { bits: ALL },
        ),
        Sensor::of_group(
            "VM0R",
            "Memory",
            SensorGroup::System,
            SensorKind::Voltage,
            Platform { bits: ALL },
        ),
        Sensor::of_group(
            "Vb0R",
            "CMOS",
            SensorGroup::System,
            SensorKind::Voltage,
            Platform { bits: ALL },
        ),
        Sensor::of_group(
            "VD0R",
            "DC In",
            SensorGroup::System,
            SensorKind::Voltage,
            Platform { bits: ALL },
        ),
        Sensor::of_group(
            "VP0R",
            "12V rail",
            SensorGroup::System,
            SensorKind::Voltage,
            Platform { bits: ALL },
        ),
        Sensor::of_group(
            "Vp0C",
            "12V vcc",
            SensorGroup::System,
            SensorKind::Voltage,
            Platform { bits: ALL },
        ),
        Sensor::of_group(
            "VV2S",
            "3V",
            SensorGroup::System,
            SensorKind::Voltage,
            Platform { bits: ALL },
        ),
        Sensor::of_group(
            "VR3R",
            "3.3V",
            SensorGroup::System,
            SensorKind::Voltage,
            Platform { bits: ALL },
        ),
        Sensor::of_group(
            "VV1S",
            "5V",
            SensorGroup::System,
            SensorKind::Voltage,
            Platform { bits: ALL },
        ),
        Sensor::of_group(
            "VV9S",
            "12V",
            SensorGroup::System,
            SensorKind::Voltage,
            Platform { bits: ALL },
        ),
        Sensor::of_group(
            "VeES",
            "PCI 12V",
            SensorGroup::System,
            SensorKind::Voltage,
            Platform { bits: ALL },
        ),
    ]
}

fn push_voltage_sensors(v: &mut Vec<Sensor>)
    ensures
        final(v)@ == old(v)@ + voltage_sensors(),
{
    v.push(Sensor::system("VCAC", "CPU IA", SensorKind::Voltage, Platform { bits: ALL }));
    v.push(Sensor::system("VCSC", "CPU System Agent", SensorKind::Voltage, Platform { bits: ALL }));
    v.push(Sensor::system("VC%C", "CPU Core %", SensorKind::Voltage, Platform { bits: ALL }));
    v.push(
        Sensor::system(
            "VCTC",
            "GPU Intel Graphics",
            SensorKind::Voltage,
            Platform { bits: ALL },
        ),
    );
    v.push(Sensor::system("VG0C", "GPU", SensorKind::Voltage, Platform { bits: ALL }));
    v.push(Sensor::system("VM0R", "Memory", SensorKind::Voltage, Platform { bits: ALL }));
    v.push(Sensor::system("Vb0R", "CMOS", SensorKind::Voltage, Platform { bits: ALL }));
    v.push(Sensor::system("VD0R", "DC In", SensorKind::Voltage, Platform { bits: ALL }));
    v.push(Sensor::system("VP0R", "12V rail", SensorKind::Voltage, Platform { bits: ALL }));
    v.push(Sensor::system("Vp0C", "12V vcc", SensorKind::Voltage, Platform { bits: ALL }));
    v.push(Sensor::system("VV2S", "3V", SensorKind::Voltage, Platform { bits: ALL }));
    v.push(Sensor::system("VR3R", "3.3V", SensorKind::Voltage, Platform { bits: ALL }));
    v.push(Sensor::system("VV1S", "5V", SensorKind::Voltage, Platform { bits: ALL }));
    v.push(Sensor::system("VV9S", "12V", SensorKind::Voltage, Platform { bits: ALL }));
    v.push(Sensor::system("VeES", "PCI 12V", SensorKind::Voltage, Platform { bits: ALL }));
    assert(v@ =~= old(v)@ + voltage_sensors());
}

/// The currents.
pub open spec fn current_sensors() -> Seq<Sensor> {
    seq![
        Sensor::of_group(
            "IC0R",
            "CPU High side",
            SensorGroup::Sensor,
            SensorKind::Current,
            Platform { bits: ALL },
        ),
        Sensor::of_group(
            "IG0R",
            "GPU High side",
            SensorGroup::Sensor,
            SensorKind::Current,
            Platform { bits: ALL },
        ),
        Sensor::of_group(
            "ID0R",
            "DC In",
            SensorGroup::Sensor,
            SensorKind::Current,
            Platform { bits: ALL },
        ),
        Sensor::of_group(
            "IBAC",
            "Battery",
            SensorGroup::Sensor,
            SensorKind::Current,
            Platform { bits: ALL },
        ),
    ]
}

fn push_current_sensors(v: &mut Vec<Sensor>)
    ensures
        final(v)@ == old(v)@ + current_sensors(),
{
    v.push(Sensor::sensor("IC0R", "CPU High side", SensorKind::Current, Platform { bits: ALL }));
    v.push(Sensor::sensor("IG0R", "GPU High side", SensorKind::Current, Platform { bits: ALL }));
    v.push(Sensor::sensor("ID0R", "DC In", SensorKind::Current, Platform { bits: ALL }));
    v.push(Sensor::sensor("IBAC", "Battery", SensorKind::Current, Platform { bits: ALL }));
    assert(v@ =~= old(v)@ + current_sensors());
}

/// The powers.
pub open spec fn power_sensors() -> Seq<Sensor> {
    seq![
        Sensor::of_group(
            "PC0C",
            "CPU Core",
            SensorGroup::Sensor,
            SensorKind::Power,
            Platform { bits: ALL },
        ),
        Sensor::of_group(
            "PCAM",
            "CPU Core (IMON)",
            SensorGroup::Sensor,
            SensorKind::Power,
            Platform { bits: ALL },
        ),
        Sensor::of_group(
            "PCPC",
            "CPU Package",
            SensorGroup::Sensor,
            SensorKind::Power,
            Platform { bits: ALL },
        ),
        Sensor::of_group(
            "PCTR",
            "CPU Total",
            SensorGroup::Sensor,
            SensorKind::Power,
            Platform { bits: ALL },
        ),
        Sensor::of_group(
            "PCPT",
            "CPU Package total",
            SensorGroup::Sensor,
            SensorKind::Power,
            Platform { bits: ALL },
        ),
        Sensor::of_group(
            "PCPR",
            "CPU Package total (SMC)",
            SensorGroup::Sensor,
            SensorKind::Power,
            Platform { bits: ALL },
        ),
        Sensor::of_group(
            "PC0R",
            "CPU Computing high side",
            SensorGroup::Sensor,
            SensorKind::Power,
            Platform { bits: ALL },
        ),
        Sensor::of_group(
            "PC0G",
            "CPU GFX",
            SensorGroup::Sensor,
            SensorKind::Power,
            Platform { bits: ALL },
        ),
        Sensor::of_group(
            "PCEC",
            "CPU VccEDRAM",
            SensorGroup::Sensor,
            SensorKind::Power,
            Platform { bits: ALL },
        ),
        Sensor::of_group(
            "PCPG",
            "GPU Intel Graphics",
            SensorGroup::Sensor,
            SensorKind::Power,
            Platform { bits: ALL },
        ),
        Sensor::of_group(
            "PG0R",
            "GPU",
            SensorGroup::Sensor,
            SensorKind::Power,
            Platform { bits: ALL },
        ),
        Sensor::of_group(
            "PCGC",
            "Intel GPU",
            SensorGroup::Sensor,
            SensorKind::Power,
            Platform { bits: ALL },
        ),
        Sensor::of_group(
            "PCGM",
            "Intel GPU (IMON)",
            SensorGroup::Sensor,
            SensorKind::Power,
            Platform { bits: ALL },
        ),
        Sensor::of_group(
            "PC3C",
            "RAM",
            SensorGroup::Sensor,
            SensorKind::Power,
            Platform { bits: ALL },
        ),
        Sensor {
            component_type: ComponentType::Battery,
            ..Sensor::of_group(
                "PPBR",
                "Battery",
                SensorGroup::Sensor,
                SensorKind::Power,
                Platform { bits: ALL },
            )
        },
        Sensor::of_group(
            "PDTR",
            "DC In",
            SensorGroup::Sensor,
            SensorKind::Power,
            Platform { bits: ALL },
        ),
        Sensor::of_group(
            "PSTR",
            "System Total",
            SensorGroup::Sensor,
            SensorKind::Power,
            Platform { bits: ALL },
        ),
    ]
}

fn push_power_sensors(v: &mut Vec<Sensor>)
    ensures
        final(v)@ == old(v)@ + power_sensors(),
{
    v.push(Sensor::sensor("PC0C", "CPU Core", SensorKind::Power, Platform { bits: ALL }));
    v.push(Sensor::sensor("PCAM", "CPU Core (IMON)", SensorKind::Power, Platform { bits: ALL }));
    v.push(Sensor::sensor("PCPC", "CPU Package", SensorKind::Power, Platform { bits: ALL }));
    v.push(Sensor::sensor("PCTR", "CPU Total", SensorKind::Power, Platform { bits: ALL }));
    v.push(Sensor::sensor("PCPT", "CPU Package total", SensorKind::Power, Platform { bits: ALL }));
    v.push(
        Sensor::sensor(
            "PCPR",
            "CPU Package total (SMC)",
            SensorKind::Power,
            Platform { bits: ALL },
        ),
    );
    v.push(
        Sensor::sensor(
            "PC0R",
            "CPU Computing high side",
            SensorKind::Power,
            Platform { bits: ALL },
        ),
    );
    v.push(Sensor::sensor("PC0G", "CPU GFX", SensorKind::Power, Platform { bits: ALL }));
    v.push(Sensor::sensor("PCEC", "CPU VccEDRAM", SensorKind::Power, Platform { bits: ALL }));
    v.push(Sensor::sensor("PCPG", "GPU Intel Graphics", SensorKind::Power, Platform { bits: ALL }));
    v.push(Sensor::sensor("PG0R", "GPU", SensorKind::Power, Platform { bits: ALL }));
    v.push(Sensor::sensor("PCGC", "Intel GPU", SensorKind::Power, Platform { bits: ALL }));
    v.push(Sensor::sensor("PCGM", "Intel GPU (IMON)", SensorKind::Power, Platform { bits: ALL }));
    v.push(Sensor::sensor("PC3C", "RAM", SensorKind::Power, Platform { bits: ALL }));
    v.push(
        Sensor::sensor(
            "PPBR",
            "Battery",
            SensorKind::Power,
            Platform { bits: ALL },
        ).component_type(ComponentType::Battery),
    );
    v.push(Sensor::sensor("PDTR", "DC In", SensorKind::Power, Platform { bits: ALL }));
    v.push(Sensor::sensor("PSTR", "System Total", SensorKind::Power, Platform { bits: ALL }));
    assert(v@ =~= old(v)@ + power_sensors());
}

/// The known sensors, in the order in which they are looked for.
pub open spec fn catalog() -> Seq<Sensor> {
    ambient_sensors() + cpu_sensors() + gpu_sensors() + system_sensors() + m1_cpu_sensors()
        + m1_gpu_sensors() + m2_cpu_sensors() + m2_gpu_sensors() + silicon_sensors()
        + voltage_sensors() + current_sensors() + power_sensors()
}

/// The known sensors.
pub fn sensors() -> (v: Vec<Sensor>)
    ensures
        v@ == catalog(),
        v@.len() == 94,
{
    let mut v: Vec<Sensor> = Vec::new();
    push_ambient_sensors(&mut v);
    push_cpu_sensors(&mut v);
    push_gpu_sensors(&mut v);
    push_system_sensors(&mut v);
    push_m1_cpu_sensors(&mut v);
    push_m1_gpu_sensors(&mut v);
    push_m2_cpu_sensors(&mut v);
    push_m2_gpu_sensors(&mut v);
    push_silicon_sensors(&mut v);
    push_voltage_sensors(&mut v);
    push_current_sensors(&mut v);
    push_power_sensors(&mut v);
    assert(v@ =~= catalog());
    v
}

/// Whether the sensor's key is a four-character code.
pub open spec fn has_key(sensor: Sensor) -> bool {
    code_of(sensor.key@) is Ok
}

/// Whether every sensor of `sensors` has a key that is a four-character code.
pub open spec fn all_keyed(sensors: Seq<Sensor>) -> bool {
    forall|i: int| 0 <= i < sensors.len() ==> has_key(#[trigger] sensors[i])
}

/// Four ASCII characters, none of them NUL, are a four-character code.
proof fn lemma_is_key(name: &str)
    requires
        name@.len() == 4,
        forall|i: int| 0 <= i < 4 ==> '\0' < #[trigger] name@[i] <= '\u{7f}',
    ensures
        code_of(name@) is Ok,
{
    lemma_code_of_ascii(name@);
}

proof fn lemma_ambient_keys()
    ensures
        all_keyed(ambient_sensors()),
{
    reveal_strlit("TA%P");
    lemma_is_key("TA%P");
    reveal_strlit("Th%H");
    lemma_is_key("Th%H");
    reveal_strlit("TZ%C");
    lemma_is_key("TZ%C");
}

proof fn lemma_cpu_keys()
    ensures
        all_keyed(cpu_sensors()),
{
    reveal_strlit("TC0D");
    lemma_is_key("TC0D");
    reveal_strlit("TC0E");
    lemma_is_key("TC0E");
    reveal_strlit("TC0F");
    lemma_is_key("TC0F");
    reveal_strlit("TC0H");
    lemma_is_key("TC0H");
    reveal_strlit("TC0P");
    lemma_is_key("TC0P");
    reveal_strlit("TCAD");
    lemma_is_key("TCAD");
    reveal_strlit("TC%c");
    lemma_is_key("TC%c");
    reveal_strlit("TC%C");
    lemma_is_key("TC%C");
}

proof fn lemma_gpu_keys()
    ensures
        all_keyed(gpu_sensors()),
{
    reveal_strlit("TCGC");
    lemma_is_key("TCGC");
    reveal_strlit("TG0D");
    lemma_is_key("TG0D");
    reveal_strlit("TGDD");
    lemma_is_key("TGDD");
    reveal_strlit("TG0H");
    lemma_is_key("TG0H");
    reveal_strlit("TG0P");
    lemma_is_key("TG0P");
}

proof fn lemma_system_keys()
    ensures
        all_keyed(system_sensors()),
{
    reveal_strlit("Tm0P");
    lemma_is_key("Tm0P");
    reveal_strlit("Tp0P");
    lemma_is_key("Tp0P");
    reveal_strlit("TB1T");
    lemma_is_key("TB1T");
    reveal_strlit("TW0P");
    lemma_is_key("TW0P");
    reveal_strlit("TL0P");
    lemma_is_key("TL0P");
    reveal_strlit("TI%P");
    lemma_is_key("TI%P");
    reveal_strlit("TH%A");
    lemma_is_key("TH%A");
    reveal_strlit("TH%B");
    lemma_is_key("TH%B");
    reveal_strlit("TH%C");
    lemma_is_key("TH%C");
    reveal_strlit("TN0D");
    lemma_is_key("TN0D");
    reveal_strlit("TN0H");
    lemma_is_key("TN0H");
    reveal_strlit("TN0P");
    lemma_is_key("TN0P");
}

proof fn lemma_m1_cpu_keys()
    ensures
        all_keyed(m1_cpu_sensors()),
{
    reveal_strlit("Tp09");
    lemma_is_key("Tp09");
    reveal_strlit("Tp0T");
    lemma_is_key("Tp0T");
    reveal_strlit("Tp01");
    lemma_is_key("Tp01");
    reveal_strlit("Tp05");
    lemma_is_key("Tp05");
    reveal_strlit("Tp0D");
    lemma_is_key("Tp0D");
    reveal_strlit("Tp0H");
    lemma_is_key("Tp0H");
    reveal_strlit("Tp0L");
    lemma_is_key("Tp0L");
    reveal_strlit("Tp0P");
    lemma_is_key("Tp0P");
    reveal_strlit("Tp0X");
    lemma_is_key("Tp0X");
    reveal_strlit("Tp0b");
    lemma_is_key("Tp0b");
}

proof fn lemma_m1_gpu_keys()
    ensures
        all_keyed(m1_gpu_sensors()),
{
    reveal_strlit("Tg05");
    lemma_is_key("Tg05");
    reveal_strlit("Tg0D");
    lemma_is_key("Tg0D");
    reveal_strlit("Tg0L");
    lemma_is_key("Tg0L");
    reveal_strlit("Tg0T");
    lemma_is_key("Tg0T");
}

proof fn lemma_m2_cpu_keys()
    ensures
        all_keyed(m2_cpu_sensors()),
{
    reveal_strlit("Tp05");
    lemma_is_key("Tp05");
    reveal_strlit("Tp0D");
    lemma_is_key("Tp0D");
    reveal_strlit("Tp0j");
    lemma_is_key("Tp0j");
    reveal_strlit("Tp0r");
    lemma_is_key("Tp0r");
    reveal_strlit("Tp01");
    lemma_is_key("Tp01");
    reveal_strlit("Tp09");
    lemma_is_key("Tp09");
    reveal_strlit("Tp0f");
    lemma_is_key("Tp0f");
    reveal_strlit("Tp0n");
    lemma_is_key("Tp0n");
}

proof fn lemma_m2_gpu_keys()
    ensures
        all_keyed(m2_gpu_sensors()),
{
    reveal_strlit("Tg0f");
    lemma_is_key("Tg0f");
    reveal_strlit("Tg0n");
    lemma_is_key("Tg0n");
}

proof fn lemma_silicon_keys()
    ensures
        all_keyed(silicon_sensors()),
{
    reveal_strlit("TaLP");
    lemma_is_key("TaLP");
    reveal_strlit("TaRF");
    lemma_is_key("TaRF");
    reveal_strlit("TH0x");
    lemma_is_key("TH0x");
    reveal_strlit("TB1T");
    lemma_is_key("TB1T");
    reveal_strlit("TB2T");
    lemma_is_key("TB2T");
    reveal_strlit("TW0P");
    lemma_is_key("TW0P");
}

proof fn lemma_voltage_keys()
    ensures
        all_keyed(voltage_sensors()),
{
    reveal_strlit("VCAC");
    lemma_is_key("VCAC");
    reveal_strlit("VCSC");
    lemma_is_key("VCSC");
    reveal_strlit("VC%C");
    lemma_is_key("VC%C");
    reveal_strlit("VCTC");
    lemma_is_key("VCTC");
    reveal_strlit("VG0C");
    lemma_is_key("VG0C");
    reveal_strlit("VM0R");
    lemma_is_key("VM0R");
    reveal_strlit("Vb0R");
    lemma_is_key("Vb0R");
    reveal_strlit("VD0R");
    lemma_is_key("VD0R");
    reveal_strlit("VP0R");
    lemma_is_key("VP0R");
    reveal_strlit("Vp0C");
    lemma_is_key("Vp0C");
    reveal_strlit("VV2S");
    lemma_is_key("VV2S");
    reveal_strlit("VR3R");
    lemma_is_key("VR3R");
    reveal_strlit("VV1S");
    lemma_is_key("VV1S");
    reveal_strlit("VV9S");
    lemma_is_key("VV9S");
    reveal_strlit("VeES");
    lemma_is_key("VeES");
}

proof fn lemma_current_keys()
    ensures
        all_keyed(current_sensors()),
{
    reveal_strlit("IC0R");
    lemma_is_key("IC0R");
    reveal_strlit("IG0R");
    lemma_is_key("IG0R");
    reveal_strlit("ID0R");
    lemma_is_key("ID0R");
    reveal_strlit("IBAC");
    lemma_is_key("IBAC");
}

proof fn lemma_power_keys()
    ensures
        all_keyed(power_sensors()),
{
    reveal_strlit("PC0C");
    lemma_is_key("PC0C");
    reveal_strlit("PCAM");
    lemma_is_key("PCAM");
    reveal_strlit("PCPC");
    lemma_is_key("PCPC");
    reveal_strlit("PCTR");
    lemma_is_key("PCTR");
    reveal_strlit("PCPT");
    lemma_is_key("PCPT");
    reveal_strlit("PCPR");
    lemma_is_key("PCPR");
    reveal_strlit("PC0R");
    lemma_is_key("PC0R");
    reveal_strlit("PC0G");
    lemma_is_key("PC0G");
    reveal_strlit("PCEC");
    lemma_is_key("PCEC");
    reveal_strlit("PCPG");
    lemma_is_key("PCPG");
    reveal_strlit("PG0R");
    lemma_is_key("PG0R");
    reveal_strlit("PCGC");
    lemma_is_key("PCGC");
    reveal_strlit("PCGM");
    lemma_is_key("PCGM");
    reveal_strlit("PC3C");
    lemma_is_key("PC3C");
    reveal_strlit("PPBR");
    lemma_is_key("PPBR");
    reveal_strlit("PDTR");
    lemma_is_key("PDTR");
    reveal_strlit("PSTR");
    lemma_is_key("PSTR");
}

/// Two sequences of sensors with keys make one when joined.
proof fn lemma_join_keyed(a: Seq<Sensor>, b: Seq<Sensor>)
    requires
        all_keyed(a),
        all_keyed(b),
    ensures
        all_keyed(a + b),
{
    assert forall|i: int| 0 <= i < (a + b).len() implies has_key(#[trigger] (a + b)[i]) by {
        if i < a.len() {
            assert((a + b)[i] == a[i]);
        } else {
            assert((a + b)[i] == b[i - a.len()]);
        }
    }
}

/// Every known sensor has a key that is a four-character code.
pub proof fn law_catalog_keys()
    ensures
        all_keyed(catalog()),
{
    lemma_ambient_keys();
    lemma_cpu_keys();
    lemma_gpu_keys();
    lemma_system_keys();
    lemma_m1_cpu_keys();
    lemma_m1_gpu_keys();
    lemma_m2_cpu_keys();
    lemma_m2_gpu_keys();
    lemma_silicon_keys();
    lemma_voltage_keys();
    lemma_current_keys();
    lemma_power_keys();
    let s0 = ambient_sensors();
    let s1 = s0 + cpu_sensors();
    lemma_join_keyed(s0, cpu_sensors());
    let s2 = s1 + gpu_sensors();
    lemma_join_keyed(s1, gpu_sensors());
    let s3 = s2 + system_sensors();
    lemma_join_keyed(s2, system_sensors());
    let s4 = s3 + m1_cpu_sensors();
    lemma_join_keyed(s3, m1_cpu_sensors());
    let s5 = s4 + m1_gpu_sensors();
    lemma_join_keyed(s4, m1_gpu_sensors());
    let s6 = s5 + m2_cpu_sensors();
    lemma_join_keyed(s5, m2_cpu_sensors());
    let s7 = s6 + m2_gpu_sensors();
    lemma_join_keyed(s6, m2_gpu_sensors());
    let s8 = s7 + silicon_sensors();
    lemma_join_keyed(s7, silicon_sensors());
    let s9 = s8 + voltage_sensors();
    lemma_join_keyed(s8, voltage_sensors());
    let s10 = s9 + current_sensors();
    lemma_join_keyed(s9, current_sensors());
    let s11 = s10 + power_sensors();
    lemma_join_keyed(s10, power_sensors());
    assert(catalog() == s11);
}

} // verus!
