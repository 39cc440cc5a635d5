//! Temperatures and fan speeds of a host, decoded from what its hardware
//! interfaces give: the key protocol and wire codec of Apple's System
//! Management Controller, and the texts of the `hwmon` chips and thermal
//! zones of Linux.
//!
//! Nothing here calls a driver or reads a file. What was read comes in as
//! plain values, and what is to be asked next goes out as a request: an
//! exchange with the controller is a state that takes each reply and gives
//! the next request or the end (`smc::exchange::Next`), and a pass over the
//! sensors takes what was read for each (`Interface::refresh`).
//!
//! Numbers are exact: readings of the controller are fixed-point numbers with
//! sixteen fractional bits (`smc::fixed::Fixed`), readings of Linux are
//! thousandths of a degree, and a temperature is shown as a count of units
//! (`Celsius`).

use vstd::prelude::*;

pub mod apple;
pub mod catalog;
pub mod discovery;
pub mod hwmon;
pub mod linux;
pub mod sysfs;
pub mod sysinfo;
pub mod mac;
pub mod smc;
pub mod text;

verus! {

/// The type of component.
#[derive(Copy, Clone, Debug, PartialEq, Eq, Structural)]
pub enum ComponentType {
    /// A CPU component.
    Cpu,
    /// A GPU component.
    Gpu,
    /// A battery component.
    Battery,
    /// A fan component.
    Fan,
    /// A motherboard component.
    Motherboard,
    /// A generic sensor component.
    Sensor,
    /// A system component.
    System,
}

/// A temperature in degrees Celsius, as a count of `units` of which
/// `per_degree` make a degree.
#[derive(Copy, Clone, Debug, PartialEq, Eq, Structural)]
pub struct Celsius {
    pub units: i64,
    pub per_degree: u32,
}

/// What the host tells of itself, as it is shown.
#[derive(Clone, Debug)]
pub struct SystemNames {
    pub os_name: String,
    pub cpu_name: String,
    pub model_name: String,
}

/// One temperature reading as it is shown: its label, the reading, the
/// highest seen, and the thresholds from which it counts as high and as
/// critical.
pub struct Shown {
    pub label: Seq<char>,
    pub temperature: Celsius,
    pub max: Celsius,
    pub high: Celsius,
    pub critical: Celsius,
}

/// A single temperature reading.
pub trait TemperatureReading {
    /// The reading as it is shown.
    spec fn shown(&self) -> Shown;

    /// The label/name of what this temperature represents.
    fn label(&self) -> (r: String)
        ensures
            r@ == self.shown().label,
    ;

    /// The current reading.
    fn temperature(&self) -> (r: Celsius)
        ensures
            r == self.shown().temperature,
    ;

    /// The maximum recorded temperature.
    fn max(&self) -> (r: Celsius)
        ensures
            r == self.shown().max,
    ;

    /// The temperature that will be considered "high".
    fn high(&self) -> (r: Celsius)
        ensures
            r == self.shown().high,
    ;

    /// The temperature that will be considered "critical".
    fn critical(&self) -> (r: Celsius)
        ensures
            r == self.shown().critical,
    ;
}

/// A temperature-measurable system component.
pub trait Component: Sized {
    type TemperatureReading: TemperatureReading;

    /// What was read of the hardware for one refresh of the component.
    type Sample;

    /// The label of the component.
    spec fn label_text(&self) -> Seq<char>;

    /// The type of the component.
    spec fn kind(&self) -> ComponentType;

    /// The readings that the component shows.
    spec fn readings(&self) -> Seq<Shown>;

    /// Whether a refresh with `sample` leads from this component to `next`
    /// with the result `r`.
    spec fn refreshed(&self, sample: Self::Sample, next: Self, r: Result<(), String>) -> bool;

    /// The label of the component.
    fn label(&self) -> (r: String)
        ensures
            r@ == self.label_text(),
    ;

    /// The current temperature readings of the component.
    fn temperatures(&self) -> (r: Vec<Self::TemperatureReading>)
        ensures
            r@.len() == self.readings().len(),
            forall|i: int| 0 <= i < r@.len() ==> (#[trigger] r@[i]).shown() == self.readings()[i],
    ;

    /// The type of the component.
    fn component_type(&self) -> (r: ComponentType)
        ensures
            r == self.kind(),
    ;

    /// Updates the component's data from what was read of the hardware.
    fn refresh(&mut self, sample: Self::Sample) -> (r: Result<(), String>)
        ensures
            old(self).refreshed(sample, *final(self), r),
    ;
}

/// The components among `all` that are of the type `kind`, in order.
pub open spec fn of_type<C: Component>(all: Seq<C>, kind: ComponentType) -> Seq<C>
    decreases all.len(),
{
    if all.len() == 0 {
        Seq::empty()
    } else if all.last().kind() == kind {
        of_type(all.drop_last(), kind).push(all.last())
    } else {
        of_type(all.drop_last(), kind)
    }
}

/// The components that `refs` point to.
pub open spec fn pointed<C>(refs: Seq<&C>) -> Seq<C> {
    Seq::new(refs.len(), |i: int| *refs[i])
}

/// The system's components.
pub trait Interface: Sized {
    /// The type of the component this interface uses.
    type Component: Component;

    /// The components that are eligible for thermal measurement, in order.
    spec fn thermal(&self) -> Seq<Self::Component>;

    /// All components that are eligible for thermal measurement.
    fn thermal_components(&self) -> (r: Vec<&Self::Component>)
        ensures
            pointed(r@) == self.thermal(),
    ;

    /// All thermal components that are of the given component type.
    fn thermal_components_by_type(&self, component_type: ComponentType) -> (r: Vec<
        &Self::Component,
    >)
        ensures
            pointed(r@) == of_type(self.thermal(), component_type),
    {
        let all = self.thermal_components();
        let mut out: Vec<&Self::Component> = Vec::new();
        let mut i: usize = 0;
        assert(pointed(all@).take(0) =~= Seq::<Self::Component>::empty());
        assert(pointed(out@) =~= Seq::<Self::Component>::empty());
        while i < all.len()
            invariant
                i <= all.len(),
                pointed(out@) == of_type(pointed(all@).take(i as int), component_type),
            decreases all.len() - i,
        {
            let c = all[i];
            let ghost before = pointed(out@);
            proof {
                let grown = pointed(all@).take(i + 1);
                assert(grown.drop_last() =~= pointed(all@).take(i as int));
                assert(grown.last() == *c);
            }
            if matches_type(c.component_type(), component_type) {
                out.push(c);
                assert(pointed(out@) =~= before.push(*c));
            }
            i += 1;
        }
        assert(pointed(all@).take(all.len() as int) =~= pointed(all@));
        out
    }

    /// How many places the interface has to refresh, thermal or not.
    spec fn places(&self) -> nat;

    /// Whether refreshing the place `at` with `sample` leads from this
    /// interface to `next` with the result `r`: the index of the place to
    /// refresh after it, none where the pass is through, or the error that
    /// ends the pass.
    spec fn stepped(
        &self,
        at: usize,
        sample: <Self::Component as Component>::Sample,
        next: Self,
        r: Result<Option<usize>, String>,
    ) -> bool;

    /// Refreshes the place `at` with what was read for it. A pass goes from
    /// place to place as the results tell, and ends at the first error.
    fn refresh(&mut self, at: usize, sample: <Self::Component as Component>::Sample) -> (r: Result<
        Option<usize>,
        String,
    >)
        requires
            at < old(self).places(),
        ensures
            old(self).stepped(at, sample, *final(self), r),
    ;

    /// What the host tells of itself.
    spec fn names(&self) -> SystemNames;

    /// The OS name of the interface.
    fn os_name(&self) -> (r: String)
        ensures
            r@ == self.names().os_name@,
    ;

    /// The name of the CPU or core processor.
    fn cpu_name(&self) -> (r: String)
        ensures
            r@ == self.names().cpu_name@,
    ;

    /// The model of the device.
    fn device_model_name(&self) -> (r: String)
        ensures
            r@ == self.names().model_name@,
    ;
}

/// Whether the two types are one.
pub fn matches_type(a: ComponentType, b: ComponentType) -> (r: bool)
    ensures
        r == (a == b),
{
    a == b
}

} // verus!
