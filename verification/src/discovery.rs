//! Finding the components of an Apple host: the sensors of a catalog that the
//! controller has, that belong to the host's platform, and that can be read.

use crate::apple::{
    AppleComponent, AppleComponents, AppleError, Platform, Sensor, XpuComponent,
};
use crate::smc::code::{code_of, key_code};
use crate::smc::exchange::{asks_type, KeyRead, Next};
use crate::smc::fixed::Fixed;
use crate::smc::scan::{
    is_temperature_key, KeyList, ScanPhase, Temperature, TemperaturePhase,
};
use crate::smc::{Reply, Smc, SmcError, SmcParam, KEY_COUNT};
use crate::{ComponentType, SystemNames};
use vstd::prelude::*;

verus! {

/// The key under which a sensor is read on this host, where it is one of the
/// host's: its key is one of the controller's, its platforms hold the host's,
/// and it belongs to a CPU or a GPU.
pub open spec fn eligible(sensor: Sensor, keys: Seq<u32>, platform: Platform) -> Option<u32> {
    match code_of(sensor.key@) {
        Ok(key) => if keys.contains(key) && sensor.platforms.spec_contains(platform) && (
        sensor.component_type == ComponentType::Cpu || sensor.component_type
            == ComponentType::Gpu) {
            Some(key)
        } else {
            None
        },
        Err(_) => None,
    }
}

/// The key of an eligible sensor, where a temperature can be asked for under it.
pub open spec fn readable(sensor: Sensor, keys: Seq<u32>, platform: Platform) -> Option<u32> {
    match eligible(sensor, keys, platform) {
        Some(key) if is_temperature_key(key) => Some(key),
        _ => None,
    }
}

/// The index of the first readable sensor at or after `from`, or the length
/// of the catalog where there is none.
pub open spec fn next_readable(
    catalog: Seq<Sensor>,
    from: int,
    keys: Seq<u32>,
    platform: Platform,
) -> int
    decreases catalog.len() - from,
{
    if from < 0 || from >= catalog.len() {
        catalog.len() as int
    } else if readable(catalog[from], keys, platform) is Some {
        from
    } else {
        next_readable(catalog, from + 1, keys, platform)
    }
}

/// The component of a sensor whose first reading is `value`.
pub open spec fn component_for(sensor: Sensor, value: Fixed) -> AppleComponent {
    if sensor.component_type == ComponentType::Gpu {
        AppleComponent::Gpu(XpuComponent::found(sensor).read(value))
    } else {
        AppleComponent::Cpu(XpuComponent::found(sensor).read(value))
    }
}

/// What the search is doing.
pub enum DiscoveryPhase {
    /// The controller's keys are being listed.
    Keys(KeyList),
    /// The sensor at `at` is being read for the first time.
    Read(Temperature),
}

/// The search for a host's components. The catalog is gone through in order;
/// `sensors` holds what was found before `at`.
pub struct Discovery {
    pub smc: Smc,
    pub names: SystemNames,
    pub platform: Platform,
    pub catalog: Vec<Sensor>,
    pub keys: Vec<u32>,
    pub at: usize,
    pub sensors: Vec<(Sensor, AppleComponent)>,
    pub phase: DiscoveryPhase,
}

/// What a step of the search is to hold besides its phase.
pub struct Held {
    pub smc: Smc,
    pub names: SystemNames,
    pub platform: Platform,
    pub catalog: Seq<Sensor>,
    pub keys: Seq<u32>,
    pub sensors: Seq<(Sensor, AppleComponent)>,
}

impl Discovery {
    pub open spec fn asks(self, p: SmcParam) -> bool {
        match self.phase {
            DiscoveryPhase::Keys(k) => k.asks(p),
            DiscoveryPhase::Read(t) => t.asks(p),
        }
    }

    /// What the search holds.
    pub open spec fn held(self) -> Held {
        Held {
            smc: self.smc,
            names: self.names,
            platform: self.platform,
            catalog: self.catalog@,
            keys: self.keys@,
            sensors: self.sensors@,
        }
    }

    /// Whether `r` is what follows once the catalog is gone through up to
    /// `from`: the reading of the next readable sensor, or the end with what
    /// was found.
    pub open spec fn settles(
        held: Held,
        from: int,
        r: Next<Discovery, Result<AppleComponents, AppleError>>,
    ) -> bool {
        let at = next_readable(held.catalog, from, held.keys, held.platform);
        if at >= held.catalog.len() {
            r matches Next::Done(Ok(found)) && found.smc == held.smc && found.names == held.names
                && found.sensors@ == held.sensors
        } else {
            r matches Next::Call(m, p) && m.held() == held && m.at == at && m.phase
                == DiscoveryPhase::Read(
                Temperature {
                    key: readable(held.catalog[at], held.keys, held.platform)->0,
                    order: held.smc.order,
                    phase: TemperaturePhase::Check,
                },
            ) && m.asks(p)
        }
    }

    /// Whether `r` is the step that `reply` leads to. A sensor whose first
    /// reading fails is left out, and the search goes on.
    pub open spec fn fed(
        self,
        reply: Reply,
        r: Next<Discovery, Result<AppleComponents, AppleError>>,
    ) -> bool {
        match self.phase {
            DiscoveryPhase::Keys(k) => match k.ends(reply) {
                Some(Ok(list)) => Discovery::settles(Held { keys: list, ..self.held() }, 0, r),
                Some(Err(e)) => r == Next::<Discovery, Result<AppleComponents, AppleError>>::Done(
                    Err(AppleError::Smc(e)),
                ),
                None => r matches Next::Call(m, p) && (m.phase matches DiscoveryPhase::Keys(k2) && (
                m.held() == self.held() && m.at == self.at && k.fed(
                    reply,
                    Next::<KeyList, Result<Vec<u32>, SmcError>>::Call(k2, p),
                ))),
            },
            DiscoveryPhase::Read(t) => match t.ends(reply) {
                Some(Ok(value)) if self.at < self.catalog@.len() => Discovery::settles(
                    Held {
                        sensors: self.sensors@.push(
                            (
                                self.catalog@[self.at as int],
                                component_for(self.catalog@[self.at as int], value),
                            ),
                        ),
                        ..self.held()
                    },
                    self.at + 1,
                    r,
                ),
                Some(_) => Discovery::settles(self.held(), self.at + 1, r),
                None => r matches Next::Call(m, p) && m.held() == self.held() && m.at == self.at
                    && m.phase == DiscoveryPhase::Read(t.after(reply)) && m.asks(p),
            },
        }
    }

    /// Begins the search: the state, and the request to send first.
    pub fn begin(smc: Smc, names: SystemNames, platform: Platform, catalog: Vec<Sensor>) -> (r: (
        Discovery,
        SmcParam,
    ))
        ensures
            r.0.held() == (Held {
                smc,
                names,
                platform,
                catalog: catalog@,
                keys: Seq::empty(),
                sensors: Seq::empty(),
            }),
            r.0.at == 0,
            r.0.phase matches DiscoveryPhase::Keys(k) && k.inner.phase == ScanPhase::Count(
                KeyRead { code: KEY_COUNT, info: None },
            ) && k.inner.found@.len() == 0 && k.inner.total == 0 && !k.inner.with_info,
            r.0.sound(),
            r.0.asks(r.1),
            asks_type(r.1, KEY_COUNT),
    {
        let (k, p) = smc.keys();
        (
            Discovery {
                smc,
                names,
                platform,
                catalog,
                keys: Vec::new(),
                at: 0,
                sensors: Vec::new(),
                phase: DiscoveryPhase::Keys(k),
            },
            p,
        )
    }

    fn has_key(keys: &Vec<u32>, key: u32) -> (r: bool)
        ensures
            r == keys@.contains(key),
    {
        let mut i: usize = 0;
        while i < keys.len()
            invariant
                i <= keys.len(),
                forall|j: int| 0 <= j < i ==> keys@[j] != key,
            decreases keys.len() - i,
        {
            if keys[i] == key {
                return true;
            }
            i += 1;
        }
        false
    }

    fn key_to_read(sensor: &Sensor, keys: &Vec<u32>, platform: Platform) -> (r: Option<u32>)
        ensures
            r == readable(*sensor, keys@, platform),
    {
        match key_code(sensor.key) {
            Ok(key) => {
                let of_xpu = match sensor.component_type {
                    ComponentType::Cpu => true,
                    ComponentType::Gpu => true,
                    _ => false,
                };
                if Discovery::has_key(keys, key) && sensor.platforms.contains(platform) && of_xpu
                    && key / 0x100_0000 == 0x54 {
                    Some(key)
                } else {
                    None
                }
            },
            Err(_) => None,
        }
    }

    fn settle(
        smc: Smc,
        names: SystemNames,
        platform: Platform,
        catalog: Vec<Sensor>,
        keys: Vec<u32>,
        from: usize,
        sensors: Vec<(Sensor, AppleComponent)>,
    ) -> (r: Next<Discovery, Result<AppleComponents, AppleError>>)
        ensures
            Discovery::settles(
                Held { smc, names, platform, catalog: catalog@, keys: keys@, sensors: sensors@ },
                from as int,
                r,
            ),
    {
        let mut i: usize = from;
        while i < catalog.len()
            invariant
                from <= i,
                next_readable(catalog@, i as int, keys@, platform) == next_readable(
                    catalog@,
                    from as int,
                    keys@,
                    platform,
                ),
            decreases catalog.len() - i,
        {
            match Discovery::key_to_read(&catalog[i], &keys, platform) {
                Some(key) => {
                    match smc.temperature(key) {
                        Next::Call(t, p) => {
                            return Next::Call(
                                Discovery {
                                    smc,
                                    names,
                                    platform,
                                    catalog,
                                    keys,
                                    at: i,
                                    sensors,
                                    phase: DiscoveryPhase::Read(t),
                                },
                                p,
                            );
                        },
                        Next::Done(_) => {
                            assert(false);
                        },
                    }
                },
                None => {},
            }
            i += 1;
        }
        Next::Done(Ok(AppleComponents { smc, sensors, names }))
    }

    /// Takes the reply to the request that is out.
    pub fn feed(self, reply: &Reply) -> (r: Next<Discovery, Result<AppleComponents, AppleError>>)
        ensures
            self.fed(*reply, r),
    {
        let Discovery { smc, names, platform, catalog, keys, at, sensors, phase } = self;
        let mut sensors = sensors;
        match phase {
            DiscoveryPhase::Keys(k) => match k.feed(reply) {
                Next::Call(k2, p) => Next::Call(
                    Discovery {
                        smc,
                        names,
                        platform,
                        catalog,
                        keys,
                        at,
                        sensors,
                        phase: DiscoveryPhase::Keys(k2),
                    },
                    p,
                ),
                Next::Done(Ok(list)) => Discovery::settle(
                    smc,
                    names,
                    platform,
                    catalog,
                    list,
                    0,
                    sensors,
                ),
                Next::Done(Err(e)) => Next::Done(Err(AppleError::Smc(e))),
            },
            DiscoveryPhase::Read(t) => match t.feed(reply) {
                Next::Call(t2, p) => Next::Call(
                    Discovery {
                        smc,
                        names,
                        platform,
                        catalog,
                        keys,
                        at,
                        sensors,
                        phase: DiscoveryPhase::Read(t2),
                    },
                    p,
                ),
                Next::Done(sample) => {
                    if at < catalog.len() {
                        match sample {
                            Ok(value) => {
                                let sensor = catalog[at];
                                let mut gauge = XpuComponent::new(sensor);
                                let _ = gauge.refresh(Ok(value));
                                let component = match sensor.component_type {
                                    ComponentType::Gpu => AppleComponent::Gpu(gauge),
                                    _ => AppleComponent::Cpu(gauge),
                                };
                                sensors.push((sensor, component));
                            },
                            Err(_) => {},
                        }
                        Discovery::settle(smc, names, platform, catalog, keys, at + 1, sensors)
                    } else {
                        Discovery::settle(smc, names, platform, catalog, keys, at, sensors)
                    }
                },
            },
        }
    }
}

/// Whether every sensor of `sensors` is one of the host's.
pub open spec fn all_eligible(
    sensors: Seq<(Sensor, AppleComponent)>,
    keys: Seq<u32>,
    platform: Platform,
) -> bool {
    forall|i: int| 0 <= i < sensors.len() ==> eligible((#[trigger] sensors[i]).0, keys, platform)
        is Some
}

impl Discovery {
    /// Whether the search stands as its steps leave it: nothing is found
    /// before the keys are listed, the sensor being read is a readable one
    /// of the catalog, and every sensor found is one of the host's.
    pub open spec fn sound(self) -> bool {
        match self.phase {
            DiscoveryPhase::Keys(_) => self.sensors@.len() == 0,
            DiscoveryPhase::Read(t) => self.at < self.catalog@.len() && readable(
                self.catalog@[self.at as int],
                self.keys@,
                self.platform,
            ) == Some(t.key) && all_eligible(self.sensors@, self.keys@, self.platform),
        }
    }
}

/// The next readable sensor is a readable one, where there is one.
pub proof fn lemma_next_readable(
    catalog: Seq<Sensor>,
    from: int,
    keys: Seq<u32>,
    platform: Platform,
)
    requires
        0 <= from,
    ensures
        from <= next_readable(catalog, from, keys, platform) || from > catalog.len(),
        next_readable(catalog, from, keys, platform) <= catalog.len(),
        next_readable(catalog, from, keys, platform) < catalog.len() ==> readable(
            catalog[next_readable(catalog, from, keys, platform)],
            keys,
            platform,
        ) is Some,
    decreases catalog.len() - from,
{
    if from < catalog.len() && !(readable(catalog[from], keys, platform) is Some) {
        lemma_next_readable(catalog, from + 1, keys, platform);
    }
}

/// Every step of a search leaves it sound, and what a search finds is made of
/// sensors of the host only: each has a key that the controller listed,
/// platforms that hold the host's, and belongs to a CPU or a GPU.
pub proof fn law_discovery_is_sound(
    search: Discovery,
    reply: Reply,
    r: Next<Discovery, Result<AppleComponents, AppleError>>,
)
    requires
        search.sound(),
        search.fed(reply, r),
    ensures
        match r {
            Next::Call(m, _) => m.sound(),
            Next::Done(Ok(found)) => all_eligible(
                found.sensors@,
                match search.phase {
                    DiscoveryPhase::Keys(k) => k.ends(reply)->0->Ok_0,
                    DiscoveryPhase::Read(_) => search.keys@,
                },
                search.platform,
            ),
            Next::Done(Err(_)) => true,
        },
{
    match search.phase {
        DiscoveryPhase::Keys(k) => {
            match k.ends(reply) {
                Some(Ok(list)) => {
                    lemma_next_readable(search.catalog@, 0, list, search.platform);
                },
                _ => {},
            }
        },
        DiscoveryPhase::Read(t) => {
            lemma_next_readable(search.catalog@, search.at + 1, search.keys@, search.platform);
            match t.ends(reply) {
                Some(Ok(value)) => {
                    let sensor = search.catalog@[search.at as int];
                    let grown = search.sensors@.push((sensor, component_for(sensor, value)));
                    assert forall|i: int| 0 <= i < grown.len() implies eligible(
                        (#[trigger] grown[i]).0,
                        search.keys@,
                        search.platform,
                    ) is Some by {
                        if i < search.sensors@.len() {
                            assert(grown[i] == search.sensors@[i]);
                        }
                    }
                },
                _ => {},
            }
        },
    }
}

/// A sensor for other platforms than the host's is never one of the host's.
pub proof fn law_platform_filter(sensor: Sensor, keys: Seq<u32>, platform: Platform)
    ensures
        !sensor.platforms.spec_contains(platform) ==> eligible(sensor, keys, platform) is None,
        eligible(sensor, keys, platform) matches Some(key) ==> keys.contains(key)
            && sensor.platforms.spec_contains(platform),
{
}

/// What the first read of a sensor gave: the reading, and none where the read
/// failed.
pub open spec fn reading_of(outcome: Result<Fixed, SmcError>) -> Option<Fixed> {
    match outcome {
        Ok(value) => Some(value),
        Err(_) => None,
    }
}

/// What a search finds among the first `upto` sensors of the catalog, where
/// `reads` tells by the sensor's index what its first read gave: the sensors
/// that are readable and whose first read gave a reading, in the order of the
/// catalog and each once, each with the component of that reading.
pub open spec fn selected(
    catalog: Seq<Sensor>,
    keys: Seq<u32>,
    platform: Platform,
    reads: spec_fn(int) -> Option<Fixed>,
    upto: int,
) -> Seq<(Sensor, AppleComponent)>
    decreases upto,
{
    if upto <= 0 {
        Seq::empty()
    } else {
        let before = selected(catalog, keys, platform, reads, upto - 1);
        let sensor = catalog[upto - 1];
        match reads(upto - 1) {
            Some(value) if upto <= catalog.len() && readable(sensor, keys, platform) is Some =>
                before.push((sensor, component_for(sensor, value))),
            _ => before,
        }
    }
}

impl Discovery {
    /// Whether the search has found so far what `selected` says, for the keys
    /// `keys` of the controller and the first reads `reads`: nothing before
    /// the keys are listed; after that the keys held are `keys`, the sensor
    /// being read is a readable one of the catalog, and the sensors found are
    /// those selected before it.
    pub open spec fn agrees(self, keys: Seq<u32>, reads: spec_fn(int) -> Option<Fixed>) -> bool {
        match self.phase {
            DiscoveryPhase::Keys(_) => self.sensors@.len() == 0,
            DiscoveryPhase::Read(t) => self.keys@ == keys && self.at < self.catalog@.len()
                && readable(self.catalog@[self.at as int], keys, self.platform) == Some(t.key)
                && self.sensors@ == selected(
                self.catalog@,
                keys,
                self.platform,
                reads,
                self.at as int,
            ),
        }
    }

    /// Whether `reply` tells what `keys` and `reads` say: where it ends the
    /// listing of the keys, the list is `keys`; where it ends the first read
    /// of the sensor at `at`, the read gave what `reads` says of `at`.
    pub open spec fn told(
        self,
        reply: Reply,
        keys: Seq<u32>,
        reads: spec_fn(int) -> Option<Fixed>,
    ) -> bool {
        match self.phase {
            DiscoveryPhase::Keys(k) => match k.ends(reply) {
                Some(Ok(list)) => list == keys,
                _ => true,
            },
            DiscoveryPhase::Read(t) => match t.ends(reply) {
                Some(outcome) => reads(self.at as int) == reading_of(outcome),
                None => true,
            },
        }
    }
}

/// Nothing is selected between a place in the catalog and the next readable
/// sensor from there.
pub proof fn lemma_selected_to_next(
    catalog: Seq<Sensor>,
    keys: Seq<u32>,
    platform: Platform,
    reads: spec_fn(int) -> Option<Fixed>,
    from: int,
)
    requires
        0 <= from <= catalog.len(),
    ensures
        selected(catalog, keys, platform, reads, next_readable(catalog, from, keys, platform))
            == selected(catalog, keys, platform, reads, from),
    decreases catalog.len() - from,
{
    if from < catalog.len() && !(readable(catalog[from], keys, platform) is Some) {
        lemma_selected_to_next(catalog, keys, platform, reads, from + 1);
    }
}

/// A step of a search that agrees with the keys of the controller and with
/// what the first reads gave leads to a search that agrees with them, with
/// the same catalog for the same platform; and where the step ends the
/// search, what is found is what is selected from the whole catalog.
pub proof fn law_search_step(
    search: Discovery,
    reply: Reply,
    r: Next<Discovery, Result<AppleComponents, AppleError>>,
    keys: Seq<u32>,
    reads: spec_fn(int) -> Option<Fixed>,
)
    requires
        search.agrees(keys, reads),
        search.told(reply, keys, reads),
        search.fed(reply, r),
    ensures
        match r {
            Next::Call(m, _) => m.agrees(keys, reads) && m.catalog@ == search.catalog@
                && m.platform == search.platform && m.smc == search.smc && m.names
                == search.names,
            Next::Done(Ok(found)) => found.sensors@ == selected(
                search.catalog@,
                keys,
                search.platform,
                reads,
                search.catalog@.len() as int,
            ) && found.smc == search.smc && found.names == search.names,
            Next::Done(Err(_)) => search.phase is Keys,
        },
{
    let catalog = search.catalog@;
    let platform = search.platform;
    match search.phase {
        DiscoveryPhase::Keys(k) => {
            match k.ends(reply) {
                Some(Ok(list)) => {
                    lemma_next_readable(catalog, 0, keys, platform);
                    lemma_selected_to_next(catalog, keys, platform, reads, 0);
                    assert(search.sensors@ =~= selected(catalog, keys, platform, reads, 0));
                },
                _ => {},
            }
        },
        DiscoveryPhase::Read(t) => {
            let at = search.at as int;
            match t.ends(reply) {
                Some(outcome) => {
                    lemma_next_readable(catalog, at + 1, keys, platform);
                    lemma_selected_to_next(catalog, keys, platform, reads, at + 1);
                    match outcome {
                        Ok(value) => {
                            assert(selected(catalog, keys, platform, reads, at + 1) == selected(
                                catalog,
                                keys,
                                platform,
                                reads,
                                at,
                            ).push((catalog[at], component_for(catalog[at], value))));
                        },
                        Err(_) => {
                            assert(selected(catalog, keys, platform, reads, at + 1) == selected(
                                catalog,
                                keys,
                                platform,
                                reads,
                                at,
                            ));
                        },
                    }
                },
                None => {},
            }
        },
    }
}

/// Whether the states are a search from one of them to its end with `found`:
/// each takes the reply of its index and goes on to the next state with the
/// request of that next index, and the last ends with `found`.
pub open spec fn searches(
    states: Seq<Discovery>,
    requests: Seq<SmcParam>,
    replies: Seq<Reply>,
    found: AppleComponents,
) -> bool {
    &&& states.len() > 0
    &&& states.len() == replies.len()
    &&& states.len() == requests.len()
    &&& forall|i: int|
        #![trigger states[i]]
        0 <= i < states.len() - 1 ==> states[i].fed(
            replies[i],
            Next::<Discovery, Result<AppleComponents, AppleError>>::Call(
                states[i + 1],
                requests[i + 1],
            ),
        )
    &&& states.last().fed(
        replies.last(),
        Next::<Discovery, Result<AppleComponents, AppleError>>::Done(Ok(found)),
    )
}

/// The states of a search all agree with the keys and the first reads that
/// the replies tell.
proof fn lemma_search_reaches(
    states: Seq<Discovery>,
    requests: Seq<SmcParam>,
    replies: Seq<Reply>,
    found: AppleComponents,
    keys: Seq<u32>,
    reads: spec_fn(int) -> Option<Fixed>,
    i: int,
)
    requires
        searches(states, requests, replies, found),
        states[0].agrees(keys, reads),
        forall|j: int|
            #![trigger states[j]]
            0 <= j < states.len() ==> states[j].told(replies[j], keys, reads),
        0 <= i < states.len(),
    ensures
        states[i].agrees(keys, reads),
        states[i].catalog@ == states[0].catalog@,
        states[i].platform == states[0].platform,
        states[i].smc == states[0].smc,
        states[i].names == states[0].names,
    decreases i,
{
    if i > 0 {
        lemma_search_reaches(states, requests, replies, found, keys, reads, i - 1);
        let before = states[i - 1];
        assert(before.told(replies[i - 1], keys, reads));
        law_search_step(
            before,
            replies[i - 1],
            Next::<Discovery, Result<AppleComponents, AppleError>>::Call(states[i], requests[i]),
            keys,
            reads,
        );
    }
}

/// A search that begins with nothing found ends with the sensors of the
/// catalog, in order and each once, whose key is among the keys that the
/// controller listed, whose platforms hold the host's, that belong to a CPU
/// or a GPU, and whose first read gave a reading; each with that reading as
/// its last and the larger of it and nought as its highest.
pub proof fn law_search_finds(
    states: Seq<Discovery>,
    requests: Seq<SmcParam>,
    replies: Seq<Reply>,
    found: AppleComponents,
    keys: Seq<u32>,
    reads: spec_fn(int) -> Option<Fixed>,
)
    requires
        searches(states, requests, replies, found),
        states[0].agrees(keys, reads),
        forall|j: int|
            #![trigger states[j]]
            0 <= j < states.len() ==> states[j].told(replies[j], keys, reads),
    ensures
        found.sensors@ == selected(
            states[0].catalog@,
            keys,
            states[0].platform,
            reads,
            states[0].catalog@.len() as int,
        ),
        found.smc == states[0].smc,
        found.names == states[0].names,
{
    let last = states.len() - 1;
    lemma_search_reaches(states, requests, replies, found, keys, reads, last);
    assert(states[last].told(replies[last], keys, reads));
    law_search_step(
        states[last],
        replies[last],
        Next::<Discovery, Result<AppleComponents, AppleError>>::Done(Ok(found)),
        keys,
        reads,
    );
}

/// What is selected is made of sensors of the catalog at rising places, so
/// that none is found twice, and of no more sensors than there are places.
pub proof fn law_selected_is_in_order(
    catalog: Seq<Sensor>,
    keys: Seq<u32>,
    platform: Platform,
    reads: spec_fn(int) -> Option<Fixed>,
    upto: int,
)
    requires
        0 <= upto <= catalog.len(),
    ensures
        selected(catalog, keys, platform, reads, upto).len() <= upto,
        all_eligible(selected(catalog, keys, platform, reads, upto), keys, platform),
        upto > 0 && reads(upto - 1) is Some && readable(catalog[upto - 1], keys, platform) is Some
            ==> selected(catalog, keys, platform, reads, upto).last() == (
            catalog[upto - 1],
            component_for(catalog[upto - 1], reads(upto - 1)->0),
        ),
    decreases upto,
{
    if upto > 0 {
        law_selected_is_in_order(catalog, keys, platform, reads, upto - 1);
        let before = selected(catalog, keys, platform, reads, upto - 1);
        let now = selected(catalog, keys, platform, reads, upto);
        assert forall|i: int| 0 <= i < now.len() implies eligible(
            (#[trigger] now[i]).0,
            keys,
            platform,
        ) is Some by {
            if i < before.len() {
                assert(now[i] == before[i]);
            }
        }
    }
}

impl AppleComponents {
    /// Begins the search for the components of the host whose processor goes
    /// by `cpu_name`, among the known sensors.
    pub fn new(smc: Smc, names: SystemNames, cpu_name: &str) -> (r: (Discovery, SmcParam))
        ensures
            r.0.held() == (Held {
                smc,
                names,
                platform: crate::apple::platform_of(cpu_name@),
                catalog: crate::catalog::catalog(),
                keys: Seq::empty(),
                sensors: Seq::empty(),
            }),
            r.0.at == 0,
            r.0.phase matches DiscoveryPhase::Keys(k) && k.inner.phase == ScanPhase::Count(
                KeyRead { code: KEY_COUNT, info: None },
            ) && k.inner.found@.len() == 0 && k.inner.total == 0 && !k.inner.with_info,
            r.0.sound(),
            r.0.asks(r.1),
            asks_type(r.1, KEY_COUNT),
    {
        Discovery::begin(
            smc,
            names,
            crate::apple::read_platform(cpu_name),
            crate::catalog::sensors(),
        )
    }
}

} // verus!
