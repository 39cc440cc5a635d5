//! Finding the fans: what each tells of itself, its name, and the list of all.

use super::conv::RawFan;
use super::exchange::{fixed_of, read_as, read_number, typed, KeyRead, Next};
use super::fan::{
    fan_key, fan_key_of, forced_bit, read_is_forced, Fan, FanFacts, FanField, FanView,
    DEFAULT_MAX_SPEED, DEFAULT_MIN_SPEED,
};
use super::fixed::{ByteOrder, Fixed};
use super::scan::{Count, CountKind};
use super::{FanMode, Reply, SmcError, SmcParam, KEY_FAN_COUNT, KEY_FAN_FORCED};
use crate::text::{decimal, decimal_digits};
use vstd::prelude::*;
use vstd::string::*;

verus! {

/// Which of a fan's facts is being read.
#[derive(Copy, Clone, Debug, PartialEq, Eq, Structural)]
pub enum ProbePhase {
    /// The lowest speed.
    Min(KeyRead),
    /// The highest speed.
    Max(KeyRead),
    /// The mode, under the fan's own key.
    Mode(KeyRead),
    /// The mode, from the mask of forced fans.
    Mask(KeyRead),
}

/// The reading of what a fan tells of itself: its lowest and its highest
/// speed, each with a default where it cannot be read, then its mode, from
/// the mask of forced fans where the fan's own key cannot be read.
#[derive(Copy, Clone, Debug, PartialEq, Eq, Structural)]
pub struct FanProbe {
    pub id: u32,
    pub order: ByteOrder,
    pub max_key: u32,
    pub mode_key: u32,
    pub phase: ProbePhase,
    pub min_speed: Fixed,
    pub max_speed: Fixed,
}

/// `value`, or `default` where there is an error in its place.
pub open spec fn or_default(value: Result<Fixed, SmcError>, default: i64) -> Fixed {
    match value {
        Ok(v) => v,
        Err(_) => Fixed { raw: default },
    }
}

impl FanProbe {
    /// The state in which the probe of fan `id` begins, or the error for
    /// which it does not begin: a number for which no key can be made.
    pub open spec fn begins(id: u32, order: ByteOrder) -> Result<FanProbe, SmcError> {
        match (
            fan_key_of(id, FanField::Min),
            fan_key_of(id, FanField::Max),
            fan_key_of(id, FanField::Mode),
        ) {
            (Ok(min_key), Ok(max_key), Ok(mode_key)) => Ok(
                FanProbe {
                    id,
                    order,
                    max_key,
                    mode_key,
                    phase: ProbePhase::Min(KeyRead { code: min_key, info: None }),
                    min_speed: Fixed { raw: 0 },
                    max_speed: Fixed { raw: 0 },
                },
            ),
            (Err(e), _, _) => Err(e),
            (_, Err(e), _) => Err(e),
            (_, _, Err(e)) => Err(e),
        }
    }

    /// The reading that is under way.
    pub open spec fn reading(self) -> KeyRead {
        match self.phase {
            ProbePhase::Min(k) => k,
            ProbePhase::Max(k) => k,
            ProbePhase::Mode(k) => k,
            ProbePhase::Mask(k) => k,
        }
    }

    pub open spec fn asks(self, p: SmcParam) -> bool {
        self.reading().asks(p)
    }

    /// The facts with the given mode.
    pub open spec fn facts(self, mode: FanMode) -> FanFacts {
        FanFacts { mode, min_speed: self.min_speed, max_speed: self.max_speed }
    }

    /// What the probe comes to on `reply`, where it ends there.
    pub open spec fn ends(self, reply: Reply) -> Option<Result<FanFacts, SmcError>> {
        match self.phase {
            ProbePhase::Mode(k) => match k.ends(reply) {
                Some(raw) => match typed::<FanMode>(raw) {
                    Ok(mode) => Some(Ok(self.facts(mode))),
                    Err(_) => None,
                },
                None => None,
            },
            ProbePhase::Mask(k) => match k.ends(reply) {
                Some(raw) => match typed::<u16>(raw) {
                    Ok(mask) => Some(
                        Ok(self.facts(FanMode::spec_from_bool(forced_bit(mask, self.id)))),
                    ),
                    Err(e) => Some(Err(e)),
                },
                None => None,
            },
            _ => None,
        }
    }

    /// The state after `reply`, where the probe goes on.
    pub open spec fn after(self, reply: Reply) -> FanProbe {
        match self.phase {
            ProbePhase::Min(k) => match k.ends(reply) {
                Some(raw) => FanProbe {
                    min_speed: or_default(fixed_of(raw, self.order), DEFAULT_MIN_SPEED),
                    phase: ProbePhase::Max(KeyRead { code: self.max_key, info: None }),
                    ..self
                },
                None => FanProbe { phase: ProbePhase::Min(k.after(reply)), ..self },
            },
            ProbePhase::Max(k) => match k.ends(reply) {
                Some(raw) => FanProbe {
                    max_speed: or_default(fixed_of(raw, self.order), DEFAULT_MAX_SPEED),
                    phase: ProbePhase::Mode(KeyRead { code: self.mode_key, info: None }),
                    ..self
                },
                None => FanProbe { phase: ProbePhase::Max(k.after(reply)), ..self },
            },
            ProbePhase::Mode(k) => match k.ends(reply) {
                Some(_) => FanProbe {
                    phase: ProbePhase::Mask(KeyRead { code: KEY_FAN_FORCED, info: None }),
                    ..self
                },
                None => FanProbe { phase: ProbePhase::Mode(k.after(reply)), ..self },
            },
            ProbePhase::Mask(k) => FanProbe { phase: ProbePhase::Mask(k.after(reply)), ..self },
        }
    }

    pub open spec fn fed(self, reply: Reply, r: Next<FanProbe, Result<FanFacts, SmcError>>) -> bool {
        match self.ends(reply) {
            Some(out) => r == Next::<FanProbe, Result<FanFacts, SmcError>>::Done(out),
            None => r matches Next::Call(m, p) && m == self.after(reply) && m.asks(p),
        }
    }

    /// Begins the probe of fan `id`.
    pub fn begin(id: u32, order: ByteOrder) -> (r: Next<FanProbe, Result<FanFacts, SmcError>>)
        ensures
            match FanProbe::begins(id, order) {
                Ok(m0) => r matches Next::Call(m, p) && m == m0 && m.asks(p),
                Err(e) => r == Next::<FanProbe, Result<FanFacts, SmcError>>::Done(Err(e)),
            },
    {
        let min_key = match fan_key(id, FanField::Min) {
            Ok(k) => k,
            Err(e) => {
                return Next::Done(Err(e));
            },
        };
        let max_key = match fan_key(id, FanField::Max) {
            Ok(k) => k,
            Err(e) => {
                return Next::Done(Err(e));
            },
        };
        let mode_key = match fan_key(id, FanField::Mode) {
            Ok(k) => k,
            Err(e) => {
                return Next::Done(Err(e));
            },
        };
        let (k, p) = KeyRead::begin(min_key);
        Next::Call(
            FanProbe {
                id,
                order,
                max_key,
                mode_key,
                phase: ProbePhase::Min(k),
                min_speed: Fixed { raw: 0 },
                max_speed: Fixed { raw: 0 },
            },
            p,
        )
    }

    /// Takes the reply to the request that is out.
    pub fn feed(self, reply: &Reply) -> (r: Next<FanProbe, Result<FanFacts, SmcError>>)
        ensures
            self.fed(*reply, r),
    {
        let FanProbe { id, order, max_key, mode_key, phase, min_speed, max_speed } = self;
        match phase {
            ProbePhase::Min(k) => match k.feed(reply) {
                Next::Call(k2, p) => Next::Call(
                    FanProbe {
                        id,
                        order,
                        max_key,
                        mode_key,
                        phase: ProbePhase::Min(k2),
                        min_speed,
                        max_speed,
                    },
                    p,
                ),
                Next::Done(raw) => {
                    let min_speed = match read_number(raw, order) {
                        Ok(v) => v,
                        Err(_) => Fixed { raw: DEFAULT_MIN_SPEED },
                    };
                    let (k2, p) = KeyRead::begin(max_key);
                    Next::Call(
                        FanProbe {
                            id,
                            order,
                            max_key,
                            mode_key,
                            phase: ProbePhase::Max(k2),
                            min_speed,
                            max_speed,
                        },
                        p,
                    )
                },
            },
            ProbePhase::Max(k) => match k.feed(reply) {
                Next::Call(k2, p) => Next::Call(
                    FanProbe {
                        id,
                        order,
                        max_key,
                        mode_key,
                        phase: ProbePhase::Max(k2),
                        min_speed,
                        max_speed,
                    },
                    p,
                ),
                Next::Done(raw) => {
                    let max_speed = match read_number(raw, order) {
                        Ok(v) => v,
                        Err(_) => Fixed { raw: DEFAULT_MAX_SPEED },
                    };
                    let (k2, p) = KeyRead::begin(mode_key);
                    Next::Call(
                        FanProbe {
                            id,
                            order,
                            max_key,
                            mode_key,
                            phase: ProbePhase::Mode(k2),
                            min_speed,
                            max_speed,
                        },
                        p,
                    )
                },
            },
            ProbePhase::Mode(k) => match k.feed(reply) {
                Next::Call(k2, p) => Next::Call(
                    FanProbe {
                        id,
                        order,
                        max_key,
                        mode_key,
                        phase: ProbePhase::Mode(k2),
                        min_speed,
                        max_speed,
                    },
                    p,
                ),
                Next::Done(raw) => match read_as::<FanMode>(raw) {
                    Ok(mode) => Next::Done(Ok(FanFacts { mode, min_speed, max_speed })),
                    Err(_) => {
                        let (k2, p) = KeyRead::begin(KEY_FAN_FORCED);
                        Next::Call(
                            FanProbe {
                                id,
                                order,
                                max_key,
                                mode_key,
                                phase: ProbePhase::Mask(k2),
                                min_speed,
                                max_speed,
                            },
                            p,
                        )
                    },
                },
            },
            ProbePhase::Mask(k) => match k.feed(reply) {
                Next::Call(k2, p) => Next::Call(
                    FanProbe {
                        id,
                        order,
                        max_key,
                        mode_key,
                        phase: ProbePhase::Mask(k2),
                        min_speed,
                        max_speed,
                    },
                    p,
                ),
                Next::Done(raw) => match read_as::<u16>(raw) {
                    Ok(mask) => Next::Done(
                        Ok(
                            FanFacts {
                                mode: FanMode::from_bool(read_is_forced(mask, id)),
                                min_speed,
                                max_speed,
                            },
                        ),
                    ),
                    Err(e) => Next::Done(Err(e)),
                },
            },
        }
    }
}

/// Where the opening of a fan stands.
#[derive(Copy, Clone, Debug, PartialEq, Eq, Structural)]
pub enum OpenPhase {
    /// The fan's descriptor is being read, for its name.
    Ident(KeyRead),
    /// The fan's facts are being read.
    Probe(FanProbe),
}

/// The opening of one fan: its name, from its descriptor where none is given,
/// then what it tells of itself.
pub struct FanOpen {
    pub id: u32,
    pub order: ByteOrder,
    pub phase: OpenPhase,
    pub name: Option<String>,
}

impl FanOpen {
    /// The name held so far, empty where there is none yet.
    pub open spec fn name_view(self) -> Seq<char> {
        match self.name {
            Some(s) => s@,
            None => Seq::empty(),
        }
    }

    pub open spec fn asks(self, p: SmcParam) -> bool {
        match self.phase {
            OpenPhase::Ident(k) => k.asks(p),
            OpenPhase::Probe(m) => m.asks(p),
        }
    }

    /// What the opening comes to on `reply`, where it ends there.
    pub open spec fn ends(self, reply: Reply) -> Option<Result<FanView, SmcError>> {
        match self.phase {
            OpenPhase::Ident(k) => match k.ends(reply) {
                Some(raw) => match typed::<RawFan>(raw) {
                    Ok(_) => match FanProbe::begins(self.id, self.order) {
                        Ok(_) => None,
                        Err(e) => Some(Err(e)),
                    },
                    Err(e) => Some(Err(e)),
                },
                None => None,
            },
            OpenPhase::Probe(m) => match m.ends(reply) {
                Some(Ok(facts)) => Some(
                    Ok(FanView { id: self.id, name: self.name_view(), facts, order: self.order }),
                ),
                Some(Err(e)) => Some(Err(e)),
                None => None,
            },
        }
    }

    /// Where the opening stands after `reply`, where it goes on.
    pub open spec fn phase_after(self, reply: Reply) -> OpenPhase {
        match self.phase {
            OpenPhase::Ident(k) => match k.ends(reply) {
                Some(_) => match FanProbe::begins(self.id, self.order) {
                    Ok(m0) => OpenPhase::Probe(m0),
                    Err(_) => self.phase,
                },
                None => OpenPhase::Ident(k.after(reply)),
            },
            OpenPhase::Probe(m) => OpenPhase::Probe(m.after(reply)),
        }
    }

    /// The name held after `reply`.
    pub open spec fn name_after(self, reply: Reply) -> Seq<char> {
        match self.phase {
            OpenPhase::Ident(k) => match k.ends(reply) {
                Some(raw) => match typed::<RawFan>(raw) {
                    Ok(name) => name,
                    Err(_) => self.name_view(),
                },
                None => self.name_view(),
            },
            OpenPhase::Probe(_) => self.name_view(),
        }
    }

    pub open spec fn fed(self, reply: Reply, r: Next<FanOpen, Result<Fan, SmcError>>) -> bool {
        match self.ends(reply) {
            Some(Err(e)) => r == Next::<FanOpen, Result<Fan, SmcError>>::Done(Err(e)),
            Some(Ok(fan)) => r matches Next::Done(Ok(f)) && f@ == fan,
            None => r matches Next::Call(m, p) && m.id == self.id && m.order == self.order
                && m.phase == self.phase_after(reply) && m.name_view() == self.name_after(reply)
                && m.asks(p),
        }
    }

    /// Whether `r` is how the opening of fan `id` begins: with the probe
    /// where a name is given, and else with the fan's descriptor.
    pub open spec fn begun(
        id: u32,
        name: Option<Seq<char>>,
        order: ByteOrder,
        r: Next<FanOpen, Result<Fan, SmcError>>,
    ) -> bool {
        match name {
            Some(text) => match FanProbe::begins(id, order) {
                Ok(m0) => r matches Next::Call(m, p) && m.id == id && m.order == order && m.phase
                    == OpenPhase::Probe(m0) && m.name is Some && m.name_view() == text && m.asks(
                    p,
                ),
                Err(e) => r == Next::<FanOpen, Result<Fan, SmcError>>::Done(Err(e)),
            },
            None => match fan_key_of(id, FanField::Ident) {
                Ok(key) => r matches Next::Call(m, p) && m.id == id && m.order == order
                    && m.phase == OpenPhase::Ident(KeyRead { code: key, info: None })
                    && m.name is None && m.asks(p),
                Err(e) => r == Next::<FanOpen, Result<Fan, SmcError>>::Done(Err(e)),
            },
        }
    }

    /// Begins to open fan `id`.
    pub fn begin(id: u32, name: Option<String>, order: ByteOrder) -> (r: Next<
        FanOpen,
        Result<Fan, SmcError>,
    >)
        ensures
            FanOpen::begun(
                id,
                match name {
                    Some(s) => Some(s@),
                    None => None,
                },
                order,
                r,
            ),
    {
        match name {
            Some(text) => match FanProbe::begin(id, order) {
                Next::Call(m, p) => Next::Call(
                    FanOpen { id, order, phase: OpenPhase::Probe(m), name: Some(text) },
                    p,
                ),
                Next::Done(Err(e)) => Next::Done(Err(e)),
                Next::Done(Ok(_)) => {
                    assert(false);
                    Next::Done(Err(SmcError::DriverNotFound))
                },
            },
            None => match fan_key(id, FanField::Ident) {
                Ok(key) => {
                    let (k, p) = KeyRead::begin(key);
                    Next::Call(FanOpen { id, order, phase: OpenPhase::Ident(k), name: None }, p)
                },
                Err(e) => Next::Done(Err(e)),
            },
        }
    }

    /// Takes the reply to the request that is out.
    pub fn feed(self, reply: &Reply) -> (r: Next<FanOpen, Result<Fan, SmcError>>)
        ensures
            self.fed(*reply, r),
    {
        let FanOpen { id, order, phase, name } = self;
        match phase {
            OpenPhase::Ident(k) => match k.feed(reply) {
                Next::Call(k2, p) => Next::Call(
                    FanOpen { id, order, phase: OpenPhase::Ident(k2), name },
                    p,
                ),
                Next::Done(raw) => match read_as::<RawFan>(raw) {
                    Ok(descriptor) => match FanProbe::begin(id, order) {
                        Next::Call(m, p) => Next::Call(
                            FanOpen {
                                id,
                                order,
                                phase: OpenPhase::Probe(m),
                                name: Some(descriptor.name),
                            },
                            p,
                        ),
                        Next::Done(Err(e)) => Next::Done(Err(e)),
                        Next::Done(Ok(_)) => {
                            assert(false);
                            Next::Done(Err(SmcError::DriverNotFound))
                        },
                    },
                    Err(e) => Next::Done(Err(e)),
                },
            },
            OpenPhase::Probe(m) => match m.feed(reply) {
                Next::Call(m2, p) => Next::Call(
                    FanOpen { id, order, phase: OpenPhase::Probe(m2), name },
                    p,
                ),
                Next::Done(Ok(facts)) => {
                    let text = match name {
                        Some(s) => s,
                        None => String::new(),
                    };
                    Next::Done(Ok(Fan::new(id, text, facts, order)))
                },
                Next::Done(Err(e)) => Next::Done(Err(e)),
            },
        }
    }
}

/// The name given to fan `i` of `total` where it tells none itself.
pub open spec fn fallback_name(i: u32, total: usize) -> Seq<char> {
    if total == 2 && i == 0 {
        "Left Fan"@
    } else if total == 2 && i == 1 {
        "Right Fan"@
    } else {
        "Unnamed Fan "@ + decimal_digits(i as nat)
    }
}

fn name_for(i: u32, total: usize) -> (s: String)
    ensures
        s@ == fallback_name(i, total),
{
    if total == 2 && i == 0 {
        String::from_str("Left Fan")
    } else if total == 2 && i == 1 {
        String::from_str("Right Fan")
    } else {
        let mut s = String::from_str("Unnamed Fan ");
        let digits = decimal(i);
        s.append(digits.as_str());
        s
    }
}

/// The number of the fan that follows `found` fans.
pub open spec fn fan_number(found: nat) -> u32 {
    if found > 0xffff_ffff {
        0xffff_ffffu32
    } else {
        found as u32
    }
}

/// Where the listing of the fans stands.
pub enum ListPhase {
    /// The number of fans is being read.
    Count(Count),
    /// The next fan is being opened.
    Open(FanOpen),
}

/// The listing of all fans, by number from 0. Each is opened under the name in
/// its descriptor; where that fails, once more under a fallback name
/// (`fallback` is then set). A fan that cannot be opened under its fallback
/// name either ends the listing with its error.
pub struct FanList {
    pub order: ByteOrder,
    pub total: usize,
    pub fans: Vec<Fan>,
    pub phase: ListPhase,
    pub fallback: bool,
}

/// The fans that a step is to hold: those held before and, where one was
/// opened, that one after them.
pub struct Grown {
    pub before: Seq<Fan>,
    pub added: Option<FanView>,
}

impl Grown {
    pub open spec fn count(self) -> nat {
        match self.added {
            Some(_) => self.before.len() + 1,
            None => self.before.len(),
        }
    }

    pub open spec fn holds(self, fans: Seq<Fan>) -> bool {
        match self.added {
            Some(fan) => fans.len() == self.before.len() + 1 && fans.drop_last() == self.before
                && fans.last()@ == fan,
            None => fans == self.before,
        }
    }
}

impl FanList {
    pub open spec fn asks(self, p: SmcParam) -> bool {
        match self.phase {
            ListPhase::Count(c) => c.asks(p),
            ListPhase::Open(o) => o.asks(p),
        }
    }

    /// Whether `r` opens the next fan under a fallback name, or ends the
    /// listing where no key can be made for it.
    pub open spec fn falls_back(
        grown: Grown,
        total: usize,
        order: ByteOrder,
        r: Next<FanList, Result<Vec<Fan>, SmcError>>,
    ) -> bool {
        let i = fan_number(grown.count());
        match FanProbe::begins(i, order) {
            Ok(m0) => r matches Next::Call(m, p) && (m.phase matches ListPhase::Open(o) && (
            grown.holds(m.fans@) && m.total == total && m.order == order && m.fallback && o.id == i
                && o.order == order && o.phase == OpenPhase::Probe(m0) && o.name is Some
                && o.name_view() == fallback_name(i, total) && m.asks(p))),
            Err(e) => r == Next::<FanList, Result<Vec<Fan>, SmcError>>::Done(Err(e)),
        }
    }

    /// Whether `r` opens the next fan by its descriptor, or under a fallback
    /// name where no key can be made for the descriptor.
    pub open spec fn opens(
        grown: Grown,
        total: usize,
        order: ByteOrder,
        r: Next<FanList, Result<Vec<Fan>, SmcError>>,
    ) -> bool {
        let i = fan_number(grown.count());
        match fan_key_of(i, FanField::Ident) {
            Ok(key) => r matches Next::Call(m, p) && (m.phase matches ListPhase::Open(o) && (
            grown.holds(m.fans@) && m.total == total && m.order == order && !m.fallback && o.id
                == i && o.order == order && o.phase == OpenPhase::Ident(
                KeyRead { code: key, info: None },
            ) && o.name is None && m.asks(p))),
            Err(_) => FanList::falls_back(grown, total, order, r),
        }
    }

    /// Whether `r` is what follows once the fans of `grown` are held: the end
    /// where they are all, and else the opening of the next.
    pub open spec fn settles(
        grown: Grown,
        total: usize,
        order: ByteOrder,
        r: Next<FanList, Result<Vec<Fan>, SmcError>>,
    ) -> bool {
        if grown.count() >= total {
            r matches Next::Done(Ok(v)) && grown.holds(v@)
        } else {
            FanList::opens(grown, total, order, r)
        }
    }

    /// Whether `r` is the step that `reply` leads to.
    pub open spec fn fed(self, reply: Reply, r: Next<FanList, Result<Vec<Fan>, SmcError>>) -> bool {
        let same = Grown { before: self.fans@, added: None };
        match self.phase {
            ListPhase::Count(c) => match c.ends(reply) {
                Some(Ok(n)) => FanList::settles(same, n, self.order, r),
                Some(Err(e)) => r == Next::<FanList, Result<Vec<Fan>, SmcError>>::Done(Err(e)),
                None => r matches Next::Call(m, p) && same.holds(m.fans@) && m.total == self.total
                    && m.order == self.order && m.fallback == self.fallback && m.phase
                    == ListPhase::Count(c.after(reply)) && m.asks(p),
            },
            ListPhase::Open(o) => match o.ends(reply) {
                Some(Ok(fan)) => FanList::settles(
                    Grown { before: self.fans@, added: Some(fan) },
                    self.total,
                    self.order,
                    r,
                ),
                Some(Err(e)) => if self.fallback {
                    r == Next::<FanList, Result<Vec<Fan>, SmcError>>::Done(Err(e))
                } else {
                    FanList::falls_back(same, self.total, self.order, r)
                },
                None => r matches Next::Call(m, p) && (m.phase matches ListPhase::Open(o2) && (
                same.holds(m.fans@) && m.total == self.total && m.order == self.order
                    && m.fallback == self.fallback && o.fed(
                    reply,
                    Next::<FanOpen, Result<Fan, SmcError>>::Call(o2, p),
                ))),
            },
        }
    }

    /// Begins the listing: the state, and the request to send first.
    pub fn begin(order: ByteOrder) -> (r: (FanList, SmcParam))
        ensures
            r.0.order == order,
            r.0.total == 0,
            r.0.fans@.len() == 0,
            !r.0.fallback,
            r.0.phase matches ListPhase::Count(c) && c == (Count {
                kind: CountKind::Fans,
                inner: KeyRead { code: KEY_FAN_COUNT, info: None },
            }),
            r.0.asks(r.1),
    {
        let (c, p) = Count::begin(CountKind::Fans);
        (
            FanList { order, total: 0, fans: Vec::new(), phase: ListPhase::Count(c), fallback: false },
            p,
        )
    }

    fn number(found: usize) -> (i: u32)
        ensures
            i == fan_number(found as nat),
    {
        if found > 0xffff_ffff {
            0xffff_ffff
        } else {
            found as u32
        }
    }

    fn fall_back(fans: Vec<Fan>, total: usize, order: ByteOrder) -> (r: Next<
        FanList,
        Result<Vec<Fan>, SmcError>,
    >)
        ensures
            FanList::falls_back(Grown { before: fans@, added: None }, total, order, r),
    {
        let i = FanList::number(fans.len());
        match FanOpen::begin(i, Some(name_for(i, total)), order) {
            Next::Call(o, p) => Next::Call(
                FanList { order, total, fans, phase: ListPhase::Open(o), fallback: true },
                p,
            ),
            Next::Done(Err(e)) => Next::Done(Err(e)),
            Next::Done(Ok(_)) => {
                assert(false);
                Next::Done(Err(SmcError::DriverNotFound))
            },
        }
    }

    fn settle(fans: Vec<Fan>, total: usize, order: ByteOrder) -> (r: Next<
        FanList,
        Result<Vec<Fan>, SmcError>,
    >)
        ensures
            FanList::settles(Grown { before: fans@, added: None }, total, order, r),
    {
        if fans.len() >= total {
            return Next::Done(Ok(fans));
        }
        let i = FanList::number(fans.len());
        match FanOpen::begin(i, None, order) {
            Next::Call(o, p) => Next::Call(
                FanList { order, total, fans, phase: ListPhase::Open(o), fallback: false },
                p,
            ),
            Next::Done(Err(_)) => FanList::fall_back(fans, total, order),
            Next::Done(Ok(_)) => {
                assert(false);
                Next::Done(Err(SmcError::DriverNotFound))
            },
        }
    }

    /// Takes the reply to the request that is out.
    pub fn feed(self, reply: &Reply) -> (r: Next<FanList, Result<Vec<Fan>, SmcError>>)
        ensures
            self.fed(*reply, r),
    {
        let FanList { order, total, fans, phase, fallback } = self;
        let mut fans = fans;
        match phase {
            ListPhase::Count(c) => match c.feed(reply) {
                Next::Call(c2, p) => Next::Call(
                    FanList { order, total, fans, phase: ListPhase::Count(c2), fallback },
                    p,
                ),
                Next::Done(Ok(n)) => FanList::settle(fans, n, order),
                Next::Done(Err(e)) => Next::Done(Err(e)),
            },
            ListPhase::Open(o) => match o.feed(reply) {
                Next::Call(o2, p) => Next::Call(
                    FanList { order, total, fans, phase: ListPhase::Open(o2), fallback },
                    p,
                ),
                Next::Done(Ok(fan)) => {
                    let ghost before = fans@;
                    let ghost added = fan@;
                    fans.push(fan);
                    assert(fans@.drop_last() =~= before);
                    let r = FanList::settle(fans, total, order);
                    proof {
                        let now = Grown { before: fans@, added: None };
                        let grown = Grown { before, added: Some(added) };
                        assert(now.count() == grown.count());
                        assert(forall|s: Seq<Fan>| now.holds(s) ==> grown.holds(s));
                    }
                    r
                },
                Next::Done(Err(e)) => {
                    if fallback {
                        Next::Done(Err(e))
                    } else {
                        FanList::fall_back(fans, total, order)
                    }
                },
            },
        }
    }
}

} // verus!
