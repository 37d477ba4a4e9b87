use vstd::prelude::*;

use crate::error::AudioError;

verus! {

/// How the hardware encodes one sample.
#[derive(Clone, Copy, Debug, PartialEq, Eq, Structural)]
pub enum SampleFormat {
    F32,
    I16,
    U16,
    U8,
}

/// A concrete stream configuration.
#[derive(Clone, Copy, Debug, PartialEq, Eq, Structural)]
pub struct StreamConfig {
    pub sample_rate: u32,
    pub channels: u16,
    pub format: SampleFormat,
}

impl StreamConfig {
    /// At least one channel and a positive rate.
    pub open spec fn wf(self) -> bool {
        self.channels >= 1 && self.sample_rate > 0
    }
}

/// One range of configurations that a device reports: a channel count,
/// an inclusive range of sample rates and a sample format.
#[derive(Clone, Copy, Debug, PartialEq, Eq, Structural)]
pub struct ConfigRange {
    pub channels: u16,
    pub min_rate: u32,
    pub max_rate: u32,
    pub format: SampleFormat,
}

pub open spec fn abs_diff(a: int, b: int) -> int {
    if a >= b {
        a - b
    } else {
        b - a
    }
}

impl ConfigRange {
    pub open spec fn contains_rate(self, rate: u32) -> bool {
        self.min_rate <= rate && rate <= self.max_rate
    }

    /// Distance from `rate` to the nearer bound of the range.
    pub open spec fn bound_distance(self, rate: u32) -> int {
        let lo = abs_diff(self.min_rate as int, rate as int);
        let hi = abs_diff(self.max_rate as int, rate as int);
        if lo <= hi {
            lo
        } else {
            hi
        }
    }

    /// The rate itself when the range holds it, else the nearer bound.
    pub open spec fn settle_rate(self, rate: u32) -> u32 {
        if self.contains_rate(rate) {
            rate
        } else if rate < self.min_rate {
            self.min_rate
        } else {
            self.max_rate
        }
    }

    /// The configuration that this range gives for a wanted rate.
    pub open spec fn settle(self, rate: u32) -> StreamConfig {
        StreamConfig { sample_rate: self.settle_rate(rate), channels: self.channels, format: self.format }
    }
}

pub open spec fn exact_fit(c: ConfigRange, d: StreamConfig) -> bool {
    c.channels == d.channels && c.contains_rate(d.sample_rate)
}

pub open spec fn channel_fit(c: ConfigRange, d: StreamConfig) -> bool {
    c.channels == d.channels
}

pub open spec fn any_exact_fit(cs: Seq<ConfigRange>, d: StreamConfig) -> bool {
    exists|j: int| 0 <= j < cs.len() && #[trigger] exact_fit(cs[j], d)
}

pub open spec fn any_channel_fit(cs: Seq<ConfigRange>, d: StreamConfig) -> bool {
    exists|j: int| 0 <= j < cs.len() && #[trigger] channel_fit(cs[j], d)
}

pub open spec fn any_mono(cs: Seq<ConfigRange>) -> bool {
    exists|j: int| 0 <= j < cs.len() && #[trigger] cs[j].channels == 1
}

/// `i` is the first range that holds both the channel count and the rate.
pub open spec fn first_exact_fit(cs: Seq<ConfigRange>, d: StreamConfig, i: int) -> bool {
    &&& 0 <= i < cs.len()
    &&& exact_fit(cs[i], d)
    &&& forall|j: int| 0 <= j < i ==> !#[trigger] exact_fit(cs[j], d)
}

/// `i` is the first of the ranges with the channel count whose nearer bound
/// lies closest to the wanted rate.
pub open spec fn nearest_channel_fit(cs: Seq<ConfigRange>, d: StreamConfig, i: int) -> bool {
    &&& 0 <= i < cs.len()
    &&& channel_fit(cs[i], d)
    &&& forall|j: int|
        0 <= j < cs.len() && #[trigger] channel_fit(cs[j], d) ==> cs[i].bound_distance(d.sample_rate)
            <= cs[j].bound_distance(d.sample_rate)
    &&& forall|j: int|
        0 <= j < i && #[trigger] channel_fit(cs[j], d) ==> cs[i].bound_distance(d.sample_rate)
            < cs[j].bound_distance(d.sample_rate)
}

/// `i` is the last of the mono ranges with the highest maximum rate.
pub open spec fn fastest_mono(cs: Seq<ConfigRange>, i: int) -> bool {
    &&& 0 <= i < cs.len()
    &&& cs[i].channels == 1
    &&& forall|j: int| 0 <= j < cs.len() && #[trigger] cs[j].channels == 1 ==> cs[j].max_rate <= cs[i].max_rate
    &&& forall|j: int| i < j < cs.len() && #[trigger] cs[j].channels == 1 ==> cs[j].max_rate < cs[i].max_rate
}

/// The negotiation precedence: an exact fit, else the nearest range with the
/// channel count, else the fastest mono range, else the first range.
pub open spec fn is_selected(cs: Seq<ConfigRange>, d: StreamConfig, i: int) -> bool {
    if any_exact_fit(cs, d) {
        first_exact_fit(cs, d, i)
    } else if any_channel_fit(cs, d) {
        nearest_channel_fit(cs, d, i)
    } else if any_mono(cs) {
        fastest_mono(cs, i)
    } else {
        0 <= i < cs.len() && i == 0
    }
}

/// The output side's precedence: an exact fit, else the first range.
pub open spec fn is_output_selected(cs: Seq<ConfigRange>, d: StreamConfig, i: int) -> bool {
    if any_exact_fit(cs, d) {
        first_exact_fit(cs, d, i)
    } else {
        0 <= i < cs.len() && i == 0
    }
}

/// Negotiation never leaves a choice open: at most one range is selected.
pub proof fn lemma_selection_unique(cs: Seq<ConfigRange>, d: StreamConfig, i: int, k: int)
    requires
        is_selected(cs, d, i),
        is_selected(cs, d, k),
    ensures
        i == k,
{
    if any_exact_fit(cs, d) {
        if i < k {
            assert(!exact_fit(cs[i], d));
        } else if k < i {
            assert(!exact_fit(cs[k], d));
        }
    } else if any_channel_fit(cs, d) {
        assert(channel_fit(cs[i], d));
        assert(channel_fit(cs[k], d));
    } else if any_mono(cs) {
        assert(cs[i].channels == 1);
        assert(cs[k].channels == 1);
    }
}

fn distance_to(bound: u32, rate: u32) -> (r: u32)
    ensures
        r == abs_diff(bound as int, rate as int),
{
    if bound >= rate {
        bound - rate
    } else {
        rate - bound
    }
}

fn bound_distance(c: &ConfigRange, rate: u32) -> (r: u32)
    ensures
        r == c.bound_distance(rate),
{
    let lo = distance_to(c.min_rate, rate);
    let hi = distance_to(c.max_rate, rate);
    if lo <= hi {
        lo
    } else {
        hi
    }
}

fn fits_exactly(c: &ConfigRange, d: &StreamConfig) -> (r: bool)
    ensures
        r == exact_fit(*c, *d),
{
    c.channels == d.channels && c.min_rate <= d.sample_rate && d.sample_rate <= c.max_rate
}

/// Index of the first range that holds the channel count and the rate.
fn find_exact_fit(ranges: &Vec<ConfigRange>, desired: &StreamConfig) -> (r: Option<usize>)
    ensures
        r is None <==> !any_exact_fit(ranges@, *desired),
        r matches Some(i) ==> first_exact_fit(ranges@, *desired, i as int),
{
    let mut i: usize = 0;
    while i < ranges.len()
        invariant
            i <= ranges.len(),
            forall|j: int| 0 <= j < i ==> !#[trigger] exact_fit(ranges@[j], *desired),
        decreases ranges.len() - i,
    {
        if fits_exactly(&ranges[i], desired) {
            return Some(i);
        }
        i += 1;
    }
    None
}

/// Index of the first range with the channel count that is nearest in rate.
fn find_nearest_channel_fit(ranges: &Vec<ConfigRange>, desired: &StreamConfig) -> (r: Option<usize>)
    ensures
        r is None <==> !any_channel_fit(ranges@, *desired),
        r matches Some(i) ==> nearest_channel_fit(ranges@, *desired, i as int),
{
    let ghost cs = ranges@;
    let ghost d = *desired;
    let mut best: Option<usize> = None;
    let mut best_distance: u32 = 0;
    let mut i: usize = 0;
    while i < ranges.len()
        invariant
            i <= ranges.len(),
            cs == ranges@,
            d == *desired,
            best is None ==> forall|j: int| 0 <= j < i ==> !#[trigger] channel_fit(cs[j], d),
            best matches Some(b) ==> {
                &&& b < i
                &&& channel_fit(cs[b as int], d)
                &&& best_distance == cs[b as int].bound_distance(d.sample_rate)
                &&& forall|j: int|
                    0 <= j < i && #[trigger] channel_fit(cs[j], d) ==> best_distance
                        <= cs[j].bound_distance(d.sample_rate)
                &&& forall|j: int|
                    0 <= j < b && #[trigger] channel_fit(cs[j], d) ==> best_distance
                        < cs[j].bound_distance(d.sample_rate)
            },
        decreases ranges.len() - i,
    {
        if ranges[i].channels == desired.channels {
            let dist = bound_distance(&ranges[i], desired.sample_rate);
            if best.is_none() || dist < best_distance {
                best = Some(i);
                best_distance = dist;
            }
        }
        i += 1;
    }
    best
}

/// Index of the last mono range among those with the highest maximum rate.
fn find_fastest_mono(ranges: &Vec<ConfigRange>) -> (r: Option<usize>)
    ensures
        r is None <==> !any_mono(ranges@),
        r matches Some(i) ==> fastest_mono(ranges@, i as int),
{
    let ghost cs = ranges@;
    let mut best: Option<usize> = None;
    let mut best_max: u32 = 0;
    let mut i: usize = 0;
    while i < ranges.len()
        invariant
            i <= ranges.len(),
            cs == ranges@,
            best is None ==> forall|j: int| 0 <= j < i ==> #[trigger] cs[j].channels != 1,
            best matches Some(b) ==> {
                &&& b < i
                &&& cs[b as int].channels == 1
                &&& best_max == cs[b as int].max_rate
                &&& forall|j: int| 0 <= j < i && #[trigger] cs[j].channels == 1 ==> cs[j].max_rate <= best_max
                &&& forall|j: int| b < j < i && #[trigger] cs[j].channels == 1 ==> cs[j].max_rate < best_max
            },
        decreases ranges.len() - i,
    {
        if ranges[i].channels == 1 && (best.is_none() || ranges[i].max_rate >= best_max) {
            best = Some(i);
            best_max = ranges[i].max_rate;
        }
        i += 1;
    }
    best
}

/// Picks the range that negotiation settles on; `None` only when the device
/// reported no range at all.
pub fn select_config_index(ranges: &Vec<ConfigRange>, desired: &StreamConfig) -> (r: Option<usize>)
    ensures
        r is None <==> ranges@.len() == 0,
        r matches Some(i) ==> is_selected(ranges@, *desired, i as int),
{
    if let Some(i) = find_exact_fit(ranges, desired) {
        return Some(i);
    }
    if let Some(i) = find_nearest_channel_fit(ranges, desired) {
        return Some(i);
    }
    if let Some(i) = find_fastest_mono(ranges) {
        return Some(i);
    }
    if ranges.len() == 0 {
        None
    } else {
        Some(0)
    }
}

fn settle_rate(c: &ConfigRange, rate: u32) -> (r: StreamConfig)
    ensures
        r == c.settle(rate),
{
    let sample_rate = if c.min_rate <= rate && rate <= c.max_rate {
        rate
    } else if rate < c.min_rate {
        c.min_rate
    } else {
        c.max_rate
    };
    StreamConfig { sample_rate, channels: c.channels, format: c.format }
}

/// Matches a desired configuration against the ranges a capture device
/// supports, following the negotiation precedence, and settles the rate on
/// the desired one or the nearer bound of the chosen range.
pub fn negotiate_config(ranges: &Vec<ConfigRange>, desired: &StreamConfig) -> (r: Result<
    StreamConfig,
    AudioError,
>)
    ensures
        r is Err <==> ranges@.len() == 0,
        r matches Err(e) ==> e == AudioError::NoCompatibleConfig,
        r matches Ok(c) ==> exists|i: int|
            is_selected(ranges@, *desired, i) && c == (#[trigger] ranges@[i]).settle(
                desired.sample_rate,
            ),
{
    match select_config_index(ranges, desired) {
        Some(i) => Ok(settle_rate(&ranges[i], desired.sample_rate)),
        None => Err(AudioError::NoCompatibleConfig),
    }
}

/// The loopback output's negotiation: the first exact fit for the capture
/// configuration, else the first range; `None` when there is no range.
pub fn negotiate_output_config(ranges: &Vec<ConfigRange>, capture: &StreamConfig) -> (r: Option<
    StreamConfig,
>)
    ensures
        r is None <==> ranges@.len() == 0,
        r matches Some(c) ==> exists|i: int|
            is_output_selected(ranges@, *capture, i) && c == (#[trigger] ranges@[i]).settle(
                capture.sample_rate,
            ),
{
    let i = match find_exact_fit(ranges, capture) {
        Some(i) => i,
        None => {
            if ranges.len() == 0 {
                return None;
            }
            0
        },
    };
    Some(settle_rate(&ranges[i], capture.sample_rate))
}

/// What the host reported of one device: its name, when it could give one,
/// and how many input configurations it exposes.
#[derive(Debug)]
pub struct DeviceProbe {
    pub name: Option<String>,
    pub input_configs: usize,
}

/// Which capture device the session uses.
#[derive(Clone, Copy, Debug, PartialEq, Eq, Structural)]
pub enum DeviceChoice {
    /// The probe at this index.
    Listed(usize),
    /// The host's default input device.
    HostDefault,
}

pub open spec fn is_input(p: DeviceProbe) -> bool {
    p.input_configs > 0
}

/// The probe is an input device that reported exactly this name.
pub open spec fn named_input(p: DeviceProbe, name: Seq<char>) -> bool {
    is_input(p) && (p.name matches Some(n) && n@ == name)
}

/// Names of the input devices, in enumeration order; devices that gave no
/// name are left out.
pub open spec fn input_names(ps: Seq<DeviceProbe>) -> Seq<Seq<char>>
    decreases ps.len(),
{
    if ps.len() == 0 {
        Seq::empty()
    } else {
        let rest = input_names(ps.drop_last());
        let p = ps.last();
        if is_input(p) && p.name is Some {
            rest.push(p.name.unwrap()@)
        } else {
            rest
        }
    }
}

pub open spec fn views_of(v: Seq<String>) -> Seq<Seq<char>> {
    v.map_values(|s: String| s@)
}

/// Lists the names of the devices that expose an input configuration.
pub fn list_input_names(probes: &Vec<DeviceProbe>) -> (r: Vec<String>)
    ensures
        views_of(r@) == input_names(probes@),
{
    let mut names: Vec<String> = Vec::new();
    let mut i: usize = 0;
    while i < probes.len()
        invariant
            i <= probes.len(),
            views_of(names@) == input_names(probes@.subrange(0, i as int)),
        decreases probes.len() - i,
    {
        let ghost before = names@;
        proof {
            assert(probes@.subrange(0, i + 1).drop_last() == probes@.subrange(0, i as int));
        }
        if probes[i].input_configs > 0 {
            if let Some(n) = &probes[i].name {
                names.push(n.clone());
                assert(views_of(names@) == views_of(before).push(n@));
            }
        }
        i += 1;
    }
    assert(probes@.subrange(0, probes@.len() as int) == probes@);
    names
}

/// The device that selection settles on: the first input device with the
/// wanted name, else the host default.
pub open spec fn chosen_device(ps: Seq<DeviceProbe>, wanted: Option<String>, i: int) -> bool {
    &&& wanted matches Some(w)
    &&& 0 <= i < ps.len()
    &&& named_input(ps[i], w@)
    &&& forall|j: int| 0 <= j < i ==> !#[trigger] named_input(ps[j], w@)
}

pub open spec fn any_named_input(ps: Seq<DeviceProbe>, name: Seq<char>) -> bool {
    exists|j: int| 0 <= j < ps.len() && #[trigger] named_input(ps[j], name)
}

/// A name was given and some input device reported it.
pub open spec fn wanted_is_listed(ps: Seq<DeviceProbe>, wanted: Option<String>) -> bool {
    match wanted {
        Some(w) => any_named_input(ps, w@),
        None => false,
    }
}

/// Selects the capture device. A name that matches no input device falls
/// back to the host default, as does no name at all; without a default
/// that is `NoInputDevice`.
pub fn select_device(probes: &Vec<DeviceProbe>, wanted: &Option<String>, has_default: bool) -> (r:
    Result<DeviceChoice, AudioError>)
    ensures
        r matches Ok(DeviceChoice::Listed(i)) ==> chosen_device(probes@, *wanted, i as int),
        r matches Ok(DeviceChoice::HostDefault) ==> has_default && !wanted_is_listed(probes@, *wanted),
        r is Err <==> !has_default && !wanted_is_listed(probes@, *wanted),
        r matches Err(e) ==> e == AudioError::NoInputDevice,
{
    if let Some(w) = wanted {
        let mut i: usize = 0;
        while i < probes.len()
            invariant
                i <= probes.len(),
                *wanted == Some(*w),
                forall|j: int| 0 <= j < i ==> !#[trigger] named_input(probes@[j], w@),
            decreases probes.len() - i,
        {
            if probes[i].input_configs > 0 {
                if let Some(n) = &probes[i].name {
                    if *n == *w {
                        assert(named_input(probes@[i as int], w@));
                        return Ok(DeviceChoice::Listed(i));
                    }
                }
            }
            i += 1;
        }
    }
    if has_default {
        Ok(DeviceChoice::HostDefault)
    } else {
        Err(AudioError::NoInputDevice)
    }
}

} // verus!
