//! Animation implementations for the LED ring.
//!
//! All animations share the reset/update lifecycle of
//! [`LedAnimation`](crate::led::LedAnimation): a steady external event loop
//! feeds them a monotonically growing tick count, and each update paints
//! its effect onto the given LED report.

use vstd::prelude::*;
use vstd::arithmetic::div_mod::lemma_div_is_ordered;
use vstd::arithmetic::div_mod::lemma_div_multiples_vanish;
use vstd::arithmetic::mul::lemma_mul_inequality;
use crate::led::AnimationEvent;
use crate::led::LedAnimation;
use crate::led::LedReport;
use crate::led::LedSelection;
use crate::led::ring_at;

verus! {

/// The largest tick period an animation may be parameterized with: a phase
/// within the period multiplied by an intensity delta still fits in 64 bits.
pub open spec fn max_tick_period() -> u64 {
    0x100_0000_0000_0000
}

/// A phase scaled into an intensity delta stays in 64 bits and never
/// exceeds the delta itself.
proof fn lemma_scaled_phase(phase: u64, d: u64, period: u64)
    requires
        1 <= period <= max_tick_period(),
        phase < period,
        d <= 255,
    ensures
        phase * d <= (max_tick_period() - 1) * 255 < u64::MAX,
        phase * d / (period as int) <= d,
{
    lemma_mul_inequality(phase as int, period - 1 as int, d as int);
    assert((period - 1) * d <= (max_tick_period() - 1) * 255) by (nonlinear_arith)
        requires
            1 <= period <= max_tick_period(),
            d <= 255,
    ;
    lemma_mul_inequality(phase as int, period as int, d as int);
    lemma_div_is_ordered(phase * d as int, period * d as int, period as int);
    assert(period * d == d * period) by (nonlinear_arith);
    lemma_div_multiples_vanish(d as int, period as int);
}

/// The intensity of a rising ramp from `min` to `max` over `period` ticks,
/// at the given phase within the period.
pub open spec fn ramp_up_value(min: u8, max: u8, period: u64, phase: u64) -> u8
    recommends
        min <= max,
        1 <= period,
        phase < period,
{
    (min + phase * (max - min) / (period as int)) as u8
}

/// The intensity of a falling ramp from `max` to `min` over `period` ticks,
/// at the given phase within the period.
pub open spec fn ramp_down_value(min: u8, max: u8, period: u64, phase: u64) -> u8
    recommends
        min <= max,
        1 <= period,
        phase < period,
{
    (max - phase * (max - min) / (period as int)) as u8
}

/// A single LED running around the ring, one position every 20 ticks.
/// It is a stateless function of the tick count alone and never ends.
#[derive(Debug)]
pub struct RotatingLed;

impl RotatingLed {
    /// Light the LED the given tick falls on, leaving everything else
    /// in the report unchanged.
    pub fn paint(&self, ticks: u64, report: &mut LedReport)
        ensures
            final(report)@.len() == 28,
            forall|j: int|
                0 <= j < 28 ==> final(report)@[j] == (if j == 3 + (ticks / 20) % 24 {
                    0xFFu8
                } else {
                    old(report)@[j]
                }),
    {
        report.set(((ticks / 20) % 24) as u8, 0xFF);
    }
}

impl LedAnimation for RotatingLed {
    open spec fn inv(&self) -> bool {
        true
    }

    open spec fn ready_at(&self, ticks: u64) -> bool {
        true
    }

    fn reset(&mut self, ticks: u64) {
    }

    fn update(&mut self, ticks: u64, report: &mut LedReport) -> (e: AnimationEvent) {
        self.paint(ticks, report);
        AnimationEvent::Running
    }
}

/// Incrementally pulsating LEDs: a sawtooth ramp from `value_min` to
/// `value_max` over `tick_period` ticks, repeating forever.
#[derive(Debug, Clone, PartialEq, Eq)]
pub struct OneWayPulsate {
    pub selection: LedSelection,
    pub value_min: u8,
    pub value_max: u8,
    pub tick_period: u64,
}

impl OneWayPulsate {
    /// Whether the parameters are well formed: a positive period within
    /// the representable range and an intensity range that is not inverted.
    pub open spec fn wf(&self) -> bool {
        &&& 1 <= self.tick_period <= max_tick_period()
        &&& self.value_min <= self.value_max
        &&& self.selection@.len() == 24
    }

    /// A pulse over the whole ring, from off to full intensity over 128
    /// ticks.
    pub fn new() -> (r: Self)
        ensures
            r.wf(),
            r.tick_period == 128 && r.value_min == 0 && r.value_max == 0xFF,
            forall|j: int| 0 <= j < 24 ==> r.selection@[j],
    {
        Self::default()
    }

    /// A default pulse over the given selection.
    pub fn new_with_selection(selection: LedSelection) -> (r: Self)
        requires
            selection@.len() == 24,
        ensures
            r.wf(),
            r.tick_period == 128 && r.value_min == 0 && r.value_max == 0xFF,
            r.selection == selection,
    {
        OneWayPulsate { selection, value_min: 0, value_max: 0xFF, tick_period: 128 }
    }

    /// A pulse over the given selection with the given period and
    /// intensity bounds.
    pub fn new_with_params(
        selection: LedSelection,
        tick_period: u64,
        value_min: u8,
        value_max: u8,
    ) -> (r: Self)
        requires
            selection@.len() == 24,
            1 <= tick_period <= max_tick_period(),
            value_min <= value_max,
        ensures
            r.wf(),
            r.selection == selection,
            r.tick_period == tick_period,
            r.value_min == value_min,
            r.value_max == value_max,
    {
        OneWayPulsate { selection, tick_period, value_min, value_max }
    }

    /// Paint the sawtooth intensity for the given tick over the selection.
    pub fn paint(&self, ticks: u64, report: &mut LedReport)
        requires
            self.wf(),
        ensures
            final(report)@.len() == 28,
            forall|j: int|
                0 <= j < 24 ==> ring_at(*final(report), j) == (if self.selection@[j] {
                    ramp_up_value(self.value_min, self.value_max, self.tick_period, ticks % self.tick_period)
                } else {
                    ring_at(*old(report), j)
                }),
            forall|j: int|
                0 <= j < 28 && !(3 <= j < 27) ==> final(report)@[j] == old(report)@[j],
    {
        let phase: u64 = ticks % self.tick_period;
        let d: u64 = (self.value_max - self.value_min) as u64;
        proof {
            lemma_scaled_phase(phase, d, self.tick_period);
        }
        let value: u8 = self.value_min + (phase * d / self.tick_period) as u8;
        report.set_selection(&self.selection, value);
    }
}

impl Default for OneWayPulsate {
    /// By default, a pulse covers the whole ring and ramps from off to
    /// full intensity over 128 ticks.
    fn default() -> (r: Self)
        ensures
            r.wf(),
            r.tick_period == 128 && r.value_min == 0 && r.value_max == 0xFF,
            forall|j: int| 0 <= j < 24 ==> r.selection@[j],
    {
        OneWayPulsate {
            selection: LedSelection::all(),
            value_min: 0,
            value_max: 0xFF,
            tick_period: 128,
        }
    }
}

impl LedAnimation for OneWayPulsate {
    open spec fn inv(&self) -> bool {
        self.wf()
    }

    open spec fn ready_at(&self, ticks: u64) -> bool {
        true
    }

    fn reset(&mut self, ticks: u64) {
    }

    fn update(&mut self, ticks: u64, report: &mut LedReport) -> (e: AnimationEvent) {
        self.paint(ticks, report);
        AnimationEvent::Running
    }
}

/// Pulsating LEDs: a triangle wave that ramps up from `value_min` to
/// `value_max` over `tick_period` ticks and back down over the next
/// period, symmetric about the period boundary, repeating forever.
#[derive(Debug, Clone, PartialEq, Eq)]
pub struct Pulsate {
    pub selection: LedSelection,
    pub value_min: u8,
    pub value_max: u8,
    pub tick_period: u64,
}

/// The intensity of the triangle wave at the given tick: rising during
/// even periods, falling during odd ones.
pub open spec fn pulsate_value(min: u8, max: u8, period: u64, ticks: u64) -> u8
    recommends
        min <= max,
        1 <= period,
{
    if (ticks / period) % 2 == 0 {
        ramp_up_value(min, max, period, (ticks % period) as u64)
    } else {
        ramp_down_value(min, max, period, (ticks % period) as u64)
    }
}

impl Pulsate {
    /// Whether the parameters are well formed: a positive period within
    /// the representable range and an intensity range that is not inverted.
    pub open spec fn wf(&self) -> bool {
        &&& 1 <= self.tick_period <= max_tick_period()
        &&& self.value_min <= self.value_max
        &&& self.selection@.len() == 24
    }

    /// A pulse over the whole ring, between off and full intensity, with
    /// a 128-tick ramp.
    pub fn new() -> (r: Self)
        ensures
            r.wf(),
            r.tick_period == 128 && r.value_min == 0 && r.value_max == 0xFF,
            forall|j: int| 0 <= j < 24 ==> r.selection@[j],
    {
        Self::default()
    }

    /// A default pulse over the given selection.
    pub fn new_with_selection(selection: LedSelection) -> (r: Self)
        requires
            selection@.len() == 24,
        ensures
            r.wf(),
            r.tick_period == 128 && r.value_min == 0 && r.value_max == 0xFF,
            r.selection == selection,
    {
        Pulsate { selection, value_min: 0, value_max: 0xFF, tick_period: 128 }
    }

    /// A pulse over the given selection with the given ramp period and
    /// intensity bounds.
    pub fn new_with_params(
        selection: LedSelection,
        tick_period: u64,
        value_min: u8,
        value_max: u8,
    ) -> (r: Self)
        requires
            selection@.len() == 24,
            1 <= tick_period <= max_tick_period(),
            value_min <= value_max,
        ensures
            r.wf(),
            r.selection == selection,
            r.tick_period == tick_period,
            r.value_min == value_min,
            r.value_max == value_max,
    {
        Pulsate { selection, tick_period, value_min, value_max }
    }

    /// Paint the triangle-wave intensity for the given tick over the
    /// selection.
    pub fn paint(&self, ticks: u64, report: &mut LedReport)
        requires
            self.wf(),
        ensures
            final(report)@.len() == 28,
            forall|j: int|
                0 <= j < 24 ==> ring_at(*final(report), j) == (if self.selection@[j] {
                    pulsate_value(self.value_min, self.value_max, self.tick_period, ticks)
                } else {
                    ring_at(*old(report), j)
                }),
            forall|j: int|
                0 <= j < 28 && !(3 <= j < 27) ==> final(report)@[j] == old(report)@[j],
    {
        let down: bool = (ticks / self.tick_period) % 2 == 1;
        let phase: u64 = ticks % self.tick_period;
        let d: u64 = (self.value_max - self.value_min) as u64;
        proof {
            lemma_scaled_phase(phase, d, self.tick_period);
        }
        let value: u8 = if down {
            self.value_max - (phase * d / self.tick_period) as u8
        } else {
            self.value_min + (phase * d / self.tick_period) as u8
        };
        report.set_selection(&self.selection, value);
    }
}

impl Default for Pulsate {
    /// By default, a pulse covers the whole ring and swings between off
    /// and full intensity with a 128-tick ramp.
    fn default() -> (r: Self)
        ensures
            r.wf(),
            r.tick_period == 128 && r.value_min == 0 && r.value_max == 0xFF,
            forall|j: int| 0 <= j < 24 ==> r.selection@[j],
    {
        Pulsate { selection: LedSelection::all(), value_min: 0, value_max: 0xFF, tick_period: 128 }
    }
}

impl LedAnimation for Pulsate {
    open spec fn inv(&self) -> bool {
        self.wf()
    }

    open spec fn ready_at(&self, ticks: u64) -> bool {
        true
    }

    fn reset(&mut self, ticks: u64) {
    }

    fn update(&mut self, ticks: u64, report: &mut LedReport) -> (e: AnimationEvent) {
        self.paint(ticks, report);
        AnimationEvent::Running
    }
}

/// An attack-sustain-release pulse: a one-shot envelope that rises
/// linearly to full intensity during the attack, holds during the
/// sustain, and decays during the release as the bitwise complement of a
/// rising ramp (a deliberately non-linear fade). Once the release has
/// elapsed it forces the selection off and reports `Ended`; it must be
/// re-armed with `reset` before further use.
#[derive(Debug, Clone, PartialEq, Eq)]
pub struct Asr {
    pub selection: LedSelection,
    pub base_tick: u64,
    pub ticks_attack: u64,
    pub ticks_sustain: u64,
    pub ticks_release: u64,
    pub value: u8,
}

/// The intensity of an attack-sustain-release envelope with the given
/// phase durations, at the given duration since its origin.
pub open spec fn asr_intensity(attack: u64, sustain: u64, release: u64, dur: u64) -> u8 {
    if dur < attack {
        (dur * 255 / (attack as int)) as u8
    } else if dur < attack + sustain {
        0xFFu8
    } else if dur < attack + sustain + release {
        !(((dur - attack - sustain) * 255 / (release as int)) as u8)
    } else {
        0u8
    }
}

/// The intensity of the envelope at the given duration since its origin.
pub open spec fn asr_value(a: Asr, dur: u64) -> u8
    recommends
        a.wf(),
{
    asr_intensity(a.ticks_attack, a.ticks_sustain, a.ticks_release, dur)
}

/// Whether the envelope has fully elapsed at the given duration.
pub open spec fn asr_ended(a: Asr, dur: u64) -> bool {
    dur >= a.ticks_attack + a.ticks_sustain + a.ticks_release
}

impl Asr {
    /// Whether the parameters are well formed: phase durations within the
    /// representable range.
    pub open spec fn wf(&self) -> bool {
        &&& self.ticks_attack <= max_tick_period()
        &&& self.ticks_release <= max_tick_period()
        &&& self.ticks_attack + self.ticks_sustain + self.ticks_release <= u64::MAX
        &&& self.selection@.len() == 24
    }

    /// A default envelope over the given selection, aimed at the given
    /// peak intensity.
    pub fn new_with_selection(selection: LedSelection, value: u8) -> (r: Self)
        requires
            selection@.len() == 24,
        ensures
            r.wf(),
            r.selection == selection,
            r.value == value,
            r.base_tick == 0,
            r.ticks_attack == 20 && r.ticks_sustain == 60 && r.ticks_release == 20,
    {
        Asr {
            selection,
            base_tick: 0,
            ticks_attack: 20,
            ticks_sustain: 60,
            ticks_release: 20,
            value,
        }
    }

    /// An envelope over the given selection with the given phase
    /// durations.
    pub fn new_with_params(
        selection: LedSelection,
        value: u8,
        ticks_attack: u64,
        ticks_sustain: u64,
        ticks_release: u64,
    ) -> (r: Self)
        requires
            selection@.len() == 24,
            ticks_attack <= max_tick_period(),
            ticks_release <= max_tick_period(),
            ticks_attack + ticks_sustain + ticks_release <= u64::MAX,
        ensures
            r.wf(),
            r.selection == selection,
            r.value == value,
            r.base_tick == 0,
            r.ticks_attack == ticks_attack,
            r.ticks_sustain == ticks_sustain,
            r.ticks_release == ticks_release,
    {
        Asr { selection, base_tick: 0, ticks_attack, ticks_sustain, ticks_release, value }
    }

    /// Rebase the envelope's origin at the given tick, re-arming it.
    pub fn rearm(&mut self, ticks: u64)
        ensures
            *final(self) == (Asr { base_tick: ticks, ..*old(self) }),
    {
        self.base_tick = ticks;
    }

    /// Paint the envelope intensity for the given tick over the
    /// selection, reporting whether the envelope has ended.
    pub fn step(&self, ticks: u64, report: &mut LedReport) -> (e: AnimationEvent)
        requires
            self.wf(),
            ticks >= self.base_tick,
        ensures
            final(report)@.len() == 28,
            e == (if asr_ended(*self, (ticks - self.base_tick) as u64) {
                AnimationEvent::Ended
            } else {
                AnimationEvent::Running
            }),
            forall|j: int|
                0 <= j < 24 ==> ring_at(*final(report), j) == (if self.selection@[j] {
                    asr_value(*self, (ticks - self.base_tick) as u64)
                } else {
                    ring_at(*old(report), j)
                }),
            forall|j: int|
                0 <= j < 28 && !(3 <= j < 27) ==> final(report)@[j] == old(report)@[j],
    {
        let dur: u64 = ticks - self.base_tick;

        if dur < self.ticks_attack {
            proof {
                lemma_scaled_phase(dur, 255, self.ticks_attack);
            }
            let val: u8 = (dur * 255 / self.ticks_attack) as u8;
            report.set_selection(&self.selection, val);
            AnimationEvent::Running
        } else if dur < self.ticks_attack + self.ticks_sustain {
            report.set_selection(&self.selection, 0xFF);
            AnimationEvent::Running
        } else if dur < self.ticks_attack + self.ticks_sustain + self.ticks_release {
            let rel: u64 = dur - self.ticks_attack - self.ticks_sustain;
            proof {
                lemma_scaled_phase(rel, 255, self.ticks_release);
            }
            let val: u8 = !((rel * 255 / self.ticks_release) as u8);
            report.set_selection(&self.selection, val);
            AnimationEvent::Running
        } else {
            report.set_selection(&self.selection, 0);
            AnimationEvent::Ended
        }
    }
}

impl LedAnimation for Asr {
    open spec fn inv(&self) -> bool {
        self.wf()
    }

    open spec fn ready_at(&self, ticks: u64) -> bool {
        ticks >= self.base_tick
    }

    fn reset(&mut self, ticks: u64) {
        self.rearm(ticks);
    }

    fn update(&mut self, ticks: u64, report: &mut LedReport) -> (e: AnimationEvent) {
        self.step(ticks, report)
    }
}

} // verus!
