use vstd::prelude::*;

verus! {

/// An integer from 0 to 15.
#[allow(non_camel_case_types)]
#[derive(Copy, Clone, Debug, Hash, Ord, PartialOrd, Eq, PartialEq)]
pub struct u4(u8);

/// `v`, saturated at 15.
pub open spec fn u4_of(v: u8) -> u8 {
    if v > 15 {
        15
    } else {
        v
    }
}

impl u4 {
    #[verifier::type_invariant]
    spec fn inv(self) -> bool {
        self.0 <= 15
    }

    pub closed spec fn spec_value(self) -> u8 {
        self.0
    }

    /// `v`, saturated at 15.
    pub fn from(v: u8) -> (r: u4)
        ensures
            r.spec_value() == u4_of(v),
    {
        if v > 15 {
            u4(15)
        } else {
            u4(v)
        }
    }

    pub fn value(self) -> (r: u8)
        ensures
            r == self.spec_value(),
            r <= 15,
    {
        proof {
            use_type_invariant(self);
        }
        self.0
    }
}

/// One phase of the HOME light pattern. Durations are multiples of the
/// pattern's global mini cycle duration.
#[derive(Clone, Copy, Debug, Hash, Eq, PartialEq)]
pub struct LightEmittingPhase {
    /// LED intensity, 0x0 for 0% to 0xF for 100%
    pub led_intensity: u4,
    /// Duration of the fade to this intensity
    pub fading_transition_duration: u4,
    /// Duration the LED stays at this intensity
    pub led_duration: u4,
}

/// A percentage from 0 to 100, in sixteenths, saturated at 15.
pub open spec fn intensity_of(percent: u8) -> u8 {
    let saturated: int = if percent > 100 { 100 } else { percent as int };
    u4_of((saturated * 4 / 25) as u8)
}

fn intensity(percent: u8) -> (r: u4)
    ensures
        r.spec_value() == intensity_of(percent),
{
    let saturated: u16 = if percent > 100 { 100 } else { percent as u16 };
    u4::from((saturated * 4 / 25) as u8)
}

/// Milliseconds in units of the global mini cycle duration, the quotient
/// kept to its low byte and saturated at 15.
pub open spec fn duration_of(ms: u16, unit: u8) -> u8 {
    u4_of((ms as int / unit as int) as u8)
}

/// Global mini cycle duration in milliseconds, as the 4-bit code: 0 is off,
/// otherwise one code for every 12 ms from 8 ms on.
pub open spec fn cycle_code_of(ms: u8) -> u8 {
    if ms == 0 {
        0
    } else {
        u4_of(((ms - 7) / 12 + 1) as u8)
    }
}

/// The pattern of the HOME button light.
#[derive(Clone, Debug, Hash, Eq, PartialEq)]
pub struct LightEmittingPattern {
    phases_len: Option<u4>,
    phases: Vec<LightEmittingPhase>,
    global_mini_cycle_duration: u4,
    led_start_intensity: u4,
    repeat_count: u4,
}

/// A byte of two nibbles.
pub open spec fn nibbles(high: u8, low: u8) -> u8 {
    ((high & 0x0Fu8) << 4u8) | (low & 0x0Fu8)
}

fn nibbles_to_u8(high: u4, low: u4) -> (r: u8)
    ensures
        r == nibbles(high.spec_value(), low.spec_value()),
{
    ((high.value() & 0x0Fu8) << 4u8) | (low.value() & 0x0Fu8)
}

/// The bytes of the pair of phases that starts at phase `2 * j`: both
/// intensities, then fading and duration of each phase present.
pub open spec fn pair_bytes(ph: Seq<LightEmittingPhase>, j: int) -> Seq<u8> {
    let even = ph[2 * j];
    if 2 * j + 1 < ph.len() {
        let odd = ph[2 * j + 1];
        seq![
            nibbles(even.led_intensity.spec_value(), odd.led_intensity.spec_value()),
            nibbles(even.fading_transition_duration.spec_value(), even.led_duration.spec_value()),
            nibbles(odd.fading_transition_duration.spec_value(), odd.led_duration.spec_value()),
        ]
    } else {
        seq![
            nibbles(even.led_intensity.spec_value(), 0),
            nibbles(even.fading_transition_duration.spec_value(), even.led_duration.spec_value()),
        ]
    }
}

/// The bytes of the first `k` pairs of phases.
pub open spec fn pairs_bytes(ph: Seq<LightEmittingPhase>, k: nat) -> Seq<u8>
    decreases k,
{
    if k == 0 {
        Seq::empty()
    } else {
        pairs_bytes(ph, (k - 1) as nat) + pair_bytes(ph, k - 1)
    }
}

proof fn lemma_pairs_len(ph: Seq<LightEmittingPhase>, k: nat)
    requires
        2 * k <= ph.len() + 1,
    ensures
        pairs_bytes(ph, k).len() as int == if 2 * k <= ph.len() { 3 * k as int } else { 3 * k - 1 },
    decreases k,
{
    if k > 0 {
        lemma_pairs_len(ph, (k - 1) as nat);
    }
}

impl LightEmittingPattern {
    pub closed spec fn spec_phases(self) -> Seq<LightEmittingPhase> {
        self.phases@
    }

    pub closed spec fn spec_phases_len(self) -> Option<u4> {
        self.phases_len
    }

    pub closed spec fn spec_cycle(self) -> u8 {
        self.global_mini_cycle_duration.spec_value()
    }

    pub closed spec fn spec_start_intensity(self) -> u8 {
        self.led_start_intensity.spec_value()
    }

    pub closed spec fn spec_repeat_count(self) -> u8 {
        self.repeat_count.spec_value()
    }

    /// A pattern without phases.
    ///
    /// * global_mini_cycle_duration (ms): 0 (off), or 7 to 175
    /// * led_start_intensity (%): 0 to 100
    /// * repeat_count: 0 to 15, 0 repeating forever
    pub fn new(global_mini_cycle_duration: u8, led_start_intensity: u8, repeat_count: u4) -> (r:
        LightEmittingPattern)
        requires
            global_mini_cycle_duration == 0 || global_mini_cycle_duration >= 7,
        ensures
            r.spec_phases_len() is None,
            r.spec_phases() == Seq::<LightEmittingPhase>::empty(),
            r.spec_cycle() == cycle_code_of(global_mini_cycle_duration),
            r.spec_start_intensity() == intensity_of(led_start_intensity),
            r.spec_repeat_count() == repeat_count.spec_value(),
    {
        let cycle = if global_mini_cycle_duration == 0 {
            u4::from(0)
        } else {
            u4::from((global_mini_cycle_duration - 7) / 12 + 1)
        };
        LightEmittingPattern {
            phases_len: None,
            phases: Vec::new(),
            global_mini_cycle_duration: cycle,
            led_start_intensity: intensity(led_start_intensity),
            repeat_count,
        }
    }

    pub fn push_phase(&mut self, phase: LightEmittingPhase)
        ensures
            final(self).spec_phases() == old(self).spec_phases().push(phase),
            final(self).spec_phases_len() == old(self).spec_phases_len(),
            final(self).spec_cycle() == old(self).spec_cycle(),
            final(self).spec_start_intensity() == old(self).spec_start_intensity(),
            final(self).spec_repeat_count() == old(self).spec_repeat_count(),
    {
        self.phases.push(phase);
    }

    pub fn phases(&self) -> (r: &Vec<LightEmittingPhase>)
        ensures
            r@ == self.spec_phases(),
    {
        &self.phases
    }

    /// Adds a phase: intensity in percent, fading and duration in
    /// milliseconds, counted in units of the global mini cycle duration.
    pub fn add_phase(self, led_intensity: u8, fading_transition_duration: u16, led_duration: u16) -> (r:
        LightEmittingPattern)
        requires
            self.spec_cycle() != 0,
        ensures
            r.spec_phases() == self.spec_phases().push(
                LightEmittingPhase {
                    led_intensity: r.spec_phases().last().led_intensity,
                    fading_transition_duration: r.spec_phases().last().fading_transition_duration,
                    led_duration: r.spec_phases().last().led_duration,
                },
            ),
            r.spec_phases().last().led_intensity.spec_value() == intensity_of(led_intensity),
            r.spec_phases().last().fading_transition_duration.spec_value() == duration_of(
                fading_transition_duration,
                self.spec_cycle(),
            ),
            r.spec_phases().last().led_duration.spec_value() == duration_of(
                led_duration,
                self.spec_cycle(),
            ),
            r.spec_phases_len() == self.spec_phases_len(),
            r.spec_cycle() == self.spec_cycle(),
            r.spec_start_intensity() == self.spec_start_intensity(),
            r.spec_repeat_count() == self.spec_repeat_count(),
    {
        let mut pattern = self;
        let unit = pattern.global_mini_cycle_duration.value() as u16;
        let phase = LightEmittingPhase {
            led_intensity: intensity(led_intensity),
            fading_transition_duration: u4::from((fading_transition_duration / unit) as u8),
            led_duration: u4::from((led_duration / unit) as u8),
        };
        pattern.push_phase(phase);
        pattern
    }

    /// A pattern that runs one phase once, then stays at the start
    /// intensity.
    pub fn once(
        global_mini_cycle_duration: u8,
        led_start_intensity: u8,
        led_intensity: u8,
        fading_transition_duration: u16,
        led_duration: u16,
    ) -> (r: LightEmittingPattern)
        requires
            global_mini_cycle_duration >= 7,
        ensures
            r.spec_phases_len() matches Some(n) && n.spec_value() == 0,
            r.spec_phases().len() == 1,
            r.spec_cycle() == cycle_code_of(global_mini_cycle_duration),
            r.spec_start_intensity() == intensity_of(led_start_intensity),
            r.spec_repeat_count() == 0,
            r.spec_phases()[0].led_intensity.spec_value() == intensity_of(led_intensity),
            r.spec_phases()[0].fading_transition_duration.spec_value() == duration_of(
                fading_transition_duration,
                cycle_code_of(global_mini_cycle_duration),
            ),
            r.spec_phases()[0].led_duration.spec_value() == duration_of(
                led_duration,
                cycle_code_of(global_mini_cycle_duration),
            ),
    {
        let mut pattern = LightEmittingPattern::new(
            global_mini_cycle_duration,
            led_start_intensity,
            u4::from(0),
        );
        pattern.phases_len = Some(u4::from(0));
        pattern.add_phase(led_intensity, fading_transition_duration, led_duration)
    }

    /// The same pattern, run for its first phase only, after which the LED
    /// stays at the start intensity.
    pub fn emit_first_phase(&self) -> (r: LightEmittingPattern)
        ensures
            r.spec_phases_len() matches Some(n) && n.spec_value() == 0,
            r.spec_repeat_count() == 0,
            r.spec_phases() == self.spec_phases(),
            r.spec_cycle() == self.spec_cycle(),
            r.spec_start_intensity() == self.spec_start_intensity(),
    {
        let mut phases: Vec<LightEmittingPhase> = Vec::new();
        let mut i: usize = 0;
        while i < self.phases.len()
            invariant
                i <= self.phases@.len(),
                phases@ == self.phases@.subrange(0, i as int),
            decreases self.phases@.len() - i,
        {
            phases.push(self.phases[i]);
            i += 1;
            assert(phases@ =~= self.phases@.subrange(0, i as int));
        }
        assert(phases@ =~= self.phases@);
        LightEmittingPattern {
            phases_len: Some(u4::from(0)),
            phases,
            global_mini_cycle_duration: self.global_mini_cycle_duration,
            led_start_intensity: self.led_start_intensity,
            repeat_count: u4::from(0),
        }
    }

    /// The number of phases the pattern announces: the one set, or the
    /// count of its phases kept to its low byte and saturated at 15.
    pub open spec fn spec_phase_count(self) -> u8 {
        match self.spec_phases_len() {
            Some(n) => n.spec_value(),
            None => u4_of((self.spec_phases().len() % 256) as u8),
        }
    }

    /// The 25 argument bytes of the HOME light sub-command: phase count and
    /// cycle, start intensity and repeat count, then the first 15 phases two
    /// by two, zeros after.
    pub open spec fn spec_to_bytes(self) -> Seq<u8> {
        let ph = self.spec_phases().take(
            if self.spec_phases().len() > 15 { 15 } else { self.spec_phases().len() as int },
        );
        let body = seq![
            nibbles(self.spec_phase_count(), self.spec_cycle()),
            nibbles(self.spec_start_intensity(), self.spec_repeat_count()),
        ] + pairs_bytes(ph, ((ph.len() + 1) / 2) as nat);
        body + Seq::new((25 - body.len()) as nat, |i: int| 0u8)
    }

    pub fn to_bytes(&self) -> (r: [u8; 25])
        ensures
            r@ == self.spec_to_bytes(),
    {
        let count = match self.phases_len {
            Some(p) => p,
            None => u4::from((self.phases.len() % 256) as u8),
        };
        let n: usize = if self.phases.len() > 15 { 15 } else { self.phases.len() };
        let ghost ph = self.phases@.take(n as int);
        let mut body: Vec<u8> = Vec::new();
        body.push(nibbles_to_u8(count, self.global_mini_cycle_duration));
        body.push(nibbles_to_u8(self.led_start_intensity, self.repeat_count));
        let ghost head = body@;
        let pairs: usize = (n + 1) / 2;
        let mut j: usize = 0;
        while j < pairs
            invariant
                n <= 15,
                n <= self.phases@.len(),
                pairs == (n + 1) / 2,
                ph == self.phases@.take(n as int),
                j <= pairs,
                body@ == head + pairs_bytes(ph, j as nat),
            decreases pairs - j,
        {
            let even = self.phases[2 * j];
            if 2 * j + 1 < n {
                let odd = self.phases[2 * j + 1];
                body.push(nibbles_to_u8(even.led_intensity, odd.led_intensity));
                body.push(nibbles_to_u8(even.fading_transition_duration, even.led_duration));
                body.push(nibbles_to_u8(odd.fading_transition_duration, odd.led_duration));
            } else {
                body.push(nibbles_to_u8(even.led_intensity, u4::from(0)));
                body.push(nibbles_to_u8(even.fading_transition_duration, even.led_duration));
            }
            proof {
                assert(head + pairs_bytes(ph, (j + 1) as nat) =~= head + pairs_bytes(ph, j as nat)
                    + pair_bytes(ph, j as int));
            }
            j += 1;
            assert(body@ =~= head + pairs_bytes(ph, j as nat));
        }
        proof {
            lemma_pairs_len(ph, pairs as nat);
        }
        let mut buf = [0u8; 25];
        let mut i: usize = 0;
        while i < body.len()
            invariant
                body@.len() <= 25,
                i <= body@.len(),
                buf@.len() == 25,
                forall|k: int| 0 <= k < i ==> buf@[k] == body@[k],
                forall|k: int| i <= k < 25 ==> buf@[k] == 0,
            decreases body@.len() - i,
        {
            buf[i] = body[i];
            i += 1;
        }
        assert(buf@ =~= self.spec_to_bytes());
        buf
    }
}

} // verus!
