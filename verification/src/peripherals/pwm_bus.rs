//! One PWM timer shared by the backlight and the buzzer.
//!
//! The timer has a single frequency. While no tone sounds it runs at the
//! backlight's base frequency; for the length of a tone it is retuned to the
//! tone. `PwmWorker` holds that decision: its caller polls it at a fixed
//! interval, hands it the clock, and writes to the hardware what it answers.

use vstd::prelude::*;
use crate::buzzer::BuzzerCommand;

verus! {

/// Frequency of the timer while no tone sounds.
pub const BACKLIGHT_FREQUENCY_HZ: u32 = 25_000;

/// Lowest tone the buzzer is asked to sound.
pub const MIN_TONE_HZ: u32 = 200;

/// Highest tone the buzzer is asked to sound.
pub const MAX_TONE_HZ: u32 = 20_000;

/// Time between two polls of the worker, in milliseconds.
pub const POLL_INTERVAL_MS: u32 = 5;

/// Latest clock reading, in microseconds, from which the end of the longest
/// tone can still be computed.
pub const CLOCK_LIMIT_US: i64 = 9_223_367_741_887_480_807;

/// A percentage, cut off at 100.
pub open spec fn clamp_percent(percent: u8) -> u8 {
    if percent > 100 {
        100
    } else {
        percent
    }
}

/// The duty that shows `percent` of a channel whose full duty is `max_duty`.
pub open spec fn duty_for(max_duty: u32, percent: u8) -> int {
    max_duty * clamp_percent(percent) / 100
}

/// Whether the buzzer is asked to sound a tone of this frequency.
pub open spec fn tone_in_range(frequency_hz: u32) -> bool {
    MIN_TONE_HZ <= frequency_hz <= MAX_TONE_HZ
}

/// The request that waits in the slot after `beep(frequency_hz, duration_ms)`
/// on a slot that held `pending`.
pub open spec fn pending_after_beep(
    pending: Option<BuzzerCommand>,
    frequency_hz: u32,
    duration_ms: u32,
) -> Option<BuzzerCommand> {
    if !tone_in_range(frequency_hz) {
        pending
    } else if duration_ms == 0 {
        None
    } else {
        Some(BuzzerCommand { frequency_hz, duration_ms })
    }
}

/// A duty never exceeds the full duty, and is the full duty at 100 % and zero
/// at 0 %.
pub proof fn lemma_duty_bounded(max_duty: u32, percent: u8)
    ensures
        0 <= duty_for(max_duty, percent) <= max_duty,
        percent >= 100 ==> duty_for(max_duty, percent) == max_duty,
        percent == 0 ==> duty_for(max_duty, percent) == 0,
{
    let p = clamp_percent(percent) as int;
    let m = max_duty as int;
    assert(0 <= m * p <= m * 100 && (p == 0 ==> m * p == 0)) by (nonlinear_arith)
        requires
            0 <= p <= 100,
            0 <= m,
    ;
}

/// Computes the duty for a brightness in percent; more than 100 counts as 100.
pub fn backlight_duty(max_duty: u32, percent: u8) -> (duty: u32)
    ensures
        duty == duty_for(max_duty, percent),
{
    let capped: u8 = if percent > 100 {
        100
    } else {
        percent
    };
    proof {
        lemma_duty_bounded(max_duty, percent);
        assert(0 <= max_duty * capped <= u32::MAX * 100) by (nonlinear_arith)
            requires
                0 <= capped <= 100,
                0 <= max_duty <= u32::MAX,
        ;
    }
    let scaled: u64 = (max_duty as u64) * (capped as u64) / 100;
    scaled as u32
}

/// The brightness that the rest of the firmware asks for.
#[derive(Clone, Copy, Debug)]
pub struct BacklightControl {
    brightness: u8,
}

impl BacklightControl {
    #[verifier::type_invariant]
    spec fn in_range(&self) -> bool {
        self.brightness <= 100
    }

    /// The stored brightness in percent.
    pub closed spec fn spec_brightness(&self) -> u8 {
        self.brightness
    }

    /// Full brightness.
    pub fn new() -> (control: Self)
        ensures
            control.spec_brightness() == 100,
    {
        BacklightControl { brightness: 100 }
    }

    /// Stores the brightness in percent; more than 100 is stored as 100.
    pub fn set_brightness(&mut self, percent: u8)
        ensures
            final(self).spec_brightness() == clamp_percent(percent),
    {
        self.brightness = if percent > 100 {
            100
        } else {
            percent
        };
    }

    /// The stored brightness; never more than 100.
    #[verifier::when_used_as_spec(spec_brightness)]
    pub fn get_brightness(&self) -> (percent: u8)
        ensures
            percent == self.spec_brightness(),
            percent <= 100,
    {
        proof {
            use_type_invariant(self);
        }
        self.brightness
    }
}

/// The single slot through which tone requests reach the worker. A request
/// waits in it until the worker takes it or a later request replaces it.
#[derive(Clone, Copy, Debug)]
pub struct BuzzerControl {
    frequency: u32,
    duration_ms: u32,
}

impl BuzzerControl {
    /// The request that waits in the slot, if any.
    pub closed spec fn pending(&self) -> Option<BuzzerCommand> {
        if self.duration_ms > 0 {
            Some(BuzzerCommand { frequency_hz: self.frequency, duration_ms: self.duration_ms })
        } else {
            None
        }
    }

    /// An empty slot.
    pub fn new() -> (control: Self)
        ensures
            control.pending() is None,
    {
        BuzzerControl { frequency: 0, duration_ms: 0 }
    }

    /// Asks for a tone. A frequency outside `MIN_TONE_HZ..=MAX_TONE_HZ` is
    /// ignored. Any other request replaces what waits in the slot; one of
    /// length zero leaves the slot empty.
    pub fn beep(&mut self, frequency_hz: u32, duration_ms: u32)
        ensures
            final(self).pending() == pending_after_beep(
                old(self).pending(),
                frequency_hz,
                duration_ms,
            ),
    {
        if frequency_hz >= MIN_TONE_HZ && frequency_hz <= MAX_TONE_HZ {
            self.frequency = frequency_hz;
            self.duration_ms = duration_ms;
        }
    }

    /// A request that waits has a length.
    pub proof fn lemma_pending_has_length(&self)
        ensures
            self.pending() matches Some(c) ==> c.duration_ms > 0,
    {
    }

    /// Takes the waiting request out of the slot.
    pub fn take_command(&mut self) -> (command: Option<BuzzerCommand>)
        ensures
            command == old(self).pending(),
            command matches Some(c) ==> c.duration_ms > 0,
            final(self).pending() is None,
    {
        let duration = self.duration_ms;
        self.duration_ms = 0;
        if duration > 0 {
            Some(BuzzerCommand { frequency_hz: self.frequency, duration_ms: duration })
        } else {
            None
        }
    }
}


/// The tone that sounds, and the clock reading at which it ends.
#[derive(Clone, Copy, Debug, PartialEq, Eq, Structural)]
pub struct ActiveTone {
    pub frequency_hz: u32,
    pub end_time_us: i64,
}

/// What starting a tone asks of the hardware: retune the timer to
/// `frequency_hz` and set the buzzer channel to `duty`.
#[derive(Clone, Copy, Debug, PartialEq, Eq, Structural)]
pub struct ToneStart {
    pub frequency_hz: u32,
    pub duty: u32,
}

/// What one poll asks of the hardware, in the order of the fields.
#[derive(Clone, Copy, Debug, PartialEq, Eq, Structural)]
pub struct PwmActions {
    /// Write this duty to the backlight channel.
    pub backlight_duty: Option<u32>,
    /// Start this tone.
    pub tone_start: Option<ToneStart>,
    /// Set the buzzer duty to zero and the timer back to
    /// `BACKLIGHT_FREQUENCY_HZ`.
    pub tone_stop: bool,
}

/// The end of a tone of `duration_ms` that starts at `now_us`.
pub open spec fn tone_end(now_us: i64, duration_ms: u32) -> int {
    now_us + duration_ms * 1000
}

/// The tone that sounds once the worker has looked at `command`: a request in
/// range replaces whatever sounded, anything else changes nothing.
pub open spec fn tone_after_command(
    tone: Option<ActiveTone>,
    command: Option<BuzzerCommand>,
    now_us: i64,
) -> Option<ActiveTone> {
    match command {
        Some(c) => if tone_in_range(c.frequency_hz) {
            Some(
                ActiveTone {
                    frequency_hz: c.frequency_hz,
                    end_time_us: tone_end(now_us, c.duration_ms) as i64,
                },
            )
        } else {
            tone
        },
        None => tone,
    }
}

/// Whether a tone sounds that has reached its end.
pub open spec fn tone_expired(tone: Option<ActiveTone>, now_us: i64) -> bool {
    tone matches Some(t) && now_us >= t.end_time_us
}

/// The tone that sounds after a whole poll.
pub open spec fn tone_after_poll(
    tone: Option<ActiveTone>,
    command: Option<BuzzerCommand>,
    now_us: i64,
) -> Option<ActiveTone> {
    let started = tone_after_command(tone, command, now_us);
    if tone_expired(started, now_us) {
        None
    } else {
        started
    }
}

/// What a poll asks of the hardware to start a tone: the tone of a request in
/// range, at half of the buzzer's full duty.
pub open spec fn tone_start_for(command: Option<BuzzerCommand>, buzzer_max_duty: u32) -> Option<
    ToneStart,
> {
    match command {
        Some(c) => if tone_in_range(c.frequency_hz) {
            Some(ToneStart { frequency_hz: c.frequency_hz, duty: buzzer_max_duty / 2 })
        } else {
            None
        },
        None => None,
    }
}

/// Whether a poll asks the hardware to end the tone.
pub open spec fn tone_stop_for(
    tone: Option<ActiveTone>,
    command: Option<BuzzerCommand>,
    now_us: i64,
) -> bool {
    tone_expired(tone_after_command(tone, command, now_us), now_us)
}

/// What timer and buzzer channel show: the frequency of the timer and the
/// duty of the buzzer.
pub struct TimerOutput {
    pub frequency_hz: u32,
    pub buzzer_duty: u32,
}

/// What timer and buzzer channel have to show while `tone` sounds, or while
/// nothing sounds.
pub open spec fn output_for(tone: Option<ActiveTone>, buzzer_max_duty: u32) -> TimerOutput {
    match tone {
        Some(t) => TimerOutput { frequency_hz: t.frequency_hz, buzzer_duty: buzzer_max_duty / 2 },
        None => TimerOutput { frequency_hz: BACKLIGHT_FREQUENCY_HZ, buzzer_duty: 0 },
    }
}

/// What timer and buzzer channel show after the hardware has done what a
/// poll asked for: first the start of a tone, then the end.
pub open spec fn output_after(
    output: TimerOutput,
    tone_start: Option<ToneStart>,
    tone_stop: bool,
) -> TimerOutput {
    if tone_stop {
        TimerOutput { frequency_hz: BACKLIGHT_FREQUENCY_HZ, buzzer_duty: 0 }
    } else {
        match tone_start {
            Some(t) => TimerOutput { frequency_hz: t.frequency_hz, buzzer_duty: t.duty },
            None => output,
        }
    }
}

/// The state of the worker that drives the timer and its two channels.
#[derive(Clone, Copy, Debug)]
pub struct PwmWorker {
    backlight_max_duty: u32,
    buzzer_max_duty: u32,
    current_brightness: u8,
    backlight_duty: u32,
    tone: Option<ActiveTone>,
}

impl PwmWorker {
    #[verifier::type_invariant]
    spec fn duty_matches_brightness(&self) -> bool {
        &&& self.current_brightness <= 100
        &&& self.backlight_duty == duty_for(self.backlight_max_duty, self.current_brightness)
    }

    /// Full duty of the backlight channel.
    pub closed spec fn backlight_max_duty(&self) -> u32 {
        self.backlight_max_duty
    }

    /// Full duty of the buzzer channel.
    pub closed spec fn buzzer_max_duty(&self) -> u32 {
        self.buzzer_max_duty
    }

    /// The brightness that was last applied.
    pub closed spec fn spec_brightness(&self) -> u8 {
        self.current_brightness
    }

    /// The duty that was last asked of the backlight channel.
    pub closed spec fn spec_backlight_duty(&self) -> u32 {
        self.backlight_duty
    }

    /// The tone that sounds, if any. There is never more than one.
    pub closed spec fn spec_tone(&self) -> Option<ActiveTone> {
        self.tone
    }

    /// The worker as it starts: backlight at full duty, buzzer silent.
    pub fn new(backlight_max_duty: u32, buzzer_max_duty: u32) -> (worker: Self)
        ensures
            worker.backlight_max_duty() == backlight_max_duty,
            worker.buzzer_max_duty() == buzzer_max_duty,
            worker.spec_brightness() == 100,
            worker.spec_backlight_duty() == backlight_max_duty,
            worker.spec_tone() is None,
    {
        proof {
            lemma_duty_bounded(backlight_max_duty, 100);
        }
        PwmWorker {
            backlight_max_duty,
            buzzer_max_duty,
            current_brightness: 100,
            backlight_duty: backlight_max_duty,
            tone: None,
        }
    }

    #[verifier::when_used_as_spec(spec_brightness)]
    pub fn brightness(&self) -> (percent: u8)
        ensures
            percent == self.spec_brightness(),
            percent <= 100,
    {
        proof {
            use_type_invariant(self);
        }
        self.current_brightness
    }

    /// The duty of the backlight channel; always the duty for the applied
    /// brightness.
    #[verifier::when_used_as_spec(spec_backlight_duty)]
    pub fn backlight_duty(&self) -> (duty: u32)
        ensures
            duty == self.spec_backlight_duty(),
            duty == duty_for(self.backlight_max_duty(), self.spec_brightness()),
    {
        proof {
            use_type_invariant(self);
        }
        self.backlight_duty
    }

    #[verifier::when_used_as_spec(spec_tone)]
    pub fn tone(&self) -> (tone: Option<ActiveTone>)
        ensures
            tone == self.spec_tone(),
    {
        self.tone
    }

    /// One poll. Applies a changed brightness, starts the requested tone in
    /// place of whatever sounds, and ends a tone whose time is up.
    pub fn poll(
        &mut self,
        backlight: &BacklightControl,
        buzzer: &mut BuzzerControl,
        now_us: i64,
    ) -> (actions: PwmActions)
        requires
            now_us <= CLOCK_LIMIT_US,
        ensures
            final(self).backlight_max_duty() == old(self).backlight_max_duty(),
            final(self).buzzer_max_duty() == old(self).buzzer_max_duty(),
            final(self).spec_brightness() == backlight.spec_brightness(),
            final(self).spec_backlight_duty() == duty_for(
                old(self).backlight_max_duty(),
                backlight.spec_brightness(),
            ),
            actions.backlight_duty == if backlight.spec_brightness() != old(self).spec_brightness() {
                Some(final(self).spec_backlight_duty())
            } else {
                None
            },
            final(buzzer).pending() is None,
            final(self).spec_tone() == tone_after_poll(
                old(self).spec_tone(),
                old(buzzer).pending(),
                now_us,
            ),
            actions.tone_start == tone_start_for(
                old(buzzer).pending(),
                old(self).buzzer_max_duty(),
            ),
            actions.tone_stop == tone_stop_for(
                old(self).spec_tone(),
                old(buzzer).pending(),
                now_us,
            ),
    {
        proof {
            use_type_invariant(&*self);
        }
        let mut actions = PwmActions { backlight_duty: None, tone_start: None, tone_stop: false };

        let new_brightness = backlight.get_brightness();
        if new_brightness != self.current_brightness {
            let duty = backlight_duty(self.backlight_max_duty, new_brightness);
            actions.backlight_duty = Some(duty);
            *self = PwmWorker { current_brightness: new_brightness, backlight_duty: duty, ..*self };
        }

        let command = buzzer.take_command();
        if let Some(c) = command {
            if c.frequency_hz >= MIN_TONE_HZ && c.frequency_hz <= MAX_TONE_HZ {
                actions.tone_start = Some(
                    ToneStart { frequency_hz: c.frequency_hz, duty: self.buzzer_max_duty / 2 },
                );
                let end_time_us: i64 = now_us + (c.duration_ms as i64) * 1000;
                *self = PwmWorker {
                    tone: Some(ActiveTone { frequency_hz: c.frequency_hz, end_time_us }),
                    ..*self
                };
            }
        }

        if let Some(t) = self.tone {
            if now_us >= t.end_time_us {
                actions.tone_stop = true;
                *self = PwmWorker { tone: None, ..*self };
            }
        }
        actions
    }
}

/// The request that waits in the slot after every call of `calls`, in order,
/// each given as frequency and duration.
pub open spec fn pending_after_beeps(
    pending: Option<BuzzerCommand>,
    calls: Seq<(u32, u32)>,
) -> Option<BuzzerCommand>
    decreases calls.len(),
{
    if calls.len() == 0 {
        pending
    } else {
        pending_after_beep(
            pending_after_beeps(pending, calls.drop_last()),
            calls.last().0,
            calls.last().1,
        )
    }
}

/// Last write wins: after any sequence of requests that ends in one the buzzer
/// accepts, that last request alone waits in the slot, whatever came before.
pub proof fn lemma_last_beep_wins(pending: Option<BuzzerCommand>, calls: Seq<(u32, u32)>)
    requires
        calls.len() > 0,
        tone_in_range(calls.last().0),
        calls.last().1 > 0,
    ensures
        pending_after_beeps(pending, calls) == Some(
            BuzzerCommand { frequency_hz: calls.last().0, duration_ms: calls.last().1 },
        ),
{
}

/// A later request preempts the tone that sounds: whatever sounds and whatever
/// waits, after `beep(frequency_hz, duration_ms)` with a frequency in range
/// and then one poll, the one tone that sounds is the requested one, with its
/// own frequency and its own end.
pub proof fn lemma_later_beep_preempts(
    tone: Option<ActiveTone>,
    pending: Option<BuzzerCommand>,
    frequency_hz: u32,
    duration_ms: u32,
    now_us: i64,
)
    requires
        tone_in_range(frequency_hz),
        duration_ms > 0,
        now_us <= CLOCK_LIMIT_US,
    ensures
        tone_after_poll(tone, pending_after_beep(pending, frequency_hz, duration_ms), now_us)
            == Some(
            ActiveTone { frequency_hz, end_time_us: (now_us + duration_ms * 1000) as i64 },
        ),
        now_us + duration_ms * 1000 <= i64::MAX,
{
}

/// The hardware follows the worker: if timer and buzzer channel show what
/// the worker's state asks for before a poll, and the hardware does what the
/// poll asks for, they show what the worker's state asks for after it. So at
/// any time the timer sounds at most the one tone that the worker holds, and
/// runs at the backlight's frequency with a silent buzzer while it holds none.
pub proof fn lemma_hardware_follows_worker(
    tone: Option<ActiveTone>,
    command: Option<BuzzerCommand>,
    now_us: i64,
    buzzer_max_duty: u32,
)
    requires
        now_us <= CLOCK_LIMIT_US,
    ensures
        output_after(
            output_for(tone, buzzer_max_duty),
            tone_start_for(command, buzzer_max_duty),
            tone_stop_for(tone, command, now_us),
        ) == output_for(tone_after_poll(tone, command, now_us), buzzer_max_duty),
{
}

/// A tone ends by its own clock and by nothing else: with no request waiting,
/// a poll keeps the tone while the clock is before its end and drops it from
/// then on.
pub proof fn lemma_tone_ends_on_time(tone: ActiveTone, now_us: i64)
    ensures
        tone_after_poll(Some(tone), None, now_us) == if now_us >= tone.end_time_us {
            None
        } else {
            Some(tone)
        },
{
}

/// The owner of the timer: the two controls and the worker behind them.
pub struct PwmBus {
    backlight_control: BacklightControl,
    buzzer_control: BuzzerControl,
    worker: PwmWorker,
}

impl PwmBus {
    /// The brightness that was asked for.
    pub closed spec fn spec_backlight(&self) -> BacklightControl {
        self.backlight_control
    }

    /// The tone slot.
    pub closed spec fn spec_buzzer(&self) -> BuzzerControl {
        self.buzzer_control
    }

    /// The worker.
    pub closed spec fn spec_worker(&self) -> PwmWorker {
        self.worker
    }

    /// A bus at full brightness with an empty tone slot.
    pub fn new(backlight_max_duty: u32, buzzer_max_duty: u32) -> (bus: Self)
        ensures
            bus.spec_backlight().spec_brightness() == 100,
            bus.spec_buzzer().pending() is None,
            bus.spec_worker().backlight_max_duty() == backlight_max_duty,
            bus.spec_worker().buzzer_max_duty() == buzzer_max_duty,
            bus.spec_worker().spec_brightness() == 100,
            bus.spec_worker().spec_backlight_duty() == backlight_max_duty,
            bus.spec_worker().spec_tone() is None,
    {
        PwmBus {
            backlight_control: BacklightControl::new(),
            buzzer_control: BuzzerControl::new(),
            worker: PwmWorker::new(backlight_max_duty, buzzer_max_duty),
        }
    }

    /// The backlight control as it stands.
    #[verifier::when_used_as_spec(spec_backlight)]
    pub fn backlight(&self) -> (control: BacklightControl)
        ensures
            control == self.spec_backlight(),
    {
        self.backlight_control
    }

    /// The tone slot as it stands.
    #[verifier::when_used_as_spec(spec_buzzer)]
    pub fn buzzer(&self) -> (control: BuzzerControl)
        ensures
            control == self.spec_buzzer(),
    {
        self.buzzer_control
    }

    /// The worker as it stands.
    #[verifier::when_used_as_spec(spec_worker)]
    pub fn worker(&self) -> (worker: PwmWorker)
        ensures
            worker == self.spec_worker(),
    {
        self.worker
    }

    /// Stores the brightness that the worker applies at its next poll.
    pub fn set_backlight(&mut self, percent: u8)
        ensures
            final(self).spec_backlight().spec_brightness() == clamp_percent(percent),
            final(self).spec_buzzer() == old(self).spec_buzzer(),
            final(self).spec_worker() == old(self).spec_worker(),
    {
        self.backlight_control.set_brightness(percent);
    }

    /// Asks for a tone; see `BuzzerControl::beep`.
    pub fn beep(&mut self, frequency_hz: u32, duration_ms: u32)
        ensures
            final(self).spec_buzzer().pending() == pending_after_beep(
                old(self).spec_buzzer().pending(),
                frequency_hz,
                duration_ms,
            ),
            final(self).spec_backlight() == old(self).spec_backlight(),
            final(self).spec_worker() == old(self).spec_worker(),
    {
        self.buzzer_control.beep(frequency_hz, duration_ms);
    }

    /// One poll of the worker against the two controls; see `PwmWorker::poll`.
    pub fn poll(&mut self, now_us: i64) -> (actions: PwmActions)
        requires
            now_us <= CLOCK_LIMIT_US,
        ensures
            final(self).spec_backlight() == old(self).spec_backlight(),
            final(self).spec_buzzer().pending() is None,
            final(self).spec_worker().backlight_max_duty()
                == old(self).spec_worker().backlight_max_duty(),
            final(self).spec_worker().buzzer_max_duty()
                == old(self).spec_worker().buzzer_max_duty(),
            final(self).spec_worker().spec_brightness()
                == old(self).spec_backlight().spec_brightness(),
            final(self).spec_worker().spec_backlight_duty() == duty_for(
                old(self).spec_worker().backlight_max_duty(),
                old(self).spec_backlight().spec_brightness(),
            ),
            final(self).spec_worker().spec_tone() == tone_after_poll(
                old(self).spec_worker().spec_tone(),
                old(self).spec_buzzer().pending(),
                now_us,
            ),
            actions.backlight_duty == if old(self).spec_backlight().spec_brightness()
                != old(self).spec_worker().spec_brightness() {
                Some(final(self).spec_worker().spec_backlight_duty())
            } else {
                None
            },
            actions.tone_start == tone_start_for(
                old(self).spec_buzzer().pending(),
                old(self).spec_worker().buzzer_max_duty(),
            ),
            actions.tone_stop == tone_stop_for(
                old(self).spec_worker().spec_tone(),
                old(self).spec_buzzer().pending(),
                now_us,
            ),
    {
        self.worker.poll(&self.backlight_control, &mut self.buzzer_control, now_us)
    }
}

/// Brightness reaches the hardware as asked: the brightness stored for
/// `percent` is `min(percent, 100)`, and the duty that a poll then applies is
/// `max_duty * min(percent, 100) / 100`, rounded down and never above
/// `max_duty`.
pub proof fn lemma_applied_duty(max_duty: u32, percent: u8)
    ensures
        clamp_percent(percent) == if percent <= 100 {
            percent
        } else {
            100
        },
        duty_for(max_duty, clamp_percent(percent)) == (max_duty as int) * (clamp_percent(
            percent,
        ) as int) / 100,
        0 <= duty_for(max_duty, clamp_percent(percent)) <= max_duty,
{
    lemma_duty_bounded(max_duty, clamp_percent(percent));
}

} // verus!
