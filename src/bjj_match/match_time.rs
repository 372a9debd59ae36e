use vstd::prelude::*;

use crate::bjj_match::MatchState;

verus! {

/// The current wall-clock time in whole milliseconds since the Unix epoch.
///
/// Relies on `std::time::SystemTime::now` and `SystemTime::duration_since`;
/// nothing is assumed of the value read, which is 0 for a clock set before
/// the epoch.
#[verifier::external_body]
pub(crate) fn now_millis() -> (r: u64) {
    match std::time::SystemTime::now().duration_since(std::time::UNIX_EPOCH) {
        Ok(d) => d.as_millis() as u64,
        Err(_) => 0,
    }
}

pub open spec fn digit_char(d: int) -> char {
    if d == 0 {
        '0'
    } else if d == 1 {
        '1'
    } else if d == 2 {
        '2'
    } else if d == 3 {
        '3'
    } else if d == 4 {
        '4'
    } else if d == 5 {
        '5'
    } else if d == 6 {
        '6'
    } else if d == 7 {
        '7'
    } else if d == 8 {
        '8'
    } else {
        '9'
    }
}

/// `n` in decimal, without leading zeros.
pub open spec fn decimal(n: nat) -> Seq<char>
    decreases n,
{
    if n < 10 {
        seq![digit_char(n as int)]
    } else {
        decimal(n / 10).push(digit_char((n % 10) as int))
    }
}

/// The last two decimal digits of `n`.
pub open spec fn two_digits(n: nat) -> Seq<char> {
    seq![digit_char(((n / 10) % 10) as int), digit_char((n % 10) as int)]
}

/// The last three decimal digits of `n`.
pub open spec fn three_digits(n: nat) -> Seq<char> {
    seq![digit_char(((n / 100) % 10) as int), digit_char(((n / 10) % 10) as int), digit_char((n % 10) as int)]
}

/// A time in milliseconds as `H:MM:SS.mmm`, the hours without padding, or as
/// `MM:SS.mmm` when under an hour.
pub open spec fn clock_text(millis: nat) -> Seq<char> {
    let hours = millis / 3_600_000;
    let minutes = (millis % 3_600_000) / 60_000;
    let seconds = (millis % 60_000) / 1_000;
    let rest = two_digits(minutes) + seq![':'] + two_digits(seconds) + seq!['.'] + three_digits(millis % 1_000);
    if hours > 0 {
        decimal(hours) + seq![':'] + rest
    } else {
        rest
    }
}

/// The one-character string of a decimal digit.
fn digit_str(d: usize) -> (r: &'static str)
    requires
        d < 10,
    ensures
        r@ == seq![digit_char(d as int)],
{
    proof {
        reveal_strlit("0");
        reveal_strlit("1");
        reveal_strlit("2");
        reveal_strlit("3");
        reveal_strlit("4");
        reveal_strlit("5");
        reveal_strlit("6");
        reveal_strlit("7");
        reveal_strlit("8");
        reveal_strlit("9");
    }
    match d {
        0 => "0",
        1 => "1",
        2 => "2",
        3 => "3",
        4 => "4",
        5 => "5",
        6 => "6",
        7 => "7",
        8 => "8",
        _ => "9",
    }
}

fn push_decimal(s: &mut String, n: usize)
    ensures
        final(s)@ == old(s)@ + decimal(n as nat),
    decreases n,
{
    if n >= 10 {
        push_decimal(s, n / 10);
    }
    s.append(digit_str(n % 10));
}

fn push_two_digits(s: &mut String, n: usize)
    ensures
        final(s)@ == old(s)@ + two_digits(n as nat),
{
    s.append(digit_str((n / 10) % 10));
    s.append(digit_str(n % 10));
}

fn push_three_digits(s: &mut String, n: usize)
    ensures
        final(s)@ == old(s)@ + three_digits(n as nat),
{
    s.append(digit_str((n / 100) % 10));
    s.append(digit_str((n / 10) % 10));
    s.append(digit_str(n % 10));
}

/// Formats a time in milliseconds as `clock_text` describes.
pub fn format_clock(millis: usize) -> (r: String)
    ensures
        r@ == clock_text(millis as nat),
{
    proof {
        reveal_strlit(":");
        reveal_strlit(".");
    }
    let hours = millis / 3_600_000;
    let minutes = (millis % 3_600_000) / 60_000;
    let seconds = (millis % 60_000) / 1_000;
    let mut s = String::new();
    if hours > 0 {
        push_decimal(&mut s, hours);
        s.append(":");
    }
    push_two_digits(&mut s, minutes);
    s.append(":");
    push_two_digits(&mut s, seconds);
    s.append(".");
    push_three_digits(&mut s, millis % 1_000);
    s
}

/// `a - b`, or zero where `b` is the larger.
pub open spec fn clamp_sub(a: int, b: int) -> int {
    if a > b {
        a - b
    } else {
        0
    }
}

/// A countdown stopwatch. Timestamps are milliseconds since the Unix epoch;
/// durations are milliseconds.
#[derive(Debug, Clone, Copy, PartialEq, Eq, Structural)]
pub struct MatchTime {
    /// Length of the countdown.
    pub duration_millis: usize,
    /// When the current run began; set only while running.
    pub last_started: Option<u64>,
    /// Time run in earlier, finished runs.
    pub time_elapsed_millis: usize,
    pub running: bool,
    /// Whether the clock was ever started.
    pub ever_started: bool,
}

impl MatchTime {
    pub open spec fn wf(self) -> bool {
        &&& self.running <==> self.last_started is Some
        &&& self.running ==> self.ever_started
    }

    /// Time run in the current run at `now`; zero for a clock that went back.
    pub open spec fn current_run(self, now: u64) -> int {
        match self.last_started {
            Some(since) if self.running => clamp_sub(now as int, since as int),
            _ => 0,
        }
    }

    pub open spec fn elapsed_at(self, now: u64) -> int {
        self.time_elapsed_millis + self.current_run(now)
    }

    pub open spec fn remaining_at(self, now: u64) -> int {
        clamp_sub(self.duration_millis as int, self.elapsed_at(now))
    }

    pub open spec fn after_start(self, now: u64) -> MatchTime {
        if self.running {
            self
        } else {
            MatchTime { running: true, last_started: Some(now), ever_started: true, ..self }
        }
    }

    /// Stopping banks the current run, saturating at the largest `usize`.
    pub open spec fn after_stop(self, now: u64) -> MatchTime {
        if !self.running {
            self
        } else {
            let total = self.elapsed_at(now);
            MatchTime {
                running: false,
                last_started: None,
                time_elapsed_millis: if total > usize::MAX { usize::MAX } else { total as usize },
                ..self
            }
        }
    }

    pub open spec fn after_toggle(self, now: u64) -> MatchTime {
        if self.running {
            self.after_stop(now)
        } else {
            self.after_start(now)
        }
    }

    pub open spec fn state_at(self, now: u64) -> MatchState {
        if !self.ever_started {
            MatchState::NotStarted
        } else if self.remaining_at(now) == 0 {
            MatchState::Finished
        } else {
            MatchState::InProgress
        }
    }

    /// A stopped clock, never started, that counts down `duration_millis`.
    pub fn with_duration(duration_millis: usize) -> (r: MatchTime)
        ensures
            r == (MatchTime {
                duration_millis,
                last_started: None,
                time_elapsed_millis: 0,
                running: false,
                ever_started: false,
            }),
            r.wf(),
    {
        MatchTime {
            duration_millis,
            last_started: None,
            time_elapsed_millis: 0,
            running: false,
            ever_started: false,
        }
    }

    /// The remaining time as `H:MM:SS.mmm`, or `MM:SS.mmm` under an hour.
    pub fn get_remaining_time_string(&self) -> (r: String)
        ensures
            exists|t: u64| r@ == clock_text(#[trigger] self.remaining_at(t) as nat),
            !self.running ==> r@ == clock_text(clamp_sub(self.duration_millis as int, self.time_elapsed_millis as int) as nat),
    {
        let now = now_millis();
        self.get_remaining_time_string_at(now)
    }

    /// The remaining time at `now`, formatted as by `format_clock`.
    pub fn get_remaining_time_string_at(&self, now: u64) -> (r: String)
        ensures
            r@ == clock_text(self.remaining_at(now) as nat),
    {
        format_clock(self.get_remaining_time_milliseconds_at(now))
    }

    /// The remaining time in milliseconds, never below zero.
    pub fn get_remaining_time_milliseconds(&self) -> (r: usize)
        ensures
            exists|t: u64| r == #[trigger] self.remaining_at(t),
            r <= self.duration_millis,
            !self.running ==> r == clamp_sub(self.duration_millis as int, self.time_elapsed_millis as int),
    {
        let now = now_millis();
        self.get_remaining_time_milliseconds_at(now)
    }

    /// The remaining time in milliseconds at `now`.
    pub fn get_remaining_time_milliseconds_at(&self, now: u64) -> (r: usize)
        ensures
            r == self.remaining_at(now),
            r <= self.duration_millis,
    {
        let run: u64 = match self.last_started {
            Some(since) if self.running => now.saturating_sub(since),
            _ => 0,
        };
        let elapsed: u64 = (self.time_elapsed_millis as u64).saturating_add(run);
        let remaining: u64 = (self.duration_millis as u64).saturating_sub(elapsed);
        remaining as usize
    }

    /// Stops a running clock, starts a stopped one.
    pub fn toggle_start_stop(&mut self)
        ensures
            exists|t: u64| *final(self) == #[trigger] old(self).after_toggle(t),
    {
        let now = now_millis();
        self.toggle_start_stop_at(now);
    }

    pub fn toggle_start_stop_at(&mut self, now: u64)
        ensures
            *final(self) == old(self).after_toggle(now),
    {
        if self.running {
            self.stop_at(now);
        } else {
            self.start_at(now);
        }
    }

    /// Starts the clock now; a running clock is left as it is.
    pub fn start(&mut self)
        ensures
            exists|t: u64| *final(self) == #[trigger] old(self).after_start(t),
    {
        let now = now_millis();
        self.start_at(now);
    }

    pub fn start_at(&mut self, now: u64)
        ensures
            *final(self) == old(self).after_start(now),
    {
        if self.running {
            return;
        }
        self.running = true;
        self.last_started = Some(now);
        self.ever_started = true;
    }

    /// Stops the clock now, banking the run; a stopped clock is left as it is.
    pub fn stop(&mut self)
        ensures
            exists|t: u64| *final(self) == #[trigger] old(self).after_stop(t),
    {
        let now = now_millis();
        self.stop_at(now);
    }

    pub fn stop_at(&mut self, now: u64)
        ensures
            *final(self) == old(self).after_stop(now),
    {
        if !self.running {
            return;
        }
        let run: u64 = match self.last_started {
            Some(since) => now.saturating_sub(since),
            None => 0,
        };
        let banked: usize = if run > usize::MAX as u64 {
            usize::MAX
        } else {
            run as usize
        };
        self.running = false;
        self.last_started = None;
        self.time_elapsed_millis = self.time_elapsed_millis.saturating_add(banked);
    }
}

impl Default for MatchTime {
    fn default() -> (r: MatchTime)
        ensures
            r == (MatchTime {
                duration_millis: 0,
                last_started: None,
                time_elapsed_millis: 0,
                running: false,
                ever_started: false,
            }),
    {
        MatchTime::with_duration(0)
    }
}

/// Starting a running clock, or stopping a stopped one, changes nothing.
pub proof fn lemma_start_stop_idempotent(c: MatchTime, now: u64)
    ensures
        c.running ==> c.after_start(now) == c,
        !c.running ==> c.after_stop(now) == c,
{
}

/// The remaining time never goes below zero, never grows while the clock runs
/// (for timestamps that do not go back), and holds still while it is stopped.
pub proof fn lemma_remaining_monotonic(c: MatchTime, t1: u64, t2: u64)
    requires
        t1 <= t2,
    ensures
        c.remaining_at(t1) >= 0,
        c.remaining_at(t2) >= 0,
        c.running ==> c.remaining_at(t2) <= c.remaining_at(t1),
        !c.running ==> c.remaining_at(t2) == c.remaining_at(t1),
{
}

/// Stopping at `t1` and starting again at `t2` keeps the banked time, and the
/// pause between `t1` and `t2` adds nothing to the elapsed time.
pub proof fn lemma_pause_not_counted(c: MatchTime, t1: u64, t2: u64, t3: u64)
    requires
        c.running,
        t1 <= t2 <= t3,
    ensures
        ({
            let stopped = c.after_stop(t1);
            let resumed = stopped.after_start(t2);
            &&& resumed.time_elapsed_millis == stopped.time_elapsed_millis
            &&& stopped.time_elapsed_millis == if c.elapsed_at(t1) > usize::MAX {
                usize::MAX as int
            } else {
                c.elapsed_at(t1)
            }
            &&& resumed.elapsed_at(t3) == stopped.time_elapsed_millis + (t3 - t2)
        }),
{
}

/// A started, well-formed clock reads `Finished` exactly when no time
/// remains, and once `Finished` it stays so at every later time, also after a
/// start, a stop or a toggle at a later time.
pub proof fn lemma_finished_is_terminal(c: MatchTime, t1: u64, t2: u64, t3: u64)
    requires
        c.wf(),
        c.ever_started,
        t1 <= t2 <= t3,
    ensures
        c.state_at(t1) == MatchState::Finished <==> c.remaining_at(t1) == 0,
        c.state_at(t1) != MatchState::NotStarted,
        c.state_at(t1) == MatchState::Finished ==> {
            &&& c.state_at(t2) == MatchState::Finished
            &&& c.after_start(t2).state_at(t3) == MatchState::Finished
            &&& c.after_stop(t2).state_at(t3) == MatchState::Finished
            &&& c.after_toggle(t2).state_at(t3) == MatchState::Finished
        },
{
}

} // verus!
