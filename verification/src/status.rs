//! The status line: battery, memory, processor load and the time of day, one
//! line per battery.

use vstd::prelude::*;
use vstd::string::*;
use crate::clock::stamp;
use crate::clock::stamp_spec;
use crate::clock::LAST_FOUR_DIGIT_SECOND;
use crate::decimal::decimal;
use crate::decimal::divide_rounded;
use crate::decimal::hundredths;
use crate::decimal::lemma_decimal_len;
use crate::decimal::push_decimal;
use crate::decimal::push_hundredths;
use crate::decimal::push_tenths;
use crate::decimal::right_aligned;
use crate::decimal::rounded_quotient;
use crate::decimal::tenths;
use crate::schedule::TimerPlan;
use crate::schedule::STATUS_PERIOD;

verus! {

/// What a battery is doing.
#[derive(Clone, Copy, Debug, PartialEq, Eq, Structural)]
pub enum BatteryState {
    Unknown,
    Charging,
    Discharging,
    Empty,
    Full,
}

/// One battery as sampled at a tick.
#[derive(Clone, Copy, Debug, PartialEq, Eq, Structural)]
pub struct Battery {
    pub state: BatteryState,
    /// Seconds until the battery is empty, where that is known.
    pub time_to_empty: Option<u64>,
    /// Seconds until the battery is full, where that is known.
    pub time_to_full: Option<u64>,
    /// The charge in tenths of a percent.
    pub charge: u32,
}

/// Everything sampled at one tick.
pub struct Sample {
    /// The load of each core in hundredths of a percent.
    pub cores: Vec<u32>,
    /// Memory in use, in the unit of the metrics source.
    pub used_memory: u64,
    /// Memory installed, in the same unit.
    pub total_memory: u64,
    /// One entry per battery; `None` for one that could not be read.
    pub batteries: Vec<Option<Battery>>,
}

/// The divisor between the unit memory is sampled in and the unit it is
/// shown in: bytes are shown as mebibytes, kibibytes as gibibytes.
pub const MEMORY_SCALE: u64 = 1_048_576;

/// The sum of the loads.
pub open spec fn total_load(cores: Seq<u32>) -> nat
    decreases cores.len(),
{
    if cores.len() == 0 {
        0
    } else {
        total_load(cores.drop_last()) + cores.last() as nat
    }
}

/// The mean load of the cores as a fraction of one, in hundredths, rounded
/// to the nearest; zero where there is no core.
pub open spec fn load_hundredths(cores: Seq<u32>) -> nat {
    if cores.len() == 0 {
        0
    } else {
        rounded_quotient(total_load(cores), 100 * cores.len())
    }
}

/// An amount of memory in tenths of the unit it is shown in, rounded to the
/// nearest.
pub open spec fn memory_tenths(amount: u64) -> nat {
    rounded_quotient(amount as nat * 10, MEMORY_SCALE as nat)
}

/// The name a state is shown under.
pub open spec fn state_name(state: BatteryState) -> Seq<char> {
    match state {
        BatteryState::Unknown => "Unknown"@,
        BatteryState::Charging => "Charging"@,
        BatteryState::Discharging => "Discharging"@,
        BatteryState::Empty => "Empty"@,
        BatteryState::Full => "Full"@,
    }
}

/// A duration in whole minutes, with the unit; an unknown duration counts
/// as none.
pub open spec fn minutes(duration: Option<u64>) -> Seq<char> {
    decimal(
        match duration {
            Some(seconds) => seconds as nat / 60,
            None => 0,
        },
    ) + " min"@
}

/// The markup between two fields.
pub open spec fn separator() -> Seq<char> {
    "<span color=\"#333333\">|</span>"@
}

/// The status line for one battery: battery, memory, load, time.
pub open spec fn status_line(
    battery: Battery,
    used_memory: u64,
    total_memory: u64,
    cores: Seq<u32>,
    stamp: Seq<char>,
) -> Seq<char> {
    "BAT: M-"@ + state_name(battery.state) + " DT-"@ + minutes(battery.time_to_empty) + " CT-"@
        + minutes(battery.time_to_full) + " Capacity-"@ + tenths(battery.charge as nat) + "% "@
        + separator() + " MEM: "@ + tenths(memory_tenths(used_memory)) + "/"@ + tenths(
        memory_tenths(total_memory),
    ) + " "@ + separator() + " CPU: "@ + right_aligned(hundredths(load_hundredths(cores)), 5)
        + " "@ + separator() + " "@ + stamp
}

/// One line for each battery that could be read, in the order of the
/// batteries; none where there is no such battery.
pub open spec fn status_lines(
    batteries: Seq<Option<Battery>>,
    used_memory: u64,
    total_memory: u64,
    cores: Seq<u32>,
    stamp: Seq<char>,
) -> Seq<Seq<char>>
    decreases batteries.len(),
{
    if batteries.len() == 0 {
        Seq::empty()
    } else {
        let before = status_lines(batteries.drop_last(), used_memory, total_memory, cores, stamp);
        match batteries.last() {
            Some(battery) => before.push(
                status_line(battery, used_memory, total_memory, cores, stamp),
            ),
            None => before,
        }
    }
}

/// The texts of a list of strings.
pub open spec fn texts(lines: Seq<String>) -> Seq<Seq<char>> {
    lines.map_values(|line: String| line@)
}

impl Sample {
    /// The lines this sample gives under a time stamp.
    pub open spec fn lines(&self, stamp: Seq<char>) -> Seq<Seq<char>> {
        status_lines(self.batteries@, self.used_memory, self.total_memory, self.cores@, stamp)
    }
}

/// There is at most one line per battery, and exactly one per battery where
/// every battery could be read.
pub proof fn lemma_line_count(
    batteries: Seq<Option<Battery>>,
    used_memory: u64,
    total_memory: u64,
    cores: Seq<u32>,
    stamp: Seq<char>,
)
    ensures
        status_lines(batteries, used_memory, total_memory, cores, stamp).len() <= batteries.len(),
        (forall|i: int| 0 <= i < batteries.len() ==> batteries[i].is_some()) ==> status_lines(
            batteries,
            used_memory,
            total_memory,
            cores,
            stamp,
        ).len() == batteries.len(),
    decreases batteries.len(),
{
    if batteries.len() > 0 {
        let front = batteries.drop_last();
        lemma_line_count(front, used_memory, total_memory, cores, stamp);
        if forall|i: int| 0 <= i < batteries.len() ==> batteries[i].is_some() {
            assert forall|i: int| 0 <= i < front.len() implies front[i].is_some() by {
                assert(front[i] == batteries[i]);
            }
        }
    }
}

/// The mean load of the cores in hundredths of full load.
pub fn mean_load(cores: &Vec<u32>) -> (r: u64)
    ensures
        r == load_hundredths(cores@),
        r <= 0x1_0000_0000,
{
    if cores.len() == 0 {
        return 0;
    }
    let mut sum: u128 = 0;
    let mut i: usize = 0;
    while i < cores.len()
        invariant
            i <= cores.len(),
            sum == total_load(cores@.take(i as int)),
            sum <= i * 0xffff_ffff,
        decreases cores.len() - i,
    {
        proof {
            let upto = cores@.take(i + 1);
            assert(upto.drop_last() == cores@.take(i as int));
            assert(upto.last() == cores@[i as int]);
        }
        sum = sum + cores[i] as u128;
        i += 1;
    }
    proof {
        assert(cores@.take(i as int) == cores@);
    }
    let count: u128 = cores.len() as u128;
    let denom: u128 = 100 * count;
    let r = divide_rounded(sum, denom);
    proof {
        let q = sum as int / denom as int;
        if q > 0xffff_ffff {
            assert(q * denom >= 0x1_0000_0000 * denom) by (nonlinear_arith)
                requires
                    q >= 0x1_0000_0000,
                    denom > 0,
            ;
            assert(sum >= q * denom) by (nonlinear_arith)
                requires
                    q == sum as int / denom as int,
                    denom > 0,
            ;
            assert(false);
        }
    }
    r as u64
}

/// An amount of memory in tenths of the unit it is shown in.
pub fn scaled_memory(amount: u64) -> (r: u64)
    ensures
        r == memory_tenths(amount),
{
    let r = divide_rounded(amount as u128 * 10, MEMORY_SCALE as u128);
    r as u64
}

/// The name a state is shown under.
pub fn state_text(state: BatteryState) -> (r: &'static str)
    ensures
        r@ == state_name(state),
{
    match state {
        BatteryState::Unknown => "Unknown",
        BatteryState::Charging => "Charging",
        BatteryState::Discharging => "Discharging",
        BatteryState::Empty => "Empty",
        BatteryState::Full => "Full",
    }
}

fn push_minutes(text: &mut String, duration: Option<u64>)
    ensures
        final(text)@ == old(text)@ + minutes(duration),
{
    let seconds = match duration {
        Some(seconds) => seconds,
        None => 0,
    };
    push_decimal(text, seconds / 60);
    text.append(" min");
    assert(text@ =~= old(text)@ + minutes(duration));
}

fn push_separator(text: &mut String)
    ensures
        final(text)@ == old(text)@ + separator(),
{
    text.append("<span color=\"#333333\">|</span>");
}

fn push_load(text: &mut String, load: u64)
    ensures
        final(text)@ == old(text)@ + right_aligned(hundredths(load as nat), 5),
{
    proof {
        lemma_decimal_len(load as nat / 100);
        reveal_strlit(" ");
    }
    if load < 1000 {
        text.append(" ");
    }
    push_hundredths(text, load);
    proof {
        let wide = right_aligned(hundredths(load as nat), 5);
        if load < 1000 {
            assert(wide =~= seq![' '] + hundredths(load as nat));
        }
        assert(text@ =~= old(text)@ + wide);
    }
}

/// Renders the line for one battery of the sample.
pub fn render_line(battery: &Battery, sample: &Sample, stamp: &str) -> (r: String)
    ensures
        r@ == status_line(
            *battery,
            sample.used_memory,
            sample.total_memory,
            sample.cores@,
            stamp@,
        ),
{
    let mut text = String::from_str("BAT: M-");
    text.append(state_text(battery.state));
    text.append(" DT-");
    push_minutes(&mut text, battery.time_to_empty);
    text.append(" CT-");
    push_minutes(&mut text, battery.time_to_full);
    text.append(" Capacity-");
    push_tenths(&mut text, battery.charge as u64);
    text.append("% ");
    push_separator(&mut text);
    text.append(" MEM: ");
    push_tenths(&mut text, scaled_memory(sample.used_memory));
    text.append("/");
    push_tenths(&mut text, scaled_memory(sample.total_memory));
    text.append(" ");
    push_separator(&mut text);
    text.append(" CPU: ");
    push_load(&mut text, mean_load(&sample.cores));
    text.append(" ");
    push_separator(&mut text);
    text.append(" ");
    text.append(stamp);
    text
}

/// Renders one line per battery that could be read; a battery that could
/// not is passed over, and the others still get their lines.
pub fn render_lines(sample: &Sample, stamp: &str) -> (r: Vec<String>)
    ensures
        texts(r@) == sample.lines(stamp@),
{
    let mut r: Vec<String> = Vec::new();
    let mut i: usize = 0;
    while i < sample.batteries.len()
        invariant
            i <= sample.batteries.len(),
            texts(r@) == status_lines(
                sample.batteries@.take(i as int),
                sample.used_memory,
                sample.total_memory,
                sample.cores@,
                stamp@,
            ),
        decreases sample.batteries.len() - i,
    {
        proof {
            let upto = sample.batteries@.take(i + 1);
            assert(upto.drop_last() == sample.batteries@.take(i as int));
            assert(upto.last() == sample.batteries@[i as int]);
        }
        let ghost before = r@;
        match &sample.batteries[i] {
            Some(battery) => {
                let line = render_line(battery, sample, stamp);
                r.push(line);
                assert(texts(r@) =~= texts(before).push(line@));
            },
            None => {},
        }
        i += 1;
    }
    proof {
        assert(sample.batteries@.take(i as int) == sample.batteries@);
    }
    r
}

/// What a tick of the status timer publishes: the lines of the sample under
/// the local time of the tick.
///
/// `None` comes back where the local time has no stamp; from the epoch to
/// the end of the year 9999, local time, the lines are always returned.
pub fn tick(sample: &Sample, unix_secs: i64, offset_secs: i32) -> (r: Option<Vec<String>>)
    ensures
        r.is_some() == stamp_spec(unix_secs, offset_secs).is_some(),
        r matches Some(lines) ==> texts(lines@) == sample.lines(
            stamp_spec(unix_secs, offset_secs).unwrap(),
        ),
        0 <= unix_secs + offset_secs <= LAST_FOUR_DIGIT_SECOND ==> r.is_some(),
{
    match stamp(unix_secs, offset_secs) {
        Some(text) => Some(render_lines(sample, text.as_str())),
        None => None,
    }
}

/// What setting up the status line comes to: the lines to publish straight
/// away, and the timer that brings the ticks after them.
pub struct StatusSetup {
    /// The lines of the first sample, as `tick` gives them.
    pub first: Option<Vec<String>>,
    /// The programme of the status timer.
    pub plan: TimerPlan,
}

/// Sets the status line up: the first sample is rendered at once, and the
/// timer is planned to tick every five seconds, starting within the first
/// five.
pub fn setup_status(sample: &Sample, unix_secs: i64, offset_secs: i32) -> (r: StatusSetup)
    ensures
        r.first.is_some() == stamp_spec(unix_secs, offset_secs).is_some(),
        r.first matches Some(lines) ==> texts(lines@) == sample.lines(
            stamp_spec(unix_secs, offset_secs).unwrap(),
        ),
        0 <= unix_secs + offset_secs <= LAST_FOUR_DIGIT_SECOND ==> r.first.is_some(),
        r.plan.period == STATUS_PERIOD,
        r.plan.initial < STATUS_PERIOD,
{
    StatusSetup {
        first: tick(sample, unix_secs, offset_secs),
        plan: TimerPlan::from_wall_clock(STATUS_PERIOD),
    }
}

} // verus!
