use vstd::prelude::*;
use crate::core_logic::calculator::{WorkCalculator, remaining_minutes, worked_minutes};
use crate::core_logic::clock::{TimeOfDay, current_time};
use crate::core_logic::timer::WorkTimer;
use crate::utils::text::{decimal_string, decimal_text, is_numeral, lemma_decimal_text_reads_back, numeral_value};

verus! {

/// `"{h}h {m}m trabalhadas | {h}h {m}m restantes"` for the worked and the remaining minutes.
pub open spec fn status_text(worked: int, remaining: int) -> Seq<char> {
    decimal_text((worked / 60) as nat) + "h "@ + decimal_text((worked % 60) as nat)
        + "m trabalhadas | "@ + decimal_text((remaining / 60) as nat) + "h "@
        + decimal_text((remaining % 60) as nat) + "m restantes"@
}

/// The worked and the remaining minutes of the timer at time `now`.
pub open spec fn progress_at(timer: WorkTimer, now: TimeOfDay) -> (int, int) {
    let worked = worked_minutes(timer.start_time, now, timer.schedule.blocks@);
    (worked, remaining_minutes(worked, timer.daily_target_minutes as int))
}

/// The status line shows each amount as hours and minutes that recompose it: after the hours
/// numeral comes `h `, after the minutes numeral `m`, the minutes stay below 60, and sixty times
/// the hours plus the minutes give back the worked (then the remaining) minutes.
pub proof fn lemma_status_text_recomposes(worked: int, remaining: int)
    requires
        worked >= 0,
        remaining >= 0,
    ensures
        exists|wh: Seq<char>, wm: Seq<char>, rh: Seq<char>, rm: Seq<char>|
            #![trigger is_numeral(wh), is_numeral(wm), is_numeral(rh), is_numeral(rm)]
            {
                &&& is_numeral(wh) && is_numeral(wm) && is_numeral(rh) && is_numeral(rm)
                &&& numeral_value(wh) * 60 + numeral_value(wm) == worked
                &&& 0 <= numeral_value(wm) < 60
                &&& numeral_value(rh) * 60 + numeral_value(rm) == remaining
                &&& 0 <= numeral_value(rm) < 60
                &&& status_text(worked, remaining) == wh + "h "@ + wm + "m trabalhadas | "@ + rh + "h "@ + rm
                    + "m restantes"@
            },
{
    lemma_decimal_text_reads_back((worked / 60) as nat);
    lemma_decimal_text_reads_back((worked % 60) as nat);
    lemma_decimal_text_reads_back((remaining / 60) as nat);
    lemma_decimal_text_reads_back((remaining % 60) as nat);
    let wh = decimal_text((worked / 60) as nat);
    let wm = decimal_text((worked % 60) as nat);
    let rh = decimal_text((remaining / 60) as nat);
    let rm = decimal_text((remaining % 60) as nat);
    assert(is_numeral(wh) && is_numeral(wm) && is_numeral(rh) && is_numeral(rm));
}

/// The status line of the timer at time `now`: hours and minutes worked and still to work.
pub fn format_status_at(timer: &WorkTimer, now: TimeOfDay) -> (s: String)
    requires
        timer.wf(),
        now.wf(),
    ensures
        s@ == status_text(progress_at(*timer, now).0, progress_at(*timer, now).1),
{
    let (worked_minutes, remaining_minutes) = WorkCalculator::calculate_worked_and_remaining(
        timer.start_time,
        now,
        &timer.schedule,
        timer.daily_target_minutes,
    );
    let worked_h = (worked_minutes / 60) as u64;
    let worked_m = (worked_minutes % 60) as u64;
    let remaining_h = (remaining_minutes / 60) as u64;
    let remaining_m = (remaining_minutes % 60) as u64;
    let mut s = decimal_string(worked_h);
    s.append("h ");
    s.append(decimal_string(worked_m).as_str());
    s.append("m trabalhadas | ");
    s.append(decimal_string(remaining_h).as_str());
    s.append("h ");
    s.append(decimal_string(remaining_m).as_str());
    s.append("m restantes");
    s
}

/// The status line of the timer now, by the system clock.
pub fn format_status(timer: &WorkTimer) -> (s: String)
    requires
        timer.wf(),
    ensures
        exists|now: TimeOfDay|
            now.wf() && s@ == status_text(
                #[trigger] progress_at(*timer, now).0,
                progress_at(*timer, now).1,
            ),
{
    let now = current_time();
    format_status_at(timer, now)
}

} // verus!
