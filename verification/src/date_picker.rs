//! Full-screen date / time picker overlay state.
//!
//! Fields, top to bottom: year, month, day, hour, minute.  Buttons:
//!
//!   * Up / Down    — move the field cursor
//!   * Left / Right — dec / inc the active field's value (with wrap, and
//!                    day clamped to the chosen month's length so you
//!                    can't pick Feb 30)
//!   * Fire / Exec  — submit the chosen date and time
//!   * Cancel       — dismiss without submitting
use vstd::prelude::*;
use crate::menu::ButtonId;
use crate::text::{push_decimal, push_decimal_pad2, spec_decimal, spec_decimal_pad2};

verus! {

pub const FIELD_COUNT: u8 = 5;
pub const F_YEAR: u8 = 0;
pub const F_MONTH: u8 = 1;
pub const F_DAY: u8 = 2;
pub const F_HOUR: u8 = 3;
pub const F_MINUTE: u8 = 4;

/// Lowest and highest year of the year field's wrapping range.
pub const YEAR_MIN: u16 = 1900;
pub const YEAR_MAX: u16 = 2099;

/// The picker's values and field cursor.
#[derive(Clone, Copy, Debug)]
pub struct DatePicker {
    pub year: u16,
    pub month: u8,
    pub day: u8,
    pub hour: u8,
    pub minute: u8,
    /// The field cursor (0 = year … 4 = minute).
    pub field: u8,
    /// The overlay's title.
    pub title: &'static str,
}

/// The outcome of one press.
#[derive(Clone, Copy, PartialEq, Eq, Structural, Debug)]
pub enum PickerEvent {
    /// The picker stays open.
    Pending,
    /// Fire/Execute: the chosen values are handed to the caller and the picker closes.
    Submitted { year: u16, month: u8, day: u8, hour: u8, minute: u8 },
    /// Cancel: the picker closes without submitting.
    Cancelled,
}

/// Gregorian leap year.
pub open spec fn spec_is_leap(year: u16) -> bool {
    (year % 4 == 0 && year % 100 != 0) || year % 400 == 0
}

/// Days in `month` of `year`; an out-of-range month counts as 31 days.
pub open spec fn spec_days_in_month(year: u16, month: u8) -> u8 {
    if month == 4 || month == 6 || month == 9 || month == 11 {
        30
    } else if month == 2 {
        if spec_is_leap(year) {
            29
        } else {
            28
        }
    } else {
        31
    }
}

/// Days in `month` of `year` (Gregorian calendar).
pub fn days_in_month(year: u16, month: u8) -> (d: u8)
    ensures
        d == spec_days_in_month(year, month),
        28 <= d <= 31,
{
    match month {
        1 | 3 | 5 | 7 | 8 | 10 | 12 => 31,
        4 | 6 | 9 | 11 => 30,
        2 => {
            let leap = (year % 4 == 0 && year % 100 != 0) || year % 400 == 0;
            if leap {
                29
            } else {
                28
            }
        },
        _ => 31,
    }
}

/// `v` clamped into `lo..=hi`.
pub open spec fn spec_clamp(v: int, lo: int, hi: int) -> int {
    if v < lo {
        lo
    } else if v > hi {
        hi
    } else {
        v
    }
}

/// `day` clamped down to `dim` if it exceeds it.
pub open spec fn spec_reclamp_day(day: u8, dim: u8) -> u8 {
    if day > dim {
        dim
    } else {
        day
    }
}

/// The picker after one Left (`up == false`) or Right (`up == true`) press.
pub open spec fn spec_step(p: DatePicker, up: bool) -> DatePicker {
    if p.field == F_YEAR {
        let year: u16 = if up {
            if p.year >= YEAR_MAX {
                YEAR_MIN
            } else {
                (p.year + 1) as u16
            }
        } else if p.year <= YEAR_MIN {
            YEAR_MAX
        } else {
            (p.year - 1) as u16
        };
        DatePicker { year, day: spec_reclamp_day(p.day, spec_days_in_month(year, p.month)), ..p }
    } else if p.field == F_MONTH {
        let month: u8 = if up {
            if p.month >= 12 {
                1
            } else {
                (p.month + 1) as u8
            }
        } else if p.month <= 1 {
            12
        } else {
            (p.month - 1) as u8
        };
        DatePicker { month, day: spec_reclamp_day(p.day, spec_days_in_month(p.year, month)), ..p }
    } else if p.field == F_DAY {
        let dim = spec_days_in_month(p.year, p.month);
        let day: u8 = if up {
            if p.day >= dim {
                1
            } else {
                (p.day + 1) as u8
            }
        } else if p.day <= 1 {
            dim
        } else {
            (p.day - 1) as u8
        };
        DatePicker { day, ..p }
    } else if p.field == F_HOUR {
        let hour: u8 = if up {
            ((p.hour + 1) % 24) as u8
        } else if p.hour == 0 {
            23
        } else {
            (p.hour - 1) as u8
        };
        DatePicker { hour, ..p }
    } else if p.field == F_MINUTE {
        let minute: u8 = if up {
            ((p.minute + 1) % 60) as u8
        } else if p.minute == 0 {
            59
        } else {
            (p.minute - 1) as u8
        };
        DatePicker { minute, ..p }
    } else {
        p
    }
}

impl DatePicker {
    /// Every value lies in its legal range: month 1–12, day within the
    /// month, hour 0–23, minute 0–59, and the cursor on one of the fields.
    pub open spec fn valid(&self) -> bool {
        &&& 1 <= self.month <= 12
        &&& 1 <= self.day <= spec_days_in_month(self.year, self.month)
        &&& self.hour <= 23
        &&& self.minute <= 59
        &&& self.field < FIELD_COUNT
    }

    /// Open a picker on the given values, each clamped to its legal range
    /// (the year is kept as given), with the cursor on the year.
    pub fn new(year: u16, month: u8, day: u8, hour: u8, minute: u8, title: &'static str) -> (p:
        DatePicker)
        ensures
            p.year == year,
            p.month == spec_clamp(month as int, 1, 12),
            p.day == spec_clamp(day as int, 1, spec_days_in_month(year, p.month) as int),
            p.hour == spec_clamp(hour as int, 0, 23),
            p.minute == spec_clamp(minute as int, 0, 59),
            p.field == F_YEAR,
            p.title == title,
            p.valid(),
    {
        let m: u8 = if month < 1 {
            1
        } else if month > 12 {
            12
        } else {
            month
        };
        let dim = days_in_month(year, m);
        let d: u8 = if day < 1 {
            1
        } else if day > dim {
            dim
        } else {
            day
        };
        let h: u8 = if hour > 23 {
            23
        } else {
            hour
        };
        let mi: u8 = if minute > 59 {
            59
        } else {
            minute
        };
        DatePicker { year, month: m, day: d, hour: h, minute: mi, field: F_YEAR, title }
    }

    /// Handle one button press.  Up/Down move the cursor (stopping at the
    /// first and last field), Left/Right step the active field, Fire and
    /// Execute submit, Cancel cancels.
    pub fn dispatch(&mut self, btn: ButtonId) -> (ev: PickerEvent)
        requires
            btn == ButtonId::Right && old(self).field == F_HOUR ==> old(self).hour < 255,
            btn == ButtonId::Right && old(self).field == F_MINUTE ==> old(self).minute < 255,
        ensures
            btn == ButtonId::Up ==> ev == PickerEvent::Pending && *final(self) == (DatePicker {
                field: if old(self).field > 0 { (old(self).field - 1) as u8 } else { old(self).field },
                ..*old(self)
            }),
            btn == ButtonId::Down ==> ev == PickerEvent::Pending && *final(self) == (DatePicker {
                field: if old(self).field < FIELD_COUNT - 1 {
                    (old(self).field + 1) as u8
                } else {
                    old(self).field
                },
                ..*old(self)
            }),
            btn == ButtonId::Right ==> ev == PickerEvent::Pending && *final(self) == spec_step(
                *old(self),
                true,
            ),
            btn == ButtonId::Left ==> ev == PickerEvent::Pending && *final(self) == spec_step(
                *old(self),
                false,
            ),
            (btn == ButtonId::Fire || btn == ButtonId::Execute) ==> ev == (PickerEvent::Submitted {
                year: old(self).year,
                month: old(self).month,
                day: old(self).day,
                hour: old(self).hour,
                minute: old(self).minute,
            }) && *final(self) == *old(self),
            btn == ButtonId::Cancel ==> ev == PickerEvent::Cancelled && *final(self) == *old(self),
            old(self).valid() ==> final(self).valid(),
    {
        match btn {
            ButtonId::Up => {
                if self.field > 0 {
                    self.field -= 1;
                }
            },
            ButtonId::Down => {
                if self.field < FIELD_COUNT - 1 {
                    self.field += 1;
                }
            },
            ButtonId::Right => self.step(true),
            ButtonId::Left => self.step(false),
            ButtonId::Fire | ButtonId::Execute => {
                return PickerEvent::Submitted {
                    year: self.year,
                    month: self.month,
                    day: self.day,
                    hour: self.hour,
                    minute: self.minute,
                };
            },
            ButtonId::Cancel => return PickerEvent::Cancelled,
        }
        PickerEvent::Pending
    }

    /// Step the active field down (`up == false`) or up, wrapping (the year
    /// within 1900–2099), with the day re-clamped to the month's length.
    pub fn step(&mut self, up: bool)
        requires
            up && old(self).field == F_HOUR ==> old(self).hour < 255,
            up && old(self).field == F_MINUTE ==> old(self).minute < 255,
        ensures
            *final(self) == spec_step(*old(self), up),
            old(self).valid() ==> final(self).valid(),
    {
        match self.field {
            F_YEAR => {
                self.year = if up {
                    if self.year >= YEAR_MAX {
                        YEAR_MIN
                    } else {
                        self.year + 1
                    }
                } else if self.year <= YEAR_MIN {
                    YEAR_MAX
                } else {
                    self.year - 1
                };
                let dim = days_in_month(self.year, self.month);
                if self.day > dim {
                    self.day = dim;
                }
            },
            F_MONTH => {
                self.month = if up {
                    if self.month >= 12 {
                        1
                    } else {
                        self.month + 1
                    }
                } else if self.month <= 1 {
                    12
                } else {
                    self.month - 1
                };
                let dim = days_in_month(self.year, self.month);
                if self.day > dim {
                    self.day = dim;
                }
            },
            F_DAY => {
                let dim = days_in_month(self.year, self.month);
                self.day = if up {
                    if self.day >= dim {
                        1
                    } else {
                        self.day + 1
                    }
                } else if self.day <= 1 {
                    dim
                } else {
                    self.day - 1
                };
            },
            F_HOUR => {
                self.hour = if up {
                    (self.hour + 1) % 24
                } else if self.hour == 0 {
                    23
                } else {
                    self.hour - 1
                };
            },
            F_MINUTE => {
                self.minute = if up {
                    (self.minute + 1) % 60
                } else if self.minute == 0 {
                    59
                } else {
                    self.minute - 1
                };
            },
            _ => {},
        }
    }
}

/// The value text of field `field`: the year in decimal, the other fields
/// as two digits with a leading zero; nothing for an unknown field.
pub open spec fn spec_value_text(p: DatePicker, field: u8) -> Seq<char> {
    if field == F_YEAR {
        spec_decimal(p.year as nat)
    } else if field == F_MONTH {
        spec_decimal_pad2(p.month as nat)
    } else if field == F_DAY {
        spec_decimal_pad2(p.day as nat)
    } else if field == F_HOUR {
        spec_decimal_pad2(p.hour as nat)
    } else if field == F_MINUTE {
        spec_decimal_pad2(p.minute as nat)
    } else {
        Seq::empty()
    }
}

/// The value text shown in the row of `field`.
pub fn value_text(p: &DatePicker, field: u8) -> (s: String)
    ensures
        s@ == spec_value_text(*p, field),
{
    let mut s = String::new();
    if field == F_YEAR {
        push_decimal(&mut s, p.year as u32);
    } else if field == F_MONTH {
        push_decimal_pad2(&mut s, p.month as u32);
    } else if field == F_DAY {
        push_decimal_pad2(&mut s, p.day as u32);
    } else if field == F_HOUR {
        push_decimal_pad2(&mut s, p.hour as u32);
    } else if field == F_MINUTE {
        push_decimal_pad2(&mut s, p.minute as u32);
    }
    assert(s@ =~= spec_value_text(*p, field));
    s
}

/// Legal values stay legal under every press: in particular the day never
/// exceeds its month's length (no Feb 30), whatever is stepped.
pub proof fn lemma_step_keeps_valid(p: DatePicker, up: bool)
    requires
        p.valid(),
    ensures
        spec_step(p, up).valid(),
{
}

/// The year wraps around its range: Right on the last year gives the first,
/// Left on the first gives the last.
pub proof fn lemma_year_wraps(p: DatePicker)
    requires
        p.field == F_YEAR,
    ensures
        p.year == YEAR_MAX ==> spec_step(p, true).year == YEAR_MIN,
        p.year == YEAR_MIN ==> spec_step(p, false).year == YEAR_MAX,
        YEAR_MIN <= p.year < YEAR_MAX ==> spec_step(spec_step(p, true), false).year == p.year,
{
}

/// Twelve months advance back to the start: month Right wraps December to
/// January and Left wraps January to December.
pub proof fn lemma_month_wraps(p: DatePicker)
    requires
        p.valid(),
        p.field == F_MONTH,
    ensures
        p.month == 12 ==> spec_step(p, true).month == 1,
        p.month == 1 ==> spec_step(p, false).month == 12,
{
}

/// On the day field of a legal picker, Right moves to the next day of the
/// month (from the month's last day back to the 1st) and Left to the
/// previous one (from the 1st to the last day); nothing else changes, and
/// Right then Left, or Left then Right, restores the picker.
pub proof fn lemma_day_steps_by_one(p: DatePicker)
    requires
        p.valid(),
        p.field == F_DAY,
    ensures
        ({
            let last = spec_days_in_month(p.year, p.month);
            let r = spec_step(p, true);
            let l = spec_step(p, false);
            &&& r.day == if p.day < last { p.day + 1 } else { 1 }
            &&& l.day == if p.day > 1 { p.day - 1 } else { last as int }
            &&& r.year == p.year && r.month == p.month && r.hour == p.hour && r.minute == p.minute
            &&& r.field == p.field && r.title == p.title
            &&& l.year == p.year && l.month == p.month && l.hour == p.hour && l.minute == p.minute
            &&& l.field == p.field && l.title == p.title
        }),
        spec_step(spec_step(p, true), false) == p,
        spec_step(spec_step(p, false), true) == p,
{
}

/// On a legal picker, stepping the hour or minute up then down restores it.
pub proof fn lemma_time_step_round_trip(p: DatePicker)
    requires
        p.valid(),
        p.field == F_HOUR || p.field == F_MINUTE,
    ensures
        spec_step(spec_step(p, true), false) == p,
        spec_step(spec_step(p, false), true) == p,
{
}

} // verus!
