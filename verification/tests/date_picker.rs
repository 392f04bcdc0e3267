use hello_graphics::date_picker::{
    days_in_month, value_text, DatePicker, PickerEvent, F_DAY, F_HOUR, F_MINUTE, F_MONTH, F_YEAR,
};
use hello_graphics::menu::ButtonId;

#[test]
fn month_lengths_and_leap_years() {
    assert_eq!(days_in_month(2024, 2), 29);
    assert_eq!(days_in_month(2023, 2), 28);
    assert_eq!(days_in_month(1900, 2), 28);
    assert_eq!(days_in_month(2000, 2), 29);
    assert_eq!(days_in_month(2026, 4), 30);
    assert_eq!(days_in_month(2026, 12), 31);
    assert_eq!(days_in_month(2026, 13), 31);
}

#[test]
fn new_clamps_values() {
    let p = DatePicker::new(2023, 14, 40, 30, 99, "Set");
    assert_eq!((p.year, p.month, p.day, p.hour, p.minute), (2023, 12, 31, 23, 59));
    let p = DatePicker::new(2023, 0, 0, 5, 6, "Set");
    assert_eq!((p.month, p.day), (1, 1));
    let p = DatePicker::new(2023, 2, 30, 5, 6, "Set");
    assert_eq!(p.day, 28);
    assert_eq!(p.field, F_YEAR);
    assert_eq!(p.title, "Set");
}

#[test]
fn cursor_moves_between_fields_and_stops() {
    let mut p = DatePicker::new(2026, 5, 2, 19, 30, "t");
    assert_eq!(p.dispatch(ButtonId::Up), PickerEvent::Pending);
    assert_eq!(p.field, F_YEAR);
    for _ in 0..10 {
        p.dispatch(ButtonId::Down);
    }
    assert_eq!(p.field, F_MINUTE);
}

#[test]
fn stepping_wraps_and_reclamps_day() {
    let mut p = DatePicker::new(2024, 1, 31, 23, 59, "t");
    p.dispatch(ButtonId::Down); // month
    assert_eq!(p.field, F_MONTH);
    p.dispatch(ButtonId::Right); // Feb 2024: day 31 -> 29
    assert_eq!((p.month, p.day), (2, 29));
    p.dispatch(ButtonId::Up); // year
    p.dispatch(ButtonId::Right); // 2025: Feb 29 -> 28
    assert_eq!((p.year, p.day), (2025, 28));
    p.dispatch(ButtonId::Down);
    p.dispatch(ButtonId::Left); // January
    p.dispatch(ButtonId::Left); // December
    assert_eq!(p.month, 12);
    p.dispatch(ButtonId::Down); // day
    assert_eq!(p.field, F_DAY);
    p.dispatch(ButtonId::Left);
    assert_eq!(p.day, 27);
    p.dispatch(ButtonId::Down); // hour
    assert_eq!(p.field, F_HOUR);
    p.dispatch(ButtonId::Right);
    assert_eq!(p.hour, 0);
    p.dispatch(ButtonId::Left);
    assert_eq!(p.hour, 23);
    p.dispatch(ButtonId::Down); // minute
    p.dispatch(ButtonId::Right);
    assert_eq!(p.minute, 0);
    p.dispatch(ButtonId::Left);
    assert_eq!(p.minute, 59);
}

#[test]
fn year_wraps_around_its_range() {
    let mut p = DatePicker::new(2099, 6, 15, 12, 30, "T");
    p.step(true);
    assert_eq!((p.year, p.month, p.day, p.hour, p.minute), (1900, 6, 15, 12, 30));
    p.step(false);
    assert_eq!(p.year, 2099);
    let mut p = DatePicker::new(1970, 3, 1, 0, 0, "t");
    p.dispatch(ButtonId::Left);
    assert_eq!(p.year, 1969);
    let mut p = DatePicker::new(2000, 2, 29, 0, 0, "t");
    p.dispatch(ButtonId::Right);
    assert_eq!((p.year, p.day), (2001, 28));
}

#[test]
fn day_wraps_within_month() {
    let mut p = DatePicker::new(2026, 4, 30, 0, 0, "t");
    p.dispatch(ButtonId::Down);
    p.dispatch(ButtonId::Down);
    p.dispatch(ButtonId::Right);
    assert_eq!(p.day, 1);
    p.dispatch(ButtonId::Left);
    assert_eq!(p.day, 30);
}

#[test]
fn fire_submits_and_cancel_drops() {
    let mut p = DatePicker::new(2026, 5, 2, 19, 30, "t");
    assert_eq!(
        p.dispatch(ButtonId::Fire),
        PickerEvent::Submitted { year: 2026, month: 5, day: 2, hour: 19, minute: 30 }
    );
    assert_eq!(
        p.dispatch(ButtonId::Execute),
        PickerEvent::Submitted { year: 2026, month: 5, day: 2, hour: 19, minute: 30 }
    );
    assert_eq!(p.dispatch(ButtonId::Cancel), PickerEvent::Cancelled);
}

#[test]
fn value_texts() {
    let p = DatePicker::new(2026, 5, 2, 19, 0, "t");
    assert_eq!(value_text(&p, F_YEAR), "2026");
    assert_eq!(value_text(&p, F_MONTH), "05");
    assert_eq!(value_text(&p, F_DAY), "02");
    assert_eq!(value_text(&p, F_HOUR), "19");
    assert_eq!(value_text(&p, F_MINUTE), "00");
    assert_eq!(value_text(&p, 9), "");
}

#[test]
fn out_of_range_hour_only_blocks_right_on_hour() {
    let mut p = DatePicker::new(2026, 5, 2, 19, 30, "t");
    p.hour = 255;
    p.minute = 255;
    assert_eq!(p.dispatch(ButtonId::Left), PickerEvent::Pending);
    assert_eq!(p.year, 2025);
    p.dispatch(ButtonId::Down);
    p.dispatch(ButtonId::Down);
    p.dispatch(ButtonId::Down);
    assert_eq!(p.field, 3);
    p.dispatch(ButtonId::Left);
    assert_eq!(p.hour, 254);
}
