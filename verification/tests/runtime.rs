use lv_bevy_ecs::display::{buffer_holds, extent_between, pixel_index};
use lv_bevy_ecs::events::Event;
use lv_bevy_ecs::functions::lv_log_add;
use lv_bevy_ecs::input::{BufferStatus, InputState};
use lv_bevy_ecs::logging::{as_lv_log_level, lvgl_log, split_log_line, Level, Relog};
use lv_bevy_ecs::support::{LogLevel, LvError};
use lv_bevy_ecs::timers::{millis_or_zero, millis_wrapped};

#[test]
fn log_levels_follow_the_library() {
    assert!(matches!(as_lv_log_level(Level::Trace), LogLevel::Trace));
    assert!(matches!(as_lv_log_level(Level::Debug), LogLevel::Trace));
    assert!(matches!(as_lv_log_level(Level::Info), LogLevel::Info));
    assert!(matches!(as_lv_log_level(Level::Warn), LogLevel::Warn));
    assert!(matches!(as_lv_log_level(Level::Error), LogLevel::Error));
}

#[test]
fn log_record_keeps_what_it_is_given() {
    let record = lv_log_add(Level::Debug, "main.rs", 42, "setup", "ready");
    assert!(matches!(record.level, LogLevel::Trace));
    assert_eq!(record.file, "main.rs");
    assert_eq!(record.line, 42);
    assert_eq!(record.func, "setup");
    assert_eq!(record.message, "ready");
}

#[test]
fn log_line_keeps_its_bits() {
    let line = |n: u32| lv_log_add(Level::Info, "", n, "", "").line;
    assert_eq!(line(0), 0);
    assert_eq!(line(2147483647), 2147483647);
    assert_eq!(line(2147483648), -2147483648);
    assert_eq!(line(2147483649), -2147483647);
    assert_eq!(line(4294967295), -1);
    for n in [0u32, 1, 77, 0x7fff_ffff, 0x8000_0000, 0xdead_beef, u32::MAX] {
        assert_eq!(line(n), n as i32);
    }
}

#[test]
fn errors_describe_themselves() {
    assert_eq!(
        LvError::InvalidReference.description(),
        "Accessed invalid reference or ptr"
    );
    assert_eq!(LvError::Uninitialized.description(), "LVGL uninitialized");
    assert_eq!(LvError::LvOOMemory.description(), "LVGL out of memory");
    assert_eq!(LvError::AlreadyInUse.description(), "Resource already in use");
    assert_eq!(LvError::LvOOMemory.to_string(), "LVGL out of memory");
    assert!(LvError::InvalidReference < LvError::AlreadyInUse);
}

#[test]
fn focus_events_are_registered_as_clicks() {
    assert_eq!(Event::Focused.registered_as(), Event::Clicked);
    for event in [
        Event::Pressed,
        Event::Pressing,
        Event::PressLost,
        Event::ShortClicked,
        Event::Clicked,
        Event::LongPressed,
        Event::LongPressedRepeat,
        Event::Released,
        Event::ValueChanged,
        Event::DrawMain,
        Event::DrawMainBegin,
        Event::DrawMainEnd,
        Event::DrawPost,
        Event::DrawPostBegin,
        Event::DrawPostEnd,
    ] {
        assert_eq!(event.registered_as(), event);
    }
}

#[test]
fn buffered_input_is_read_again() {
    assert!(BufferStatus::Buffered.continue_reading());
    assert!(!BufferStatus::Once.continue_reading());
    assert_ne!(InputState::Pressed, InputState::Released);
}

fn by_the_standard_library(text: &str) -> (String, String) {
    let message = text.trim();
    let parts = message.split(':').collect::<Vec<&str>>();
    let target = parts[0].split(" ").last().unwrap();
    let message = parts[1..].join(":");
    (target.to_string(), message.trim().to_string())
}

#[test]
fn log_lines_are_taken_apart() {
    let line = split_log_line(
        "[Warn] (0.020, +20) lv_obj_create: no parent given  (in lv_obj.c line #123)\n",
    );
    assert_eq!(line.target, "lv_obj_create");
    assert_eq!(line.message, "no parent given  (in lv_obj.c line #123)");

    let line = split_log_line("  target:  a: b : c  ");
    assert_eq!(line.target, "target");
    assert_eq!(line.message, "a: b : c");

    let line = split_log_line("no colon here");
    assert_eq!(line.target, "here");
    assert_eq!(line.message, "");

    let line = split_log_line("");
    assert_eq!(line.target, "");
    assert_eq!(line.message, "");
}

#[test]
fn log_lines_agree_with_the_standard_library() {
    let samples = [
        "",
        " ",
        ":",
        "::",
        " : ",
        "a",
        "a:",
        ":a",
        "a:b",
        "a b:c d",
        "a b :c d",
        "a b : c d ",
        "a  b:  c",
        "\t[Info]\t(1.5, +3)\tlv_init: begin \t(in lv_init.c line #163)\r\n",
        "[Trace] x y z: m1: m2: m3",
        "trailing blank :message",
        "   lead: \u{a0}non breaking\u{a0}  ",
        "\u{2003}em space target\u{2003}:\u{2003}text\u{2003}",
        "ünïcödé tärget: mëssage ✓",
        "tab\tin heading: message",
        "only blanks before colon   :x",
        "x:   ",
        "  :  ",
        "a:b:c:d:",
        "no colon at all  ",
        "\n\n",
    ];
    for text in samples {
        let line = split_log_line(text);
        let (target, message) = by_the_standard_library(text);
        assert_eq!(line.target, target, "{:?}", text);
        assert_eq!(line.message, message, "{:?}", text);
    }
}

#[test]
fn lines_are_logged_again_at_the_matching_level() {
    for (from, to) in [
        (LogLevel::Trace, Level::Trace),
        (LogLevel::Info, Level::Info),
        (LogLevel::Warn, Level::Warn),
        (LogLevel::Error, Level::Error),
    ] {
        match lvgl_log(from, "[x] lv_timer: late ") {
            Relog::Line(at, line) => {
                assert_eq!(at, to);
                assert_eq!(line.target, "lv_timer");
                assert_eq!(line.message, "late");
            }
            Relog::InvalidLevel => panic!("no level"),
        }
    }
    assert!(matches!(
        lvgl_log(LogLevel::User, "a: b"),
        Relog::InvalidLevel
    ));
    assert!(matches!(
        lvgl_log(LogLevel::Off, "a: b"),
        Relog::InvalidLevel
    ));
}

#[test]
fn extent_of_a_part() {
    let extent = extent_between(0, 0, 319, 15).unwrap();
    assert_eq!(extent.width, 320);
    assert_eq!(extent.height, 16);
    assert_eq!(extent.pixels, 5120);

    let one = extent_between(7, -3, 7, -3).unwrap();
    assert_eq!((one.width, one.height, one.pixels), (1, 1, 1));

    let empty = extent_between(5, 0, 4, 9).unwrap();
    assert_eq!((empty.width, empty.height, empty.pixels), (0, 10, 0));

    assert!(extent_between(5, 0, 3, 9).is_none());
    assert!(extent_between(0, 5, 9, 3).is_none());
    assert!(extent_between(i32::MIN, 0, i32::MAX, 0).is_none());
    let wide = extent_between(i32::MIN, 0, i32::MAX - 1, 0).unwrap();
    assert_eq!((wide.width, wide.height), (u32::MAX, 1));
    assert_eq!(wide.pixels as u64, u32::MAX as u64);
    let negative = extent_between(-10, -20, -1, -11).unwrap();
    assert_eq!((negative.width, negative.height, negative.pixels), (10, 10, 100));
}

#[test]
fn pixels_are_counted_row_by_row() {
    assert_eq!(pixel_index(320, 0, 0), Some(0));
    assert_eq!(pixel_index(320, 5, 0), Some(5));
    assert_eq!(pixel_index(320, 0, 1), Some(320));
    assert_eq!(pixel_index(320, 7, 3), Some(967));
    assert_eq!(pixel_index(0, 4, 9), Some(4));
    assert_eq!(pixel_index(usize::MAX, 0, 1), Some(usize::MAX));
    assert_eq!(pixel_index(usize::MAX, 1, 1), None);
    assert_eq!(pixel_index(usize::MAX, 0, 2), None);
    assert_eq!(pixel_index(1, usize::MAX, 0), Some(usize::MAX));
}

#[test]
fn buffer_matches_its_part() {
    assert!(buffer_holds(320, 16, 5120));
    assert!(!buffer_holds(320, 16, 5119));
    assert!(!buffer_holds(320, 16, 5121));
    assert!(buffer_holds(0, 16, 0));
    assert!(!buffer_holds(65536, 65536, 0));
    assert!(!buffer_holds(u32::MAX, u32::MAX, 1));
}

#[test]
fn milliseconds_in_32_bits() {
    assert_eq!(millis_wrapped(0), 0);
    assert_eq!(millis_wrapped(5000), 5000);
    assert_eq!(millis_wrapped(4294967295), 4294967295);
    assert_eq!(millis_wrapped(4294967296), 0);
    assert_eq!(millis_wrapped(4294967297), 1);
    assert_eq!(millis_wrapped(u128::MAX), u32::MAX);
    for ms in [0u128, 1, 999, 1 << 31, (1 << 32) - 1, 1 << 32, (1 << 40) + 17, u128::MAX] {
        assert_eq!(millis_wrapped(ms), ms as u32);
        assert_eq!(millis_or_zero(ms), ms.try_into().unwrap_or(0));
    }
    assert_eq!(millis_or_zero(5000), 5000);
    assert_eq!(millis_or_zero(4294967295), 4294967295);
    assert_eq!(millis_or_zero(4294967296), 0);
}
