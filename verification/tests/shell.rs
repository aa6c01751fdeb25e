use placebo_shell::autocomplete::suggestions;
use placebo_shell::command::process_line;
use placebo_shell::history::History;
use placebo_shell::line::LineBuffer;
use placebo_shell::pattern::{next_level, tick_step, OutputLevel};
use placebo_shell::session::{handle_byte, Session};
use placebo_shell::timer::TimerConfig;

fn chars(s: &str) -> Vec<char> {
    s.chars().collect()
}

fn text(v: &[char]) -> String {
    v.iter().collect()
}

#[test]
fn pattern_is_low_exactly_when_mask_bits_set() {
    let mask = 0b1001u32;
    assert_eq!(next_level(0b1001, mask), OutputLevel::Low);
    assert_eq!(next_level(0b1111, mask), OutputLevel::Low);
    assert_eq!(next_level(0b0001, mask), OutputLevel::High);
    assert_eq!(next_level(0b1000, mask), OutputLevel::High);
    assert_eq!(next_level(0, mask), OutputLevel::High);
}

#[test]
fn pattern_repeats_with_full_period() {
    // highest set bit of 0b1001 is bit 3, so the period is 2^4 = 16
    let mask = 0b1001u32;
    for t in 0u32..64 {
        assert_eq!(next_level(t, mask), next_level(t + 16, mask));
    }
    // 8 is not a period: tick 9 is Low, tick 17 is High
    assert_ne!(next_level(9, mask), next_level(9 + 8, mask));
}

#[test]
fn tick_step_advances_and_wraps() {
    let (level, next) = tick_step(8, 0b1001);
    assert_eq!(level, OutputLevel::High);
    assert_eq!(next, 9);
    let (_, wrapped) = tick_step(u32::MAX, 0b1001);
    assert_eq!(wrapped, 0);
}

#[test]
fn line_buffer_drops_byte_when_full() {
    let mut lb = LineBuffer::new();
    for i in 0..32 {
        assert!(lb.insert_at_cursor(if i % 2 == 0 { 'a' } else { 'b' }));
    }
    assert_eq!(lb.len(), 32);
    assert!(!lb.insert_at_cursor('x'));
    assert_eq!(lb.len(), 32);
    let content = text(&lb.content());
    assert!(!content.contains('x'));
}

#[test]
fn line_buffer_edits_at_cursor() {
    let mut lb = LineBuffer::new();
    lb.insert_at_cursor('h');
    lb.insert_at_cursor('l');
    lb.insert_at_cursor('p');
    lb.move_left();
    lb.move_left();
    lb.insert_at_cursor('e');
    assert_eq!(text(&lb.content()), "help");
    lb.backspace();
    assert_eq!(text(&lb.content()), "hlp");
    assert_eq!(lb.cursor(), 1);
}

#[test]
fn history_keeps_most_recent_in_order() {
    let mut h = History::new();
    for i in 0..33 {
        h.push(&chars(&format!("cmd{}", i)));
    }
    assert_eq!(h.len(), 32);
    for i in 0..32 {
        assert_eq!(text(&h.entry(i)), format!("cmd{}", i + 1));
    }
}

#[test]
fn autocomplete_bl_is_unique_blink() {
    let m = suggestions(&chars("bl"));
    assert_eq!(m.len(), 1);
    assert_eq!(text(&m[0]), "blink ");
}

#[test]
fn autocomplete_empty_prefix_matches_all() {
    let m = suggestions(&chars(""));
    let got: Vec<String> = m.iter().map(|v| text(v)).collect();
    assert_eq!(got, vec!["clear", "blink ", "help", "help pinout"]);
}

#[test]
fn autocomplete_no_match_is_empty() {
    let m = suggestions(&chars("frob"));
    assert_eq!(m.len(), 0);
}

#[test]
fn blink_100_sets_half_cycle_rate() {
    let r = process_line(&chars("blink 100"));
    // 100 Hz blink: 200 interrupts per second, a period of 1/200 s
    assert_eq!(r.reprogram, Some(200));
    assert_eq!(text(&r.out), "\r\n\u{bb} ");
}

#[test]
fn blink_overflow_keeps_previous_period() {
    let mut timer = TimerConfig::new(40);
    let ok = process_line(&chars("blink 100"));
    timer.apply(ok.reprogram);
    assert_eq!(timer.rate_hz, 200);
    let r = process_line(&chars("blink 2000000"));
    assert_eq!(r.reprogram, None);
    assert!(text(&r.out).contains("unsupported blink frequency: \"2000000\""));
    timer.apply(r.reprogram);
    assert_eq!(timer.rate_hz, 200);
}

#[test]
fn blink_rejects_bad_argument_text() {
    let r = process_line(&chars("blink fast"));
    assert_eq!(r.reprogram, None);
    assert!(text(&r.out).contains("unsupported blink frequency: \"fast\""));
    let r = process_line(&chars("blink"));
    assert_eq!(r.reprogram, None);
    assert!(text(&r.out).contains("unsupported blink frequency: \"\""));
}

#[test]
fn blink_parses_through_btoi() {
    // leading zeros and an explicit sign are fine for the parser
    assert_eq!(process_line(&chars("blink 007")).reprogram, Some(14));
    assert_eq!(process_line(&chars("blink +5")).reprogram, Some(10));
    assert_eq!(process_line(&chars("blink -5")).reprogram, None);
    assert_eq!(process_line(&chars("blink -0")).reprogram, Some(0));
    assert_eq!(process_line(&chars("blink 4294967296")).reprogram, None);
}

#[test]
fn unknown_command_is_named_then_prompted() {
    let r = process_line(&chars("frobnicate"));
    let out = text(&r.out);
    assert!(out.contains("unsupported command: \"frobnicate\""));
    assert!(out.ends_with("\u{bb} "));
    assert_eq!(r.reprogram, None);
}

#[test]
fn empty_line_gets_blank_line_and_prompt() {
    let r = process_line(&chars(""));
    assert_eq!(text(&r.out), "\r\n\u{bb} ");
    let r = process_line(&chars("   "));
    assert_eq!(text(&r.out), "\r\n\u{bb} ");
}

#[test]
fn help_pages_select_on_topic() {
    let general = text(&process_line(&chars("help")).out);
    assert!(general.contains("COMMANDS:"));
    assert!(general.contains("blink <freq>"));
    let pinout = text(&process_line(&chars("help pinout")).out);
    assert!(pinout.contains("STM32G0xxFx"));
    let fallback = text(&process_line(&chars("help me")).out);
    assert_eq!(fallback, general);
}

#[test]
fn clear_emits_erase_sequence() {
    let r = process_line(&chars("clear"));
    assert_eq!(text(&r.out), "\u{1b}[2J\u{1b}[1;1H\u{bb} ");
}

#[test]
fn session_types_and_commits_blink() {
    let mut s = Session::new();
    let mut rate = None;
    for b in b"blink 100\r" {
        let step = handle_byte(&mut s, *b);
        if step.reprogram.is_some() {
            rate = step.reprogram;
        }
    }
    assert_eq!(rate, Some(200));
    assert_eq!(s.line.len(), 0);
    assert_eq!(s.history.len(), 1);
    assert_eq!(text(&s.history.entry(0)), "blink 100");
}

#[test]
fn session_tab_completes_bl() {
    let mut s = Session::new();
    handle_byte(&mut s, b'b');
    handle_byte(&mut s, b'l');
    handle_byte(&mut s, 0x09);
    assert_eq!(text(&s.line.content()), "blink ");
}

#[test]
fn session_tab_cycles_in_catalog_order() {
    let mut s = Session::new();
    handle_byte(&mut s, 0x09);
    assert_eq!(text(&s.line.content()), "clear");
    handle_byte(&mut s, 0x09);
    assert_eq!(text(&s.line.content()), "blink ");
    handle_byte(&mut s, 0x09);
    assert_eq!(text(&s.line.content()), "help");
    handle_byte(&mut s, 0x09);
    assert_eq!(text(&s.line.content()), "help pinout");
    handle_byte(&mut s, 0x09);
    assert_eq!(text(&s.line.content()), "clear");
}

#[test]
fn session_up_arrow_recalls_history() {
    let mut s = Session::new();
    for b in b"help\rclear\r" {
        handle_byte(&mut s, *b);
    }
    for b in [0x1bu8, b'[', b'A'] {
        handle_byte(&mut s, b);
    }
    assert_eq!(text(&s.line.content()), "clear");
    for b in [0x1bu8, b'[', b'A'] {
        handle_byte(&mut s, b);
    }
    assert_eq!(text(&s.line.content()), "help");
    // clamped at the oldest entry
    for b in [0x1bu8, b'[', b'A'] {
        handle_byte(&mut s, b);
    }
    assert_eq!(text(&s.line.content()), "help");
    // down goes back to the newer entry, then to an empty live line
    for b in [0x1bu8, b'[', b'B'] {
        handle_byte(&mut s, b);
    }
    assert_eq!(text(&s.line.content()), "clear");
    for b in [0x1bu8, b'[', b'B'] {
        handle_byte(&mut s, b);
    }
    assert_eq!(text(&s.line.content()), "");
}

#[test]
fn session_bell_on_control_b() {
    let mut s = Session::new();
    let step = handle_byte(&mut s, 0x02);
    assert_eq!(text(&step.output), "\u{7}");
    assert_eq!(s.line.len(), 0);
}

#[test]
fn session_empty_commit_stores_no_history() {
    let mut s = Session::new();
    handle_byte(&mut s, 0x0d);
    assert_eq!(s.history.len(), 0);
    let step = handle_byte(&mut s, 0x0a);
    assert_eq!(text(&step.output), "\r\n\u{bb} ");
}

#[test]
fn session_line_caps_at_buffer_size() {
    let mut s = Session::new();
    for _ in 0..40 {
        handle_byte(&mut s, b'a');
    }
    assert_eq!(s.line.len(), 32);
    let step = handle_byte(&mut s, 0x0d);
    assert!(text(&step.output).contains("unsupported command: \"aaaaaaaaaaaaaaaaaaaaaaaaaaaaaaaa\""));
}

#[test]
fn session_echo_redraws_typed_line() {
    let mut s = Session::new();
    let step = handle_byte(&mut s, b'a');
    assert_eq!(text(&step.output), "\r\u{1b}[K\u{bb} a");
}

#[test]
fn session_left_arrow_inserts_before_cursor() {
    let mut s = Session::new();
    handle_byte(&mut s, b'a');
    handle_byte(&mut s, b'b');
    for b in [0x1bu8, b'[', b'D'] {
        handle_byte(&mut s, b);
    }
    handle_byte(&mut s, b'c');
    assert_eq!(text(&s.line.content()), "acb");
    for b in [0x1bu8, b'[', b'C'] {
        handle_byte(&mut s, b);
    }
    handle_byte(&mut s, b'd');
    assert_eq!(text(&s.line.content()), "acbd");
}

#[test]
fn session_backspace_removes_before_cursor() {
    let mut s = Session::new();
    for b in b"help" {
        handle_byte(&mut s, *b);
    }
    handle_byte(&mut s, 0x7f);
    assert_eq!(text(&s.line.content()), "hel");
    let mut fresh = Session::new();
    let step = handle_byte(&mut fresh, 0x08);
    assert_eq!(text(&fresh.line.content()), "");
    assert!(step.reprogram.is_none());
}

#[test]
fn session_ignores_unhandled_control_bytes() {
    let mut s = Session::new();
    for b in b"help" {
        handle_byte(&mut s, *b);
    }
    for b in [0x01u8, 0x03, 0x04, 0x0b, 0x1f] {
        let step = handle_byte(&mut s, b);
        assert!(step.output.is_empty());
        assert!(step.reprogram.is_none());
    }
    assert_eq!(text(&s.line.content()), "help");
}
