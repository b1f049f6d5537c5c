use chaser_oxide::input::{
    char_steps,
    key_identifiers, plan_click_human, plan_mouse_move, plan_press_enter, plan_press_tab,
    plan_scroll, plan_typing, plan_typing_with_typos, press_key_events, scroll_deltas, scroll_step, KeyEventKind,
    TypingStep,
};
use chaser_oxide::motion::Point;

fn is_keystroke_pause(step: &TypingStep, min: u64, max: u64) -> bool {
    match step {
        TypingStep::Pause(v) => (min <= *v && *v < max) || (200 <= *v && *v < 400),
        _ => false,
    }
}

#[test]
fn mouse_move_reaches_near_target() {
    let from = Point { x: 10, y: 20 };
    let to = Point { x: 500, y: 300 };
    for _ in 0..50 {
        let steps = plan_mouse_move(from, to);
        assert_eq!(steps.len(), 26);
        assert_eq!(steps[0].point, from);
        let last = steps[25].point;
        assert!((last.x - to.x).abs() <= 2 && (last.y - to.y).abs() <= 2);
        assert!(steps.iter().all(|s| 5 <= s.pause_ms && s.pause_ms < 15));
    }
}

#[test]
fn click_lands_where_the_cursor_rests() {
    let plan = plan_click_human(Point { x: 0, y: 0 }, Point { x: 40, y: -40 });
    assert_eq!(plan.click_at, plan.path[plan.path.len() - 1].point);
    assert!(50 <= plan.settle_ms && plan.settle_ms < 150);
    assert!(30 <= plan.release_ms && plan.release_ms < 80);
}

#[test]
fn press_enter_scenario() {
    let events = press_key_events("Enter");
    assert_eq!(events.len(), 2);
    assert_eq!(events[0].kind, KeyEventKind::RawKeyDown);
    assert_eq!(events[1].kind, KeyEventKind::KeyUp);
    for e in &events {
        assert_eq!(e.key, "Enter");
        assert_eq!(e.code, "Enter");
    }
}

#[test]
fn key_names_pass_through() {
    for name in ["Tab", "Escape", "Backspace", "Delete", "ArrowUp", "ArrowLeft", "F5", "a"] {
        let (key, code) = key_identifiers(name);
        assert_eq!(key, name);
        assert_eq!(code, name);
    }
}

#[test]
fn enter_and_tab_wait_first() {
    let enter = plan_press_enter();
    assert!(100 <= enter.pause_ms && enter.pause_ms < 300);
    assert_eq!(enter.events[0].key, "Enter");
    let tab = plan_press_tab();
    assert!(50 <= tab.pause_ms && tab.pause_ms < 150);
    assert_eq!(tab.events[1].code, "Tab");
}

#[test]
fn typing_delays_fall_in_range() {
    for (min, max) in [(50u64, 150u64), (10, 11), (0, 1000)] {
        let text = "héllo, wörld";
        let steps = plan_typing(text, min, max);
        assert_eq!(steps.len(), 2 * text.chars().count());
        for (i, c) in text.chars().enumerate() {
            assert_eq!(steps[2 * i], TypingStep::Char(c));
            assert!(is_keystroke_pause(&steps[2 * i + 1], min, max));
        }
    }
}

#[test]
fn typing_empty_text_plans_nothing() {
    assert!(plan_typing("", 50, 150).is_empty());
    assert!(plan_typing_with_typos("").is_empty());
}

/// Reads a plan back into the text it types, checking its shape.
fn read_typo_plan(steps: &[TypingStep]) -> (String, usize) {
    let mut text = String::new();
    let mut typos = 0;
    let mut i = 0;
    while i < steps.len() {
        if i + 4 < steps.len() && steps[i + 2] == TypingStep::Backspace {
            match steps[i] {
                TypingStep::Char(t) => assert!("qwertasdfg".contains(t)),
                _ => panic!("typo block without a key"),
            }
            assert!(matches!(steps[i + 1], TypingStep::Pause(v) if (100..300).contains(&v)));
            assert!(matches!(steps[i + 3], TypingStep::Pause(v) if (30..80).contains(&v)));
            match steps[i + 4] {
                TypingStep::Char(c) => assert!(c.is_alphabetic()),
                _ => panic!("typo not followed by a character"),
            }
            typos += 1;
            i += 4;
        }
        match steps[i] {
            TypingStep::Char(c) => text.push(c),
            _ => panic!("expected a character"),
        }
        assert!(is_keystroke_pause(&steps[i + 1], 50, 150));
        i += 2;
    }
    (text, typos)
}

#[test]
fn typos_only_before_letters_with_one_backspace() {
    let letters: String = "thequickbrownfox".repeat(40);
    let mut seen = 0;
    for _ in 0..5 {
        let steps = plan_typing_with_typos(&letters);
        let (text, typos) = read_typo_plan(&steps);
        assert_eq!(text, letters);
        assert_eq!(
            steps.iter().filter(|s| **s == TypingStep::Backspace).count(),
            typos
        );
        seen += typos;
    }
    assert!(seen > 0);
    let digits = "0123456789 .,;-".repeat(20);
    let steps = plan_typing_with_typos(&digits);
    assert_eq!(steps.len(), 2 * digits.len());
    assert!(!steps.contains(&TypingStep::Backspace));
}

#[test]
fn scroll_step_exact_values() {
    assert_eq!(scroll_step(300, 0, 6, 0), 25);
    assert_eq!(scroll_step(300, 3, 6, 0), 100);
    assert_eq!(scroll_step(-300, 0, 6, 0), -25);
    assert_eq!(scroll_step(100, 5, 6, 4), 81);
    assert_eq!(scroll_step(300, 5, 6, 4), 200);
    assert_eq!(scroll_step(10_000, 7, 15, 0), 200);
    assert_eq!(scroll_step(-10_000, 7, 15, -10), -200);
    assert_eq!(scroll_step(0, 0, 3, -10), -10);
}

#[test]
fn scroll_steps_stay_bounded() {
    for delta in [0, 1, -120, 149, 150, 1000, -1000, 750, i32::MAX, i32::MIN] {
        let count = (delta as i64).abs() / 50;
        let count = count.clamp(3, 15) as usize;
        let steps = plan_scroll(delta);
        assert!(steps.len() <= count);
        for s in &steps {
            assert!(-200 <= s.delta_y && s.delta_y <= 200 && s.delta_y != 0);
            assert!(16 <= s.pause_ms && s.pause_ms < 50);
        }
    }
}

#[test]
fn scroll_covers_a_moderate_distance() {
    let steps = plan_scroll(600);
    assert!(!steps.is_empty());
    assert!(steps.len() <= 12);
    let total: i64 = steps.iter().map(|s| s.delta_y).sum();
    assert!(total > 300 && total < 900);
}

#[test]
fn scroll_deltas_exact_values() {
    assert_eq!(scroll_deltas(300, &vec![0; 6]), vec![25, 42, 58, 58, 58, 45]);
    assert_eq!(scroll_deltas(-300, &vec![0; 6]), vec![-25, -42, -58, -58, -58, -45]);
    assert_eq!(scroll_deltas(0, &vec![-10, -10, -10]), vec![-10, -5, 5]);
    assert_eq!(scroll_deltas(0, &vec![0, 0, 0]), Vec::<i64>::new());
    let big = scroll_deltas(100_000, &vec![10; 15]);
    assert_eq!(big, vec![200; 15]);
}

#[test]
fn typo_block_only_for_a_slipped_letter() {
    let steps = char_steps('x', true, true);
    assert_eq!(steps.len(), 6);
    assert!(matches!(steps[0], TypingStep::Char(t) if "qwertasdfg".contains(t)));
    assert!(matches!(steps[1], TypingStep::Pause(v) if (100..300).contains(&v)));
    assert_eq!(steps[2], TypingStep::Backspace);
    assert!(matches!(steps[3], TypingStep::Pause(v) if (30..80).contains(&v)));
    assert_eq!(steps[4], TypingStep::Char('x'));
    assert!(is_keystroke_pause(&steps[5], 50, 150));
    for (c, letter, slip) in [('1', false, true), ('x', true, false), ('?', false, false)] {
        let steps = char_steps(c, letter, slip);
        assert_eq!(steps.len(), 2);
        assert_eq!(steps[0], TypingStep::Char(c));
        assert!(is_keystroke_pause(&steps[1], 50, 150));
    }
}
