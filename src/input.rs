//! Plans of human-like input: mouse moves, clicks, keystrokes and scrolling.
//!
//! Each plan is a list of steps with their pauses; the session dispatches
//! them in order and sleeps for each pause.
use crate::motion::{
    draws_in_range, is_path, within_path_limit, BezierPath, PathDraws, Point, PATH_LIMIT,
};
use crate::random::{chance, random_in};
use vstd::prelude::*;
use vstd::string::*;

verus! {

/// Segments of the path of one mouse move.
pub const MOVE_STEPS: usize = 25;

/// Largest distance, per axis, between a click target and the point reached.
pub const TARGET_JITTER: i64 = 2;

/// Largest coordinate, in absolute value, of a mouse target.
pub const TARGET_LIMIT: i64 = 1_000_000_000;

/// Shortest and longest (exclusive) pause between keystrokes by default.
pub const DEFAULT_MIN_DELAY_MS: u64 = 50;

pub const DEFAULT_MAX_DELAY_MS: u64 = 150;

/// Chance, in percent, of a longer pause after a keystroke.
pub const THINKING_PERCENT: u32 = 5;

/// Chance, in percent, of a typo before a letter.
pub const TYPO_PERCENT: u32 = 3;

pub open spec fn within_target_limit(p: Point) -> bool {
    -TARGET_LIMIT <= p.x <= TARGET_LIMIT && -TARGET_LIMIT <= p.y <= TARGET_LIMIT
}

/// One point of a mouse move and the pause after dispatching it.
#[derive(Clone, Copy, Debug, PartialEq, Eq)]
pub struct MouseStep {
    pub point: Point,
    pub pause_ms: u64,
}

pub open spec fn points_of(steps: Seq<MouseStep>) -> Seq<Point> {
    steps.map_values(|s: MouseStep| s.point)
}

/// What every mouse move from `from` toward `to` satisfies: a Bezier path of
/// `MOVE_STEPS` segments from `from` to a point at most `TARGET_JITTER` pixels
/// off `to` on each axis, with a pause of 5 to 14 ms after each point.
pub open spec fn is_mouse_move(steps: Seq<MouseStep>, from: Point, to: Point) -> bool {
    &&& steps.len() == MOVE_STEPS + 1
    &&& steps[0].point == from
    &&& -TARGET_JITTER <= steps.last().point.x - to.x <= TARGET_JITTER
    &&& -TARGET_JITTER <= steps.last().point.y - to.y <= TARGET_JITTER
    &&& forall|i: int| 0 <= i < steps.len() ==> 5 <= #[trigger] steps[i].pause_ms < 15
    &&& exists|end: Point, d: PathDraws|
        #[trigger] is_path(points_of(steps), from, end, d, MOVE_STEPS as nat) && draws_in_range(
            from,
            end,
            d,
        ) && end == steps.last().point
}

/// Plans a mouse move from the cursor at `from` to about `to`.
pub fn plan_mouse_move(from: Point, to: Point) -> (r: Vec<MouseStep>)
    requires
        within_path_limit(from),
        within_target_limit(to),
    ensures
        is_mouse_move(r@, from, to),
{
    let end = Point {
        x: to.x + random_in(-TARGET_JITTER, TARGET_JITTER),
        y: to.y + random_in(-TARGET_JITTER, TARGET_JITTER),
    };
    let path = BezierPath::generate(from, end, MOVE_STEPS);
    let ghost d = choose|d: PathDraws|
        #[trigger] is_path(path@, from, end, d, MOVE_STEPS as nat) && draws_in_range(from, end, d);
    let mut steps: Vec<MouseStep> = Vec::new();
    let mut i: usize = 0;
    while i < path.len()
        invariant
            path@.len() == MOVE_STEPS + 1,
            i <= path@.len(),
            steps@.len() == i,
            forall|j: int| 0 <= j < i ==> (#[trigger] steps@[j]).point == path@[j],
            forall|j: int| 0 <= j < i ==> 5 <= #[trigger] steps@[j].pause_ms < 15,
        decreases path@.len() - i,
    {
        let pause = random_in(5, 14) as u64;
        steps.push(MouseStep { point: path[i], pause_ms: pause });
        i = i + 1;
    }
    assert(points_of(steps@) =~= path@);
    assert(is_path(points_of(steps@), from, end, d, MOVE_STEPS as nat));
    steps
}

/// A move to a target followed by a click where the cursor came to rest.
#[derive(Clone, Debug)]
pub struct ClickPlan {
    pub path: Vec<MouseStep>,
    /// Pause after arriving, before pressing.
    pub settle_ms: u64,
    /// Where the click lands: the last point of the path.
    pub click_at: Point,
    /// Pause after the click.
    pub release_ms: u64,
}

/// Plans a human-like click near `to`, starting from the cursor at `from`.
pub fn plan_click_human(from: Point, to: Point) -> (r: ClickPlan)
    requires
        within_path_limit(from),
        within_target_limit(to),
    ensures
        is_mouse_move(r.path@, from, to),
        r.click_at == r.path@.last().point,
        50 <= r.settle_ms < 150,
        30 <= r.release_ms < 80,
{
    let path = plan_mouse_move(from, to);
    let settle_ms = random_in(50, 149) as u64;
    let click_at = path[path.len() - 1].point;
    let release_ms = random_in(30, 79) as u64;
    ClickPlan { path, settle_ms, click_at, release_ms }
}

/// The phase of a key event.
#[derive(Clone, Copy, Debug, PartialEq, Eq)]
pub enum KeyEventKind {
    RawKeyDown,
    KeyUp,
}

/// A key event that names its key and code.
#[derive(Clone, Debug)]
pub struct KeyEvent {
    pub kind: KeyEventKind,
    pub key: String,
    pub code: String,
}

/// The key and code identifiers of a named key. The named keys (Enter, Tab,
/// Escape, Backspace, Delete and the arrows) use their own name as key and as
/// code, and any other name passes through unchanged as both.
pub fn key_identifiers(name: &str) -> (r: (String, String))
    ensures
        r.0@ == name@,
        r.1@ == name@,
{
    (String::from_str(name), String::from_str(name))
}

/// The events of one key press: a raw key-down, then a key-up, both carrying
/// the key's identifiers.
pub fn press_key_events(name: &str) -> (r: Vec<KeyEvent>)
    ensures
        r@.len() == 2,
        r@[0].kind == KeyEventKind::RawKeyDown,
        r@[1].kind == KeyEventKind::KeyUp,
        forall|i: int| 0 <= i < 2 ==> (#[trigger] r@[i]).key@ == name@ && r@[i].code@ == name@,
{
    let (key, code) = key_identifiers(name);
    let (key2, code2) = key_identifiers(name);
    let mut r: Vec<KeyEvent> = Vec::new();
    r.push(KeyEvent { kind: KeyEventKind::RawKeyDown, key, code });
    r.push(KeyEvent { kind: KeyEventKind::KeyUp, key: key2, code: code2 });
    r
}

/// A key press preceded by a pause.
#[derive(Clone, Debug)]
pub struct KeyPressPlan {
    pub pause_ms: u64,
    pub events: Vec<KeyEvent>,
}

/// Enter after a pause of 100 to 299 ms.
pub fn plan_press_enter() -> (r: KeyPressPlan)
    ensures
        100 <= r.pause_ms < 300,
        r.events@.len() == 2,
        r.events@[0].kind == KeyEventKind::RawKeyDown,
        r.events@[1].kind == KeyEventKind::KeyUp,
        forall|i: int|
            0 <= i < 2 ==> (#[trigger] r.events@[i]).key@ == "Enter"@ && r.events@[i].code@
                == "Enter"@,
{
    let pause_ms = random_in(100, 299) as u64;
    KeyPressPlan { pause_ms, events: press_key_events("Enter") }
}

/// Tab after a pause of 50 to 149 ms.
pub fn plan_press_tab() -> (r: KeyPressPlan)
    ensures
        50 <= r.pause_ms < 150,
        r.events@.len() == 2,
        r.events@[0].kind == KeyEventKind::RawKeyDown,
        r.events@[1].kind == KeyEventKind::KeyUp,
        forall|i: int|
            0 <= i < 2 ==> (#[trigger] r.events@[i]).key@ == "Tab"@ && r.events@[i].code@
                == "Tab"@,
{
    let pause_ms = random_in(50, 149) as u64;
    KeyPressPlan { pause_ms, events: press_key_events("Tab") }
}

/// One step of typing.
#[derive(Clone, Copy, Debug, PartialEq, Eq)]
pub enum TypingStep {
    /// A key-down carrying the character, then a key-up.
    Char(char),
    /// A press of the Backspace key.
    Backspace,
    /// A pause, in milliseconds.
    Pause(u64),
}

/// Whether a character has the Unicode Alphabetic property.
pub uninterp spec fn alphabetic(c: char) -> bool;

/// Relies on `char::is_alphabetic`: whether the character has the Unicode
/// Alphabetic property, which depends on the character alone.
#[verifier::external_body]
fn is_alphabetic(c: char) -> (r: bool)
    ensures
        r == alphabetic(c),
{
    c.is_alphabetic()
}

/// A pause after a keystroke: drawn from `[min, max)`, or a thinking pause
/// drawn from `[200, 400)`.
pub open spec fn keystroke_pause(step: TypingStep, min: u64, max: u64) -> bool {
    step is Pause && ((min <= step->Pause_0 < max) || (200 <= step->Pause_0 < 400))
}

/// Every character of `text` typed in order, each followed by one pause.
pub open spec fn is_plain_typing(steps: Seq<TypingStep>, text: Seq<char>, min: u64, max: u64) -> bool {
    &&& steps.len() == 2 * text.len()
    &&& forall|i: int|
        0 <= i < text.len() ==> #[trigger] steps[2 * i] == TypingStep::Char(text[i])
            && keystroke_pause(steps[2 * i + 1], min, max)
}

/// A pause from `[lo, hi)`.
pub open spec fn pause_within(step: TypingStep, lo: u64, hi: u64) -> bool {
    step is Pause && lo <= step->Pause_0 < hi
}

/// Draws the pause after a keystroke.
fn keystroke_delay(min: u64, max: u64) -> (r: u64)
    requires
        min < max <= i64::MAX,
    ensures
        keystroke_pause(TypingStep::Pause(r), min, max),
{
    let delay = random_in(min as i64, (max - 1) as i64) as u64;
    if chance(THINKING_PERCENT, 100) {
        random_in(200, 399) as u64
    } else {
        delay
    }
}

/// Plans typing `text` with pauses drawn from `[min_delay_ms, max_delay_ms)`,
/// or now and then a longer thinking pause.
pub fn plan_typing(text: &str, min_delay_ms: u64, max_delay_ms: u64) -> (r: Vec<TypingStep>)
    requires
        min_delay_ms < max_delay_ms <= i64::MAX,
    ensures
        is_plain_typing(r@, text@, min_delay_ms, max_delay_ms),
{
    let n = text.unicode_len();
    let mut steps: Vec<TypingStep> = Vec::new();
    let mut i: usize = 0;
    while i < n
        invariant
            n == text@.len(),
            i <= n,
            min_delay_ms < max_delay_ms <= i64::MAX,
            steps@.len() == 2 * i,
            forall|j: int|
                0 <= j < i ==> #[trigger] steps@[2 * j] == TypingStep::Char(text@[j])
                    && keystroke_pause(steps@[2 * j + 1], min_delay_ms, max_delay_ms),
        decreases n - i,
    {
        let c = text.get_char(i);
        steps.push(TypingStep::Char(c));
        steps.push(TypingStep::Pause(keystroke_delay(min_delay_ms, max_delay_ms)));
        i = i + 1;
    }
    steps
}

/// The keys that a slip of the finger may hit instead of a letter.
pub open spec fn typo_keys() -> Seq<char> {
    seq!['q', 'w', 'e', 'r', 't', 'a', 's', 'd', 'f', 'g']
}

/// A mistyped key, the pause to notice it, a Backspace and the pause after it.
pub open spec fn is_typo_block(block: Seq<TypingStep>) -> bool {
    &&& block.len() == 4
    &&& block[0] is Char && typo_keys().contains(block[0]->Char_0)
    &&& pause_within(block[1], 100, 300)
    &&& block[2] == TypingStep::Backspace
    &&& pause_within(block[3], 30, 80)
}

/// `steps` types `text` with the default pauses; before an alphabetic
/// character there may be one typo block, and nowhere else.
pub open spec fn is_typo_typing(steps: Seq<TypingStep>, text: Seq<char>) -> bool
    decreases text.len(),
{
    if text.len() == 0 {
        steps.len() == 0
    } else {
        let k = steps.len() as int;
        &&& k >= 2
        &&& steps[k - 2] == TypingStep::Char(text.last())
        &&& keystroke_pause(steps[k - 1], DEFAULT_MIN_DELAY_MS, DEFAULT_MAX_DELAY_MS)
        &&& (is_typo_typing(steps.take(k - 2), text.drop_last()) || (alphabetic(text.last()) && k
            >= 6 && is_typo_block(steps.subrange(k - 6, k - 2)) && is_typo_typing(
            steps.take(k - 6),
            text.drop_last(),
        )))
    }
}

/// A character typed, then the pause after it, with the default pauses.
pub open spec fn is_keystroke(chunk: Seq<TypingStep>, c: char) -> bool {
    &&& chunk.len() == 2
    &&& chunk[0] == TypingStep::Char(c)
    &&& keystroke_pause(chunk[1], DEFAULT_MIN_DELAY_MS, DEFAULT_MAX_DELAY_MS)
}

/// The steps that type `c`: when the finger slipped (`slip`) and `c` is a
/// letter (`letter`), a typo block comes first; otherwise `c` alone.
pub fn char_steps(c: char, letter: bool, slip: bool) -> (r: Vec<TypingStep>)
    ensures
        slip && letter ==> r@.len() == 6 && is_typo_block(r@.take(4)) && is_keystroke(
            r@.skip(4),
            c,
        ),
        !(slip && letter) ==> is_keystroke(r@, c),
{
    let keys: Vec<char> = vec!['q', 'w', 'e', 'r', 't', 'a', 's', 'd', 'f', 'g'];
    assert(keys@ =~= typo_keys());
    let mut r: Vec<TypingStep> = Vec::new();
    if slip && letter {
        let k = random_in(0, 9) as usize;
        r.push(TypingStep::Char(keys[k]));
        r.push(TypingStep::Pause(random_in(100, 299) as u64));
        r.push(TypingStep::Backspace);
        r.push(TypingStep::Pause(random_in(30, 79) as u64));
        assert(typo_keys().contains(keys@[k as int]));
    }
    r.push(TypingStep::Char(c));
    r.push(TypingStep::Pause(keystroke_delay(DEFAULT_MIN_DELAY_MS, DEFAULT_MAX_DELAY_MS)));
    proof {
        if slip && letter {
            assert(r@.take(4)[0] == r@[0]);
            assert(r@.skip(4) =~= seq![r@[4], r@[5]]);
        }
    }
    r
}

/// Plans typing `text` with the default pauses and, before a letter now and
/// then, a wrong key that is noticed and erased with one Backspace.
pub fn plan_typing_with_typos(text: &str) -> (r: Vec<TypingStep>)
    ensures
        is_typo_typing(r@, text@),
{
    let n = text.unicode_len();
    let mut steps: Vec<TypingStep> = Vec::new();
    let mut i: usize = 0;
    while i < n
        invariant
            n == text@.len(),
            i <= n,
            is_typo_typing(steps@, text@.take(i as int)),
        decreases n - i,
    {
        let c = text.get_char(i);
        let ghost before = steps@;
        let slip = chance(TYPO_PERCENT, 100);
        let letter = is_alphabetic(c);
        let mut chunk = char_steps(c, letter, slip);
        let ghost added = chunk@;
        steps.append(&mut chunk);
        proof {
            let t = text@.take(i + 1);
            assert(t.drop_last() =~= text@.take(i as int));
            assert(t.last() == c);
            let k = steps@.len() as int;
            assert(steps@ == before + added);
            if slip && letter {
                assert(steps@.take(k - 6) =~= before);
                assert(steps@.subrange(k - 6, k - 2) =~= added.take(4));
                assert(steps@[k - 2] == added.skip(4)[0]);
                assert(steps@[k - 1] == added.skip(4)[1]);
            } else {
                assert(steps@.take(k - 2) =~= before);
            }
        }
        i = i + 1;
    }
    assert(text@.take(n as int) =~= text@);
    steps
}

/// One wheel event of a scroll and the pause after it.
#[derive(Clone, Copy, Debug, PartialEq, Eq)]
pub struct ScrollStep {
    pub delta_y: i64,
    pub pause_ms: u64,
}

pub open spec fn clamp(v: int, lo: int, hi: int) -> int {
    if v < lo {
        lo
    } else if v > hi {
        hi
    } else {
        v
    }
}

/// Number of wheel steps for a scroll of `delta`: one per 50 pixels, at
/// least 3 and at most 15.
pub open spec fn scroll_step_count(delta: int) -> int {
    let a = if delta < 0 {
        -delta
    } else {
        delta
    };
    clamp(a / 50, 3, 15)
}

/// Six `n`-ths of the ease factor of step `i` of `n`: it rises from one half
/// to one over the first 30% of the scroll, falls back to one half over the
/// last 30%, and stays at one between.
pub open spec fn ease_sixths(i: int, n: int) -> int {
    if 10 * i < 3 * n {
        10 * i + 3 * n
    } else if 10 * i > 7 * n {
        10 * (n - i) + 3 * n
    } else {
        6 * n
    }
}

/// The wheel delta of step `i` of `n`, with `remaining` pixels left to scroll.
pub open spec fn scroll_step_delta(remaining: int, i: int, n: int, jitter: int) -> int {
    let base = crate::motion::trunc_div(remaining, n - i);
    clamp(crate::motion::trunc_div(base * ease_sixths(i, n), 6 * n) + jitter, -200, 200)
}

/// The wheel delta of one scroll step: the remaining distance shared over
/// the remaining steps, eased, jittered and held within 200 pixels.
pub fn scroll_step(remaining: i64, i: u64, n: u64, jitter: i64) -> (r: i64)
    requires
        3 <= n <= 15,
        i < n,
        -0x1_0000_0000 <= remaining <= 0x1_0000_0000,
        -10 <= jitter <= 10,
    ensures
        r == scroll_step_delta(remaining as int, i as int, n as int, jitter as int),
        -200 <= r <= 200,
{
    let base = remaining / ((n - i) as i64);
    let ease: i64 = if 10 * i < 3 * n {
        (10 * i + 3 * n) as i64
    } else if 10 * i > 7 * n {
        (10 * (n - i) + 3 * n) as i64
    } else {
        (6 * n) as i64
    };
    proof {
        crate::motion::lemma_trunc_div_bound(remaining as int, (n - i) as int, 0x1_0000_0000 as int);
        assert(-0x1_0000_0000 * 150 <= base * ease <= 0x1_0000_0000 * 150) by (nonlinear_arith)
            requires
                -0x1_0000_0000 <= base <= 0x1_0000_0000,
                0 <= ease <= 150,
        ;
    }
    let scaled = (base * ease) / (6 * n as i64);
    proof {
        crate::motion::lemma_trunc_div_bound((base * ease) as int, 6 * n as int, (0x1_0000_0000 * 150) as int);
    }
    let step = scaled + jitter;
    if step < -200 {
        -200
    } else if step > 200 {
        200
    } else {
        step
    }
}

/// The nonzero wheel deltas of steps `i..n`, with `remaining` pixels left
/// and `jitters[k]` added at step `k`.
pub open spec fn scroll_deltas_from(remaining: int, i: int, n: int, jitters: Seq<i64>) -> Seq<int>
    decreases n - i,
{
    if i >= n {
        Seq::empty()
    } else {
        let s = scroll_step_delta(remaining, i, n, jitters[i] as int);
        if s == 0 {
            scroll_deltas_from(remaining, i + 1, n, jitters)
        } else {
            seq![s] + scroll_deltas_from(remaining - s, i + 1, n, jitters)
        }
    }
}

pub open spec fn jitters_in_range(delta: int, jitters: Seq<i64>) -> bool {
    &&& jitters.len() == scroll_step_count(delta)
    &&& forall|k: int| 0 <= k < jitters.len() ==> -10 <= #[trigger] jitters[k] <= 10
}

/// The wheel deltas of a scroll of `delta_y` pixels with the given jitter
/// of each step; steps that come to zero are left out.
pub fn scroll_deltas(delta_y: i32, jitters: &Vec<i64>) -> (r: Vec<i64>)
    requires
        jitters_in_range(delta_y as int, jitters@),
    ensures
        r@.map_values(|v: i64| v as int) == scroll_deltas_from(
            delta_y as int,
            0,
            scroll_step_count(delta_y as int),
            jitters@,
        ),
        r@.len() <= scroll_step_count(delta_y as int),
        forall|k: int| 0 <= k < r@.len() ==> -200 <= #[trigger] r@[k] <= 200 && r@[k] != 0,
{
    let magnitude: i64 = if delta_y < 0 {
        -(delta_y as i64)
    } else {
        delta_y as i64
    };
    let per = magnitude / 50;
    let n: u64 = if per < 3 {
        3
    } else if per > 15 {
        15
    } else {
        per as u64
    };
    let ghost total = scroll_deltas_from(delta_y as int, 0, n as int, jitters@);
    let mut remaining: i64 = delta_y as i64;
    let mut deltas: Vec<i64> = Vec::new();
    let mut i: u64 = 0;
    while i < n
        invariant
            n == scroll_step_count(delta_y as int),
            3 <= n <= 15,
            i <= n,
            jitters_in_range(delta_y as int, jitters@),
            deltas@.len() <= i,
            -0x8000_0000 - 200 * i <= remaining <= 0x8000_0000 + 200 * i,
            deltas@.map_values(|v: i64| v as int) + scroll_deltas_from(
                remaining as int,
                i as int,
                n as int,
                jitters@,
            ) == total,
            forall|k: int| 0 <= k < deltas@.len() ==> -200 <= #[trigger] deltas@[k] <= 200 && deltas@[k] != 0,
        decreases n - i,
    {
        let ghost before = deltas@;
        let step = scroll_step(remaining, i, n, jitters[i as usize]);
        if step != 0 {
            deltas.push(step);
            remaining = remaining - step;
            assert(deltas@.map_values(|v: i64| v as int) =~= before.map_values(|v: i64| v as int)
                + seq![step as int]);
        }
        i = i + 1;
    }
    assert(deltas@.map_values(|v: i64| v as int) =~= total);
    deltas
}

/// Plans a scroll of `delta_y` pixels (positive is down): the wheel deltas of
/// `scroll_deltas` for jitters drawn from [-10, 10], each followed by a
/// pause of 16 to 49 ms.
pub fn plan_scroll(delta_y: i32) -> (r: Vec<ScrollStep>)
    ensures
        3 <= scroll_step_count(delta_y as int) <= 15,
        r@.len() <= scroll_step_count(delta_y as int),
        exists|jitters: Seq<i64>|
            jitters_in_range(delta_y as int, jitters) && #[trigger] scroll_deltas_from(
                delta_y as int,
                0,
                scroll_step_count(delta_y as int),
                jitters,
            ) == r@.map_values(|s: ScrollStep| s.delta_y as int),
        forall|i: int|
            0 <= i < r@.len() ==> -200 <= (#[trigger] r@[i]).delta_y <= 200 && r@[i].delta_y != 0
                && 16 <= r@[i].pause_ms < 50,
{
    let magnitude: i64 = if delta_y < 0 {
        -(delta_y as i64)
    } else {
        delta_y as i64
    };
    let per = magnitude / 50;
    let n: usize = if per < 3 {
        3
    } else if per > 15 {
        15
    } else {
        per as usize
    };
    let mut jitters: Vec<i64> = Vec::new();
    while jitters.len() < n
        invariant
            n == scroll_step_count(delta_y as int),
            jitters@.len() <= n,
            forall|k: int| 0 <= k < jitters@.len() ==> -10 <= #[trigger] jitters@[k] <= 10,
        decreases n - jitters@.len(),
    {
        jitters.push(random_in(-10, 10));
    }
    let deltas = scroll_deltas(delta_y, &jitters);
    let mut steps: Vec<ScrollStep> = Vec::new();
    let mut i: usize = 0;
    while i < deltas.len()
        invariant
            i <= deltas@.len(),
            steps@.len() == i,
            forall|k: int| 0 <= k < i ==> (#[trigger] steps@[k]).delta_y == deltas@[k],
            forall|k: int| 0 <= k < i ==> 16 <= (#[trigger] steps@[k]).pause_ms < 50,
        decreases deltas@.len() - i,
    {
        let pause = random_in(16, 49) as u64;
        steps.push(ScrollStep { delta_y: deltas[i], pause_ms: pause });
        i = i + 1;
    }
    assert(steps@.map_values(|s: ScrollStep| s.delta_y as int) =~= deltas@.map_values(
        |v: i64| v as int,
    ));
    steps
}
} // verus!
