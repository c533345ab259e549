//! The decisions of the background features that send input on their own:
//! the anti-AFK nudger and the match auto-accepter.

use vstd::prelude::*;

verus! {

/// What the caller has to do with a feature's background worker.
#[derive(Clone, Copy, Debug, PartialEq, Eq, Structural)]
pub enum WorkerCommand {
    /// Leave the worker as it is.
    Keep,
    /// Stop the worker if one runs.
    Stop,
    /// Stop the worker if one runs, then start one with the current parameters.
    Restart,
}

/// `v` limited to `lo..=hi`.
pub open spec fn clamp(v: u32, lo: u32, hi: u32) -> u32 {
    if v < lo {
        lo
    } else if v > hi {
        hi
    } else {
        v
    }
}

fn clamp_exec(v: u32, lo: u32, hi: u32) -> (r: u32)
    requires
        lo <= hi,
    ensures
        r == clamp(v, lo, hi),
{
    if v < lo {
        lo
    } else if v > hi {
        hi
    } else {
        v
    }
}

/// The anti-AFK feature: whether its worker runs and the parameters it runs with.
pub struct AntiAfk {
    pub running: bool,
    pub interval: u32,
    pub move_pixels: u32,
    pub use_keyboard: bool,
}

/// The parameters stay within the ranges that the worker accepts.
pub open spec fn anti_afk_params_valid(a: AntiAfk) -> bool {
    &&& 5 <= a.interval <= 120
    &&& 1 <= a.move_pixels <= 50
}

/// The anti-AFK feature after applying one frame's settings, and what its
/// worker has to do.
pub open spec fn anti_afk_next(
    a: AntiAfk,
    enabled: bool,
    interval: u32,
    move_pixels: u32,
    use_keyboard: bool,
) -> (AntiAfk, WorkerCommand) {
    let i = clamp(interval, 5, 120);
    let m = clamp(move_pixels, 1, 50);
    if !enabled {
        (AntiAfk { running: false, ..a }, WorkerCommand::Stop)
    } else if !a.running || a.interval != i || a.move_pixels != m || a.use_keyboard != use_keyboard {
        (
            AntiAfk { running: true, interval: i, move_pixels: m, use_keyboard },
            WorkerCommand::Restart,
        )
    } else {
        (a, WorkerCommand::Keep)
    }
}

impl AntiAfk {
    /// No worker, with the default parameters.
    pub fn new() -> (r: Self)
        ensures
            !r.running,
            r.interval == 25,
            r.move_pixels == 8,
            r.use_keyboard,
            anti_afk_params_valid(r),
    {
        AntiAfk { running: false, interval: 25, move_pixels: 8, use_keyboard: true }
    }

    /// Applies the settings of this frame: the interval is limited to 5..=120
    /// seconds and the mouse movement to 1..=50 pixels; a running worker is
    /// restarted when a parameter changes.
    pub fn update(&mut self, enabled: bool, interval: u32, move_pixels: u32, use_keyboard: bool) -> (r: WorkerCommand)
        ensures
            (*final(self), r) == anti_afk_next(*old(self), enabled, interval, move_pixels, use_keyboard),
    {
        let interval = clamp_exec(interval, 5, 120);
        let move_pixels = clamp_exec(move_pixels, 1, 50);
        if enabled {
            if !self.running || self.interval != interval || self.move_pixels != move_pixels
                || self.use_keyboard != use_keyboard {
                self.interval = interval;
                self.move_pixels = move_pixels;
                self.use_keyboard = use_keyboard;
                self.running = true;
                WorkerCommand::Restart
            } else {
                WorkerCommand::Keep
            }
        } else {
            self.running = false;
            WorkerCommand::Stop
        }
    }
}

/// One step of an anti-AFK nudge.
#[derive(Clone, Copy, Debug, PartialEq, Eq, Structural)]
pub enum NudgeAction {
    Press(char),
    Release(char),
    WaitMillis(u64),
    MoveBy(i32),
}

/// How long a nudge key is held.
pub const KEY_HOLD_MILLIS: u64 = 350;

/// The number of half-second ticks the worker waits before each nudge.
pub fn wait_ticks(interval: u32) -> (r: u32)
    requires
        interval <= u32::MAX / 2,
    ensures
        r == 2 * (if interval < 5 {
            5
        } else {
            interval
        }),
{
    let base = if interval < 5 {
        5
    } else {
        interval
    };
    base * 2
}

/// The nudge sequence: tap `a` then `d`, or move the mouse right and back by
/// the configured distance limited to 1..=50 pixels.
pub open spec fn nudge_plan(use_keyboard: bool, move_pixels: u32) -> Seq<NudgeAction> {
    if use_keyboard {
        seq![
            NudgeAction::Press('a'),
            NudgeAction::WaitMillis(KEY_HOLD_MILLIS),
            NudgeAction::Release('a'),
            NudgeAction::WaitMillis(100),
            NudgeAction::Press('d'),
            NudgeAction::WaitMillis(KEY_HOLD_MILLIS),
            NudgeAction::Release('d'),
        ]
    } else {
        let p = clamp(move_pixels, 1, 50) as i32;
        seq![NudgeAction::MoveBy(p), NudgeAction::MoveBy((-p) as i32)]
    }
}

/// The inputs of one nudge, in order.
pub fn nudge_actions(use_keyboard: bool, move_pixels: u32) -> (r: Vec<NudgeAction>)
    ensures
        r@ == nudge_plan(use_keyboard, move_pixels),
{
    let mut r: Vec<NudgeAction> = Vec::new();
    if use_keyboard {
        r.push(NudgeAction::Press('a'));
        r.push(NudgeAction::WaitMillis(KEY_HOLD_MILLIS));
        r.push(NudgeAction::Release('a'));
        r.push(NudgeAction::WaitMillis(100));
        r.push(NudgeAction::Press('d'));
        r.push(NudgeAction::WaitMillis(KEY_HOLD_MILLIS));
        r.push(NudgeAction::Release('d'));
    } else {
        let p = clamp_exec(move_pixels, 1, 50) as i32;
        r.push(NudgeAction::MoveBy(p));
        r.push(NudgeAction::MoveBy(-p));
    }
    assert(r@ =~= nudge_plan(use_keyboard, move_pixels));
    r
}

/// The auto-accept feature: whether its worker runs.
pub struct AutoAccept {
    pub running: bool,
}

impl AutoAccept {
    /// No worker.
    pub fn new() -> (r: Self)
        ensures
            !r.running,
    {
        AutoAccept { running: false }
    }

    /// Starts the worker when the feature is enabled and none runs, stops it
    /// when the feature is disabled.
    pub fn update(&mut self, enabled: bool) -> (r: WorkerCommand)
        ensures
            final(self).running == enabled,
            r == (if !enabled {
                WorkerCommand::Stop
            } else if old(self).running {
                WorkerCommand::Keep
            } else {
                WorkerCommand::Restart
            }),
    {
        if !enabled {
            self.running = false;
            WorkerCommand::Stop
        } else if self.running {
            WorkerCommand::Keep
        } else {
            self.running = true;
            WorkerCommand::Restart
        }
    }
}

/// The color of the accept button, channel by channel.
pub open spec fn target_channel(i: int) -> int {
    if i == 0 {
        60
    } else if i == 1 {
        170
    } else {
        80
    }
}

/// How far a channel may be from the accept button's color.
pub const COLOR_TOLERANCE: i32 = 55;

/// Whether a pixel has the color of the accept button.
pub open spec fn pixel_matches_spec(pixel: [u8; 3]) -> bool {
    forall|i: int|
        0 <= i < 3 ==> -COLOR_TOLERANCE <= #[trigger] pixel@[i] - target_channel(i)
            <= COLOR_TOLERANCE
}

/// Whether a pixel has the color of the accept button.
pub fn pixel_matches(pixel: [u8; 3]) -> (r: bool)
    ensures
        r == pixel_matches_spec(pixel),
{
    let d0 = pixel[0] as i32 - 60;
    let d1 = pixel[1] as i32 - 170;
    let d2 = pixel[2] as i32 - 80;
    let r = -COLOR_TOLERANCE <= d0 && d0 <= COLOR_TOLERANCE && -COLOR_TOLERANCE <= d1 && d1
        <= COLOR_TOLERANCE && -COLOR_TOLERANCE <= d2 && d2 <= COLOR_TOLERANCE;
    proof {
        if r {
            assert forall|i: int| 0 <= i < 3 implies -COLOR_TOLERANCE <= #[trigger] pixel@[i]
                - target_channel(i) <= COLOR_TOLERANCE by {
                if i == 0 {
                } else if i == 1 {
                } else {
                }
            }
        } else {
            if !(-COLOR_TOLERANCE <= d0 && d0 <= COLOR_TOLERANCE) {
                assert(!(-COLOR_TOLERANCE <= pixel@[0] - target_channel(0) <= COLOR_TOLERANCE));
            } else if !(-COLOR_TOLERANCE <= d1 && d1 <= COLOR_TOLERANCE) {
                assert(!(-COLOR_TOLERANCE <= pixel@[1] - target_channel(1) <= COLOR_TOLERANCE));
            } else {
                assert(!(-COLOR_TOLERANCE <= pixel@[2] - target_channel(2) <= COLOR_TOLERANCE));
            }
        }
    }
    r
}

/// The number of pixels that have the accept button's color.
pub open spec fn matching_count(pixels: Seq<[u8; 3]>) -> nat
    decreases pixels.len(),
{
    if pixels.len() == 0 {
        0
    } else {
        matching_count(pixels.drop_last()) + if pixel_matches_spec(pixels.last()) {
            1nat
        } else {
            0nat
        }
    }
}

/// Counts the pixels that have the accept button's color.
pub fn count_matching(pixels: &Vec<[u8; 3]>) -> (r: usize)
    ensures
        r == matching_count(pixels@),
{
    let n = pixels.len();
    let mut count: usize = 0;
    let mut i: usize = 0;
    while i < n
        invariant
            n == pixels@.len(),
            i <= n,
            count == matching_count(pixels@.take(i as int)),
            count <= i,
        decreases n - i,
    {
        proof {
            assert(pixels@.take(i + 1).drop_last() =~= pixels@.take(i as int));
        }
        if pixel_matches(pixels[i]) {
            count = count + 1;
        }
        i = i + 1;
    }
    proof {
        assert(pixels@.take(n as int) =~= pixels@);
    }
    count
}

/// The accept button is taken to be on screen when at least 12 sampled pixels
/// have its color.
pub fn should_click(matching: usize) -> (r: bool)
    ensures
        r == (matching >= 12),
{
    matching >= 12
}

/// The column the scan is centred on: the middle of the screen.
pub fn scan_center_x(width: u32) -> (r: u32)
    ensures
        r == width / 2,
{
    width / 2
}

/// The 9 x 9 pixels around `(x, y)` that the scan samples, row by row; the
/// window starts 4 pixels up and left of the centre, or at the screen edge.
pub open spec fn scan_points_spec(x: u32, y: u32) -> Seq<(u32, u32)> {
    let left = if x >= 4 {
        x - 4
    } else {
        0
    };
    let top = if y >= 4 {
        y - 4
    } else {
        0
    };
    Seq::new(81, |k: int| ((left + k % 9) as u32, (top + k / 9) as u32))
}

/// The pixels the scan samples around `(x, y)`.
pub fn scan_points(x: u32, y: u32) -> (r: Vec<(u32, u32)>)
    requires
        x <= u32::MAX - 8,
        y <= u32::MAX - 8,
    ensures
        r@ == scan_points_spec(x, y),
{
    let left = x.saturating_sub(4);
    let top = y.saturating_sub(4);
    let mut r: Vec<(u32, u32)> = Vec::new();
    let mut oy: u32 = 0;
    while oy < 9
        invariant
            oy <= 9,
            left <= u32::MAX - 8,
            top <= u32::MAX - 8,
            left == (if x >= 4 { x - 4 } else { 0 }),
            top == (if y >= 4 { y - 4 } else { 0 }),
            r@.len() == 9 * oy,
            forall|k: int| 0 <= k < r@.len() ==> #[trigger] r@[k] == ((left + k % 9) as u32, (top + k / 9) as u32),
        decreases 9 - oy,
    {
        let mut ox: u32 = 0;
        while ox < 9
            invariant
                oy < 9,
                ox <= 9,
                left <= u32::MAX - 8,
                top <= u32::MAX - 8,
                r@.len() == 9 * oy + ox,
                forall|k: int| 0 <= k < r@.len() ==> #[trigger] r@[k] == ((left + k % 9) as u32, (top + k / 9) as u32),
            decreases 9 - ox,
        {
            proof {
                let k = 9 * oy + ox;
                assert(k % 9 == ox && k / 9 == oy) by (nonlinear_arith)
                    requires
                        k == 9 * oy + ox,
                        ox < 9,
                ;
            }
            r.push((left + ox, top + oy));
            ox = ox + 1;
        }
        oy = oy + 1;
    }
    assert(r@ =~= scan_points_spec(x, y));
    r
}

/// Where to click: the scan centre moved by the screen's origin.
pub fn click_position(display_x: i32, display_y: i32, x: u32, y: u32) -> (r: (i32, i32))
    requires
        x <= i32::MAX,
        y <= i32::MAX,
        i32::MIN <= display_x + x <= i32::MAX,
        i32::MIN <= display_y + y <= i32::MAX,
    ensures
        r.0 == display_x + x,
        r.1 == display_y + y,
{
    (display_x + x as i32, display_y + y as i32)
}

/// Applying the same settings twice in a row leaves the anti-AFK worker alone
/// the second time, whatever the first update did.
pub proof fn law_anti_afk_update_idempotent(
    a: AntiAfk,
    enabled: bool,
    interval: u32,
    move_pixels: u32,
    use_keyboard: bool,
)
    ensures
        ({
            let (a1, _) = anti_afk_next(a, enabled, interval, move_pixels, use_keyboard);
            let (a2, c2) = anti_afk_next(a1, enabled, interval, move_pixels, use_keyboard);
            &&& a2 == a1
            &&& c2 == (if enabled {
                WorkerCommand::Keep
            } else {
                WorkerCommand::Stop
            })
        }),
{
}

/// Every update keeps the worker parameters within the ranges the worker accepts.
pub proof fn law_anti_afk_params_stay_valid(
    a: AntiAfk,
    enabled: bool,
    interval: u32,
    move_pixels: u32,
    use_keyboard: bool,
)
    requires
        anti_afk_params_valid(a),
    ensures
        anti_afk_params_valid(anti_afk_next(a, enabled, interval, move_pixels, use_keyboard).0),
{
}

/// After an update the feature runs with exactly the requested parameters,
/// each brought into the worker's range, and the worker is restarted exactly
/// when that changes what ran before; a disabled update stops the worker and
/// keeps the parameters.
pub proof fn law_anti_afk_applies_request(
    a: AntiAfk,
    enabled: bool,
    interval: u32,
    move_pixels: u32,
    use_keyboard: bool,
)
    ensures
        ({
            let (n, c) = anti_afk_next(a, enabled, interval, move_pixels, use_keyboard);
            if enabled {
                &&& n.running
                &&& n.use_keyboard == use_keyboard
                &&& 5 <= n.interval <= 120
                &&& (5 <= interval <= 120 ==> n.interval == interval)
                &&& (interval < 5 ==> n.interval == 5)
                &&& (interval > 120 ==> n.interval == 120)
                &&& 1 <= n.move_pixels <= 50
                &&& (1 <= move_pixels <= 50 ==> n.move_pixels == move_pixels)
                &&& (move_pixels < 1 ==> n.move_pixels == 1)
                &&& (move_pixels > 50 ==> n.move_pixels == 50)
                &&& (c == WorkerCommand::Restart) == (n != a)
                &&& (c == WorkerCommand::Keep) == (n == a)
            } else {
                &&& n == AntiAfk { running: false, ..a }
                &&& c == WorkerCommand::Stop
            }
        }),
{
}

/// One pixel counts once where it has the button's color, else not at all.
pub proof fn law_matching_count_single(pixel: [u8; 3])
    ensures
        matching_count(seq![pixel]) == (if pixel_matches_spec(pixel) {
            1nat
        } else {
            0nat
        }),
{
    assert(seq![pixel].drop_last() =~= Seq::<[u8; 3]>::empty());
    assert(seq![pixel].last() == pixel);
    assert(matching_count(Seq::<[u8; 3]>::empty()) == 0);
}

/// Counting the pixels of two parts of the scan window adds up, in either
/// order: where the matching pixels lie makes no difference.
pub proof fn law_matching_count_additive(a: Seq<[u8; 3]>, b: Seq<[u8; 3]>)
    ensures
        matching_count(a + b) == matching_count(a) + matching_count(b),
        matching_count(a + b) == matching_count(b + a),
{
    lemma_matching_count_append(a, b);
    lemma_matching_count_append(b, a);
}

proof fn lemma_matching_count_append(a: Seq<[u8; 3]>, b: Seq<[u8; 3]>)
    ensures
        matching_count(a + b) == matching_count(a) + matching_count(b),
    decreases b.len(),
{
    if b.len() == 0 {
        assert(a + b =~= a);
    } else {
        lemma_matching_count_append(a, b.drop_last());
        assert((a + b).drop_last() =~= a + b.drop_last());
        assert((a + b).last() == b.last());
    }
}

/// The count is the number of pixels that have the button's color: the
/// length of the matching pixels picked out of the window.
pub proof fn law_matching_count_counts_matches(pixels: Seq<[u8; 3]>)
    ensures
        matching_count(pixels) == pixels.filter(|p: [u8; 3]| pixel_matches_spec(p)).len(),
    decreases pixels.len(),
{
    reveal(Seq::filter);
    if pixels.len() > 0 {
        law_matching_count_counts_matches(pixels.drop_last());
    }
}

} // verus!
