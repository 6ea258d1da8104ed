//! The application state and the inputs that change it.
use vstd::prelude::*;

verus! {

/// Largest magnitude of a wheel-scroll multiplier, in tenths (2.0).
pub const MULTIPLIER_LIMIT_TENTHS: i64 = 20;

/// A multiplier of 1.0, in tenths.
pub const UNIT_MULTIPLIER_TENTHS: i64 = 10;

/// Per-axis factor applied to wheel-scroll deltas, held in tenths
/// (`x == 15` stands for 1.5).
#[derive(Clone, Copy, Debug, PartialEq, Eq, Structural)]
pub struct Multiplier {
    pub x: i64,
    pub y: i64,
}

/// Forces a multiplier value, in tenths, into the accepted range.
pub open spec fn clamp_tenths(v: int) -> int {
    if v < -MULTIPLIER_LIMIT_TENTHS {
        -MULTIPLIER_LIMIT_TENTHS as int
    } else if v > MULTIPLIER_LIMIT_TENTHS {
        MULTIPLIER_LIMIT_TENTHS as int
    } else {
        v
    }
}

/// Whether a flag is set after it has been flipped `n` times, starting from `b`.
pub open spec fn flipped(b: bool, n: nat) -> bool {
    if n % 2 == 0 { b } else { !b }
}

impl Multiplier {
    /// Both axes lie within [-2.0, 2.0].
    pub open spec fn wf(self) -> bool {
        -MULTIPLIER_LIMIT_TENTHS <= self.x <= MULTIPLIER_LIMIT_TENTHS
            && -MULTIPLIER_LIMIT_TENTHS <= self.y <= MULTIPLIER_LIMIT_TENTHS
    }

    /// A multiplier of 1.0 on both axes.
    pub fn unit() -> (r: Multiplier)
        ensures
            r.x == UNIT_MULTIPLIER_TENTHS,
            r.y == UNIT_MULTIPLIER_TENTHS,
            r.wf(),
    {
        Multiplier { x: UNIT_MULTIPLIER_TENTHS, y: UNIT_MULTIPLIER_TENTHS }
    }
}

/// Clamps a multiplier value, in tenths, to [-2.0, 2.0].
pub fn clamp_multiplier(v: i64) -> (r: i64)
    ensures
        r == clamp_tenths(v as int),
{
    if v < -MULTIPLIER_LIMIT_TENTHS {
        -MULTIPLIER_LIMIT_TENTHS
    } else if v > MULTIPLIER_LIMIT_TENTHS {
        MULTIPLIER_LIMIT_TENTHS
    } else {
        v
    }
}

/// One user interaction with the controls or the canvas.
#[derive(Clone, Copy, Debug, PartialEq, Eq, Structural)]
pub enum Input {
    /// The "Drag" button was clicked.
    ToggleDrag,
    /// The "Wheel" button was clicked.
    ToggleWheel,
    /// The "Bar" button was clicked.
    ToggleBar,
    /// The canvas was clicked.
    CanvasClick,
    /// The X multiplier field was set to this many tenths.
    SetMultiplierX(i64),
    /// The Y multiplier field was set to this many tenths.
    SetMultiplierY(i64),
}

/// Everything the scroll-area demo remembers between frames.
#[derive(Clone, Copy, Debug, PartialEq, Eq, Structural)]
pub struct ScrollAreaApp {
    /// Dragging the contents scrolls the canvas.
    pub drag_enabled: bool,
    /// The mouse wheel scrolls the canvas.
    pub wheel_enabled: bool,
    /// The scroll bars scroll the canvas, and are shown.
    pub bar_enabled: bool,
    /// Flipped on each click on the canvas; selects the crosshair cursor.
    pub clicked_within: bool,
    /// Factor applied to wheel deltas, per axis.
    pub wheel_scroll_multiplier: Multiplier,
}

/// The state after one input.
pub open spec fn step(s: ScrollAreaApp, e: Input) -> ScrollAreaApp {
    match e {
        Input::ToggleDrag => ScrollAreaApp { drag_enabled: !s.drag_enabled, ..s },
        Input::ToggleWheel => ScrollAreaApp { wheel_enabled: !s.wheel_enabled, ..s },
        Input::ToggleBar => ScrollAreaApp { bar_enabled: !s.bar_enabled, ..s },
        Input::CanvasClick => ScrollAreaApp { clicked_within: !s.clicked_within, ..s },
        Input::SetMultiplierX(v) => ScrollAreaApp {
            wheel_scroll_multiplier: Multiplier {
                x: clamp_tenths(v as int) as i64,
                ..s.wheel_scroll_multiplier
            },
            ..s
        },
        Input::SetMultiplierY(v) => ScrollAreaApp {
            wheel_scroll_multiplier: Multiplier {
                y: clamp_tenths(v as int) as i64,
                ..s.wheel_scroll_multiplier
            },
            ..s
        },
    }
}

/// The state after a sequence of inputs, applied in order.
pub open spec fn run(s: ScrollAreaApp, es: Seq<Input>) -> ScrollAreaApp
    decreases es.len(),
{
    if es.len() == 0 {
        s
    } else {
        run(step(s, es[0]), es.drop_first())
    }
}

/// A flag toggle or a canvas click: an input that flips one flag.
pub open spec fn is_flip(e: Input) -> bool {
    match e {
        Input::ToggleDrag | Input::ToggleWheel | Input::ToggleBar | Input::CanvasClick => true,
        _ => false,
    }
}

impl ScrollAreaApp {
    /// The multiplier is within range.
    pub open spec fn wf(self) -> bool {
        self.wheel_scroll_multiplier.wf()
    }

    /// All three scroll sources on, canvas not clicked, multiplier 1.0.
    pub fn new() -> (r: ScrollAreaApp)
        ensures
            r.drag_enabled,
            r.wheel_enabled,
            r.bar_enabled,
            !r.clicked_within,
            r.wheel_scroll_multiplier.x == UNIT_MULTIPLIER_TENTHS,
            r.wheel_scroll_multiplier.y == UNIT_MULTIPLIER_TENTHS,
            r.wf(),
    {
        ScrollAreaApp {
            drag_enabled: true,
            wheel_enabled: true,
            bar_enabled: true,
            clicked_within: false,
            wheel_scroll_multiplier: Multiplier::unit(),
        }
    }

    /// Applies one input.
    pub fn apply(&mut self, e: Input)
        ensures
            *final(self) == step(*old(self), e),
    {
        match e {
            Input::ToggleDrag => self.drag_enabled = !self.drag_enabled,
            Input::ToggleWheel => self.wheel_enabled = !self.wheel_enabled,
            Input::ToggleBar => self.bar_enabled = !self.bar_enabled,
            Input::CanvasClick => self.clicked_within = !self.clicked_within,
            Input::SetMultiplierX(v) => self.wheel_scroll_multiplier.x = clamp_multiplier(v),
            Input::SetMultiplierY(v) => self.wheel_scroll_multiplier.y = clamp_multiplier(v),
        }
    }

    /// Applies a sequence of inputs in order.
    pub fn apply_all(&mut self, es: &Vec<Input>)
        ensures
            *final(self) == run(*old(self), es@),
    {
        let ghost start = *self;
        let mut i: usize = 0;
        proof {
            assert(es@.subrange(0, es@.len() as int) =~= es@);
        }
        while i < es.len()
            invariant
                0 <= i <= es@.len(),
                run(start, es@) == run(*self, es@.subrange(i as int, es@.len() as int)),
            decreases es@.len() - i,
        {
            proof {
                let rest = es@.subrange(i as int, es@.len() as int);
                assert(rest.drop_first() =~= es@.subrange(i + 1, es@.len() as int));
            }
            self.apply(es[i]);
            i = i + 1;
        }
        proof {
            assert(es@.subrange(i as int, es@.len() as int) =~= Seq::<Input>::empty());
        }
    }
}

/// Flipping a flag twice, by its button or by clicking the canvas, restores the state.
pub proof fn lemma_double_flip(s: ScrollAreaApp, e: Input)
    requires
        is_flip(e),
    ensures
        step(step(s, e), e) == s,
{
}

/// Running two sequences of inputs one after the other is running their concatenation.
pub proof fn lemma_run_concat(s: ScrollAreaApp, a: Seq<Input>, b: Seq<Input>)
    ensures
        run(s, a + b) == run(run(s, a), b),
    decreases a.len(),
{
    if a.len() > 0 {
        assert((a + b).drop_first() =~= a.drop_first() + b);
        lemma_run_concat(step(s, a[0]), a.drop_first(), b);
    } else {
        assert(a + b =~= b);
    }
}

/// Whatever inputs arrive, both multipliers stay within [-2.0, 2.0].
pub proof fn lemma_multiplier_in_range(s: ScrollAreaApp, es: Seq<Input>)
    requires
        s.wf(),
    ensures
        run(s, es).wf(),
        -MULTIPLIER_LIMIT_TENTHS <= run(s, es).wheel_scroll_multiplier.x <= MULTIPLIER_LIMIT_TENTHS,
        -MULTIPLIER_LIMIT_TENTHS <= run(s, es).wheel_scroll_multiplier.y <= MULTIPLIER_LIMIT_TENTHS,
    decreases es.len(),
{
    if es.len() > 0 {
        lemma_multiplier_in_range(step(s, es[0]), es.drop_first());
    }
}

/// `n` clicks on the canvas in a row.
pub open spec fn canvas_clicks(n: nat) -> Seq<Input> {
    Seq::new(n, |i: int| Input::CanvasClick)
}

/// `n` clicks on the canvas leave `clicked_within` as it was when `n` is even and
/// flip it when `n` is odd; nothing else changes.
pub proof fn lemma_canvas_clicks(s: ScrollAreaApp, n: nat)
    ensures
        run(s, canvas_clicks(n))
            == (ScrollAreaApp { clicked_within: flipped(s.clicked_within, n), ..s }),
    decreases n,
{
    if n > 0 {
        let fewer = canvas_clicks((n - 1) as nat);
        let one = seq![Input::CanvasClick];
        assert(canvas_clicks(n) =~= fewer + one);
        lemma_run_concat(s, fewer, one);
        lemma_canvas_clicks(s, (n - 1) as nat);
        let mid = run(s, fewer);
        assert(one.drop_first() =~= Seq::<Input>::empty());
        assert(run(mid, one) == run(step(mid, Input::CanvasClick), Seq::<Input>::empty()));
        assert(run(mid, one) == step(mid, Input::CanvasClick));
    } else {
        assert(canvas_clicks(n) =~= Seq::<Input>::empty());
    }
}

} // verus!
