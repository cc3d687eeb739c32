//! Plain-data model of a physical gamepad as the arbitration engine sees it:
//! the identifiers of buttons and axes, one normalized input event, and a
//! snapshot of a controller's live state.
//!
//! Analog values are fixed-point thousandths: button and trigger values lie
//! in `[0, 1000]`, axis values in `[-1000, 1000]`.

use vstd::prelude::*;

verus! {

/// Identifier of a controller taking part in a session.  Stable for the
/// session's lifetime; assigned by the enumeration collaborator.
pub type ControllerId = usize;

/// The gamepad buttons the engine understands.  `Unknown` stands for any
/// vendor-specific button without an output mapping.
#[derive(Clone, Copy, Debug, PartialEq, Eq, Structural)]
pub enum Button {
    South,
    East,
    North,
    West,
    C,
    Z,
    LeftTrigger,
    LeftTrigger2,
    RightTrigger,
    RightTrigger2,
    Select,
    Start,
    Mode,
    LeftThumb,
    RightThumb,
    DPadUp,
    DPadDown,
    DPadLeft,
    DPadRight,
    Unknown,
}

/// The gamepad axes the engine understands.
#[derive(Clone, Copy, Debug, PartialEq, Eq, Structural)]
pub enum Axis {
    LeftStickX,
    LeftStickY,
    LeftZ,
    RightStickX,
    RightStickY,
    RightZ,
    DPadX,
    DPadY,
    Unknown,
}

/// One normalized input event, without its originating controller.
#[derive(Clone, Copy, Debug, PartialEq, Eq, Structural)]
pub enum EventKind {
    ButtonPressed(Button),
    ButtonReleased(Button),
    /// Pressure value of a button changed; value in `[0, 1000]`.
    ButtonChanged(Button, i32),
    /// An axis moved; value in `[-1000, 1000]`.
    AxisChanged(Axis, i32),
}

/// One normalized input event tagged with its originating controller.
#[derive(Clone, Copy, Debug, PartialEq, Eq, Structural)]
pub struct GamepadEvent {
    pub id: ControllerId,
    pub kind: EventKind,
}

impl GamepadEvent {
    /// The analog payload of the event lies in its documented range.
    pub open spec fn wf(&self) -> bool {
        match self.kind {
            EventKind::ButtonChanged(_, v) => 0 <= v <= 1000,
            EventKind::AxisChanged(_, v) => -1000 <= v <= 1000,
            _ => true,
        }
    }
}

/// Recorded state of one button of a controller.
#[derive(Clone, Copy, Debug, PartialEq, Eq, Structural)]
pub struct ButtonSnapshot {
    pub button: Button,
    /// Pressure in `[0, 1000]`.
    pub value: i32,
    pub pressed: bool,
}

/// Recorded state of one axis of a controller.
#[derive(Clone, Copy, Debug, PartialEq, Eq, Structural)]
pub struct AxisSnapshot {
    pub axis: Axis,
    /// Displacement in `[-1000, 1000]`.
    pub value: i32,
}

/// First entry for `b` in a sequence of button snapshots.
pub open spec fn button_entry(s: Seq<ButtonSnapshot>, b: Button) -> Option<ButtonSnapshot>
    decreases s.len(),
{
    if s.len() == 0 {
        None
    } else if s[0].button == b {
        Some(s[0])
    } else {
        button_entry(s.drop_first(), b)
    }
}

/// Pressure recorded for `b`; 0 when the button was never recorded.
pub open spec fn button_value_in(s: Seq<ButtonSnapshot>, b: Button) -> int {
    match button_entry(s, b) {
        Some(e) => e.value as int,
        None => 0,
    }
}

/// Whether `b` is recorded as held; false when the button was never recorded.
pub open spec fn button_pressed_in(s: Seq<ButtonSnapshot>, b: Button) -> bool {
    match button_entry(s, b) {
        Some(e) => e.pressed,
        None => false,
    }
}

/// First entry for `a` in a sequence of axis snapshots.
pub open spec fn axis_entry(s: Seq<AxisSnapshot>, a: Axis) -> Option<AxisSnapshot>
    decreases s.len(),
{
    if s.len() == 0 {
        None
    } else if s[0].axis == a {
        Some(s[0])
    } else {
        axis_entry(s.drop_first(), a)
    }
}

/// Displacement recorded for `a`; 0 when the axis was never recorded.
pub open spec fn axis_value_in(s: Seq<AxisSnapshot>, a: Axis) -> int {
    match axis_entry(s, a) {
        Some(e) => e.value as int,
        None => 0,
    }
}

/// Snapshot of one controller's live state: the last known value of every
/// recorded button and axis.  The arbitration engine reads it; the caller
/// keeps it current from the event stream.
pub struct ControllerState {
    buttons: Vec<ButtonSnapshot>,
    axes: Vec<AxisSnapshot>,
}

impl ControllerState {
    /// The recorded button snapshots, in recording order.
    pub closed spec fn btns(&self) -> Seq<ButtonSnapshot> {
        self.buttons@
    }

    /// The recorded axis snapshots, in recording order.
    pub closed spec fn axs(&self) -> Seq<AxisSnapshot> {
        self.axes@
    }

    pub open spec fn spec_button_value(&self, b: Button) -> int {
        button_value_in(self.btns(), b)
    }

    pub open spec fn spec_is_pressed(&self, b: Button) -> bool {
        button_pressed_in(self.btns(), b)
    }

    pub open spec fn spec_axis_value(&self, a: Axis) -> int {
        axis_value_in(self.axs(), a)
    }

    /// Every value is in range and every button and axis is recorded at most
    /// once.
    pub open spec fn wf(&self) -> bool {
        &&& forall|i: int|
            0 <= i < self.btns().len() ==> 0 <= (#[trigger] self.btns()[i]).value <= 1000
        &&& forall|i: int, j: int|
            0 <= i < j < self.btns().len() ==> (#[trigger] self.btns()[i]).button != (
            #[trigger] self.btns()[j]).button
        &&& forall|i: int|
            0 <= i < self.axs().len() ==> -1000 <= (#[trigger] self.axs()[i]).value <= 1000
        &&& forall|i: int, j: int|
            0 <= i < j < self.axs().len() ==> (#[trigger] self.axs()[i]).axis != (
            #[trigger] self.axs()[j]).axis
    }

    /// A state with nothing recorded: every button released, every axis
    /// centered.
    pub fn new() -> (r: Self)
        ensures
            r.wf(),
            r.btns() == Seq::<ButtonSnapshot>::empty(),
            r.axs() == Seq::<AxisSnapshot>::empty(),
    {
        ControllerState { buttons: Vec::new(), axes: Vec::new() }
    }

    pub fn buttons_len(&self) -> (n: usize)
        ensures
            n == self.btns().len(),
    {
        self.buttons.len()
    }

    pub fn button_at(&self, i: usize) -> (r: ButtonSnapshot)
        requires
            i < self.btns().len(),
        ensures
            r == self.btns()[i as int],
    {
        self.buttons[i]
    }

    pub fn axes_len(&self) -> (n: usize)
        ensures
            n == self.axs().len(),
    {
        self.axes.len()
    }

    pub fn axis_at(&self, i: usize) -> (r: AxisSnapshot)
        requires
            i < self.axs().len(),
        ensures
            r == self.axs()[i as int],
    {
        self.axes[i]
    }

    /// Pressure last recorded for `b`, 0 if never recorded.
    pub fn button_value(&self, b: Button) -> (r: i32)
        ensures
            r as int == self.spec_button_value(b),
            self.wf() ==> 0 <= r <= 1000,
    {
        proof {
            if self.wf() {
                lemma_button_value_bounded(self.btns(), b);
            }
        }
        let n = self.buttons.len();
        let mut i: usize = 0;
        proof {
            assert(self.btns().skip(0) =~= self.btns());
        }
        while i < n
            invariant
                n == self.btns().len(),
                0 <= i <= n,
                button_entry(self.btns(), b) == button_entry(self.btns().skip(i as int), b),
            decreases n - i,
        {
            if self.buttons[i].button == b {
                proof {
                    assert(self.btns().skip(i as int)[0] == self.btns()[i as int]);
                }
                return self.buttons[i].value;
            }
            proof {
                assert(self.btns().skip(i as int).drop_first() =~= self.btns().skip(i + 1));
            }
            i = i + 1;
        }
        proof {
            assert(self.btns().skip(n as int).len() == 0);
        }
        0
    }

    /// Whether `b` was last recorded as held; false if never recorded.
    pub fn is_pressed(&self, b: Button) -> (r: bool)
        ensures
            r == self.spec_is_pressed(b),
    {
        let n = self.buttons.len();
        let mut i: usize = 0;
        proof {
            assert(self.btns().skip(0) =~= self.btns());
        }
        while i < n
            invariant
                n == self.btns().len(),
                0 <= i <= n,
                button_entry(self.btns(), b) == button_entry(self.btns().skip(i as int), b),
            decreases n - i,
        {
            if self.buttons[i].button == b {
                proof {
                    assert(self.btns().skip(i as int)[0] == self.btns()[i as int]);
                }
                return self.buttons[i].pressed;
            }
            proof {
                assert(self.btns().skip(i as int).drop_first() =~= self.btns().skip(i + 1));
            }
            i = i + 1;
        }
        proof {
            assert(self.btns().skip(n as int).len() == 0);
        }
        false
    }

    /// Displacement last recorded for `a`, 0 if never recorded.
    pub fn axis_value(&self, a: Axis) -> (r: i32)
        ensures
            r as int == self.spec_axis_value(a),
            self.wf() ==> -1000 <= r <= 1000,
    {
        proof {
            if self.wf() {
                lemma_axis_value_bounded(self.axs(), a);
            }
        }
        let n = self.axes.len();
        let mut i: usize = 0;
        proof {
            assert(self.axs().skip(0) =~= self.axs());
        }
        while i < n
            invariant
                n == self.axs().len(),
                0 <= i <= n,
                axis_entry(self.axs(), a) == axis_entry(self.axs().skip(i as int), a),
            decreases n - i,
        {
            if self.axes[i].axis == a {
                proof {
                    assert(self.axs().skip(i as int)[0] == self.axs()[i as int]);
                }
                return self.axes[i].value;
            }
            proof {
                assert(self.axs().skip(i as int).drop_first() =~= self.axs().skip(i + 1));
            }
            i = i + 1;
        }
        proof {
            assert(self.axs().skip(n as int).len() == 0);
        }
        0
    }

    /// Record the state of button `b`.
    pub fn set_button(&mut self, b: Button, value: i32, pressed: bool)
        requires
            old(self).wf(),
            0 <= value <= 1000,
        ensures
            final(self).wf(),
            final(self).spec_button_value(b) == value,
            final(self).spec_is_pressed(b) == pressed,
            forall|x: Button|
                x != b ==> final(self).spec_button_value(x) == old(self).spec_button_value(x)
                    && final(self).spec_is_pressed(x) == old(self).spec_is_pressed(x),
            final(self).axs() == old(self).axs(),
    {
        let e = ButtonSnapshot { button: b, value, pressed };
        let n = self.buttons.len();
        let mut i: usize = 0;
        while i < n
            invariant
                self.btns() == old(self).btns(),
                self.axs() == old(self).axs(),
                n == self.btns().len(),
                0 <= i <= n,
                forall|j: int| 0 <= j < i ==> (#[trigger] self.btns()[j]).button != b,
            decreases n - i,
        {
            if self.buttons[i].button == b {
                let ghost pre = self.btns();
                self.buttons.set(i, e);
                proof {
                    assert forall|x: Button| #![trigger button_entry(self.btns(), x)]
                        button_entry(self.btns(), x) == (if x == b {
                            Some(e)
                        } else {
                            button_entry(pre, x)
                        }) by {
                        lemma_button_entry_update(pre, i as int, e, x);
                    }
                    assert forall|j: int| 0 <= j < self.btns().len() implies 0 <= (
                    #[trigger] self.btns()[j]).value <= 1000 && self.btns()[j].button
                        == pre[j].button by {
                        if j != i {
                            assert(self.btns()[j] == pre[j]);
                        }
                    }
                }
                return ;
            }
            i = i + 1;
        }
        let ghost pre = self.btns();
        self.buttons.push(e);
        proof {
            assert forall|x: Button| #![trigger button_entry(self.btns(), x)]
                button_entry(self.btns(), x) == (if x == b {
                    Some(e)
                } else {
                    button_entry(pre, x)
                }) by {
                lemma_button_entry_push(pre, e, x);
                if x == b {
                    lemma_no_button_means_no_entry(pre, b);
                }
            }
            assert forall|j: int, k: int| 0 <= j < k < self.btns().len() implies (
            #[trigger] self.btns()[j]).button != (#[trigger] self.btns()[k]).button by {
                assert(self.btns()[j] == pre[j]);
                assert(pre[j] == old(self).btns()[j]);
                if k < pre.len() {
                    assert(self.btns()[k] == pre[k]);
                    assert(pre[k] == old(self).btns()[k]);
                    assert(old(self).btns()[j].button != old(self).btns()[k].button);
                } else {
                    assert(self.btns()[k] == e);
                    assert(pre[j].button != b);
                }
            }
        }
    }

    /// Record the state of axis `a`.
    pub fn set_axis(&mut self, a: Axis, value: i32)
        requires
            old(self).wf(),
            -1000 <= value <= 1000,
        ensures
            final(self).wf(),
            final(self).spec_axis_value(a) == value,
            forall|x: Axis| x != a ==> final(self).spec_axis_value(x) == old(self).spec_axis_value(x),
            final(self).btns() == old(self).btns(),
    {
        let e = AxisSnapshot { axis: a, value };
        let n = self.axes.len();
        let mut i: usize = 0;
        while i < n
            invariant
                self.btns() == old(self).btns(),
                self.axs() == old(self).axs(),
                n == self.axs().len(),
                0 <= i <= n,
                forall|j: int| 0 <= j < i ==> (#[trigger] self.axs()[j]).axis != a,
            decreases n - i,
        {
            if self.axes[i].axis == a {
                let ghost pre = self.axs();
                self.axes.set(i, e);
                proof {
                    assert forall|x: Axis| #![trigger axis_entry(self.axs(), x)]
                        axis_entry(self.axs(), x) == (if x == a {
                            Some(e)
                        } else {
                            axis_entry(pre, x)
                        }) by {
                        lemma_axis_entry_update(pre, i as int, e, x);
                    }
                    assert forall|j: int| 0 <= j < self.axs().len() implies -1000 <= (
                    #[trigger] self.axs()[j]).value <= 1000 && self.axs()[j].axis
                        == pre[j].axis by {
                        if j != i {
                            assert(self.axs()[j] == pre[j]);
                        }
                    }
                }
                return ;
            }
            i = i + 1;
        }
        let ghost pre = self.axs();
        self.axes.push(e);
        proof {
            assert forall|x: Axis| #![trigger axis_entry(self.axs(), x)]
                axis_entry(self.axs(), x) == (if x == a {
                    Some(e)
                } else {
                    axis_entry(pre, x)
                }) by {
                lemma_axis_entry_push(pre, e, x);
                if x == a {
                    lemma_no_axis_means_no_entry(pre, a);
                }
            }
            assert forall|j: int, k: int| 0 <= j < k < self.axs().len() implies (
            #[trigger] self.axs()[j]).axis != (#[trigger] self.axs()[k]).axis by {
                assert(self.axs()[j] == pre[j]);
                assert(pre[j] == old(self).axs()[j]);
                if k < pre.len() {
                    assert(self.axs()[k] == pre[k]);
                    assert(pre[k] == old(self).axs()[k]);
                    assert(old(self).axs()[j].axis != old(self).axs()[k].axis);
                } else {
                    assert(self.axs()[k] == e);
                    assert(pre[j].axis != a);
                }
            }
        }
    }
}

/// An entry found by `button_entry` is an element of the sequence.
proof fn lemma_button_entry_is_element(s: Seq<ButtonSnapshot>, b: Button)
    requires
        button_entry(s, b) is Some,
    ensures
        exists|i: int|
            0 <= i < s.len() && s[i] == button_entry(s, b).unwrap() && s[i].button == b,
    decreases s.len(),
{
    if s.len() > 0 {
        if s[0].button == b {
            assert(s[0] == button_entry(s, b).unwrap());
        } else {
            lemma_button_entry_is_element(s.drop_first(), b);
            let i = choose|i: int|
                0 <= i < s.drop_first().len() && s.drop_first()[i] == button_entry(
                    s.drop_first(),
                    b,
                ).unwrap() && s.drop_first()[i].button == b;
            assert(s[i + 1] == s.drop_first()[i]);
        }
    }
}

/// In a sequence whose values are in `[0, 1000]`, every looked-up value is.
proof fn lemma_button_value_bounded(s: Seq<ButtonSnapshot>, b: Button)
    requires
        forall|i: int| 0 <= i < s.len() ==> 0 <= (#[trigger] s[i]).value <= 1000,
    ensures
        0 <= button_value_in(s, b) <= 1000,
{
    if button_entry(s, b) is Some {
        lemma_button_entry_is_element(s, b);
    }
}

/// An entry found by `axis_entry` is an element of the sequence.
proof fn lemma_axis_entry_is_element(s: Seq<AxisSnapshot>, a: Axis)
    requires
        axis_entry(s, a) is Some,
    ensures
        exists|i: int| 0 <= i < s.len() && s[i] == axis_entry(s, a).unwrap() && s[i].axis == a,
    decreases s.len(),
{
    if s.len() > 0 {
        if s[0].axis == a {
            assert(s[0] == axis_entry(s, a).unwrap());
        } else {
            lemma_axis_entry_is_element(s.drop_first(), a);
            let i = choose|i: int|
                0 <= i < s.drop_first().len() && s.drop_first()[i] == axis_entry(
                    s.drop_first(),
                    a,
                ).unwrap() && s.drop_first()[i].axis == a;
            assert(s[i + 1] == s.drop_first()[i]);
        }
    }
}

/// In a sequence whose values are in `[-1000, 1000]`, every looked-up value
/// is.
proof fn lemma_axis_value_bounded(s: Seq<AxisSnapshot>, a: Axis)
    requires
        forall|i: int| 0 <= i < s.len() ==> -1000 <= (#[trigger] s[i]).value <= 1000,
    ensures
        -1000 <= axis_value_in(s, a) <= 1000,
{
    if axis_entry(s, a) is Some {
        lemma_axis_entry_is_element(s, a);
    }
}

/// Overwriting the first entry for a button rewrites exactly that button's
/// lookup.
proof fn lemma_button_entry_update(s: Seq<ButtonSnapshot>, i: int, e: ButtonSnapshot, x: Button)
    requires
        0 <= i < s.len(),
        forall|j: int| 0 <= j < i ==> (#[trigger] s[j]).button != e.button,
        s[i].button == e.button,
    ensures
        button_entry(s.update(i, e), x) == if x == e.button {
            Some(e)
        } else {
            button_entry(s, x)
        },
    decreases i,
{
    if i == 0 {
        if x == e.button {
            assert(s.update(i, e)[0] == e);
        } else {
            assert(s.update(i, e)[0] == e);
            assert(s.update(i, e).drop_first() =~= s.drop_first());
            assert(s[0].button == e.button);
        }
    } else {
        assert(s.update(i, e)[0] == s[0]);
        assert(s.update(i, e).drop_first() =~= s.drop_first().update(i - 1, e));
        lemma_button_entry_update(s.drop_first(), i - 1, e, x);
        assert(s[0].button != e.button);
    }
}

/// If a button has no entry, the lookup is `None`.
proof fn lemma_no_button_means_no_entry(s: Seq<ButtonSnapshot>, b: Button)
    requires
        forall|j: int| 0 <= j < s.len() ==> (#[trigger] s[j]).button != b,
    ensures
        button_entry(s, b) is None,
    decreases s.len(),
{
    if s.len() > 0 {
        lemma_no_button_means_no_entry(s.drop_first(), b);
    }
}

/// Appending an entry only affects the lookup of a button that had none.
proof fn lemma_button_entry_push(s: Seq<ButtonSnapshot>, e: ButtonSnapshot, x: Button)
    ensures
        button_entry(s.push(e), x) == if button_entry(s, x) is Some {
            button_entry(s, x)
        } else if x == e.button {
            Some(e)
        } else {
            None::<ButtonSnapshot>
        },
    decreases s.len(),
{
    if s.len() == 0 {
        assert(s.push(e)[0] == e);
        assert(s.push(e).drop_first() =~= Seq::<ButtonSnapshot>::empty());
    } else {
        assert(s.push(e)[0] == s[0]);
        assert(s.push(e).drop_first() =~= s.drop_first().push(e));
        lemma_button_entry_push(s.drop_first(), e, x);
    }
}

/// Overwriting the first entry for an axis rewrites exactly that axis's
/// lookup.
proof fn lemma_axis_entry_update(s: Seq<AxisSnapshot>, i: int, e: AxisSnapshot, x: Axis)
    requires
        0 <= i < s.len(),
        forall|j: int| 0 <= j < i ==> (#[trigger] s[j]).axis != e.axis,
        s[i].axis == e.axis,
    ensures
        axis_entry(s.update(i, e), x) == if x == e.axis {
            Some(e)
        } else {
            axis_entry(s, x)
        },
    decreases i,
{
    if i == 0 {
        assert(s.update(i, e)[0] == e);
        if x != e.axis {
            assert(s.update(i, e).drop_first() =~= s.drop_first());
        }
    } else {
        assert(s.update(i, e)[0] == s[0]);
        assert(s.update(i, e).drop_first() =~= s.drop_first().update(i - 1, e));
        lemma_axis_entry_update(s.drop_first(), i - 1, e, x);
        assert(s[0].axis != e.axis);
    }
}

/// If an axis has no entry, the lookup is `None`.
proof fn lemma_no_axis_means_no_entry(s: Seq<AxisSnapshot>, a: Axis)
    requires
        forall|j: int| 0 <= j < s.len() ==> (#[trigger] s[j]).axis != a,
    ensures
        axis_entry(s, a) is None,
    decreases s.len(),
{
    if s.len() > 0 {
        lemma_no_axis_means_no_entry(s.drop_first(), a);
    }
}

/// Appending an entry only affects the lookup of an axis that had none.
proof fn lemma_axis_entry_push(s: Seq<AxisSnapshot>, e: AxisSnapshot, x: Axis)
    ensures
        axis_entry(s.push(e), x) == if axis_entry(s, x) is Some {
            axis_entry(s, x)
        } else if x == e.axis {
            Some(e)
        } else {
            None::<AxisSnapshot>
        },
    decreases s.len(),
{
    if s.len() == 0 {
        assert(s.push(e)[0] == e);
        assert(s.push(e).drop_first() =~= Seq::<AxisSnapshot>::empty());
    } else {
        assert(s.push(e)[0] == s[0]);
        assert(s.push(e).drop_first() =~= s.drop_first().push(e));
        lemma_axis_entry_push(s.drop_first(), e, x);
    }
}

} // verus!
