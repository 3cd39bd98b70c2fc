//! The pointer-event router: a registry of listeners, each an axis-aligned rectangle, and the
//! scan that compares the cursor and the raw button states with what each listener recorded.

use vstd::prelude::*;

verus! {

/// The mouse buttons that the router tracks.
#[derive(Debug, Clone, Copy, PartialEq, Eq, Structural)]
pub enum MouseButton {
    Left,
    Right,
    Middle,
    Back,
    Forward,
}

/// A notification that the router delivers to one listener.
#[derive(Debug, Clone, Copy, PartialEq, Eq, Structural)]
pub enum MouseEventKind {
    HoveringStart,
    HoveringFinish,
    ButtonDown {
        button: MouseButton,
        /// `true` if the listener was already hovered before the press, `false` if the button
        /// was pressed while the cursor was outside the listener and only moved in now.
        started_inside: bool,
    },
    ButtonUp {
        button: MouseButton,
        inside: bool,
    },
}

/// A notification together with the cursor position at the time it was produced.
#[derive(Debug, Clone, Copy)]
pub struct MouseEvent<P> {
    pub kind: MouseEventKind,
    pub cursor_position: P,
}

impl<P> MouseEvent<P> {
    pub fn new(kind: MouseEventKind, cursor_position: P) -> (r: Self)
        ensures
            r.kind == kind,
            r.cursor_position == cursor_position,
    {
        MouseEvent { kind, cursor_position }
    }
}

/// One pressed / released flag per tracked mouse button.
#[derive(Debug, Clone, Copy, PartialEq, Eq, Structural)]
pub struct ButtonStates {
    pub left: bool,
    pub right: bool,
    pub middle: bool,
    pub back: bool,
    pub forward: bool,
}

impl ButtonStates {
    pub open spec fn spec_get(self, button: MouseButton) -> bool {
        match button {
            MouseButton::Left => self.left,
            MouseButton::Right => self.right,
            MouseButton::Middle => self.middle,
            MouseButton::Back => self.back,
            MouseButton::Forward => self.forward,
        }
    }

    /// `self` with the flag of `button` replaced by `pressed`.
    pub open spec fn with(self, button: MouseButton, pressed: bool) -> ButtonStates {
        match button {
            MouseButton::Left => ButtonStates { left: pressed, ..self },
            MouseButton::Right => ButtonStates { right: pressed, ..self },
            MouseButton::Middle => ButtonStates { middle: pressed, ..self },
            MouseButton::Back => ButtonStates { back: pressed, ..self },
            MouseButton::Forward => ButtonStates { forward: pressed, ..self },
        }
    }

    pub open spec fn all_released() -> ButtonStates {
        ButtonStates { left: false, right: false, middle: false, back: false, forward: false }
    }

    /// All buttons released.
    pub fn released() -> (r: Self)
        ensures
            r == Self::all_released(),
    {
        ButtonStates { left: false, right: false, middle: false, back: false, forward: false }
    }

    pub fn get(&self, button: MouseButton) -> (r: bool)
        ensures
            r == self.spec_get(button),
    {
        match button {
            MouseButton::Left => self.left,
            MouseButton::Right => self.right,
            MouseButton::Middle => self.middle,
            MouseButton::Back => self.back,
            MouseButton::Forward => self.forward,
        }
    }

    pub fn set(&mut self, button: MouseButton, pressed: bool)
        ensures
            *final(self) == old(self).with(button, pressed),
    {
        match button {
            MouseButton::Left => self.left = pressed,
            MouseButton::Right => self.right = pressed,
            MouseButton::Middle => self.middle = pressed,
            MouseButton::Back => self.back = pressed,
            MouseButton::Forward => self.forward = pressed,
        }
    }
}

/// What the router remembers of one listener between scans.
#[derive(Debug, Clone, Copy, PartialEq, Eq, Structural)]
pub struct ListenerState {
    /// Is the cursor currently hovering over the listener?
    pub is_hovered: bool,
    /// The buttons that the listener is currently being pressed by.
    pub pressed: ButtonStates,
}

impl ListenerState {
    pub open spec fn fresh() -> ListenerState {
        ListenerState { is_hovered: false, pressed: ButtonStates::all_released() }
    }

    /// Not hovered, pressed by no button.
    pub fn new() -> (r: Self)
        ensures
            r == Self::fresh(),
    {
        ListenerState { is_hovered: false, pressed: ButtonStates::released() }
    }
}

/// The sequence holding the value of `o`, if any.
pub open spec fn opt_seq<T>(o: Option<T>) -> Seq<T> {
    match o {
        Some(t) => seq![t],
        None => seq![],
    }
}

/// The hover notification due when a listener that was `hovered` now has the cursor `inside`.
pub open spec fn hover_event(hovered: bool, inside: bool) -> Option<MouseEventKind> {
    if inside && !hovered {
        Some(MouseEventKind::HoveringStart)
    } else if !inside && hovered {
        Some(MouseEventKind::HoveringFinish)
    } else {
        None
    }
}

/// The notification due for `button` when the listener recorded it as `was` pressed and the
/// raw state is now `now`: a release is reported wherever the cursor is, a press only inside.
pub open spec fn button_event(
    button: MouseButton,
    was: bool,
    now: bool,
    inside: bool,
    hovered_before: bool,
) -> Option<MouseEventKind> {
    if was && !now {
        Some(MouseEventKind::ButtonUp { button, inside })
    } else if !was && now && inside {
        Some(MouseEventKind::ButtonDown { button, started_inside: hovered_before })
    } else {
        None
    }
}

/// What the listener records for a button after a scan.
pub open spec fn pressed_after(was: bool, now: bool, inside: bool) -> bool {
    if was && !now {
        false
    } else if !was && now && inside {
        true
    } else {
        was
    }
}

/// The state of a listener after a scan with the cursor `inside` it and the raw button states
/// `buttons`.
pub open spec fn listener_step(st: ListenerState, inside: bool, buttons: ButtonStates) -> ListenerState {
    ListenerState {
        is_hovered: inside,
        pressed: ButtonStates {
            left: pressed_after(st.pressed.left, buttons.left, inside),
            right: pressed_after(st.pressed.right, buttons.right, inside),
            middle: pressed_after(st.pressed.middle, buttons.middle, inside),
            back: pressed_after(st.pressed.back, buttons.back, inside),
            forward: pressed_after(st.pressed.forward, buttons.forward, inside),
        },
    }
}

/// The notifications of one button during a scan.
pub open spec fn button_events(
    st: ListenerState,
    button: MouseButton,
    inside: bool,
    buttons: ButtonStates,
) -> Seq<MouseEventKind> {
    opt_seq(
        button_event(
            button,
            st.pressed.spec_get(button),
            buttons.spec_get(button),
            inside,
            st.is_hovered,
        ),
    )
}

/// The notifications a listener receives during a scan, in delivery order: the hover change
/// first, then the buttons from left to forward.
pub open spec fn listener_events(
    st: ListenerState,
    inside: bool,
    buttons: ButtonStates,
) -> Seq<MouseEventKind> {
    opt_seq(hover_event(st.is_hovered, inside)) + button_events(
        st,
        MouseButton::Left,
        inside,
        buttons,
    ) + button_events(st, MouseButton::Right, inside, buttons) + button_events(
        st,
        MouseButton::Middle,
        inside,
        buttons,
    ) + button_events(st, MouseButton::Back, inside, buttons) + button_events(
        st,
        MouseButton::Forward,
        inside,
        buttons,
    )
}

/// Compares the raw state of `button` with what the listener recorded, appends the due
/// notification to `out` and records the new state.
fn scan_button(
    state: &mut ListenerState,
    button: MouseButton,
    inside: bool,
    hovered_before: bool,
    buttons: &ButtonStates,
    out: &mut Vec<MouseEventKind>,
)
    ensures
        final(state).is_hovered == old(state).is_hovered,
        final(state).pressed == old(state).pressed.with(
            button,
            pressed_after(old(state).pressed.spec_get(button), buttons.spec_get(button), inside),
        ),
        final(out)@ == old(out)@ + opt_seq(
            button_event(
                button,
                old(state).pressed.spec_get(button),
                buttons.spec_get(button),
                inside,
                hovered_before,
            ),
        ),
{
    let now = buttons.get(button);
    let was = state.pressed.get(button);
    if was && !now {
        state.pressed.set(button, now);
        out.push(MouseEventKind::ButtonUp { button, inside });
    } else if !was && now && inside {
        state.pressed.set(button, now);
        out.push(MouseEventKind::ButtonDown { button, started_inside: hovered_before });
    } else {
        proof {
            assert(old(state).pressed.with(button, was) == old(state).pressed);
        }
        assert(out@ =~= old(out)@ + seq![]);
    }
}

/// Updates one listener for a scan with the cursor `inside` it and the raw button states
/// `buttons`, and returns the notifications it is due, in delivery order.
pub fn scan_listener(state: &mut ListenerState, inside: bool, buttons: &ButtonStates) -> (r: Vec<
    MouseEventKind,
>)
    ensures
        *final(state) == listener_step(*old(state), inside, *buttons),
        r@ == listener_events(*old(state), inside, *buttons),
{
    let ghost st0 = *state;
    let hovered_before = state.is_hovered;
    let mut out: Vec<MouseEventKind> = Vec::new();
    if inside && !state.is_hovered {
        state.is_hovered = true;
        out.push(MouseEventKind::HoveringStart);
    } else if !inside && state.is_hovered {
        state.is_hovered = false;
        out.push(MouseEventKind::HoveringFinish);
    }
    assert(out@ =~= opt_seq(hover_event(st0.is_hovered, inside)));
    scan_button(state, MouseButton::Left, inside, hovered_before, buttons, &mut out);
    scan_button(state, MouseButton::Right, inside, hovered_before, buttons, &mut out);
    scan_button(state, MouseButton::Middle, inside, hovered_before, buttons, &mut out);
    scan_button(state, MouseButton::Back, inside, hovered_before, buttons, &mut out);
    scan_button(state, MouseButton::Forward, inside, hovered_before, buttons, &mut out);
    out
}

/// A registered listener: its bounds and what the router remembers of it.
#[derive(Debug, Clone, Copy)]
pub struct Listener<B> {
    pub bounds: B,
    pub state: ListenerState,
}

/// Names one registered listener of a router.
#[derive(Debug, Clone, Copy, PartialEq, Eq, Structural)]
pub struct ListenerHandle {
    pub index: usize,
}

/// One notification addressed to the listener at index `listener`.
#[derive(Debug, Clone, Copy)]
pub struct Dispatch<P> {
    pub listener: usize,
    pub event: MouseEvent<P>,
}

/// A window event, already normalised: cursor positions are logical coordinates.
#[derive(Debug, Clone, Copy)]
pub enum InputEvent<P> {
    ScaleFactorChanged,
    CursorMoved(P),
    CursorLeft,
    MouseInput { button: MouseButton, pressed: bool },
    RedrawRequested,
    Other,
}

/// What handling one window event produced: the notifications to deliver, in order, and
/// whether the window should be redrawn.
#[derive(Debug, Clone)]
pub struct RouterResponse<P> {
    pub should_redraw: bool,
    pub dispatches: Vec<Dispatch<P>>,
}

/// The registry of listeners plus the global pointer state.
///
/// `B` is the type of listener bounds and `P` the type of cursor positions; whether a position
/// lies inside some bounds is decided by the hit test that the caller hands to each scan.
pub struct MouseEventRouter<B, P> {
    /// `None` if the position of the cursor is unknown.
    cursor_position: Option<P>,
    bounds: B,
    /// Slots of unregistered listeners hold `None`, so indices stay stable.
    listeners: Vec<Option<Listener<B>>>,
    /// Set when a listener's bounds changed since the last redraw, so that a redraw scans for
    /// hovering changes even if the cursor has not moved.
    bounds_changed: bool,
    /// Raw pressed state of each tracked mouse button.
    button_states: ButtonStates,
}

/// The abstract state of a router.
#[verifier::ext_equal]
pub struct RouterModel<B, P> {
    pub cursor_position: Option<P>,
    pub bounds: B,
    pub listeners: Seq<Option<Listener<B>>>,
    pub bounds_changed: bool,
    pub button_states: ButtonStates,
}

impl<B, P> View for MouseEventRouter<B, P> {
    type V = RouterModel<B, P>;

    closed spec fn view(&self) -> RouterModel<B, P> {
        RouterModel {
            cursor_position: self.cursor_position,
            bounds: self.bounds,
            listeners: self.listeners@,
            bounds_changed: self.bounds_changed,
            button_states: self.button_states,
        }
    }
}

/// A slot after a scan in which the cursor is `inside` its bounds.
pub open spec fn slot_step<B>(slot: Option<Listener<B>>, inside: bool, buttons: ButtonStates) -> Option<
    Listener<B>,
> {
    match slot {
        Some(l) => Some(
            Listener { bounds: l.bounds, state: listener_step(l.state, inside, buttons) },
        ),
        None => None,
    }
}

/// The notifications of the slot at index `i` during a scan.
pub open spec fn slot_dispatches<B, P>(
    slot: Option<Listener<B>>,
    i: int,
    inside: bool,
    buttons: ButtonStates,
    cursor: P,
) -> Seq<Dispatch<P>> {
    match slot {
        Some(l) => listener_events(l.state, inside, buttons).map_values(
            |k: MouseEventKind|
                Dispatch { listener: i as usize, event: MouseEvent { kind: k, cursor_position: cursor } },
        ),
        None => seq![],
    }
}

/// The notifications of the first `n` slots during a scan, slot by slot.
pub open spec fn scan_dispatches<B, P>(
    slots: Seq<Option<Listener<B>>>,
    insides: Seq<bool>,
    buttons: ButtonStates,
    cursor: P,
    n: int,
) -> Seq<Dispatch<P>>
    decreases n,
{
    if n <= 0 {
        seq![]
    } else {
        scan_dispatches(slots, insides, buttons, cursor, n - 1) + slot_dispatches(
            slots[n - 1],
            n - 1,
            insides[n - 1],
            buttons,
            cursor,
        )
    }
}

/// All slots after a scan, where `insides[i]` tells whether the cursor is inside slot `i`.
pub open spec fn scan_slots<B>(
    slots: Seq<Option<Listener<B>>>,
    insides: Seq<bool>,
    buttons: ButtonStates,
) -> Seq<Option<Listener<B>>> {
    Seq::new(slots.len(), |i: int| slot_step(slots[i], insides[i], buttons))
}

/// `insides` holds, for each registered listener, an answer of `hit` for its bounds and the
/// cursor.
pub open spec fn hits_agree<B, P, F: Fn(&B, &P) -> bool>(
    hit: F,
    slots: Seq<Option<Listener<B>>>,
    cursor: P,
    insides: Seq<bool>,
) -> bool {
    &&& insides.len() == slots.len()
    &&& forall|i: int|
        0 <= i < slots.len() && (#[trigger] slots[i]) is Some ==> call_ensures(
            hit,
            (&slots[i].unwrap().bounds, &cursor),
            insides[i],
        )
}

/// The router after a scan with the answers `insides`; nothing changes while the cursor
/// position is unknown.
pub open spec fn scanned<B, P>(m: RouterModel<B, P>, insides: Seq<bool>) -> RouterModel<B, P> {
    match m.cursor_position {
        Some(_) => RouterModel {
            listeners: scan_slots(m.listeners, insides, m.button_states),
            ..m
        },
        None => m,
    }
}

/// The notifications of a scan with the answers `insides`.
pub open spec fn scan_output<B, P>(m: RouterModel<B, P>, insides: Seq<bool>) -> Seq<Dispatch<P>> {
    match m.cursor_position {
        Some(c) => scan_dispatches(m.listeners, insides, m.button_states, c, m.listeners.len() as int),
        None => seq![],
    }
}

/// The router after an event's own update, before any scan.
pub open spec fn event_applied<B, P>(m: RouterModel<B, P>, event: InputEvent<P>) -> RouterModel<B, P> {
    match event {
        InputEvent::CursorMoved(p) => RouterModel { cursor_position: Some(p), ..m },
        InputEvent::CursorLeft => RouterModel { cursor_position: None, ..m },
        InputEvent::MouseInput { button, pressed } => RouterModel {
            button_states: m.button_states.with(button, pressed),
            ..m
        },
        InputEvent::RedrawRequested => RouterModel { bounds_changed: false, ..m },
        _ => m,
    }
}

/// Does the event lead to a scan? A redraw scans only after bounds changed.
pub open spec fn event_scans<B, P>(m: RouterModel<B, P>, event: InputEvent<P>) -> bool {
    match event {
        InputEvent::Other => false,
        InputEvent::RedrawRequested => m.bounds_changed,
        _ => true,
    }
}

/// `after` and `out` are a possible result of scanning `before` with the hit test `hit`: when
/// the cursor position is known, each listener is scanned with an answer of `hit` for its
/// bounds; otherwise nothing happens.
pub open spec fn scan_result<B, P, F: Fn(&B, &P) -> bool>(
    hit: F,
    before: RouterModel<B, P>,
    after: RouterModel<B, P>,
    out: Seq<Dispatch<P>>,
) -> bool {
    match before.cursor_position {
        Some(c) => exists|insides: Seq<bool>|
            #[trigger] hits_agree(hit, before.listeners, c, insides) && after == scanned(
                before,
                insides,
            ) && out == scan_output(before, insides),
        None => after == before && out.len() == 0,
    }
}

/// The notifications of the first `n` slots depend on the first `n` answers only.
proof fn lemma_scan_dispatches_prefix<B, P>(
    slots: Seq<Option<Listener<B>>>,
    a: Seq<bool>,
    b: Seq<bool>,
    buttons: ButtonStates,
    cursor: P,
    n: int,
)
    requires
        forall|j: int| 0 <= j < n ==> a[j] == b[j],
    ensures
        scan_dispatches(slots, a, buttons, cursor, n) == scan_dispatches(
            slots,
            b,
            buttons,
            cursor,
            n,
        ),
    decreases n,
{
    if n > 0 {
        lemma_scan_dispatches_prefix(slots, a, b, buttons, cursor, n - 1);
    }
}

impl<B: Copy, P: Copy> MouseEventRouter<B, P> {
    /// A router for the root viewport `bounds`, with no listener, unknown cursor and all
    /// buttons released.
    pub fn new(bounds: B) -> (r: Self)
        ensures
            r@.cursor_position is None,
            r@.bounds == bounds,
            r@.listeners == Seq::<Option<Listener<B>>>::empty(),
            !r@.bounds_changed,
            r@.button_states == ButtonStates::all_released(),
    {
        MouseEventRouter {
            cursor_position: None,
            bounds,
            listeners: Vec::new(),
            bounds_changed: false,
            button_states: ButtonStates::released(),
        }
    }

    /// Appends a listener with `bounds`, not hovered and pressed by no button.
    pub fn register_listener(&mut self, bounds: B) -> (h: ListenerHandle)
        requires
            old(self)@.listeners.len() < usize::MAX,
        ensures
            h.index == old(self)@.listeners.len(),
            final(self)@ == (RouterModel {
                listeners: old(self)@.listeners.push(
                    Some(Listener { bounds, state: ListenerState::fresh() }),
                ),
                ..old(self)@
            }),
    {
        let index = self.listeners.len();
        self.listeners.push(Some(Listener { bounds, state: ListenerState::new() }));
        ListenerHandle { index }
    }

    /// Removes the listener of `handle`. Indices of other listeners stay as they are; a handle
    /// that names no slot of this router is ignored.
    pub fn unregister_listener(&mut self, handle: ListenerHandle)
        ensures
            final(self)@ == (if handle.index < old(self)@.listeners.len() {
                RouterModel {
                    listeners: old(self)@.listeners.update(handle.index as int, None),
                    ..old(self)@
                }
            } else {
                old(self)@
            }),
    {
        if handle.index < self.listeners.len() {
            self.listeners.set(handle.index, None);
        }
    }

    /// Moves the listener of `handle` to `bounds` and records that bounds changed. A handle
    /// whose listener is gone is ignored.
    pub fn update_bounds(&mut self, handle: ListenerHandle, bounds: B)
        ensures
            final(self)@ == (if handle.index < old(self)@.listeners.len()
                && old(self)@.listeners[handle.index as int] is Some {
                RouterModel {
                    listeners: old(self)@.listeners.update(
                        handle.index as int,
                        Some(
                            Listener {
                                bounds,
                                state: old(self)@.listeners[handle.index as int].unwrap().state,
                            },
                        ),
                    ),
                    bounds_changed: true,
                    ..old(self)@
                }
            } else {
                old(self)@
            }),
    {
        if handle.index < self.listeners.len() {
            match self.listeners[handle.index] {
                Some(l) => {
                    self.listeners.set(handle.index, Some(Listener { bounds, state: l.state }));
                    self.bounds_changed = true;
                },
                None => {},
            }
        }
    }

    /// Is a listener registered under `handle`?
    pub fn is_registered(&self, handle: ListenerHandle) -> (r: bool)
        ensures
            r == (handle.index < self@.listeners.len() && self@.listeners[handle.index as int] is Some),
    {
        handle.index < self.listeners.len() && self.listeners[handle.index].is_some()
    }

    pub fn set_bounds(&mut self, bounds: B)
        ensures
            final(self)@ == (RouterModel { bounds, ..old(self)@ }),
    {
        self.bounds = bounds;
    }

    pub fn get_bounds(&self) -> (r: B)
        ensures
            r == self@.bounds,
    {
        self.bounds
    }

    pub fn cursor_position(&self) -> (r: Option<P>)
        ensures
            r == self@.cursor_position,
    {
        self.cursor_position
    }
    /// Updates every listener for the current cursor position and button states, and returns
    /// the notifications due, listener by listener. `hit(bounds, cursor)` tells whether the
    /// cursor lies inside `bounds`.
    fn scan_events<F: Fn(&B, &P) -> bool>(&mut self, hit: F) -> (r: Vec<Dispatch<P>>)
        requires
            forall|b: &B, p: &P| call_requires(hit, (b, p)),
        ensures
            scan_result(hit, old(self)@, final(self)@, r@),
    {
        let cursor = match self.cursor_position {
            Some(c) => c,
            None => {
                assert(self@ =~= old(self)@);
                return Vec::new();
            },
        };
        let n = self.listeners.len();
        let ghost slots = self.listeners@;
        let ghost buttons = self.button_states;
        let ghost mut insides: Seq<bool> = seq![];
        let mut out: Vec<Dispatch<P>> = Vec::new();
        let mut i: usize = 0;
        while i < n
            invariant
                forall|b: &B, p: &P| call_requires(hit, (b, p)),
                n == slots.len(),
                self.listeners@.len() == n,
                0 <= i <= n,
                insides.len() == i,
                self.cursor_position == Some(cursor),
                self.cursor_position == old(self).cursor_position,
                self.bounds == old(self).bounds,
                self.bounds_changed == old(self).bounds_changed,
                self.button_states == buttons,
                buttons == old(self).button_states,
                slots == old(self).listeners@,
                forall|j: int|
                    0 <= j < i ==> self.listeners@[j] == slot_step(slots[j], insides[j], buttons),
                forall|j: int| i <= j < n ==> self.listeners@[j] == slots[j],
                forall|j: int|
                    0 <= j < i && (#[trigger] slots[j]) is Some ==> call_ensures(
                        hit,
                        (&slots[j].unwrap().bounds, &cursor),
                        insides[j],
                    ),
                out@ == scan_dispatches(slots, insides, buttons, cursor, i as int),
            decreases n - i,
        {
            let slot = self.listeners[i];
            let ghost prev = insides;
            match slot {
                Some(l) => {
                    let inside = hit(&l.bounds, &cursor);
                    let mut st = l.state;
                    let kinds = scan_listener(&mut st, inside, &self.button_states);
                    self.listeners.set(i, Some(Listener { bounds: l.bounds, state: st }));
                    let ghost out0 = out@;
                    let mut k: usize = 0;
                    while k < kinds.len()
                        invariant
                            0 <= k <= kinds@.len(),
                            out@ == out0 + kinds@.subrange(0, k as int).map_values(
                                |kd: MouseEventKind|
                                    Dispatch {
                                        listener: i,
                                        event: MouseEvent { kind: kd, cursor_position: cursor },
                                    },
                            ),
                        decreases kinds@.len() - k,
                    {
                        out.push(
                            Dispatch {
                                listener: i,
                                event: MouseEvent { kind: kinds[k], cursor_position: cursor },
                            },
                        );
                        k = k + 1;
                        proof {
                            assert(kinds@.subrange(0, k as int) =~= kinds@.subrange(
                                0,
                                k - 1,
                            ).push(kinds@[k - 1]));
                        }
                    }
                    proof {
                        assert(kinds@.subrange(0, kinds@.len() as int) =~= kinds@);
                        insides = insides.push(inside);
                    }
                },
                None => {
                    proof {
                        insides = insides.push(false);
                    }
                },
            }
            proof {
                lemma_scan_dispatches_prefix(slots, prev, insides, buttons, cursor, i as int);
                assert(out@ =~= scan_dispatches(slots, insides, buttons, cursor, i + 1));
            }
            i = i + 1;
        }
        proof {
            assert(self.listeners@ =~= scan_slots(slots, insides, buttons));
            assert(self@ =~= scanned(old(self)@, insides));
            assert(hits_agree(hit, old(self)@.listeners, cursor, insides));
        }
        out
    }

    /// Handles one window event and returns the notifications due, in delivery order.
    ///
    /// The event first updates the router's own state: a cursor move records the position, a
    /// cursor leaving forgets it, a button input records the button's raw state, and a redraw
    /// clears the bounds-changed flag. Then every event but `Other` scans the listeners, a
    /// redraw only if bounds had changed. A redraw should follow exactly when a notification
    /// was produced.
    pub fn window_event<F: Fn(&B, &P) -> bool>(&mut self, event: InputEvent<P>, hit: F) -> (r:
        RouterResponse<P>)
        requires
            forall|b: &B, p: &P| call_requires(hit, (b, p)),
        ensures
            r.should_redraw == (r.dispatches@.len() > 0),
            event_scans(old(self)@, event) ==> scan_result(
                hit,
                event_applied(old(self)@, event),
                final(self)@,
                r.dispatches@,
            ),
            !event_scans(old(self)@, event) ==> final(self)@ == event_applied(old(self)@, event)
                && r.dispatches@.len() == 0,
    {
        let scan = match event {
            InputEvent::ScaleFactorChanged => true,
            InputEvent::CursorMoved(p) => {
                self.cursor_position = Some(p);
                true
            },
            InputEvent::CursorLeft => {
                self.cursor_position = None;
                true
            },
            InputEvent::MouseInput { button, pressed } => {
                self.button_states.set(button, pressed);
                true
            },
            InputEvent::RedrawRequested => {
                let changed = self.bounds_changed;
                self.bounds_changed = false;
                changed
            },
            InputEvent::Other => false,
        };
        assert(self@ =~= event_applied(old(self)@, event));
        if !scan {
            return RouterResponse { should_redraw: false, dispatches: Vec::new() };
        }
        let dispatches = self.scan_events(hit);
        RouterResponse { should_redraw: dispatches.len() > 0, dispatches }
    }
}


/// A listener scanned again with the cursor on the same side of its bounds and the same raw
/// button states receives no notification, hover or button, and keeps its state: only a change
/// of the cursor's side or of a button produces notifications.
pub proof fn lemma_rescan_is_quiet(st: ListenerState, inside: bool, buttons: ButtonStates)
    ensures
        listener_events(listener_step(st, inside, buttons), inside, buttons).len() == 0,
        listener_step(listener_step(st, inside, buttons), inside, buttons) == listener_step(
            st,
            inside,
            buttons,
        ),
{
}

/// Every notification of the first `n` slots is addressed to a slot below `n` that holds a
/// listener.
proof fn lemma_dispatch_targets<B, P>(
    slots: Seq<Option<Listener<B>>>,
    insides: Seq<bool>,
    buttons: ButtonStates,
    cursor: P,
    n: int,
)
    requires
        0 <= n <= slots.len() <= usize::MAX,
    ensures
        forall|k: int|
            0 <= k < scan_dispatches(slots, insides, buttons, cursor, n).len() ==> {
                let t = #[trigger] scan_dispatches(slots, insides, buttons, cursor, n)[k].listener as int;
                0 <= t < n && slots[t] is Some
            },
    decreases n,
{
    if n > 0 {
        lemma_dispatch_targets(slots, insides, buttons, cursor, n - 1);
        let prefix = scan_dispatches(slots, insides, buttons, cursor, n - 1);
        let last = slot_dispatches(slots[n - 1], n - 1, insides[n - 1], buttons, cursor);
        let all = scan_dispatches(slots, insides, buttons, cursor, n);
        assert(all == prefix + last);
        assert forall|k: int| 0 <= k < all.len() implies {
            let t = #[trigger] all[k].listener as int;
            0 <= t < n && slots[t] is Some
        } by {
            if k < prefix.len() {
                assert(all[k] == prefix[k]);
            } else {
                assert(all[k] == last[k - prefix.len()]);
            }
        }
    }
}

/// Once the listener of `handle` is unregistered, no later scan delivers a notification to it,
/// whatever the hit test answers.
pub proof fn lemma_unregistered_is_silent<B, P>(
    before: RouterModel<B, P>,
    handle: ListenerHandle,
    insides: Seq<bool>,
)
    requires
        before.listeners.len() <= usize::MAX,
    ensures
        ({
            let after = RouterModel {
                listeners: if handle.index < before.listeners.len() {
                    before.listeners.update(handle.index as int, None)
                } else {
                    before.listeners
                },
                ..before
            };
            forall|k: int|
                0 <= k < scan_output(after, insides).len() ==> (#[trigger] scan_output(
                    after,
                    insides,
                )[k]).listener != handle.index
        }),
{
    let after = RouterModel {
        listeners: if handle.index < before.listeners.len() {
            before.listeners.update(handle.index as int, None)
        } else {
            before.listeners
        },
        ..before
    };
    if let Some(c) = after.cursor_position {
        lemma_dispatch_targets(
            after.listeners,
            insides,
            after.button_states,
            c,
            after.listeners.len() as int,
        );
    }
}


/// The notifications in `out` addressed to the listener at index `listener`, in order.
pub open spec fn dispatches_to<P>(out: Seq<Dispatch<P>>, listener: usize) -> Seq<Dispatch<P>> {
    out.filter(|d: Dispatch<P>| d.listener == listener)
}

/// Filtering by a predicate that holds of every element keeps the sequence; one that holds
/// of none empties it.
proof fn lemma_filter_uniform<A>(s: Seq<A>, pred: spec_fn(A) -> bool, keep: bool)
    requires
        forall|i: int| 0 <= i < s.len() ==> pred(#[trigger] s[i]) == keep,
    ensures
        s.filter(pred) == (if keep {
            s
        } else {
            Seq::<A>::empty()
        }),
    decreases s.len(),
{
    reveal(Seq::filter);
    if s.len() > 0 {
        lemma_filter_uniform(s.drop_last(), pred, keep);
        assert(s.drop_last().push(s.last()) =~= s);
    } else {
        assert(s =~= Seq::<A>::empty());
    }
}

/// Removing the listener at `removed` changes nothing of what the first `n` slots deliver to
/// any other listener.
proof fn lemma_removal_keeps_others<B, P>(
    slots: Seq<Option<Listener<B>>>,
    removed: int,
    insides: Seq<bool>,
    buttons: ButtonStates,
    cursor: P,
    n: int,
    other: usize,
)
    requires
        0 <= removed < slots.len() <= usize::MAX,
        0 <= n <= slots.len(),
        other != removed,
    ensures
        dispatches_to(
            scan_dispatches(slots.update(removed, None), insides, buttons, cursor, n),
            other,
        ) == dispatches_to(scan_dispatches(slots, insides, buttons, cursor, n), other),
    decreases n,
{
    if n > 0 {
        lemma_removal_keeps_others(slots, removed, insides, buttons, cursor, n - 1, other);
        let after = slots.update(removed, None);
        let pred = |d: Dispatch<P>| d.listener == other;
        let a = slot_dispatches(after[n - 1], n - 1, insides[n - 1], buttons, cursor);
        let b = slot_dispatches(slots[n - 1], n - 1, insides[n - 1], buttons, cursor);
        Seq::filter_distributes_over_add(
            scan_dispatches(after, insides, buttons, cursor, n - 1),
            a,
            pred,
        );
        Seq::filter_distributes_over_add(
            scan_dispatches(slots, insides, buttons, cursor, n - 1),
            b,
            pred,
        );
        if n - 1 != other as int {
            lemma_filter_uniform(a, pred, false);
            lemma_filter_uniform(b, pred, false);
        } else {
            assert(after[n - 1] == slots[n - 1]);
        }
    }
}

/// Unregistering the listener of `handle` leaves every other listener's notifications, in
/// every later scan, exactly as they would have been.
pub proof fn lemma_unregister_keeps_others<B, P>(
    before: RouterModel<B, P>,
    handle: ListenerHandle,
    insides: Seq<bool>,
    other: usize,
)
    requires
        before.listeners.len() <= usize::MAX,
        other != handle.index,
    ensures
        ({
            let after = RouterModel {
                listeners: if handle.index < before.listeners.len() {
                    before.listeners.update(handle.index as int, None)
                } else {
                    before.listeners
                },
                ..before
            };
            dispatches_to(scan_output(after, insides), other) == dispatches_to(
                scan_output(before, insides),
                other,
            )
        }),
{
    if handle.index < before.listeners.len() {
        if let Some(c) = before.cursor_position {
            lemma_removal_keeps_others(
                before.listeners,
                handle.index as int,
                insides,
                before.button_states,
                c,
                before.listeners.len() as int,
                other,
            );
        }
    }
}

} // verus!
