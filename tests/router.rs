use muilib::axis::{Bounds, Point2};
use muilib::mouse_event::{
    scan_listener, ButtonStates, Dispatch, InputEvent, ListenerState, MouseButton,
    MouseEventKind, MouseEventRouter,
};

fn contains(b: &Bounds<f32>, p: &Point2<f32>) -> bool {
    b.origin.x <= p.x
        && p.x <= b.origin.x + b.size.width
        && b.origin.y <= p.y
        && p.y <= b.origin.y + b.size.height
}

fn square_router() -> (MouseEventRouter<Bounds<f32>, Point2<f32>>, muilib::mouse_event::ListenerHandle) {
    let mut router = MouseEventRouter::new(Bounds::from_scalars(0.0, 0.0, 800.0, 600.0));
    let handle = router.register_listener(Bounds::from_scalars(0.0, 0.0, 100.0, 100.0));
    (router, handle)
}

fn move_to(
    router: &mut MouseEventRouter<Bounds<f32>, Point2<f32>>,
    x: f32,
    y: f32,
) -> Vec<Dispatch<Point2<f32>>> {
    let r = router.window_event(InputEvent::CursorMoved(Point2::new(x, y)), contains);
    assert_eq!(r.should_redraw, !r.dispatches.is_empty());
    r.dispatches
}

fn button(
    router: &mut MouseEventRouter<Bounds<f32>, Point2<f32>>,
    button: MouseButton,
    pressed: bool,
) -> Vec<Dispatch<Point2<f32>>> {
    let r = router.window_event(InputEvent::MouseInput { button, pressed }, contains);
    assert_eq!(r.should_redraw, !r.dispatches.is_empty());
    r.dispatches
}

fn kinds(d: &[Dispatch<Point2<f32>>]) -> Vec<MouseEventKind> {
    d.iter().map(|d| d.event.kind).collect()
}

#[test]
fn hover_enter_then_leave_gives_one_start_and_one_finish() {
    let (mut router, handle) = square_router();
    let first = move_to(&mut router, 50.0, 50.0);
    assert_eq!(kinds(&first), vec![MouseEventKind::HoveringStart]);
    assert_eq!(first[0].listener, handle.index);
    assert_eq!(first[0].event.cursor_position, Point2::new(50.0, 50.0));
    let second = move_to(&mut router, 150.0, 50.0);
    assert_eq!(kinds(&second), vec![MouseEventKind::HoveringFinish]);
}

#[test]
fn moving_inside_gives_no_further_hover_events() {
    let (mut router, _handle) = square_router();
    move_to(&mut router, 50.0, 50.0);
    move_to(&mut router, 150.0, 50.0);
    assert_eq!(kinds(&move_to(&mut router, 50.0, 50.0)), vec![MouseEventKind::HoveringStart]);
    assert!(move_to(&mut router, 60.0, 60.0).is_empty());
    assert!(move_to(&mut router, 70.0, 20.0).is_empty());
}

#[test]
fn press_and_release_inside() {
    let (mut router, _handle) = square_router();
    move_to(&mut router, 50.0, 50.0);
    let down = button(&mut router, MouseButton::Left, true);
    assert_eq!(
        kinds(&down),
        vec![MouseEventKind::ButtonDown { button: MouseButton::Left, started_inside: true }]
    );
    let up = button(&mut router, MouseButton::Left, false);
    assert_eq!(
        kinds(&up),
        vec![MouseEventKind::ButtonUp { button: MouseButton::Left, inside: true }]
    );
}

#[test]
fn release_after_leaving_is_reported_outside() {
    let (mut router, _handle) = square_router();
    move_to(&mut router, 50.0, 50.0);
    button(&mut router, MouseButton::Left, true);
    assert_eq!(kinds(&move_to(&mut router, 150.0, 50.0)), vec![MouseEventKind::HoveringFinish]);
    let up = button(&mut router, MouseButton::Left, false);
    assert_eq!(
        kinds(&up),
        vec![MouseEventKind::ButtonUp { button: MouseButton::Left, inside: false }]
    );
}

#[test]
fn press_outside_is_not_reported() {
    let (mut router, _handle) = square_router();
    move_to(&mut router, 150.0, 50.0);
    assert!(button(&mut router, MouseButton::Right, true).is_empty());
    // Dragged in with the button held: hovering starts, and the press counts as started outside.
    let enter = move_to(&mut router, 50.0, 50.0);
    assert_eq!(
        kinds(&enter),
        vec![
            MouseEventKind::HoveringStart,
            MouseEventKind::ButtonDown { button: MouseButton::Right, started_inside: false },
        ]
    );
}

#[test]
fn each_button_is_reported_as_itself() {
    let (mut router, _handle) = square_router();
    move_to(&mut router, 10.0, 10.0);
    for b in [
        MouseButton::Left,
        MouseButton::Right,
        MouseButton::Middle,
        MouseButton::Back,
        MouseButton::Forward,
    ] {
        assert_eq!(
            kinds(&button(&mut router, b, true)),
            vec![MouseEventKind::ButtonDown { button: b, started_inside: true }]
        );
        assert_eq!(
            kinds(&button(&mut router, b, false)),
            vec![MouseEventKind::ButtonUp { button: b, inside: true }]
        );
    }
}

#[test]
fn nothing_happens_before_the_cursor_is_known() {
    let (mut router, _handle) = square_router();
    assert!(button(&mut router, MouseButton::Left, true).is_empty());
    assert_eq!(router.cursor_position(), None);
    let r = router.window_event(InputEvent::ScaleFactorChanged, contains);
    assert!(!r.should_redraw);
}

#[test]
fn cursor_left_forgets_position_and_keeps_hover() {
    let (mut router, _handle) = square_router();
    move_to(&mut router, 50.0, 50.0);
    let r = router.window_event(InputEvent::CursorLeft, contains);
    assert!(r.dispatches.is_empty());
    assert_eq!(router.cursor_position(), None);
    // Coming back inside does not start hovering again.
    assert!(move_to(&mut router, 40.0, 40.0).is_empty());
}

#[test]
fn dropped_listener_receives_nothing() {
    let (mut router, handle) = square_router();
    let other = router.register_listener(Bounds::from_scalars(0.0, 0.0, 200.0, 200.0));
    move_to(&mut router, 50.0, 50.0);
    router.unregister_listener(handle);
    assert!(!router.is_registered(handle));
    assert!(router.is_registered(other));
    let leave = move_to(&mut router, 150.0, 50.0);
    assert!(leave.iter().all(|d| d.listener != handle.index));
    let back = move_to(&mut router, 50.0, 50.0);
    assert!(back.is_empty());
    let down = button(&mut router, MouseButton::Left, true);
    assert_eq!(down.len(), 1);
    assert_eq!(down[0].listener, other.index);
    // A stale handle is ignored.
    router.unregister_listener(handle);
    router.update_bounds(handle, Bounds::from_scalars(0.0, 0.0, 1.0, 1.0));
    assert!(router.window_event(InputEvent::RedrawRequested, contains).dispatches.is_empty());
}

#[test]
fn new_bounds_are_scanned_on_redraw() {
    let (mut router, handle) = square_router();
    move_to(&mut router, 50.0, 50.0);
    // Nothing changed: a redraw does not scan.
    let r = router.window_event(InputEvent::RedrawRequested, contains);
    assert!(!r.should_redraw);
    router.update_bounds(handle, Bounds::from_scalars(200.0, 200.0, 10.0, 10.0));
    let r = router.window_event(InputEvent::RedrawRequested, contains);
    assert!(r.should_redraw);
    assert_eq!(kinds(&r.dispatches), vec![MouseEventKind::HoveringFinish]);
    // The flag is cleared by the redraw.
    router.update_bounds(handle, Bounds::from_scalars(200.0, 200.0, 10.0, 10.0));
    router.window_event(InputEvent::RedrawRequested, contains);
    assert!(!router.window_event(InputEvent::RedrawRequested, contains).should_redraw);
}

#[test]
fn other_events_are_ignored() {
    let (mut router, _handle) = square_router();
    move_to(&mut router, 50.0, 50.0);
    let r = router.window_event(InputEvent::Other, contains);
    assert!(!r.should_redraw);
    assert!(r.dispatches.is_empty());
}

#[test]
fn listeners_are_scanned_in_registration_order() {
    let (mut router, first) = square_router();
    let second = router.register_listener(Bounds::from_scalars(25.0, 25.0, 50.0, 50.0));
    assert_eq!(second.index, first.index + 1);
    let d = move_to(&mut router, 50.0, 50.0);
    assert_eq!(d.len(), 2);
    assert_eq!(d[0].listener, first.index);
    assert_eq!(d[1].listener, second.index);
}

#[test]
fn root_bounds_round_trip() {
    let (mut router, _handle) = square_router();
    assert_eq!(router.get_bounds(), Bounds::from_scalars(0.0, 0.0, 800.0, 600.0));
    router.set_bounds(Bounds::from_scalars(0.0, 0.0, 10.0, 20.0));
    assert_eq!(router.get_bounds(), Bounds::from_scalars(0.0, 0.0, 10.0, 20.0));
}

#[test]
fn rescan_with_nothing_changed_is_quiet() {
    let buttons = ButtonStates { left: true, right: false, middle: true, back: false, forward: false };
    let mut state = ListenerState::new();
    let first = scan_listener(&mut state, true, &buttons);
    assert_eq!(first.len(), 3);
    let after = state;
    assert!(scan_listener(&mut state, true, &buttons).is_empty());
    assert_eq!(state, after);
}

#[test]
fn button_states_get_and_set() {
    let mut b = ButtonStates::released();
    assert!(!b.get(MouseButton::Middle));
    b.set(MouseButton::Middle, true);
    assert!(b.get(MouseButton::Middle));
    assert!(!b.get(MouseButton::Left));
}

#[test]
fn unknown_handles_are_not_registered() {
    let (mut router, handle) = square_router();
    let stranger = muilib::mouse_event::ListenerHandle { index: handle.index + 5 };
    assert!(!router.is_registered(stranger));
    router.unregister_listener(stranger);
    assert!(router.is_registered(handle));
    assert_eq!(kinds(&move_to(&mut router, 1.0, 1.0)), vec![MouseEventKind::HoveringStart]);
}
