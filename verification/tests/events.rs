use hostbridge::events::Event;
use hostbridge::events::HostControlFlow;
use hostbridge::events::event_handler;

#[test]
fn close_window_exits_and_stays_exited() {
    let mut cf = HostControlFlow::Running;
    let script = event_handler(Event::CloseWindow, &mut cf);
    assert!(script.is_none());
    assert!(matches!(cf, HostControlFlow::Exit));
    // delivering it again leaves the terminal state untouched
    let script = event_handler(Event::CloseWindow, &mut cf);
    assert!(script.is_none());
    assert!(matches!(cf, HostControlFlow::Exit));
}

#[test]
fn custom_event_renders_named_dispatch() {
    let mut cf = HostControlFlow::Running;
    let script = event_handler(
        Event::DispatchCustomEvent("update_available".to_string(), "{\"v\":2}".to_string()),
        &mut cf,
    );
    assert!(matches!(cf, HostControlFlow::Running));
    assert_eq!(
        script.unwrap(),
        "(() => { const event = new CustomEvent(\"update_available\", { detail: {\"v\":2} }); document.dispatchEvent(event); })();"
    );
}

#[test]
fn broadcast_renders_message_channel() {
    let mut cf = HostControlFlow::Running;
    let script = event_handler(Event::BoardCastToJs("{\"n\":1}".to_string()), &mut cf);
    assert!(matches!(cf, HostControlFlow::Running));
    assert_eq!(
        script.unwrap(),
        "(() => { var event = document.createEvent('Event'); event.initEvent('message', false, true); event.data = {\"n\":1}; window.dispatchEvent(event); })();"
    );
}

#[test]
fn injections_do_not_exit() {
    let mut cf = HostControlFlow::Exit;
    let script = event_handler(Event::BoardCastToJs("1".to_string()), &mut cf);
    assert!(script.is_some());
    assert!(matches!(cf, HostControlFlow::Exit));
}
