use vstd::prelude::*;
use vstd::string::*;

verus! {

/// A host-originated notification for the UI surface. The two injection
/// shapes carry their JSON detail as already-rendered text; `CloseWindow`
/// never touches the UI and only drives host control flow to its terminal
/// state.
#[derive(Debug)]
pub enum Event {
    CloseWindow,
    DispatchCustomEvent(String, String),
    BoardCastToJs(String),
}

/// The host's control-flow state: running, or the terminal exit state.
#[derive(Debug)]
pub enum HostControlFlow {
    Running,
    Exit,
}

/// How an event moves the control flow: `CloseWindow` drives it to `Exit`;
/// the two injection shapes leave it alone.
pub open spec fn next_control_flow(e: Event, cf: HostControlFlow) -> HostControlFlow {
    match e {
        Event::CloseWindow => HostControlFlow::Exit,
        Event::DispatchCustomEvent(_, _) => cf,
        Event::BoardCastToJs(_) => cf,
    }
}

/// The script a named custom event is rendered into: the UI is expected to
/// hold a listener keyed by the same name.
pub open spec fn custom_event_script_spec(name: Seq<char>, detail: Seq<char>) -> Seq<char> {
    "(() => { const event = new CustomEvent(\""@ + name + "\", { detail: "@ + detail
        + " }); document.dispatchEvent(event); })();"@
}

/// The script a generic broadcast is rendered into: one well-known message
/// channel, no per-event identity.
pub open spec fn broadcast_script_spec(detail: Seq<char>) -> Seq<char> {
    "(() => { var event = document.createEvent('Event'); event.initEvent('message', false, true); event.data = "@
        + detail + "; window.dispatchEvent(event); })();"@
}

/// Consumes one event: moves the control flow as `next_control_flow` says
/// and renders the script the host must inject into the UI, if any.
/// Injection is fire-and-forget: nothing here confirms delivery.
pub fn event_handler(event: Event, control_flow: &mut HostControlFlow) -> (script: Option<
    String,
>)
    ensures
        *final(control_flow) == next_control_flow(event, *old(control_flow)),
        match event {
            Event::CloseWindow => script is None,
            Event::DispatchCustomEvent(name, detail) => script matches Some(s) && s@
                == custom_event_script_spec(name@, detail@),
            Event::BoardCastToJs(detail) => script matches Some(s) && s@ == broadcast_script_spec(
                detail@,
            ),
        },
{
    match event {
        Event::CloseWindow => {
            *control_flow = HostControlFlow::Exit;
            None
        },
        Event::DispatchCustomEvent(name, detail) => {
            let s = String::from_str("(() => { const event = new CustomEvent(\"").concat(
                name.as_str(),
            ).concat("\", { detail: ").concat(detail.as_str()).concat(
                " }); document.dispatchEvent(event); })();",
            );
            Some(s)
        },
        Event::BoardCastToJs(detail) => {
            let s = String::from_str(
                "(() => { var event = document.createEvent('Event'); event.initEvent('message', false, true); event.data = ",
            ).concat(detail.as_str()).concat("; window.dispatchEvent(event); })();");
            Some(s)
        },
    }
}

/// Close idempotence: one delivery of `CloseWindow` drives the control flow
/// to the terminal state, and every further delivery leaves it there — any
/// number of deliveries has the effect of exactly one.
pub proof fn lemma_close_idempotent(cf: HostControlFlow)
    ensures
        next_control_flow(Event::CloseWindow, cf) == HostControlFlow::Exit,
        next_control_flow(Event::CloseWindow, next_control_flow(Event::CloseWindow, cf))
            == next_control_flow(Event::CloseWindow, cf),
{
}

} // verus!
