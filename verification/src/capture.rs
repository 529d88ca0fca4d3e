use vstd::prelude::*;
use vstd::string::*;

verus! {

/// A one-way, unacknowledged signal from a request handler to the capture
/// worker. Delivery is fire-and-forget: the handler never learns whether the
/// worker is alive.
#[derive(Debug)]
pub enum CaptureSignal {
    Start(String),
    Stop,
}

/// The single argument of a capture-start request: the process name the
/// capture is aimed at.
#[derive(Debug)]
pub struct StartCaptureArgs {
    pub name: String,
}

/// Capture gating: a `Start` signal is owed exactly when the foreground
/// process snapshot equals the requested name; otherwise nothing is sent.
/// The returned caption is the label for the *opposite* of the action just
/// taken (a toggle button's next label), preserved literally: the
/// stop-capture label on a successful start, the open-the-game variant on a
/// mismatch.
pub fn start_capture(args: StartCaptureArgs, foreground: &String) -> (r: (
    Option<CaptureSignal>,
    String,
))
    ensures
        r.0 is Some <==> foreground@ == args.name@,
        r.0 matches Some(s) ==> s matches CaptureSignal::Start(n) && n@ == args.name@,
        foreground@ == args.name@ ==> r.1@ == "结束采集"@,
        foreground@ != args.name@ ==> r.1@ == "结束采集(请打开游戏)"@,
{
    if *foreground == args.name {
        (Some(CaptureSignal::Start(args.name)), String::from_str("结束采集"))
    } else {
        (None, String::from_str("结束采集(请打开游戏)"))
    }
}

/// Stopping is unconditional: a `Stop` signal is always owed, with the
/// start-capture caption as the toggle's next label.
pub fn stop_capture() -> (r: (CaptureSignal, String))
    ensures
        r.0 == CaptureSignal::Stop,
        r.1@ == "开始采集"@,
{
    (CaptureSignal::Stop, String::from_str("开始采集"))
}

} // verus!
