use vstd::prelude::*;
use vstd::string::*;

use crate::capture::CaptureSignal;
use crate::capture::StartCaptureArgs;
use crate::capture::start_capture;
use crate::capture::stop_capture;
use crate::errors::RpcError;
use crate::events::Event;
use crate::gateway::RpcFile;
use crate::gateway::backup_path_spec;
use crate::gateway::open_file;
use crate::gateway::wants_backup;
use crate::gateway::write_file;

verus! {

/// Parameters of the save-location dialog: a suggested path and the name /
/// extension filters the dialog offers.
#[derive(Debug)]
pub struct DialogParams {
    pub path: String,
    pub filters: Vec<(String, Vec<String>)>,
}

/// The single decoded parameter of a call-with-param request, already
/// shaped: the host decodes the raw JSON element into the shape the method
/// expects before dispatch, and hands over `Malformed` (with the reported
/// text) when that decoding fails.
#[derive(Debug)]
pub enum Param {
    Text(String),
    File(RpcFile),
    Dialog(DialogParams),
    Capture(StartCaptureArgs),
    Flag(bool),
    Malformed(String),
}

/// An inbound request: correlation id, method name, and the optional
/// parameter. Immutable once received.
#[derive(Debug)]
pub struct Request {
    pub id: Option<u64>,
    pub method: String,
    pub params: Option<Param>,
}

/// The value a successful response carries back to the UI.
#[derive(Debug)]
pub enum ResponseValue {
    Null,
    Text(String),
    File(RpcFile),
}

/// A response frame: the echoed id, and either a value or an error message.
/// Notify-style methods produce no frame at all.
#[derive(Debug)]
pub struct Response {
    pub id: Option<u64>,
    pub payload: Result<ResponseValue, String>,
}

/// A fire-and-forget operation the host performs with no result handed
/// back: window chrome, event emission, task scheduling, the capture queue.
#[derive(Debug)]
pub enum Effect {
    ShowWindow,
    MinimizeWindow,
    DragWindow,
    Emit(Event),
    SpawnUpdateCheck,
    SpawnUpdateDownload,
    SendSignal(CaptureSignal),
}

/// An operation whose outcome the host must hand back before the dispatch
/// can finish.
#[derive(Debug)]
pub enum Query {
    /// Resolve the path and read its bytes.
    ReadFile(String),
    /// As `ReadFile`, for the database path, which a packaged host resolves
    /// against its own location first.
    ReadDatabase(String),
    /// Ask the user for a save file to open; the flag selects the last-used
    /// directory.
    OpenSaveDialog(bool),
    /// Ask the user where to save.
    SaveSaveDialog(DialogParams),
    /// Ask the user for a head-morph file to import.
    ImportMorphDialog,
    /// Ask the user where to export the head morph.
    ExportMorphDialog,
    /// Snapshot the name of the foreground process.
    QueryForeground,
    /// Probe whether the path exists.
    Stat(String),
    /// Copy the destination to the backup path (when planned), then
    /// overwrite the destination with the bytes, in that order.
    Save { path: String, backup_to: Option<String>, bytes: Vec<u8> },
    /// Copy `from` to `to` only; the write was abandoned.
    Backup { from: String, to: String },
    /// Open the link with the system handler.
    OpenLink(String),
}

/// What the router remembers between a query and its feedback.
#[derive(Debug)]
pub enum Pending {
    /// A read whose envelope answers the request.
    AwaitRead { id: Option<u64> },
    /// A file-choosing dialog; a chosen path leads to a read.
    AwaitFileDialog { id: Option<u64> },
    /// A path-choosing dialog; the chosen path itself answers the request.
    AwaitPathDialog { id: Option<u64> },
    /// The foreground snapshot that gates a capture start.
    AwaitForeground { id: Option<u64>, args: StartCaptureArgs },
    /// The existence probe that decides whether a save makes a backup.
    AwaitStat { id: Option<u64>, rpc_file: RpcFile },
    /// A save or link-open whose success answers the request with null.
    AwaitCompletion { id: Option<u64> },
    /// A backup copy made for a payload that failed to decode: the decode
    /// failure is reported once the copy is done.
    AwaitBackupThenFail { id: Option<u64> },
}

/// The host's answer to a query.
#[derive(Debug)]
pub enum Feedback {
    /// The resolved path and the bytes read, or why the read failed.
    Read(Result<(String, Vec<u8>), RpcError>),
    /// The dialog's choice, if the user made one.
    ChosenPath(Option<String>),
    /// The foreground-process name, or why the inspector failed.
    Foreground(Result<String, RpcError>),
    /// Whether the probed path exists.
    Exists(bool),
    /// Whether the save, copy or open succeeded.
    Outcome(Result<(), RpcError>),
}

/// One router step: either ask the host to perform a query and come back
/// through `resume`, or finish with the effect and response owed.
#[derive(Debug)]
pub enum Step {
    Ask(Query, Pending),
    Done(Done),
}

/// The end of a dispatch: at most one fire-and-forget effect, and at most
/// one response frame.
#[derive(Debug)]
pub struct Done {
    pub effect: Option<Effect>,
    pub response: Option<Response>,
}

/// The three calling conventions of the registration table.
#[derive(Debug)]
pub enum ArityClass {
    Notify,
    Call,
    CallWithParam,
}

/// The shape a call-with-param method expects its single parameter to
/// decode into.
#[derive(Debug)]
pub enum ParamShape {
    Path,
    Envelope,
    Dialog,
    Capture,
    Flag,
}

/// The parameter shape each call-with-param method declares; `None` for
/// every other name.
pub open spec fn param_shape_spec(m: Seq<char>) -> Option<ParamShape> {
    if m == "open_external_link"@ || m == "reload_save"@ || m == "load_database"@ {
        Some(ParamShape::Path)
    } else if m == "open_save"@ {
        Some(ParamShape::Flag)
    } else if m == "save_file"@ {
        Some(ParamShape::Envelope)
    } else if m == "save_save_dialog"@ {
        Some(ParamShape::Dialog)
    } else if m == "start_capture"@ {
        Some(ParamShape::Capture)
    } else {
        None
    }
}

/// The registration table: every method name the router resolves, with its
/// arity class. Lookup is exact string match; any name absent from the
/// table is unknown. The startup-save method is special-cased outside the
/// table by `dispatch`.
pub open spec fn route_spec(m: Seq<char>) -> Option<ArityClass> {
    if m == "init"@ || m == "minimize"@ || m == "toggle_maximize"@ || m == "drag_window"@ || m
        == "close"@ {
        Some(ArityClass::Notify)
    } else if m == "check_for_update"@ || m == "download_and_install_update"@ || m
        == "import_head_morph"@ || m == "export_head_morph_dialog"@ || m == "stop_capture"@ {
        Some(ArityClass::Call)
    } else if param_shape_spec(m) is Some {
        Some(ArityClass::CallWithParam)
    } else {
        None
    }
}

/// Whether a decoded parameter has the shape a method expects.
pub open spec fn shape_fits(pv: Param, sh: ParamShape) -> bool {
    match sh {
        ParamShape::Path => pv is Text,
        ParamShape::Envelope => pv is File,
        ParamShape::Dialog => pv is Dialog,
        ParamShape::Capture => pv is Capture,
        ParamShape::Flag => pv is Flag,
    }
}

/// The step finishes with no response and exactly this effect.
pub open spec fn done_notify(r: Step, eff: Option<Effect>) -> bool {
    &&& r matches Step::Done(d)
    &&& d.effect == eff
    &&& d.response is None
}

/// The step finishes with a null result frame for `id` and exactly this
/// effect.
pub open spec fn done_null(r: Step, id: Option<u64>, eff: Option<Effect>) -> bool {
    &&& r matches Step::Done(d)
    &&& d.effect == eff
    &&& d.response matches Some(resp)
    &&& resp.id == id
    &&& resp.payload matches Ok(v)
    &&& v == ResponseValue::Null
}

/// The step finishes with an error frame for `id` carrying exactly this
/// message, and no effect.
pub open spec fn done_error(r: Step, id: Option<u64>, msg: Seq<char>) -> bool {
    &&& r matches Step::Done(d)
    &&& d.effect is None
    &&& d.response matches Some(resp)
    &&& resp.id == id
    &&& resp.payload matches Err(m)
    &&& m@ == msg
}

/// The step finishes with a text result frame for `id` carrying exactly
/// this text, and no effect.
pub open spec fn done_text(r: Step, id: Option<u64>, text: Seq<char>) -> bool {
    &&& r matches Step::Done(d)
    &&& d.effect is None
    &&& d.response matches Some(resp)
    &&& resp.id == id
    &&& resp.payload matches Ok(v)
    &&& v matches ResponseValue::Text(t)
    &&& t@ == text
}

/// The step finishes with an envelope frame for `id`: the envelope holds
/// the resolved path, declares exactly the byte count read, and decodes
/// back to exactly those bytes.
pub open spec fn done_file(r: Step, id: Option<u64>, path: Seq<char>, bytes: Seq<u8>) -> bool {
    &&& r matches Step::Done(d)
    &&& d.effect is None
    &&& d.response matches Some(resp)
    &&& resp.id == id
    &&& resp.payload matches Ok(v)
    &&& v matches ResponseValue::File(f)
    &&& f.path@ == path
    &&& f.file.unencoded_size == bytes.len()
    &&& f.file.decode_spec() == Some(bytes)
}

/// The step asks for a read of `path`, remembering who asked.
pub open spec fn asks_read(r: Step, path: Seq<char>, id: Option<u64>) -> bool {
    &&& r matches Step::Ask(q, pd)
    &&& q matches Query::ReadFile(rp)
    &&& rp@ == path
    &&& pd matches Pending::AwaitRead { id: pid }
    &&& pid == id
}

/// The step asks for a read of the database path, remembering who asked.
pub open spec fn asks_read_database(r: Step, path: Seq<char>, id: Option<u64>) -> bool {
    &&& r matches Step::Ask(q, pd)
    &&& q matches Query::ReadDatabase(rp)
    &&& rp@ == path
    &&& pd matches Pending::AwaitRead { id: pid }
    &&& pid == id
}

/// The step asks the open-save dialog with the given directory switch.
pub open spec fn asks_open_save_dialog(r: Step, last_dir: bool, id: Option<u64>) -> bool {
    &&& r matches Step::Ask(q, pd)
    &&& q matches Query::OpenSaveDialog(b)
    &&& b == last_dir
    &&& pd matches Pending::AwaitFileDialog { id: pid }
    &&& pid == id
}

/// The step asks the import dialog for a head-morph file.
pub open spec fn asks_import_dialog(r: Step, id: Option<u64>) -> bool {
    &&& r matches Step::Ask(q, pd)
    &&& q == Query::ImportMorphDialog
    &&& pd matches Pending::AwaitFileDialog { id: pid }
    &&& pid == id
}

/// The step asks the export dialog for a destination path.
pub open spec fn asks_export_dialog(r: Step, id: Option<u64>) -> bool {
    &&& r matches Step::Ask(q, pd)
    &&& q == Query::ExportMorphDialog
    &&& pd matches Pending::AwaitPathDialog { id: pid }
    &&& pid == id
}

/// The step asks the save-location dialog with exactly these parameters.
pub open spec fn asks_save_dialog(r: Step, dp: DialogParams, id: Option<u64>) -> bool {
    &&& r matches Step::Ask(q, pd)
    &&& q matches Query::SaveSaveDialog(qp)
    &&& qp == dp
    &&& pd matches Pending::AwaitPathDialog { id: pid }
    &&& pid == id
}

/// The step asks for the foreground snapshot that gates this capture start.
pub open spec fn asks_foreground(r: Step, args: StartCaptureArgs, id: Option<u64>) -> bool {
    &&& r matches Step::Ask(q, pd)
    &&& q == Query::QueryForeground
    &&& pd matches Pending::AwaitForeground { id: pid, args: a }
    &&& pid == id
    &&& a == args
}

/// The step asks whether the envelope's destination exists, keeping the
/// envelope for the save that follows.
pub open spec fn asks_stat(r: Step, f: RpcFile, id: Option<u64>) -> bool {
    &&& r matches Step::Ask(q, pd)
    &&& q matches Query::Stat(sp)
    &&& sp@ == f.path@
    &&& pd matches Pending::AwaitStat { id: pid, rpc_file }
    &&& pid == id
    &&& rpc_file == f
}

/// The step asks the system handler to open exactly this link.
pub open spec fn asks_open_link(r: Step, link: String, id: Option<u64>) -> bool {
    &&& r matches Step::Ask(q, pd)
    &&& q matches Query::OpenLink(lk)
    &&& lk == link
    &&& pd matches Pending::AwaitCompletion { id: pid }
    &&& pid == id
}

/// The step finishes a capture stop: the `Stop` signal is sent and the
/// start-capture caption is returned.
pub open spec fn done_stop_capture(r: Step, id: Option<u64>) -> bool {
    &&& r matches Step::Done(d)
    &&& d.effect matches Some(Effect::SendSignal(sig))
    &&& sig == CaptureSignal::Stop
    &&& d.response matches Some(resp)
    &&& resp.id == id
    &&& resp.payload matches Ok(v)
    &&& v matches ResponseValue::Text(t)
    &&& t@ == "开始采集"@
}

/// The argument guard of every call-with-param method: an absent `params`
/// field fails with the argument error; a parameter that failed to decode
/// fails with the text the decoder reported; a parameter of the wrong shape
/// fails with the argument error.
pub open spec fn param_guard_post(req: Request, r: Step) -> bool {
    match req.params {
        None => done_error(r, req.id, "argument required"@),
        Some(Param::Malformed(t)) => done_error(r, req.id, t@),
        Some(pv) => !shape_fits(pv, param_shape_spec(req.method@)->0) ==> done_error(
            r,
            req.id,
            "argument required"@,
        ),
    }
}

/// Exact-match comparison of a method name against a table entry.
fn method_is(m: &String, lit: &str) -> (r: bool)
    ensures
        r == (m@ == lit@),
{
    *m == String::from_str(lit)
}

fn error_step(id: Option<u64>, e: &RpcError) -> (r: Step)
    ensures
        done_error(r, id, e.message_spec()),
{
    Step::Done(
        Done { effect: None, response: Some(Response { id, payload: Err(e.message()) }) },
    )
}

/// An error frame whose message was already rendered: the text a parameter
/// decoder reported for a malformed parameter.
fn text_error_step(id: Option<u64>, msg: String) -> (r: Step)
    ensures
        done_error(r, id, msg@),
{
    Step::Done(Done { effect: None, response: Some(Response { id, payload: Err(msg) }) })
}

fn null_step(id: Option<u64>, effect: Option<Effect>) -> (r: Step)
    ensures
        done_null(r, id, effect),
{
    Step::Done(
        Done { effect, response: Some(Response { id, payload: Ok(ResponseValue::Null) }) },
    )
}

/// Resolves one request against the registration table and takes the first
/// step of its dispatch: a finished outcome for notify and immediate
/// methods, or the query whose feedback `resume` needs.
///
/// `cli_save` is the startup save path the command line supplied, already
/// resolved against the working directory; only the special-cased startup
/// method consults it.
pub fn dispatch(req: Request, cli_save: &Option<String>) -> (r: Step)
    ensures
        // the special-cased startup method: load the command-line path if one
        // was given, a null result (not an error) otherwise
        req.method@ == "open_command_line_save"@ ==> (match cli_save {
            Some(p) => asks_read(r, p@, req.id),
            None => done_null(r, req.id, None),
        }),
        // notify methods: an effect, never a response
        req.method@ == "init"@ ==> done_notify(r, Some(Effect::ShowWindow)),
        req.method@ == "minimize"@ ==> done_notify(r, Some(Effect::MinimizeWindow)),
        req.method@ == "toggle_maximize"@ ==> done_notify(r, None),
        req.method@ == "drag_window"@ ==> done_notify(r, Some(Effect::DragWindow)),
        req.method@ == "close"@ ==> done_notify(r, Some(Effect::Emit(Event::CloseWindow))),
        // call methods
        req.method@ == "check_for_update"@ ==> done_null(
            r,
            req.id,
            Some(Effect::SpawnUpdateCheck),
        ),
        req.method@ == "download_and_install_update"@ ==> done_null(
            r,
            req.id,
            Some(Effect::SpawnUpdateDownload),
        ),
        req.method@ == "import_head_morph"@ ==> asks_import_dialog(r, req.id),
        req.method@ == "export_head_morph_dialog"@ ==> asks_export_dialog(r, req.id),
        req.method@ == "stop_capture"@ ==> done_stop_capture(r, req.id),
        // the argument guard of every call-with-param method
        route_spec(req.method@) == Some(ArityClass::CallWithParam) ==> param_guard_post(req, r),
        // call-with-param methods, given the shape they declare
        req.method@ == "open_external_link"@ ==> (match req.params {
            Some(Param::Text(l)) => asks_open_link(r, l, req.id),
            _ => true,
        }),
        req.method@ == "open_save"@ ==> (match req.params {
            Some(Param::Flag(b)) => asks_open_save_dialog(r, b, req.id),
            _ => true,
        }),
        req.method@ == "save_file"@ ==> (match req.params {
            Some(Param::File(f)) => asks_stat(r, f, req.id),
            _ => true,
        }),
        req.method@ == "save_save_dialog"@ ==> (match req.params {
            Some(Param::Dialog(dp)) => asks_save_dialog(r, dp, req.id),
            _ => true,
        }),
        req.method@ == "reload_save"@ ==> (match req.params {
            Some(Param::Text(p)) => asks_read(r, p@, req.id),
            _ => true,
        }),
        req.method@ == "load_database"@ ==> (match req.params {
            Some(Param::Text(p)) => asks_read_database(r, p@, req.id),
            _ => true,
        }),
        req.method@ == "start_capture"@ ==> (match req.params {
            Some(Param::Capture(a)) => asks_foreground(r, a, req.id),
            _ => true,
        }),
        // routing completeness: every name outside the table (and not the
        // special-cased startup method) fails with the unknown-method error,
        // whose message carries the offending name
        route_spec(req.method@) is None && req.method@ != "open_command_line_save"@ ==> done_error(
            r,
            req.id,
            "Wrong RPC method, got: "@ + req.method@,
        ),
{
    proof {
        reveal_strlit("open_command_line_save");
        reveal_strlit("init");
        reveal_strlit("minimize");
        reveal_strlit("toggle_maximize");
        reveal_strlit("drag_window");
        reveal_strlit("close");
        reveal_strlit("check_for_update");
        reveal_strlit("download_and_install_update");
        reveal_strlit("import_head_morph");
        reveal_strlit("export_head_morph_dialog");
        reveal_strlit("stop_capture");
        reveal_strlit("open_external_link");
        reveal_strlit("open_save");
        reveal_strlit("save_file");
        reveal_strlit("save_save_dialog");
        reveal_strlit("reload_save");
        reveal_strlit("load_database");
        reveal_strlit("start_capture");
        assert("open_save"@[0] != "save_file"@[0]);
        assert("check_for_update"@[0] != "save_save_dialog"@[0]);
        assert("drag_window"@[0] != "reload_save"@[0]);
        assert("load_database"@[0] != "start_capture"@[0]);
        assert("open_command_line_save"@.len() == 22);
        assert("init"@.len() == 4);
        assert("minimize"@.len() == 8);
        assert("toggle_maximize"@.len() == 15);
        assert("drag_window"@.len() == 11);
        assert("close"@.len() == 5);
        assert("check_for_update"@.len() == 16);
        assert("download_and_install_update"@.len() == 27);
        assert("import_head_morph"@.len() == 17);
        assert("export_head_morph_dialog"@.len() == 24);
        assert("stop_capture"@.len() == 12);
        assert("open_external_link"@.len() == 18);
        assert("open_save"@.len() == 9);
        assert("save_file"@.len() == 9);
        assert("save_save_dialog"@.len() == 16);
        assert("reload_save"@.len() == 11);
        assert("load_database"@.len() == 13);
        assert("start_capture"@.len() == 13);
    }
    let Request { id, method, params } = req;
    if method_is(&method, "open_command_line_save") {
        match cli_save {
            Some(p) => Step::Ask(Query::ReadFile(p.clone()), Pending::AwaitRead { id }),
            None => null_step(id, None),
        }
    } else if method_is(&method, "init") {
        Step::Done(Done { effect: Some(Effect::ShowWindow), response: None })
    } else if method_is(&method, "minimize") {
        Step::Done(Done { effect: Some(Effect::MinimizeWindow), response: None })
    } else if method_is(&method, "toggle_maximize") {
        Step::Done(Done { effect: None, response: None })
    } else if method_is(&method, "drag_window") {
        Step::Done(Done { effect: Some(Effect::DragWindow), response: None })
    } else if method_is(&method, "close") {
        Step::Done(Done { effect: Some(Effect::Emit(Event::CloseWindow)), response: None })
    } else if method_is(&method, "check_for_update") {
        null_step(id, Some(Effect::SpawnUpdateCheck))
    } else if method_is(&method, "download_and_install_update") {
        null_step(id, Some(Effect::SpawnUpdateDownload))
    } else if method_is(&method, "import_head_morph") {
        Step::Ask(Query::ImportMorphDialog, Pending::AwaitFileDialog { id })
    } else if method_is(&method, "export_head_morph_dialog") {
        Step::Ask(Query::ExportMorphDialog, Pending::AwaitPathDialog { id })
    } else if method_is(&method, "stop_capture") {
        let (sig, caption) = stop_capture();
        Step::Done(
            Done {
                effect: Some(Effect::SendSignal(sig)),
                response: Some(Response { id, payload: Ok(ResponseValue::Text(caption)) }),
            },
        )
    } else if method_is(&method, "open_external_link") {
        match params {
            Some(Param::Text(link)) => Step::Ask(
                Query::OpenLink(link),
                Pending::AwaitCompletion { id },
            ),
            Some(Param::Malformed(t)) => text_error_step(id, t),
            _ => error_step(id, &RpcError::ArgumentError),
        }
    } else if method_is(&method, "open_save") {
        match params {
            Some(Param::Flag(b)) => Step::Ask(
                Query::OpenSaveDialog(b),
                Pending::AwaitFileDialog { id },
            ),
            Some(Param::Malformed(t)) => text_error_step(id, t),
            _ => error_step(id, &RpcError::ArgumentError),
        }
    } else if method_is(&method, "save_file") {
        match params {
            Some(Param::File(f)) => {
                let probe = f.path.clone();
                Step::Ask(Query::Stat(probe), Pending::AwaitStat { id, rpc_file: f })
            },
            Some(Param::Malformed(t)) => text_error_step(id, t),
            _ => error_step(id, &RpcError::ArgumentError),
        }
    } else if method_is(&method, "save_save_dialog") {
        match params {
            Some(Param::Dialog(dp)) => Step::Ask(
                Query::SaveSaveDialog(dp),
                Pending::AwaitPathDialog { id },
            ),
            Some(Param::Malformed(t)) => text_error_step(id, t),
            _ => error_step(id, &RpcError::ArgumentError),
        }
    } else if method_is(&method, "reload_save") {
        match params {
            Some(Param::Text(p)) => Step::Ask(Query::ReadFile(p), Pending::AwaitRead { id }),
            Some(Param::Malformed(t)) => text_error_step(id, t),
            _ => error_step(id, &RpcError::ArgumentError),
        }
    } else if method_is(&method, "load_database") {
        match params {
            Some(Param::Text(p)) => Step::Ask(Query::ReadDatabase(p), Pending::AwaitRead { id }),
            Some(Param::Malformed(t)) => text_error_step(id, t),
            _ => error_step(id, &RpcError::ArgumentError),
        }
    } else if method_is(&method, "start_capture") {
        match params {
            Some(Param::Capture(args)) => Step::Ask(
                Query::QueryForeground,
                Pending::AwaitForeground { id, args },
            ),
            Some(Param::Malformed(t)) => text_error_step(id, t),
            _ => error_step(id, &RpcError::ArgumentError),
        }
    } else {
        error_step(id, &RpcError::UnknownMethod(method))
    }
}

/// The declared parameter shape of a method, for the host to decode the
/// raw JSON element by before it builds the request.
pub fn param_shape(method: &String) -> (r: Option<ParamShape>)
    ensures
        r == param_shape_spec(method@),
{
    if method_is(method, "open_external_link") || method_is(method, "reload_save")
        || method_is(method, "load_database") {
        Some(ParamShape::Path)
    } else if method_is(method, "open_save") {
        Some(ParamShape::Flag)
    } else if method_is(method, "save_file") {
        Some(ParamShape::Envelope)
    } else if method_is(method, "save_save_dialog") {
        Some(ParamShape::Dialog)
    } else if method_is(method, "start_capture") {
        Some(ParamShape::Capture)
    } else {
        None
    }
}

/// Whether a feedback answers what the pending state awaits.
pub open spec fn feedback_fits(st: Pending, fb: Feedback) -> bool {
    match st {
        Pending::AwaitRead { .. } => fb is Read,
        Pending::AwaitFileDialog { .. } => fb is ChosenPath,
        Pending::AwaitPathDialog { .. } => fb is ChosenPath,
        Pending::AwaitForeground { .. } => fb is Foreground,
        Pending::AwaitStat { .. } => fb is Exists,
        Pending::AwaitCompletion { .. } => fb is Outcome,
        Pending::AwaitBackupThenFail { .. } => fb is Outcome,
    }
}

/// The step drops a feedback that answers nothing it awaits: no effect, no
/// response.
pub open spec fn done_dropped(r: Step) -> bool {
    &&& r matches Step::Done(d)
    &&& d.effect is None
    &&& d.response is None
}

/// The step finishes a capture start against this foreground snapshot: the
/// `Start` signal is sent if and only if the snapshot equals the target
/// name, nothing is sent otherwise, and in both branches the caption of the
/// opposite action is returned.
pub open spec fn done_capture(r: Step, id: Option<u64>, args: StartCaptureArgs, top: Seq<
    char,
>) -> bool {
    &&& r matches Step::Done(d)
    &&& d.response matches Some(resp)
    &&& resp.id == id
    &&& resp.payload matches Ok(v)
    &&& v matches ResponseValue::Text(t)
    &&& top == args.name@ ==> ({
        &&& d.effect matches Some(Effect::SendSignal(sig))
        &&& sig matches CaptureSignal::Start(n)
        &&& n@ == args.name@
        &&& t@ == "结束采集"@
    })
    &&& top != args.name@ ==> d.effect is None && t@ == "结束采集(请打开游戏)"@
}

/// The step carries out a save whose payload decoded: the host copies the
/// destination to the backup exactly when one is owed, then overwrites the
/// destination with exactly the decoded bytes.
pub open spec fn asks_save(r: Step, f: RpcFile, dest_exists: bool, id: Option<u64>) -> bool {
    &&& r matches Step::Ask(q, pd)
    &&& q matches Query::Save { path, backup_to, bytes }
    &&& path@ == f.path@
    &&& (backup_to is Some <==> wants_backup(f.path@, dest_exists))
    &&& backup_to matches Some(b) ==> b@ == backup_path_spec(f.path@)
    &&& f.file.decode_spec() == Some(bytes@)
    &&& pd matches Pending::AwaitCompletion { id: pid }
    &&& pid == id
}

/// The step makes the owed backup copy for a payload that failed to decode;
/// the decode failure is reported once the copy is done.
pub open spec fn asks_backup_then_fail(r: Step, f: RpcFile, id: Option<u64>) -> bool {
    &&& r matches Step::Ask(q, pd)
    &&& q matches Query::Backup { from, to }
    &&& from@ == f.path@
    &&& to@ == backup_path_spec(f.path@)
    &&& pd matches Pending::AwaitBackupThenFail { id: pid }
    &&& pid == id
}

/// Consumes the host's answer to a query and takes the next step of the
/// dispatch that asked it.
pub fn resume(st: Pending, fb: Feedback) -> (r: Step)
    ensures
        !feedback_fits(st, fb) ==> done_dropped(r),
        // a finished read answers with the envelope of the resolved path
        // and the bytes read; a failed read answers with its error
        st matches Pending::AwaitRead { id } ==> (match fb {
            Feedback::Read(Ok(pb)) => done_file(r, id, pb.0@, pb.1@),
            Feedback::Read(Err(e)) => done_error(r, id, e.message_spec()),
            _ => true,
        }),
        // a file dialog's choice leads to a read; no choice answers null
        st matches Pending::AwaitFileDialog { id } ==> (match fb {
            Feedback::ChosenPath(Some(p)) => asks_read(r, p@, id),
            Feedback::ChosenPath(None) => done_null(r, id, None),
            _ => true,
        }),
        // a path dialog's choice itself answers; no choice answers null
        st matches Pending::AwaitPathDialog { id } ==> (match fb {
            Feedback::ChosenPath(Some(p)) => done_text(r, id, p@),
            Feedback::ChosenPath(None) => done_null(r, id, None),
            _ => true,
        }),
        // capture gating against the foreground snapshot
        st matches Pending::AwaitForeground { id, args } ==> (match fb {
            Feedback::Foreground(Ok(top)) => done_capture(r, id, args, top@),
            Feedback::Foreground(Err(e)) => done_error(r, id, e.message_spec()),
            _ => true,
        }),
        // the existence probe decides the backup; the payload is then
        // decoded, and a payload that does not decode still gets the owed
        // backup copy before its failure is reported
        st matches Pending::AwaitStat { id, rpc_file } ==> (match fb {
            Feedback::Exists(dest_exists) => if rpc_file.file.decode_spec() is Some {
                asks_save(r, rpc_file, dest_exists, id)
            } else if wants_backup(rpc_file.path@, dest_exists) {
                asks_backup_then_fail(r, rpc_file, id)
            } else {
                done_error(r, id, RpcError::DecodeError.message_spec())
            },
            _ => true,
        }),
        // a finished save or link-open answers null; a failure answers with
        // its error
        st matches Pending::AwaitCompletion { id } ==> (match fb {
            Feedback::Outcome(Ok(u)) => done_null(r, id, None),
            Feedback::Outcome(Err(e)) => done_error(r, id, e.message_spec()),
            _ => true,
        }),
        // after the backup copy of an undecodable payload: the decode
        // failure is reported, unless the copy itself failed first
        st matches Pending::AwaitBackupThenFail { id } ==> (match fb {
            Feedback::Outcome(Ok(u)) => done_error(r, id, RpcError::DecodeError.message_spec()),
            Feedback::Outcome(Err(e)) => done_error(r, id, e.message_spec()),
            _ => true,
        }),
{
    match (st, fb) {
        (Pending::AwaitRead { id }, Feedback::Read(res)) => match res {
            Ok(pb) => {
                let (path, bytes) = pb;
                let f = open_file(path, bytes);
                Step::Done(
                    Done {
                        effect: None,
                        response: Some(
                            Response { id, payload: Ok(ResponseValue::File(f)) },
                        ),
                    },
                )
            },
            Err(e) => error_step(id, &e),
        },
        (Pending::AwaitFileDialog { id }, Feedback::ChosenPath(opt)) => match opt {
            Some(p) => Step::Ask(Query::ReadFile(p), Pending::AwaitRead { id }),
            None => null_step(id, None),
        },
        (Pending::AwaitPathDialog { id }, Feedback::ChosenPath(opt)) => match opt {
            Some(p) => Step::Done(
                Done {
                    effect: None,
                    response: Some(Response { id, payload: Ok(ResponseValue::Text(p)) }),
                },
            ),
            None => null_step(id, None),
        },
        (Pending::AwaitForeground { id, args }, Feedback::Foreground(res)) => match res {
            Ok(top) => {
                let (sig, caption) = start_capture(args, &top);
                let effect = match sig {
                    Some(s) => Some(Effect::SendSignal(s)),
                    None => None,
                };
                Step::Done(
                    Done {
                        effect,
                        response: Some(
                            Response { id, payload: Ok(ResponseValue::Text(caption)) },
                        ),
                    },
                )
            },
            Err(e) => error_step(id, &e),
        },
        (Pending::AwaitStat { id, rpc_file }, Feedback::Exists(dest_exists)) => {
            let plan = write_file(rpc_file, dest_exists);
            match plan.content {
                Ok(bytes) => Step::Ask(
                    Query::Save { path: plan.path, backup_to: plan.backup_to, bytes },
                    Pending::AwaitCompletion { id },
                ),
                Err(e) => match plan.backup_to {
                    Some(to) => Step::Ask(
                        Query::Backup { from: plan.path, to },
                        Pending::AwaitBackupThenFail { id },
                    ),
                    None => error_step(id, &e),
                },
            }
        },
        (Pending::AwaitCompletion { id }, Feedback::Outcome(res)) => match res {
            Ok(u) => null_step(id, None),
            Err(e) => error_step(id, &e),
        },
        (Pending::AwaitBackupThenFail { id }, Feedback::Outcome(res)) => match res {
            Ok(u) => error_step(id, &RpcError::DecodeError),
            Err(e) => error_step(id, &e),
        },
        _ => Step::Done(Done { effect: None, response: None }),
    }
}

} // verus!

