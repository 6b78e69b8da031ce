//! The control protocol between `we-layerd ctl` and the running daemon: the
//! requests, their parsing, the replies, and where the endpoints live.
use vstd::prelude::*;

use crate::pathname::{join, path_join};
use crate::text::{
    ascii_lower, concat, decimal, lit, starts_with, starts_with_str, str_eq, strip_prefix_str,
    to_ascii_lower, trim, trim_start, trim_start_str, trim_str, u32_to_decimal,
};

verus! {

/// A command for the running daemon.
#[derive(Debug, Clone, Copy, PartialEq, Eq, Structural)]
pub enum ControlCommand {
    Stop,
    Pause,
    Resume,
    Reload,
    Reconfigure,
    HideWindow,
    ShowWindow,
}

/// The wire name of a command.
pub open spec fn command_name(c: ControlCommand) -> Seq<char> {
    match c {
        ControlCommand::Stop => "stop"@,
        ControlCommand::Pause => "pause"@,
        ControlCommand::Resume => "resume"@,
        ControlCommand::Reload => "reload"@,
        ControlCommand::Reconfigure => "reconfigure"@,
        ControlCommand::HideWindow => "hide-window"@,
        ControlCommand::ShowWindow => "show-window"@,
    }
}

/// The command that a request names, once trimmed and lower-cased; the
/// daemon-internal `reconfigure` is not accepted from outside.
pub open spec fn command_named(raw: Seq<char>) -> Option<ControlCommand> {
    let n = ascii_lower(trim(raw));
    if n == "stop"@ {
        Some(ControlCommand::Stop)
    } else if n == "pause"@ {
        Some(ControlCommand::Pause)
    } else if n == "resume"@ {
        Some(ControlCommand::Resume)
    } else if n == "reload"@ {
        Some(ControlCommand::Reload)
    } else if n == "hide-window"@ {
        Some(ControlCommand::HideWindow)
    } else if n == "show-window"@ {
        Some(ControlCommand::ShowWindow)
    } else {
        None
    }
}

impl ControlCommand {
    /// The wire name of this command.
    pub fn as_str(self) -> (s: &'static str)
        ensures
            s@ == command_name(self),
    {
        match self {
            ControlCommand::Stop => "stop",
            ControlCommand::Pause => "pause",
            ControlCommand::Resume => "resume",
            ControlCommand::Reload => "reload",
            ControlCommand::Reconfigure => "reconfigure",
            ControlCommand::HideWindow => "hide-window",
            ControlCommand::ShowWindow => "show-window",
        }
    }

    /// The command that a request names, ignoring surrounding white space
    /// and ASCII case.
    pub fn parse(raw: &str) -> (r: Option<ControlCommand>)
        ensures
            r == command_named(raw@),
    {
        let t = trim_str(raw);
        let n = to_ascii_lower(t.as_str());
        let n = n.as_str();
        if str_eq(n, "stop") {
            Some(ControlCommand::Stop)
        } else if str_eq(n, "pause") {
            Some(ControlCommand::Pause)
        } else if str_eq(n, "resume") {
            Some(ControlCommand::Resume)
        } else if str_eq(n, "reload") {
            Some(ControlCommand::Reload)
        } else if str_eq(n, "hide-window") {
            Some(ControlCommand::HideWindow)
        } else if str_eq(n, "show-window") {
            Some(ControlCommand::ShowWindow)
        } else {
            None
        }
    }
}

/// How a runtime session ended.
#[derive(Debug, Clone, Copy, PartialEq, Eq, Structural)]
pub enum RuntimeLoopExit {
    Stop,
    RestartCurrent,
    Reconfigure,
}

/// Whether the daemon starts another session after one that ended this way.
pub fn continues_after(exit: RuntimeLoopExit) -> (r: bool)
    ensures
        r == (exit != RuntimeLoopExit::Stop),
{
    match exit {
        RuntimeLoopExit::Stop => false,
        RuntimeLoopExit::RestartCurrent => true,
        RuntimeLoopExit::Reconfigure => true,
    }
}

/// A request read from a control connection.
#[derive(Debug, Clone)]
pub enum ControlRequest {
    Command(ControlCommand),
    Status,
    SwitchConfig(String),
}

/// The request kinds, with the path of a switch as a string.
pub enum RequestView {
    Command(ControlCommand),
    Status,
    SwitchConfig(Seq<char>),
}

/// What a raw request asks for: `switch-config <path>` with a non-blank
/// path, `status` or `show-config` in any ASCII case, or a command.
pub open spec fn request_named(raw: Seq<char>) -> Option<RequestView> {
    let t = trim(raw);
    if starts_with(t, "switch-config "@) {
        let path = trim(t.subrange("switch-config "@.len() as int, t.len() as int));
        if path.len() == 0 {
            None
        } else {
            Some(RequestView::SwitchConfig(path))
        }
    } else {
        let n = ascii_lower(t);
        if n == "status"@ || n == "show-config"@ {
            Some(RequestView::Status)
        } else {
            match command_named(n) {
                Some(c) => Some(RequestView::Command(c)),
                None => None,
            }
        }
    }
}

/// The view of a request.
pub open spec fn request_view(r: ControlRequest) -> RequestView {
    match r {
        ControlRequest::Command(c) => RequestView::Command(c),
        ControlRequest::Status => RequestView::Status,
        ControlRequest::SwitchConfig(p) => RequestView::SwitchConfig(p@),
    }
}

impl ControlRequest {
    /// Parses a request.
    pub fn parse(raw: &str) -> (r: Option<ControlRequest>)
        ensures
            match r {
                Some(req) => request_named(raw@) == Some(request_view(req)),
                None => request_named(raw@) is None,
            },
    {
        let trimmed = trim_str(raw);
        if let Some(rest) = strip_prefix_str(trimmed.as_str(), "switch-config ") {
            let path = trim_str(rest.as_str());
            if path.as_str().is_empty() {
                return None;
            }
            return Some(ControlRequest::SwitchConfig(path));
        }
        let normalized = to_ascii_lower(trimmed.as_str());
        if str_eq(normalized.as_str(), "status") || str_eq(normalized.as_str(), "show-config") {
            return Some(ControlRequest::Status);
        }
        match ControlCommand::parse(normalized.as_str()) {
            Some(c) => Some(ControlRequest::Command(c)),
            None => None,
        }
    }
}

/// A lower-case word is its own trimmed, lower-cased form.
proof fn lemma_plain_word(n: Seq<char>)
    requires
        n.len() > 0,
        forall|i: int| 0 <= i < n.len() ==> ('a' <= #[trigger] n[i] && n[i] <= 'z') || n[i] == '-',
    ensures
        trim(n) == n,
        ascii_lower(n) == n,
        ascii_lower(trim(n)) == n,
{
    assert(!crate::text::is_white(n[0]));
    assert(trim_start(n) == n);
    assert(!crate::text::is_white(n.last()));
    assert(crate::text::trim_end(n) == n);
    assert(ascii_lower(n) =~= n);
}

/// Every command the daemon accepts from outside is read back from its own
/// wire name; `reconfigure` is never accepted from outside.
pub proof fn law_command_names_read_back(c: ControlCommand)
    ensures
        c != ControlCommand::Reconfigure ==> command_named(command_name(c)) == Some(c),
        forall|raw: Seq<char>| command_named(raw) != Some(ControlCommand::Reconfigure),
{
    reveal_strlit("stop");
    reveal_strlit("pause");
    reveal_strlit("resume");
    reveal_strlit("reload");
    reveal_strlit("hide-window");
    reveal_strlit("show-window");
    assert("stop"@[0] == 's' && "pause"@[0] == 'p' && "resume"@[0] == 'r' && "reload"@[0] == 'r');
    assert("resume"@[2] == 's' && "reload"@[2] == 'l');
    assert("hide-window"@[0] == 'h' && "show-window"@[0] == 's');
    assert("show-window"@.len() != "stop"@.len());
    match c {
        ControlCommand::Stop => lemma_plain_word("stop"@),
        ControlCommand::Pause => lemma_plain_word("pause"@),
        ControlCommand::Resume => lemma_plain_word("resume"@),
        ControlCommand::Reload => lemma_plain_word("reload"@),
        ControlCommand::HideWindow => lemma_plain_word("hide-window"@),
        ControlCommand::ShowWindow => lemma_plain_word("show-window"@),
        ControlCommand::Reconfigure => {},
    }
}

/// A command sent on its own, as `ctl` sends it (its wire name), is read by
/// the daemon as that command.
pub proof fn law_command_request_read_back(c: ControlCommand)
    requires
        c != ControlCommand::Reconfigure,
    ensures
        request_named(command_name(c)) == Some(RequestView::Command(c)),
{
    law_command_names_read_back(c);
    reveal_strlit("stop");
    reveal_strlit("pause");
    reveal_strlit("resume");
    reveal_strlit("reload");
    reveal_strlit("hide-window");
    reveal_strlit("show-window");
    reveal_strlit("status");
    reveal_strlit("show-config");
    reveal_strlit("switch-config ");
    let n = command_name(c);
    match c {
        ControlCommand::Stop => lemma_plain_word("stop"@),
        ControlCommand::Pause => lemma_plain_word("pause"@),
        ControlCommand::Resume => lemma_plain_word("resume"@),
        ControlCommand::Reload => lemma_plain_word("reload"@),
        ControlCommand::HideWindow => lemma_plain_word("hide-window"@),
        ControlCommand::ShowWindow => lemma_plain_word("show-window"@),
        ControlCommand::Reconfigure => {},
    }
    assert(trim(n) == n);
    assert(!starts_with(n, "switch-config "@));
    assert(n != "status"@) by {
        if n.len() == "status"@.len() {
            assert(n[0] != "status"@[0] || n[1] != "status"@[1]);
        }
    }
    assert(n != "show-config"@) by {
        if n.len() == "show-config"@.len() {
            assert(n[0] != "show-config"@[0] || n[5] != "show-config"@[5]);
        }
    }
}

/// The status request, as `ctl status` sends it, is read as one.
pub proof fn law_status_request_read_back()
    ensures
        request_named("status"@) == Some(RequestView::Status),
{
    reveal_strlit("status");
    reveal_strlit("switch-config ");
    lemma_plain_word("status"@);
    assert(!starts_with("status"@, "switch-config "@));
}

/// The text of a switch request.
pub fn switch_config_request(config_path: &str) -> (r: String)
    ensures
        r@ == "switch-config "@ + config_path@,
{
    concat("switch-config ", config_path)
}

/// A reply is an error when it starts with `ERR` once leading white space is
/// skipped.
pub open spec fn is_error_reply(response: Seq<char>) -> bool {
    starts_with(trim_start(response), "ERR"@)
}

/// Reads the daemon's reply: the error message (the trimmed reply) for an
/// `ERR` reply, else the reply itself.
pub fn interpret_reply(response: String) -> (r: Result<String, String>)
    ensures
        is_error_reply(response@) ==> (r matches Err(e) && e@ == trim(response@)),
        !is_error_reply(response@) ==> (r matches Ok(v) && v@ == response@),
{
    let lead = trim_start_str(response.as_str());
    if starts_with_str(lead.as_str(), "ERR") {
        Err(trim_str(response.as_str()))
    } else {
        Ok(response)
    }
}

/// The transport took the request text `request` and gave `answer`: the
/// daemon's reply, or why it could not be reached.
pub open spec fn sent<T: Fn(String) -> Result<String, String>>(
    transport: T,
    request: Seq<char>,
    answer: Result<String, String>,
) -> bool {
    exists|s: String| s@ == request && call_ensures(transport, (s,), answer)
}

/// The transport can be asked to send any request.
pub open spec fn ready_transport<T: Fn(String) -> Result<String, String>>(transport: T) -> bool {
    forall|s: String| call_requires(transport, (s,))
}

/// What a caller gets from the daemon's answer: the transport's error, the
/// trimmed reply for an `ERR` reply, else the reply.
pub open spec fn reply_outcome(answer: Result<String, String>) -> Result<Seq<char>, Seq<char>> {
    match answer {
        Err(e) => Err(e@),
        Ok(resp) => if is_error_reply(resp@) {
            Err(trim(resp@))
        } else {
            Ok(resp@)
        },
    }
}

/// Sends a request and reads the reply.
fn exchange<T: Fn(String) -> Result<String, String>>(transport: &T, request: String) -> (r: Result<
    String,
    String,
>)
    requires
        ready_transport(*transport),
    ensures
        exists|answer: Result<String, String>|
            sent(*transport, request@, answer) && match r {
                Ok(v) => reply_outcome(answer) == Ok::<Seq<char>, Seq<char>>(v@),
                Err(e) => reply_outcome(answer) == Err::<Seq<char>, Seq<char>>(e@),
            },
{
    let ghost req = request;
    let answer = transport(request);
    proof {
        assert(call_ensures(*transport, (req,), answer));
        assert(sent(*transport, req@, answer));
    }
    match answer {
        Err(e) => Err(e),
        Ok(resp) => interpret_reply(resp),
    }
}

/// Sends a command to the running daemon through `send_request`; the
/// result is the transport's error or the daemon's `ERR` reply, if any.
pub fn send_command<T: Fn(String) -> Result<String, String>>(command: ControlCommand, send_request: T) -> (r:
    Result<(), String>)
    requires
        ready_transport(send_request),
    ensures
        exists|answer: Result<String, String>|
            sent(send_request, command_name(command), answer) && match r {
                Ok(_) => reply_outcome(answer) is Ok,
                Err(e) => reply_outcome(answer) == Err::<Seq<char>, Seq<char>>(e@),
            },
{
    let request = lit(command.as_str());
    match exchange(&send_request, request) {
        Ok(_) => Ok(()),
        Err(e) => Err(e),
    }
}

/// Asks the running daemon for its status (its configuration and state)
/// through `send_request`.
pub fn request_running_config<T: Fn(String) -> Result<String, String>>(send_request: T) -> (r: Result<
    String,
    String,
>)
    requires
        ready_transport(send_request),
    ensures
        exists|answer: Result<String, String>|
            sent(send_request, "status"@, answer) && match r {
                Ok(v) => reply_outcome(answer) == Ok::<Seq<char>, Seq<char>>(v@),
                Err(e) => reply_outcome(answer) == Err::<Seq<char>, Seq<char>>(e@),
            },
{
    exchange(&send_request, lit("status"))
}

/// Asks the running daemon to switch to another configuration file
/// through `send_request`.
pub fn send_switch_config<T: Fn(String) -> Result<String, String>>(config_path: &str, send_request: T) -> (r:
    Result<(), String>)
    requires
        ready_transport(send_request),
    ensures
        exists|answer: Result<String, String>|
            sent(send_request, "switch-config "@ + config_path@, answer) && match r {
                Ok(_) => reply_outcome(answer) is Ok,
                Err(e) => reply_outcome(answer) == Err::<Seq<char>, Seq<char>>(e@),
            },
{
    let request = switch_config_request(config_path);
    match exchange(&send_request, request) {
        Ok(_) => Ok(()),
        Err(e) => Err(e),
    }
}

/// A text that does not start with white space is its own `trim_start`.
proof fn lemma_trim_start_plain(s: Seq<char>)
    requires
        s.len() > 0,
        !crate::text::is_white(s[0]),
    ensures
        trim_start(s) == s,
{
}

/// Trimming a text whose ends are not white space leaves it whole.
proof fn lemma_trim_plain(s: Seq<char>)
    requires
        s.len() > 0,
        !crate::text::is_white(s[0]),
        !crate::text::is_white(s.last()),
    ensures
        trim(s) == s,
{
    assert(trim_start(s) == s);
    assert(crate::text::trim_end(s) == s);
}

/// A text that is already trimmed and not empty starts and ends with a
/// character that is not white space.
proof fn lemma_trimmed_ends(p: Seq<char>)
    requires
        trim(p) == p,
        p.len() > 0,
    ensures
        !crate::text::is_white(p[0]),
        !crate::text::is_white(p.last()),
{
    lemma_trim_start_shorter(p);
    lemma_trim_end_shorter(trim_start(p));
    if crate::text::is_white(p[0]) {
        lemma_trim_start_shorter(p.drop_first());
        assert(trim_start(p).len() < p.len());
    }
    if crate::text::is_white(p.last()) {
        if trim_start(p).len() == p.len() {
            lemma_trim_start_len_same(p);
            lemma_trim_end_shorter(p.drop_last());
            assert(crate::text::trim_end(p).len() < p.len());
        }
    }
}

proof fn lemma_trim_start_shorter(s: Seq<char>)
    ensures
        trim_start(s).len() <= s.len(),
    decreases s.len(),
{
    if s.len() > 0 && crate::text::is_white(s[0]) {
        lemma_trim_start_shorter(s.drop_first());
    }
}

proof fn lemma_trim_end_shorter(s: Seq<char>)
    ensures
        crate::text::trim_end(s).len() <= s.len(),
    decreases s.len(),
{
    if s.len() > 0 && crate::text::is_white(s.last()) {
        lemma_trim_end_shorter(s.drop_last());
    }
}

proof fn lemma_trim_start_len_same(s: Seq<char>)
    requires
        trim_start(s).len() == s.len(),
    ensures
        trim_start(s) == s,
{
    if s.len() > 0 && crate::text::is_white(s[0]) {
        lemma_trim_start_shorter(s.drop_first());
    }
}

/// A switch request is read back by the daemon as a switch to the same
/// path, for any non-empty path without white space at its ends.
pub proof fn law_switch_request_read_back(path: Seq<char>)
    requires
        path.len() > 0,
        trim(path) == path,
    ensures
        request_named("switch-config "@ + path) == Some(RequestView::SwitchConfig(path)),
{
    reveal_strlit("switch-config ");
    lemma_trimmed_ends(path);
    let raw = "switch-config "@ + path;
    assert(raw[0] == 's');
    assert(raw.last() == path.last());
    lemma_trim_plain(raw);
    assert(raw.subrange(0, 14) =~= "switch-config "@);
    assert(raw.subrange(14, raw.len() as int) =~= path);
}

/// The daemon's error replies are read by the client as errors, carrying
/// the message; its `OK` reply is read as success.
pub proof fn law_error_reply_read_as_error(message: Seq<char>)
    ensures
        is_error_reply("ERR "@ + message + "\n"@),
        !is_error_reply("OK\n"@),
{
    reveal_strlit("ERR ");
    reveal_strlit("ERR");
    reveal_strlit("\n");
    reveal_strlit("OK\n");
    let r = "ERR "@ + message + "\n"@;
    assert(r[0] == 'E');
    lemma_trim_start_plain(r);
    assert(r.subrange(0, 3) =~= "ERR"@);
    lemma_trim_start_plain("OK\n"@);
    assert("OK\n"@.subrange(0, 3) != "ERR"@) by {
        assert("OK\n"@.subrange(0, 3)[0] == 'O');
    }
}

/// Two users never share a control socket name: the name tells the user
/// id.
pub proof fn law_socket_names_distinct_per_user(a: u32, b: u32)
    requires
        "we-layerd.control."@ + decimal(a as nat) == "we-layerd.control."@ + decimal(b as nat),
    ensures
        a == b,
{
    let p = "we-layerd.control."@;
    assert(decimal(a as nat) =~= ("we-layerd.control."@ + decimal(a as nat)).skip(p.len() as int));
    assert(decimal(b as nat) =~= ("we-layerd.control."@ + decimal(b as nat)).skip(p.len() as int));
    crate::text::lemma_parse_u32_decimal(a);
    crate::text::lemma_parse_u32_decimal(b);
}

/// The reply for an accepted request.
pub fn ok_reply() -> (r: String)
    ensures
        r@ == "OK\n"@,
{
    lit("OK\n")
}

/// The reply for a failed request.
pub fn error_reply(message: &str) -> (r: String)
    ensures
        r@ == "ERR "@ + message@ + "\n"@,
{
    let a = concat("ERR ", message);
    concat(a.as_str(), "\n")
}

/// The reply for a request that names nothing.
pub fn unknown_command_reply() -> (r: String)
    ensures
        r@ == "ERR unknown command\n"@,
{
    lit("ERR unknown command\n")
}

/// The reply when the runtime loop is gone.
pub fn not_running_reply() -> (r: String)
    ensures
        r@ == "ERR daemon not running\n"@,
{
    lit("ERR daemon not running\n")
}

/// The reply to a command: `OK` when the handler dealt with it or it was
/// passed on to the runtime loop, the handler's error otherwise, and a
/// note that the daemon is not running when the loop is gone.
pub fn command_reply(handled: Result<bool, String>, delivered: bool) -> (r: String)
    ensures
        match handled {
            Ok(true) => r@ == "OK\n"@,
            Ok(false) => if delivered {
                r@ == "OK\n"@
            } else {
                r@ == "ERR daemon not running\n"@
            },
            Err(e) => r@ == "ERR "@ + e@ + "\n"@,
        },
{
    match handled {
        Ok(true) => ok_reply(),
        Ok(false) => if delivered {
            ok_reply()
        } else {
            not_running_reply()
        },
        Err(e) => error_reply(e.as_str()),
    }
}

/// The reply the daemon gives to a raw request: `ERR unknown command` for
/// one it cannot read; the status text for `status`; for a switch, what the
/// switch handler answered for the path; for a command, what its handler
/// answered, and where the handler leaves it to the runtime loop, whether
/// the loop took it.
pub open spec fn served<
    S: Fn() -> String,
    H: Fn(ControlCommand) -> Result<bool, String>,
    W: Fn(String) -> Result<(), String>,
    D: Fn(ControlCommand) -> bool,
>(raw: Seq<char>, status: S, handle: H, switch: W, deliver: D, reply: Seq<char>) -> bool {
    match request_named(raw) {
        None => reply == "ERR unknown command\n"@,
        Some(RequestView::Status) => exists|text: String| call_ensures(status, (), text) && reply == text@,
        Some(RequestView::SwitchConfig(path)) => exists|p: String, res: Result<(), String>|
            p@ == path && call_ensures(switch, (p,), res) && reply == match res {
                Ok(_) => "OK\n"@,
                Err(e) => "ERR "@ + e@ + "\n"@,
            },
        Some(RequestView::Command(c)) => exists|res: Result<bool, String>|
            #[trigger] call_ensures(handle, (c,), res) && match res {
                Ok(true) => reply == "OK\n"@,
                Ok(false) => exists|taken: bool|
                    #[trigger] call_ensures(deliver, (c,), taken) && reply == if taken {
                        "OK\n"@
                    } else {
                        "ERR daemon not running\n"@
                    },
                Err(e) => reply == "ERR "@ + e@ + "\n"@,
            },
    }
}

/// Answers one request read from a control connection. `status` gives the
/// status text, `handle` deals with a command itself where it can (hiding
/// and showing the debug window) and says whether it did, `switch` switches
/// to another configuration file, and `deliver` passes a command on to the
/// runtime loop and says whether the loop took it.
pub fn serve_request<
    S: Fn() -> String,
    H: Fn(ControlCommand) -> Result<bool, String>,
    W: Fn(String) -> Result<(), String>,
    D: Fn(ControlCommand) -> bool,
>(raw: &str, status: &S, handle: &H, switch: &W, deliver: &D) -> (reply: String)
    requires
        call_requires(*status, ()),
        forall|c: ControlCommand| call_requires(*handle, (c,)),
        forall|p: String| call_requires(*switch, (p,)),
        forall|c: ControlCommand| call_requires(*deliver, (c,)),
    ensures
        served(raw@, *status, *handle, *switch, *deliver, reply@),
{
    let req = ControlRequest::parse(raw);
    match req {
        None => unknown_command_reply(),
        Some(ControlRequest::Status) => {
            let text = status();
            assert(call_ensures(*status, (), text));
            assert(request_named(raw@) == Some(RequestView::Status));
            text
        },
        Some(ControlRequest::SwitchConfig(path)) => {
            let ghost p = path;
            assert(request_named(raw@) == Some(RequestView::SwitchConfig(p@)));
            let res = switch(path);
            assert(call_ensures(*switch, (p,), res));
            let reply = match &res {
                Ok(()) => ok_reply(),
                Err(e) => error_reply(e.as_str()),
            };
            assert(reply@ == match res {
                Ok(_) => "OK\n"@,
                Err(e) => "ERR "@ + e@ + "\n"@,
            });
            reply
        },
        Some(ControlRequest::Command(c)) => {
            assert(request_named(raw@) == Some(RequestView::Command(c)));
            let res = handle(c);
            assert(call_ensures(*handle, (c,), res));
            let reply = match &res {
                Ok(true) => ok_reply(),
                Ok(false) => {
                    let taken = deliver(c);
                    assert(call_ensures(*deliver, (c,), taken));
                    command_reply(Ok(false), taken)
                },
                Err(e) => {
                    let r = error_reply(e.as_str());
                    assert(res == Err::<bool, String>(*e));
                    r
                },
            };
            reply
        },
    }
}

/// Where a control socket lives.
#[derive(Debug, Clone)]
pub enum Endpoint {
    Path(String),
    Abstract(String),
}

impl Endpoint {
    /// The socket file of a path endpoint.
    pub fn socket_path(&self) -> (r: Option<String>)
        ensures
            match self {
                Endpoint::Path(p) => r == Some(*p),
                Endpoint::Abstract(_) => r is None,
            },
    {
        match self {
            Endpoint::Path(p) => Some(p.clone()),
            Endpoint::Abstract(_) => None,
        }
    }
}

/// The name of the per-user abstract socket.
pub fn abstract_socket_name(uid: u32) -> (r: String)
    ensures
        r@ == "we-layerd.control."@ + decimal(uid as nat),
{
    let n = u32_to_decimal(uid);
    concat("we-layerd.control.", n.as_str())
}

/// Why the runtime directory is unknown.
#[derive(Debug, Clone, Copy, PartialEq, Eq, Structural)]
pub enum IpcError {
    HomeNotSet,
}

/// The daemon's runtime directory: `$XDG_RUNTIME_DIR/we-layerd`, else
/// `$HOME/.config/we-layerd`.
pub fn ipc_runtime_dir(xdg_runtime_dir: &Option<String>, home: &Option<String>) -> (r: Result<String, IpcError>)
    ensures
        match xdg_runtime_dir {
            Some(x) => r matches Ok(d) && d@ == join(x@, "we-layerd"@),
            None => match home {
                Some(h) => r matches Ok(d) && d@ == join(h@, ".config/we-layerd"@),
                None => r == Err::<String, IpcError>(IpcError::HomeNotSet),
            },
        },
{
    match xdg_runtime_dir {
        Some(x) => Ok(path_join(x.as_str(), "we-layerd")),
        None => match home {
            Some(h) => Ok(path_join(h.as_str(), ".config/we-layerd")),
            None => Err(IpcError::HomeNotSet),
        },
    }
}

/// The control socket file in the runtime directory.
pub fn default_socket_path(runtime_dir: &str) -> (r: String)
    ensures
        r@ == join(runtime_dir@, "control.sock"@),
{
    path_join(runtime_dir, "control.sock")
}

/// The instance lock file in the runtime directory.
pub fn instance_lock_path(runtime_dir: &str) -> (r: String)
    ensures
        r@ == join(runtime_dir@, "instance.lock"@),
{
    path_join(runtime_dir, "instance.lock")
}

/// The endpoint the daemon listens on: the user's abstract socket.
pub fn default_endpoint(uid: u32) -> (e: Endpoint)
    ensures
        e matches Endpoint::Abstract(n) && n@ == "we-layerd.control."@ + decimal(uid as nat),
{
    Endpoint::Abstract(abstract_socket_name(uid))
}

/// The endpoints a client tries, in order: the abstract socket, then the
/// socket file (under `/tmp` when the runtime directory is unknown).
pub fn control_endpoints(uid: u32, runtime_dir: &Result<String, IpcError>) -> (v: Vec<Endpoint>)
    ensures
        v.len() == 2,
        v[0] matches Endpoint::Abstract(n) && n@ == "we-layerd.control."@ + decimal(uid as nat),
        v[1] matches Endpoint::Path(p) && p@ == (match runtime_dir {
            Ok(d) => join(d@, "control.sock"@),
            Err(_) => "/tmp/we-layerd-control.sock"@,
        }),
{
    let socket = match runtime_dir {
        Ok(d) => default_socket_path(d.as_str()),
        Err(_) => lit("/tmp/we-layerd-control.sock"),
    };
    vec![default_endpoint(uid), Endpoint::Path(socket)]
}

} // verus!
