use we_layerd::ipc::serve_request;
use std::cell::RefCell;

use we_layerd::cli::ControlAction;

use we_layerd::ipc::{
    abstract_socket_name, command_reply, control_endpoints, default_endpoint, interpret_reply, ipc_runtime_dir,
    instance_lock_path, request_running_config, send_command, send_switch_config, switch_config_request,
    ControlCommand, ControlRequest, Endpoint, IpcError,
};

#[test]
fn command_names_read_back() {
    for c in [
        ControlCommand::Stop,
        ControlCommand::Pause,
        ControlCommand::Resume,
        ControlCommand::Reload,
        ControlCommand::HideWindow,
        ControlCommand::ShowWindow,
    ] {
        assert_eq!(ControlCommand::parse(c.as_str()), Some(c));
    }
    assert_eq!(ControlCommand::parse(ControlCommand::Reconfigure.as_str()), None);
}

#[test]
fn commands_parse_trimmed_and_in_any_case() {
    assert_eq!(ControlCommand::parse("  STOP \n"), Some(ControlCommand::Stop));
    assert_eq!(ControlCommand::parse("Hide-Window"), Some(ControlCommand::HideWindow));
    assert_eq!(ControlCommand::parse("restart"), None);
}

#[test]
fn requests_parse_status_switch_and_commands() {
    assert!(matches!(ControlRequest::parse("status"), Some(ControlRequest::Status)));
    assert!(matches!(ControlRequest::parse(" Show-Config "), Some(ControlRequest::Status)));
    match ControlRequest::parse("switch-config  /tmp/a b.toml \n") {
        Some(ControlRequest::SwitchConfig(p)) => assert_eq!(p, "/tmp/a b.toml"),
        other => panic!("unexpected {:?}", other),
    }
    assert!(ControlRequest::parse("switch-config    ").is_none());
    assert!(matches!(ControlRequest::parse("PAUSE"), Some(ControlRequest::Command(ControlCommand::Pause))));
    assert!(ControlRequest::parse("nonsense").is_none());
}

#[test]
fn replies_are_read_as_errors_when_they_start_with_err() {
    assert_eq!(interpret_reply("  ERR no such thing\n".to_string()), Err("ERR no such thing".to_string()));
    assert_eq!(interpret_reply("OK\n".to_string()), Ok("OK\n".to_string()));
}

#[test]
fn command_replies() {
    assert_eq!(command_reply(Ok(true), false), "OK\n");
    assert_eq!(command_reply(Ok(false), true), "OK\n");
    assert_eq!(command_reply(Ok(false), false), "ERR daemon not running\n");
    assert_eq!(command_reply(Err("bad".to_string()), true), "ERR bad\n");
}

#[test]
fn sending_a_command_passes_its_name_and_reads_the_reply() {
    let seen = RefCell::new(Vec::new());
    let r = send_command(ControlCommand::Pause, |req: String| {
        seen.borrow_mut().push(req);
        Ok("OK\n".to_string())
    });
    assert_eq!(r, Ok(()));
    assert_eq!(seen.borrow().as_slice(), ["pause".to_string()]);
    let r = send_command(ControlCommand::Stop, |_req: String| Ok("ERR daemon not running\n".to_string()));
    assert_eq!(r, Err("ERR daemon not running".to_string()));
    let r = send_command(ControlCommand::Stop, |_req: String| Err("unreachable".to_string()));
    assert_eq!(r, Err("unreachable".to_string()));
}

#[test]
fn status_and_switch_requests() {
    let r = request_running_config(|req: String| {
        assert_eq!(req, "status");
        Ok("[general]\nfps_limit = 30\n".to_string())
    });
    assert_eq!(r, Ok("[general]\nfps_limit = 30\n".to_string()));
    let r = send_switch_config("/tmp/c.toml", |req: String| {
        assert_eq!(req, "switch-config /tmp/c.toml");
        Ok("OK\n".to_string())
    });
    assert_eq!(r, Ok(()));
    assert_eq!(switch_config_request("/x"), "switch-config /x");
}

#[test]
fn endpoints_and_paths() {
    assert_eq!(abstract_socket_name(1000), "we-layerd.control.1000");
    assert_eq!(
        ipc_runtime_dir(&Some("/run/user/1000".to_string()), &None),
        Ok("/run/user/1000/we-layerd".to_string())
    );
    assert_eq!(ipc_runtime_dir(&None, &Some("/home/u".to_string())), Ok("/home/u/.config/we-layerd".to_string()));
    assert_eq!(ipc_runtime_dir(&None, &None), Err(IpcError::HomeNotSet));
    assert_eq!(instance_lock_path("/run/d"), "/run/d/instance.lock");
    match default_endpoint(7) {
        Endpoint::Abstract(n) => assert_eq!(n, "we-layerd.control.7"),
        other => panic!("unexpected {:?}", other),
    }
    let eps = control_endpoints(7, &Err(IpcError::HomeNotSet));
    assert_eq!(eps.len(), 2);
    assert_eq!(eps[1].socket_path().as_deref(), Some("/tmp/we-layerd-control.sock"));
    assert_eq!(eps[0].socket_path(), None);
    let eps = control_endpoints(7, &Ok("/run/d".to_string()));
    assert_eq!(eps[1].socket_path().as_deref(), Some("/run/d/control.sock"));
}

#[test]
fn daemon_answers_requests() {
    let status = || "[general]\n".to_string();
    let handle = |c: ControlCommand| -> Result<bool, String> {
        match c {
            ControlCommand::HideWindow => Ok(true),
            ControlCommand::ShowWindow => Err("no wm".to_string()),
            _ => Ok(false),
        }
    };
    let switch = |p: String| -> Result<(), String> {
        if p == "/ok.toml" { Ok(()) } else { Err("invalid TOML".to_string()) }
    };
    let delivered = |c: ControlCommand| c != ControlCommand::Stop;
    assert_eq!(serve_request("status", &status, &handle, &switch, &delivered), "[general]\n");
    assert_eq!(serve_request("bogus", &status, &handle, &switch, &delivered), "ERR unknown command\n");
    assert_eq!(serve_request("hide-window", &status, &handle, &switch, &delivered), "OK\n");
    assert_eq!(serve_request("show-window", &status, &handle, &switch, &delivered), "ERR no wm\n");
    assert_eq!(serve_request("pause", &status, &handle, &switch, &delivered), "OK\n");
    assert_eq!(serve_request("stop", &status, &handle, &switch, &delivered), "ERR daemon not running\n");
    assert_eq!(serve_request("switch-config /ok.toml", &status, &handle, &switch, &delivered), "OK\n");
    assert_eq!(serve_request("switch-config /bad.toml", &status, &handle, &switch, &delivered), "ERR invalid TOML\n");
}

#[test]
fn switch_request_reads_back_and_error_replies_are_errors() {
    match ControlRequest::parse(&switch_config_request("/home/u/.config/we-layerd/config.toml")) {
        Some(ControlRequest::SwitchConfig(p)) => assert_eq!(p, "/home/u/.config/we-layerd/config.toml"),
        other => panic!("unexpected {:?}", other),
    }
    assert!(interpret_reply(command_reply(Err("boom".to_string()), true)).is_err());
    assert!(interpret_reply(command_reply(Ok(true), false)).is_ok());
    assert_ne!(abstract_socket_name(1), abstract_socket_name(11));
}

#[test]
fn ctl_actions_reach_the_daemon_as_asked() {
    let sent = [
        (ControlAction::Stop, ControlCommand::Stop),
        (ControlAction::Pause, ControlCommand::Pause),
        (ControlAction::Resume, ControlCommand::Resume),
        (ControlAction::Reload, ControlCommand::Reload),
        (ControlAction::HideWindow, ControlCommand::HideWindow),
        (ControlAction::ShowWindow, ControlCommand::ShowWindow),
    ];
    for (action, command) in sent {
        assert_eq!(action.command(), Some(command));
        assert!(matches!(ControlRequest::parse(command.as_str()), Some(ControlRequest::Command(c)) if c == command));
    }
    assert_eq!(ControlAction::Status.command(), None);
    assert!(matches!(ControlRequest::parse("status"), Some(ControlRequest::Status)));
}
