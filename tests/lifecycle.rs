use psql_server::{tool_path, Action, Event, Lifecycle, Phase, PsqlServerError, TeardownStep, Tool};

fn io_error() -> std::io::Error {
    std::io::Error::new(std::io::ErrorKind::Other, "boom")
}

fn step(lc: &mut Lifecycle, e: Event) -> Action {
    assert!(lc.accepts(&e));
    lc.advance(e)
}

/// Drives a new lifecycle through a successful construction, returning it
/// running and the port it reports.
fn started(port: u16, unready_probes: usize) -> (Lifecycle, u16, usize) {
    let (mut lc, first) = Lifecycle::new();
    assert!(matches!(first, Action::Locate(Tool::Postgres)));
    assert!(matches!(step(&mut lc, Event::Found(true)), Action::Locate(Tool::InitDb)));
    assert!(matches!(step(&mut lc, Event::Found(true)), Action::Locate(Tool::CreateDb)));
    assert!(matches!(step(&mut lc, Event::Found(true)), Action::Locate(Tool::PgIsReady)));
    assert!(matches!(step(&mut lc, Event::Found(true)), Action::CreateRoot));
    assert!(matches!(step(&mut lc, Event::Done(Ok(()))), Action::CreateDataDir));
    assert!(matches!(step(&mut lc, Event::Done(Ok(()))), Action::CreateTmpDir));
    assert!(matches!(step(&mut lc, Event::Done(Ok(()))), Action::ReservePort));
    assert!(matches!(step(&mut lc, Event::PortReserved(Ok(port))), Action::InitStorage));
    assert!(matches!(step(&mut lc, Event::ToolExited(Ok(true))), Action::SpawnServer(p) if p == port));
    assert!(matches!(step(&mut lc, Event::Done(Ok(()))), Action::CheckExited));
    let mut slept: usize = 0;
    for _ in 0..unready_probes {
        assert!(matches!(step(&mut lc, Event::ExitPolled(Ok(false))), Action::ProbeReady(p) if p == port));
        match step(&mut lc, Event::ToolExited(Ok(false))) {
            Action::Sleep(ms) => slept += ms as usize,
            other => panic!("expected a sleep, got {:?}", other),
        }
        assert!(matches!(step(&mut lc, Event::Done(Ok(()))), Action::CheckExited));
    }
    assert!(matches!(step(&mut lc, Event::ExitPolled(Ok(false))), Action::ProbeReady(p) if p == port));
    assert!(matches!(step(&mut lc, Event::ToolExited(Ok(true))), Action::CreateWorkspace(p) if p == port));
    let ready = match step(&mut lc, Event::ToolExited(Ok(true))) {
        Action::Ready(p) => p,
        other => panic!("expected ready, got {:?}", other),
    };
    (lc, ready, slept)
}

#[test]
fn successful_start_reports_reserved_port() {
    let (lc, port, slept) = started(54321, 0);
    assert_eq!(port, 54321);
    assert_eq!(slept, 0);
    assert_eq!(lc.phase(), Phase::Running);
}

#[test]
fn release_kills_reaps_then_removes_root() {
    let (mut lc, _, _) = started(40000, 0);
    assert!(matches!(step(&mut lc, Event::Release), Action::Kill));
    assert!(matches!(step(&mut lc, Event::Done(Ok(()))), Action::Reap));
    assert!(matches!(step(&mut lc, Event::Done(Ok(()))), Action::RemoveRoot));
    assert!(matches!(step(&mut lc, Event::Done(Ok(()))), Action::Released));
    assert_eq!(lc.phase(), Phase::Finished);
    assert!(!lc.accepts(&Event::Release));
}

#[test]
fn each_missing_tool_gives_its_own_error() {
    for k in 0..4usize {
        let (mut lc, _) = Lifecycle::new();
        for _ in 0..k {
            assert!(matches!(step(&mut lc, Event::Found(true)), Action::Locate(_)));
        }
        let err = match step(&mut lc, Event::Found(false)) {
            Action::Failed(e) => e,
            other => panic!("expected failure, got {:?}", other),
        };
        let expected = match k {
            0 => matches!(err, PsqlServerError::CouldNotFindPostgresCommand),
            1 => matches!(err, PsqlServerError::CouldNotFindInitDbCommand),
            2 => matches!(err, PsqlServerError::CouldNotFindCreateDbCommand),
            _ => matches!(err, PsqlServerError::CouldNotFindPgIsReadyCommand),
        };
        assert!(expected);
        assert_eq!(lc.phase(), Phase::Finished);
    }
}

fn until_init() -> Lifecycle {
    let (mut lc, _) = Lifecycle::new();
    for _ in 0..4 {
        step(&mut lc, Event::Found(true));
    }
    step(&mut lc, Event::Done(Ok(())));
    step(&mut lc, Event::Done(Ok(())));
    step(&mut lc, Event::Done(Ok(())));
    assert!(matches!(step(&mut lc, Event::PortReserved(Ok(41000))), Action::InitStorage));
    lc
}

#[test]
fn failed_init_removes_root_before_reporting() {
    let mut lc = until_init();
    assert!(matches!(step(&mut lc, Event::ToolExited(Ok(false))), Action::RemoveRoot));
    assert!(matches!(
        step(&mut lc, Event::Done(Ok(()))),
        Action::Failed(PsqlServerError::InitDbFailed)
    ));
    assert_eq!(lc.phase(), Phase::Finished);
}

#[test]
fn unready_probes_sleep_one_interval_each() {
    let (_, port, slept) = started(42000, 3);
    assert_eq!(port, 42000);
    assert_eq!(slept, 3 * 500);
}

#[test]
fn server_exit_during_polling_fails_without_probing() {
    let mut lc = until_init();
    step(&mut lc, Event::ToolExited(Ok(true)));
    step(&mut lc, Event::Done(Ok(())));
    assert!(matches!(step(&mut lc, Event::ExitPolled(Ok(true))), Action::RemoveRoot));
    assert!(matches!(
        step(&mut lc, Event::Done(Ok(()))),
        Action::Failed(PsqlServerError::PostgresFailed)
    ));
}

#[test]
fn failed_workspace_creation_kills_server_and_removes_root() {
    let (mut lc, _) = Lifecycle::new();
    for _ in 0..4 {
        step(&mut lc, Event::Found(true));
    }
    for _ in 0..3 {
        step(&mut lc, Event::Done(Ok(())));
    }
    step(&mut lc, Event::PortReserved(Ok(43000)));
    step(&mut lc, Event::ToolExited(Ok(true)));
    step(&mut lc, Event::Done(Ok(())));
    step(&mut lc, Event::ExitPolled(Ok(false)));
    step(&mut lc, Event::ToolExited(Ok(true)));
    assert!(matches!(step(&mut lc, Event::ToolExited(Ok(false))), Action::Kill));
    assert!(matches!(step(&mut lc, Event::Done(Ok(()))), Action::Reap));
    assert!(matches!(step(&mut lc, Event::Done(Ok(()))), Action::RemoveRoot));
    assert!(matches!(
        step(&mut lc, Event::Done(Ok(()))),
        Action::Failed(PsqlServerError::CreateDbFailed)
    ));
}

#[test]
fn root_creation_error_reports_io_error_with_nothing_to_clean() {
    let (mut lc, _) = Lifecycle::new();
    for _ in 0..4 {
        step(&mut lc, Event::Found(true));
    }
    assert!(matches!(
        step(&mut lc, Event::Done(Err(io_error()))),
        Action::Failed(PsqlServerError::IoError(_))
    ));
}

#[test]
fn subdirectory_error_removes_root() {
    let (mut lc, _) = Lifecycle::new();
    for _ in 0..4 {
        step(&mut lc, Event::Found(true));
    }
    step(&mut lc, Event::Done(Ok(())));
    assert!(matches!(step(&mut lc, Event::Done(Err(io_error()))), Action::RemoveRoot));
    assert!(matches!(
        step(&mut lc, Event::Done(Ok(()))),
        Action::Failed(PsqlServerError::IoError(_))
    ));
}

#[test]
fn port_error_removes_root() {
    let mut lc = {
        let (mut lc, _) = Lifecycle::new();
        for _ in 0..4 {
            step(&mut lc, Event::Found(true));
        }
        for _ in 0..3 {
            step(&mut lc, Event::Done(Ok(())));
        }
        lc
    };
    assert!(matches!(step(&mut lc, Event::PortReserved(Err(io_error()))), Action::RemoveRoot));
}

#[test]
fn exit_check_error_kills_server() {
    let mut lc = until_init();
    step(&mut lc, Event::ToolExited(Ok(true)));
    step(&mut lc, Event::Done(Ok(())));
    assert!(matches!(step(&mut lc, Event::ExitPolled(Err(io_error()))), Action::Kill));
}

#[test]
fn teardown_failure_aborts() {
    let (mut lc, _, _) = started(44000, 0);
    step(&mut lc, Event::Release);
    assert!(matches!(
        step(&mut lc, Event::Done(Err(io_error()))),
        Action::Abort(TeardownStep::Kill, _)
    ));
    assert_eq!(lc.phase(), Phase::Aborted);
}

#[test]
fn mismatched_event_is_not_accepted() {
    let (lc, _) = Lifecycle::new();
    assert!(!lc.accepts(&Event::Done(Ok(()))));
    assert!(lc.accepts(&Event::Found(false)));
}

#[test]
fn tool_path_trims_lookup_output() {
    assert_eq!(
        tool_path(true, b"/usr/bin/postgres\n".to_vec()),
        Some("/usr/bin/postgres".to_string())
    );
}

#[test]
fn tool_path_of_failed_lookup_is_none() {
    assert_eq!(tool_path(false, b"/usr/bin/postgres\n".to_vec()), None);
}

#[test]
fn tool_path_of_invalid_text_is_none() {
    assert_eq!(tool_path(true, vec![0xff, 0xfe, b'\n']), None);
}

#[test]
fn error_messages() {
    assert_eq!(
        PsqlServerError::CouldNotFindPostgresCommand.message(),
        "Could not find `postgres` command"
    );
    assert_eq!(PsqlServerError::CouldNotFindInitDbCommand.message(), "Could not find `initdb` command");
    assert_eq!(
        PsqlServerError::CouldNotFindCreateDbCommand.message(),
        "Could not find `createdb` command"
    );
    assert_eq!(
        PsqlServerError::CouldNotFindPgIsReadyCommand.message(),
        "Could not find `pg_isready` command"
    );
    assert_eq!(PsqlServerError::InitDbFailed.message(), "initdb failed");
    assert_eq!(PsqlServerError::CreateDbFailed.message(), "createdb failed");
    assert_eq!(PsqlServerError::PostgresFailed.message(), "postgres failed");
    assert_eq!(PsqlServerError::IoError(io_error()).message(), "boom");
}
