use rust_wiper::{
    admit_request, begin_admission, outcome_line, parse_method, plan, requested_mode, validate_device,
    Admission, AdmissionError, AuthorizationToken, CommandIntent, ConfirmationFailed,
    ConfirmationProtocol, ConfirmationState, DispatchOutcome, Dispatcher, ExecutionMode,
    InvalidDevice, WipeMethod, WipeRequest,
};

fn request(device: &str, method: WipeMethod, passes: u8, mode: ExecutionMode) -> WipeRequest {
    WipeRequest { device: device.to_string(), method, passes, mode }
}

fn lines(v: &[&str]) -> Vec<String> {
    v.iter().map(|s| s.to_string()).collect()
}

#[test]
fn validate_accepts_device_shapes() {
    assert_eq!(validate_device("/dev/sdb"), Ok(()));
    assert_eq!(validate_device("/dev/"), Ok(()));
    assert_eq!(validate_device("\\\\.\\PhysicalDrive0"), Ok(()));
    assert_eq!(validate_device("C:"), Ok(()));
    assert_eq!(validate_device("c:\\"), Ok(()));
}

#[test]
fn validate_rejects_other_shapes() {
    for bad in ["", "sdb", "/dev", "dev/sdb", "1:", "C", "/home/user", "\\\\?\\PhysicalDrive0", " /dev/sdb"] {
        assert_eq!(validate_device(bad), Err(InvalidDevice { path: bad.to_string() }), "{bad}");
    }
}

#[test]
fn parse_method_names() {
    assert_eq!(parse_method("dd"), Ok(WipeMethod::Dd));
    assert_eq!(parse_method("blkdiscard"), Ok(WipeMethod::Blkdiscard));
    assert_eq!(parse_method("hdparm"), Ok(WipeMethod::Hdparm));
    assert_eq!(parse_method("nvme"), Ok(WipeMethod::Nvme));
    let e = parse_method("DD").unwrap_err();
    assert_eq!(e.name, "DD");
    assert!(parse_method("shred").is_err());
}

#[test]
fn token_granted_only_by_one() {
    assert!(AuthorizationToken::from_value(Some("1")).granted());
    assert!(!AuthorizationToken::from_value(None).granted());
    assert!(!AuthorizationToken::from_value(Some("")).granted());
    assert!(!AuthorizationToken::from_value(Some("true")).granted());
    assert!(!AuthorizationToken::from_value(Some(" 1")).granted());
    assert!(!AuthorizationToken::from_value(Some("11")).granted());
}

#[test]
fn mode_from_switches() {
    assert_eq!(requested_mode(false, false), ExecutionMode::Dry);
    assert_eq!(requested_mode(true, false), ExecutionMode::Dry);
    assert_eq!(requested_mode(true, true), ExecutionMode::Dry);
    assert_eq!(requested_mode(false, true), ExecutionMode::Live);
}

#[test]
fn protocol_confirms_on_exact_answers() {
    let mut p = ConfirmationProtocol::new("/dev/sdb");
    assert_eq!(p.state(), ConfirmationState::AwaitingPathEcho);
    assert!(p.prompt().is_some());
    p.respond("  /dev/sdb \n");
    assert_eq!(p.state(), ConfirmationState::AwaitingFirstErase);
    p.respond("ERASE\n");
    assert_eq!(p.state(), ConfirmationState::AwaitingSecondErase);
    p.respond("\tERASE");
    assert_eq!(p.state(), ConfirmationState::Confirmed);
    assert!(p.is_finished());
    assert!(p.prompt().is_none());
}

#[test]
fn protocol_path_mismatch_never_reaches_later_steps() {
    let mut p = ConfirmationProtocol::new("/dev/sdb");
    p.respond("/dev/sdc");
    assert_eq!(p.state(), ConfirmationState::Aborted(ConfirmationFailed::PathMismatch));
    p.respond("ERASE");
    p.respond("ERASE");
    assert_eq!(p.state(), ConfirmationState::Aborted(ConfirmationFailed::PathMismatch));
}

#[test]
fn protocol_token_is_case_sensitive() {
    let mut p = ConfirmationProtocol::new("/dev/sdb");
    p.respond("/dev/sdb");
    p.respond("erase");
    assert_eq!(p.state(), ConfirmationState::Aborted(ConfirmationFailed::TokenMissing(1)));

    let mut q = ConfirmationProtocol::new("/dev/sdb");
    q.respond("/dev/sdb");
    q.respond("ERASE");
    q.respond("ER ASE");
    assert_eq!(q.state(), ConfirmationState::Aborted(ConfirmationFailed::TokenMissing(2)));
}

#[test]
fn protocol_keeps_inner_whitespace() {
    let mut p = ConfirmationProtocol::new("/dev/sd b");
    p.respond("/dev/sd  b");
    assert_eq!(p.state(), ConfirmationState::Aborted(ConfirmationFailed::PathMismatch));
}

#[test]
fn plan_dd_three_passes_has_four_commands() {
    let cmds = plan(WipeMethod::Dd, "/dev/sdb", 3);
    assert_eq!(cmds.len(), 4);
    assert_eq!(cmds[0].text, "dd if=/dev/urandom of=/dev/sdb bs=4M status=progress (pass 1/3)");
    assert_eq!(cmds[2].text, "dd if=/dev/urandom of=/dev/sdb bs=4M status=progress (pass 3/3)");
    assert_eq!(cmds[3].text, "dd if=/dev/zero of=/dev/sdb bs=4M status=progress (final)");
    for (i, c) in cmds.iter().enumerate() {
        assert_eq!(c.ordinal, i + 1);
        assert_eq!(c.of, 4);
    }
    assert_eq!(cmds[1].intent, CommandIntent::RandomOverwrite);
    assert_eq!(cmds[3].intent, CommandIntent::ZeroFill);
}

#[test]
fn plan_single_command_methods() {
    for m in [WipeMethod::Blkdiscard, WipeMethod::Nvme, WipeMethod::Hdparm] {
        for passes in [1u8, 2, 7, 255] {
            assert_eq!(plan(m, "/dev/sdb", passes).len(), 1);
        }
    }
    assert_eq!(plan(WipeMethod::Blkdiscard, "/dev/sdb", 1)[0].text, "blkdiscard /dev/sdb");
    assert_eq!(plan(WipeMethod::Nvme, "/dev/nvme0n1", 1)[0].text, "nvme sanitize /dev/nvme0n1 --ses 1");
    let h = plan(WipeMethod::Hdparm, "/dev/sda", 1);
    assert_eq!(h[0].text, "hdparm -I /dev/sda && hdparm --user-master u --security-set-pass p /dev/sda");
    assert_eq!(h[0].intent, CommandIntent::SecureEraseNotice);
}

#[test]
fn plan_dd_largest_pass_count() {
    let cmds = plan(WipeMethod::Dd, "/dev/sdb", 255);
    assert_eq!(cmds.len(), 256);
    assert_eq!(cmds[9].text, "dd if=/dev/urandom of=/dev/sdb bs=4M status=progress (pass 10/255)");
    assert_eq!(cmds[99].text, "dd if=/dev/urandom of=/dev/sdb bs=4M status=progress (pass 100/255)");
    assert_eq!(cmds[255].ordinal, 256);
}

#[test]
fn plan_twice_is_identical() {
    for m in [WipeMethod::Dd, WipeMethod::Blkdiscard, WipeMethod::Hdparm, WipeMethod::Nvme] {
        assert_eq!(plan(m, "C:", 4), plan(m, "C:", 4));
    }
}

#[test]
fn dry_request_admitted_without_consent() {
    let req = request("/dev/sdb", WipeMethod::Dd, 1, ExecutionMode::Dry);
    for token in [AuthorizationToken::from_value(None), AuthorizationToken::from_value(Some("1"))] {
        assert_eq!(admit_request(&req, &token, &lines(&[])), Ok(ExecutionMode::Dry));
        assert_eq!(admit_request(&req, &token, &lines(&["nope"])), Ok(ExecutionMode::Dry));
        assert!(matches!(begin_admission(&req, &token), Admission::Decided(Ok(ExecutionMode::Dry))));
    }
}

#[test]
fn invalid_device_is_refused_first() {
    let req = request("sdb", WipeMethod::Dd, 1, ExecutionMode::Live);
    let token = AuthorizationToken::from_value(Some("1"));
    let answers = lines(&["sdb", "ERASE", "ERASE"]);
    assert_eq!(admit_request(&req, &token, &answers), Err(AdmissionError::InvalidDevice));
}

#[test]
fn live_without_authorization_is_refused() {
    let req = request("/dev/sdb", WipeMethod::Dd, 1, ExecutionMode::Live);
    for value in [None, Some("0"), Some("yes"), Some("")] {
        let token = AuthorizationToken::from_value(value);
        let answers = lines(&["/dev/sdb", "ERASE", "ERASE"]);
        assert_eq!(admit_request(&req, &token, &answers), Err(AdmissionError::NotAuthorized));
        assert!(matches!(
            begin_admission(&req, &token),
            Admission::Decided(Err(AdmissionError::NotAuthorized))
        ));
    }
}

#[test]
fn live_confirmation_failures() {
    let req = request("/dev/sdb", WipeMethod::Nvme, 1, ExecutionMode::Live);
    let token = AuthorizationToken::from_value(Some("1"));
    assert_eq!(
        admit_request(&req, &token, &lines(&["/dev/sda", "ERASE", "ERASE"])),
        Err(AdmissionError::ConfirmationAborted(ConfirmationFailed::PathMismatch))
    );
    assert_eq!(
        admit_request(&req, &token, &lines(&["/dev/sdb", "yes", "ERASE"])),
        Err(AdmissionError::ConfirmationAborted(ConfirmationFailed::TokenMissing(1)))
    );
    assert_eq!(
        admit_request(&req, &token, &lines(&["/dev/sdb", "ERASE"])),
        Err(AdmissionError::ConfirmationAborted(ConfirmationFailed::TokenMissing(2)))
    );
    assert_eq!(
        admit_request(&req, &token, &lines(&[])),
        Err(AdmissionError::ConfirmationAborted(ConfirmationFailed::PathMismatch))
    );
}

#[test]
fn scenario_dry_dd_two_passes() {
    let req = request("/dev/sdb", WipeMethod::Dd, 2, ExecutionMode::Dry);
    let token = AuthorizationToken::from_value(None);
    let mode = admit_request(&req, &token, &lines(&[])).unwrap();
    assert_eq!(mode, ExecutionMode::Dry);
    let cmds = plan(req.method, &req.device, req.passes);
    assert_eq!(cmds.len(), 3);
    let d = Dispatcher::new(cmds, mode);
    assert!(d.is_finished());
    assert!(d.pending().is_none());
    let outcomes = d.finish().unwrap();
    assert_eq!(outcomes.len(), 3);
    assert!(outcomes.iter().all(|o| matches!(o, DispatchOutcome::Recorded(_))));
    assert_eq!(
        outcome_line(&outcomes[0]),
        "[DRY-RUN] dd if=/dev/urandom of=/dev/sdb bs=4M status=progress (pass 1/2)"
    );
    assert_eq!(outcome_line(&outcomes[2]), "[DRY-RUN] dd if=/dev/zero of=/dev/sdb bs=4M status=progress (final)");
}

#[test]
fn scenario_live_nvme_without_token() {
    let req = request("C:", WipeMethod::Nvme, 1, ExecutionMode::Live);
    let token = AuthorizationToken::from_value(None);
    assert_eq!(admit_request(&req, &token, &lines(&[])), Err(AdmissionError::NotAuthorized));
}

#[test]
fn scenario_live_blkdiscard_confirmed() {
    let req = request("/dev/sdb", WipeMethod::Blkdiscard, 1, ExecutionMode::Live);
    let token = AuthorizationToken::from_value(Some("1"));
    let mode = admit_request(&req, &token, &lines(&["/dev/sdb", "ERASE", "ERASE"])).unwrap();
    assert_eq!(mode, ExecutionMode::Live);
    let cmds = plan(req.method, &req.device, req.passes);
    assert_eq!(cmds.len(), 1);
    let mut d = Dispatcher::new(cmds, mode);
    assert_eq!(d.pending().map(|c| c.text.clone()), Some("blkdiscard /dev/sdb".to_string()));
    d.report(Ok(()));
    assert!(d.is_finished());
    let outcomes = d.finish().unwrap();
    assert_eq!(outcomes.len(), 1);
    assert!(matches!(&outcomes[0], DispatchOutcome::Executed(c) if c.text == "blkdiscard /dev/sdb"));
    assert_eq!(outcome_line(&outcomes[0]), "[EXEC] blkdiscard /dev/sdb");
}

#[test]
fn stepwise_admission_for_live_request() {
    let req = request("/dev/sdb", WipeMethod::Dd, 1, ExecutionMode::Live);
    let token = AuthorizationToken::from_value(Some("1"));
    match begin_admission(&req, &token) {
        Admission::Confirm(mut live) => {
            assert_eq!(live.protocol().state(), ConfirmationState::AwaitingPathEcho);
            live.respond("/dev/sdb\n");
            live.respond("ERASE\n");
            live.respond("ERASE\n");
            assert_eq!(live.conclude(), Ok(ExecutionMode::Live));
        }
        Admission::Decided(_) => panic!("expected a confirmation step"),
    }
}

#[test]
fn live_dispatch_stops_at_first_failure() {
    let cmds = plan(WipeMethod::Dd, "/dev/sdb", 2);
    let mut d = Dispatcher::new(cmds, ExecutionMode::Live);
    assert_eq!(d.pending().map(|c| c.ordinal), Some(1));
    d.report(Ok(()));
    assert_eq!(d.pending().map(|c| c.ordinal), Some(2));
    d.report(Err("device busy".to_string()));
    assert!(d.is_finished());
    assert!(d.pending().is_none());
    let failure = d.finish().unwrap_err();
    assert_eq!(failure.ordinal, 2);
    assert_eq!(failure.command, "dd if=/dev/urandom of=/dev/sdb bs=4M status=progress (pass 2/2)");
    assert_eq!(failure.reason, "device busy");
}

#[test]
fn live_secure_erase_is_never_executed() {
    let cmds = plan(WipeMethod::Hdparm, "/dev/sda", 1);
    let d = Dispatcher::new(cmds, ExecutionMode::Live);
    assert!(d.is_finished());
    let outcomes = d.finish().unwrap();
    assert!(matches!(&outcomes[0], DispatchOutcome::Recorded(_)));
    assert_eq!(
        outcome_line(&outcomes[0]),
        "[NOTE] hdparm -I /dev/sda && hdparm --user-master u --security-set-pass p /dev/sda"
    );
}

#[test]
fn live_dispatch_of_empty_plan_is_finished() {
    let d = Dispatcher::new(Vec::new(), ExecutionMode::Live);
    assert!(d.is_finished());
    assert_eq!(d.finish().unwrap().len(), 0);
}
