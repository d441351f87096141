use turn_me_off::api::{alive, hostname, reboot, suspend, turn_off, ALIVE};
use turn_me_off::outcome::{CommandOutcome, StderrNotUtf8};
use turn_me_off::reply::{Reply, Status};

const DEMAND: &str = "Interactive authentication required.";

fn exited(code: i32, stderr: &str) -> CommandOutcome {
    CommandOutcome { code: Some(code), stderr: stderr.as_bytes().to_vec() }
}

fn ended_by_signal(stderr: &str) -> CommandOutcome {
    CommandOutcome { code: None, stderr: stderr.as_bytes().to_vec() }
}

#[test]
fn alive_is_always_200_with_the_fixed_text() {
    let reply = alive();
    assert_eq!(reply.status, Status::Success);
    assert_eq!(reply.status.code(), 200);
    assert_eq!(reply.body, "turn-me-off is alive");
    assert_eq!(ALIVE, "turn-me-off is alive");
    assert_eq!(alive(), reply);
}

#[test]
fn hostname_is_200_with_the_name_as_read() {
    let reply = hostname(String::from("workbench\n"));
    assert_eq!(reply.status.code(), 200);
    assert_eq!(reply.body, "workbench\n");
    assert_eq!(hostname(String::new()), Reply { status: Status::Success, body: String::new() });
}

#[test]
fn turn_off_exit_zero() {
    let reply = turn_off(exited(0, "")).unwrap();
    assert_eq!(reply.status.code(), 200);
    assert_eq!(reply.body, "This machine will now turn off.");
}

#[test]
fn reboot_exit_zero() {
    let reply = reboot(exited(0, "")).unwrap();
    assert_eq!(reply.status.code(), 200);
    assert_eq!(reply.body, "This machine will now reboot.");
}

#[test]
fn suspend_exit_zero() {
    let reply = suspend(exited(0, "")).unwrap();
    assert_eq!(reply.status.code(), 200);
    assert_eq!(reply.body, "This machine will now enter sleep mode.");
}

#[test]
fn exit_zero_does_not_read_standard_error() {
    let noisy = CommandOutcome { code: Some(0), stderr: vec![0xff, 0xfe, 0x80] };
    assert_eq!(
        turn_off(noisy),
        Ok(Reply { status: Status::Success, body: "This machine will now turn off." })
    );
    let reply = reboot(exited(0, DEMAND)).unwrap();
    assert_eq!(reply.status.code(), 200);
}

#[test]
fn turn_off_without_permission() {
    let reply = turn_off(exited(1, DEMAND)).unwrap();
    assert_eq!(reply.status.code(), 500);
    assert_eq!(
        reply.body,
        "The user running turn-me-off does not have the permission to shutdown the device."
    );
}

#[test]
fn reboot_without_permission() {
    let reply = reboot(exited(1, DEMAND)).unwrap();
    assert_eq!(reply.status.code(), 500);
    assert_eq!(
        reply.body,
        "The user running turn-me-off does not have the permission to reboot the device."
    );
    assert!(reply.body.contains("reboot"));
}

#[test]
fn suspend_without_permission() {
    let reply = suspend(exited(1, DEMAND)).unwrap();
    assert_eq!(reply.status.code(), 500);
    assert_eq!(
        reply.body,
        "The user running turn-me-off does not have the permission to suspend the device."
    );
}

#[test]
fn the_demand_is_found_inside_a_longer_standard_error() {
    let stderr = "Failed to power off system via logind: Interactive authentication required.\n\
                  Failed to start poweroff.target: Interactive authentication required.";
    let reply = turn_off(exited(1, stderr)).unwrap();
    assert_eq!(reply.status, Status::InternalServerError);
}

#[test]
fn the_demand_is_found_among_characters_of_several_bytes() {
    let stderr = "Échec — 認証: Interactive authentication required. ✗";
    let reply = suspend(exited(1, stderr)).unwrap();
    assert_eq!(reply.status, Status::InternalServerError);
}

#[test]
fn turn_off_exit_one_unexplained() {
    let reply = turn_off(exited(1, "Access denied")).unwrap();
    assert_eq!(reply.status.code(), 501);
    assert_eq!(reply.body, "Shutdown command failed for unknown reason, status code 1.");
    assert!(reply.body.contains("status code 1."));
}

#[test]
fn reboot_exit_one_unexplained() {
    let reply = reboot(exited(1, "")).unwrap();
    assert_eq!(reply.status.code(), 501);
    assert_eq!(reply.body, "Reboot command failed for unknown reason, status code 1.");
}

#[test]
fn suspend_exit_one_unexplained() {
    let reply = suspend(exited(1, "interactive authentication required.")).unwrap();
    assert_eq!(reply.status.code(), 501);
    assert_eq!(reply.body, "Suspend command failed for unknown reason, status code 1.");
}

#[test]
fn a_demand_that_is_cut_short_explains_nothing() {
    let reply = turn_off(exited(1, "Interactive authentication required")).unwrap();
    assert_eq!(reply.status, Status::NotImplemented);
    let reply = turn_off(exited(1, "Interactive authentication  required.")).unwrap();
    assert_eq!(reply.status, Status::NotImplemented);
}

#[test]
fn turn_off_other_exit_code() {
    let reply = turn_off(exited(2, DEMAND)).unwrap();
    assert_eq!(reply.status.code(), 501);
    assert_eq!(reply.body, "Shutdown command failed for unknown reason.");
    assert!(!reply.body.contains("status code"));
}

#[test]
fn reboot_other_exit_code() {
    let reply = reboot(exited(-1, "")).unwrap();
    assert_eq!(reply.status.code(), 501);
    assert_eq!(reply.body, "Reboot command failed for unknown reason.");
}

#[test]
fn suspend_other_exit_code() {
    let reply = suspend(exited(2, "")).unwrap();
    assert_eq!(reply.status.code(), 501);
    assert_eq!(reply.body, "Suspend command failed for unknown reason.");
}

#[test]
fn other_exit_codes_do_not_read_standard_error() {
    for code in [i32::MIN, -1, 2, 3, 127, 255, i32::MAX] {
        let outcome = CommandOutcome { code: Some(code), stderr: vec![0xc0, 0x80] };
        let reply = suspend(outcome).unwrap();
        assert_eq!(reply.status.code(), 501);
        assert_eq!(reply.body, "Suspend command failed for unknown reason.");
    }
}

#[test]
fn turn_off_without_exit_code() {
    let reply = turn_off(ended_by_signal("")).unwrap();
    assert_eq!(reply.status.code(), 500);
    assert_eq!(
        reply.body,
        "Unexpected error occurred while running the shutdown command, please file an issue."
    );
}

#[test]
fn reboot_without_exit_code() {
    let reply = reboot(ended_by_signal(DEMAND)).unwrap();
    assert_eq!(reply.status.code(), 500);
    assert_eq!(
        reply.body,
        "Unexpected error occurred while running the reboot command, please file an issue."
    );
}

#[test]
fn suspend_without_exit_code() {
    let outcome = CommandOutcome { code: None, stderr: vec![0xff] };
    let reply = suspend(outcome).unwrap();
    assert_eq!(reply.status.code(), 500);
    assert_eq!(
        reply.body,
        "Unexpected error occurred while running the suspend command, please file an issue."
    );
    assert!(reply.body.contains("please file an issue."));
}

#[test]
fn exit_one_with_a_standard_error_that_is_no_text_gets_no_reply() {
    let broken = CommandOutcome { code: Some(1), stderr: vec![0x49, 0x6e, 0xff] };
    assert_eq!(turn_off(broken.clone()), Err(StderrNotUtf8));
    assert_eq!(reboot(broken.clone()), Err(StderrNotUtf8));
    assert_eq!(suspend(broken), Err(StderrNotUtf8));
}

#[test]
fn the_demand_does_not_excuse_bytes_that_are_no_text() {
    let mut stderr = DEMAND.as_bytes().to_vec();
    stderr.push(0xff);
    assert_eq!(turn_off(CommandOutcome { code: Some(1), stderr }), Err(StderrNotUtf8));
    let overlong = vec![0xc0, 0xaf];
    assert_eq!(reboot(CommandOutcome { code: Some(1), stderr: overlong }), Err(StderrNotUtf8));
    let surrogate = vec![0xed, 0xa0, 0x80];
    assert_eq!(reboot(CommandOutcome { code: Some(1), stderr: surrogate }), Err(StderrNotUtf8));
    let truncated = vec![0xe2, 0x82];
    assert_eq!(suspend(CommandOutcome { code: Some(1), stderr: truncated }), Err(StderrNotUtf8));
}

#[test]
fn asking_twice_is_answered_twice_alike() {
    let first = turn_off(exited(0, "")).unwrap();
    let second = turn_off(exited(0, "a warning the second time")).unwrap();
    assert_eq!(first, second);
    assert_eq!(first.status.code(), 200);
    assert_eq!(reboot(exited(0, "")), reboot(exited(0, "")));
    assert_eq!(suspend(exited(0, "")), suspend(exited(0, "")));
}

#[test]
fn a_failure_leaves_no_trace_in_the_next_answer() {
    assert_eq!(reboot(exited(1, DEMAND)).unwrap().status.code(), 500);
    assert_eq!(reboot(exited(0, "")).unwrap().status.code(), 200);
    assert_eq!(reboot(exited(1, DEMAND)).unwrap().status.code(), 500);
}

#[test]
fn requests_from_end_to_end() {
    // PUT /turn-off, the command exits with 0.
    let reply = turn_off(exited(0, "")).unwrap();
    assert_eq!((reply.status.code(), reply.body), (200, "This machine will now turn off."));
    // PUT /reboot, the command exits with 1 and is asked for a password.
    let reply = reboot(exited(1, "Interactive authentication required.")).unwrap();
    assert_eq!(reply.status.code(), 500);
    assert!(reply.body.contains("permission"));
    assert!(reply.body.contains("reboot"));
    // PUT /suspend, the command exits with 2.
    let reply = suspend(exited(2, "")).unwrap();
    assert_eq!(
        (reply.status.code(), reply.body),
        (501, "Suspend command failed for unknown reason.")
    );
    // GET /alive.
    let reply = alive();
    assert_eq!((reply.status.code(), reply.body), (200, "turn-me-off is alive"));
}

#[test]
fn a_suspend_reply_names_no_other_action() {
    let outcomes = [
        exited(0, ""),
        exited(1, DEMAND),
        exited(1, ""),
        exited(2, ""),
        exited(-7, DEMAND),
        ended_by_signal(""),
        ended_by_signal(DEMAND),
    ];
    for outcome in outcomes {
        let body = suspend(outcome).unwrap().body.to_lowercase();
        assert!(!body.contains("reboot"), "{body:?}");
        assert!(!body.contains("shutdown"), "{body:?}");
        assert!(!body.contains("turn off"), "{body:?}");
    }
}

#[test]
fn no_reply_to_a_power_action_ends_with_a_line_feed() {
    for code in [Some(0), Some(1), Some(2), None] {
        for stderr in ["", DEMAND] {
            let outcome = |code| CommandOutcome { code, stderr: stderr.as_bytes().to_vec() };
            for body in [
                turn_off(outcome(code)).unwrap().body,
                reboot(outcome(code)).unwrap().body,
                suspend(outcome(code)).unwrap().body,
            ] {
                assert!(body.ends_with('.'), "{body:?}");
                assert!(!body.contains('\n'), "{body:?}");
            }
        }
    }
}
