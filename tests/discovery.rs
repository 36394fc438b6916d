use relayer_psi::{FindAction, FindScan};

/// Drives a scan as the client does, answering each check from `registered`,
/// and returns the outcome with the indices that were checked.
fn drive(registered: &[bool]) -> (FindAction, Vec<usize>) {
    let mut scan = FindScan::new(registered.len());
    let mut checked = Vec::new();
    loop {
        match scan.next_action() {
            FindAction::Check(i) => {
                checked.push(i);
                scan.record(registered[i]);
            }
            other => return (other, checked),
        }
    }
}

#[test]
fn second_of_three_relayers_matches_after_two_checks() {
    let (outcome, checked) = drive(&[false, true, false]);
    assert_eq!(outcome, FindAction::Found(1));
    assert_eq!(checked, vec![0, 1]);
}

#[test]
fn first_match_wins_when_several_match() {
    let (outcome, checked) = drive(&[false, false, true, true]);
    assert_eq!(outcome, FindAction::Found(2));
    assert_eq!(checked, vec![0, 1, 2]);
}

#[test]
fn no_match_checks_every_relayer() {
    let (outcome, checked) = drive(&[false, false, false]);
    assert_eq!(outcome, FindAction::Exhausted);
    assert_eq!(checked, vec![0, 1, 2]);
}

#[test]
fn empty_relayer_list_finds_nothing() {
    let (outcome, checked) = drive(&[]);
    assert_eq!(outcome, FindAction::Exhausted);
    assert!(checked.is_empty());
}

use relayer_psi::{blind_step_args, BlindStep, Point};

#[test]
fn initiate_step_arguments() {
    let step = BlindStep::Initiate {
        email_addr: "alice@example.com".to_string(),
        client_rand: "0x05".to_string(),
    };
    assert_eq!(
        blind_step_args("/circuits", &step, "/tmp/out 1.json"),
        vec![
            "--cwd",
            "/circuits",
            "psi-step1",
            "--email-addr",
            "alice@example.com",
            "--client-rand",
            "0x05",
            "--output",
            "/tmp/out 1.json",
        ]
    );
}

#[test]
fn apply_and_finalize_step_arguments() {
    let point = || Point { x: "0x01".to_string(), y: "0x02".to_string() };
    let apply = BlindStep::Apply { point: point(), relayer_rand: "0x0a".to_string() };
    assert_eq!(
        blind_step_args("c", &apply, "o"),
        vec!["--cwd", "c", "psi-step2", "--x", "0x01", "--y", "0x02", "--relayer-rand", "0x0a", "--output", "o"]
    );
    let finalize = BlindStep::Finalize { point: point(), client_rand: "0x0b".to_string() };
    assert_eq!(
        blind_step_args("c", &finalize, "o"),
        vec!["--cwd", "c", "psi-step3", "--x", "0x01", "--y", "0x02", "--client-rand", "0x0b", "--output", "o"]
    );
}
