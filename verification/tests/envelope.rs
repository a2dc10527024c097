use tauridock::envelope::{Failure, Operation, OperationResult};
use tauridock::info::{InfoFields, SystemInfo};
use tauridock::listing::ContainerRecord;

fn is_well_formed(r: &OperationResult) -> bool {
    let data = [r.container_id.is_some(), r.containers.is_some(), r.info.is_some()];
    let count = data.iter().filter(|b| **b).count();
    if r.success {
        r.error.is_none() && count <= 1
    } else {
        count == 0 && matches!(&r.error, Some(text) if !text.is_empty())
    }
}

const OPERATIONS: [Operation; 4] = [Operation::Launch, Operation::Stop, Operation::List, Operation::Info];

#[test]
fn standard_error_is_reported_as_it_is() {
    for op in OPERATIONS {
        let text = Failure::Runtime("Error response from daemon: no such image\n".to_string()).text(op);
        assert_eq!(text, "Error response from daemon: no such image\n");
    }
}

#[test]
fn silent_failure_gets_a_label() {
    assert_eq!(Failure::Runtime(String::new()).text(Operation::Launch), "Docker launch failed: ");
    assert_eq!(Failure::Runtime(String::new()).text(Operation::Stop), "Docker stop failed: ");
    assert_eq!(Failure::Runtime(String::new()).text(Operation::List), "Docker ps failed: ");
    assert_eq!(Failure::Runtime(String::new()).text(Operation::Info), "Docker info failed: ");
}

#[test]
fn spawn_failure_is_described() {
    let why = "No such file or directory (os error 2)";
    assert_eq!(
        Failure::Spawn(why.to_string()).text(Operation::Launch),
        "Failed to execute docker command: No such file or directory (os error 2)"
    );
    assert_eq!(
        Failure::Spawn(why.to_string()).text(Operation::Stop),
        "Failed to execute docker stop: No such file or directory (os error 2)"
    );
    assert_eq!(
        Failure::Spawn(why.to_string()).text(Operation::List),
        "Failed to execute docker ps: No such file or directory (os error 2)"
    );
    assert_eq!(
        Failure::Spawn(why.to_string()).text(Operation::Info),
        "Failed to execute docker info: No such file or directory (os error 2)"
    );
    assert_eq!(Failure::Spawn(String::new()).text(Operation::List), "Failed to execute docker ps: ");
}

#[test]
fn malformed_report_has_a_fixed_text() {
    for op in OPERATIONS {
        assert_eq!(Failure::MalformedInfo.text(op), "Failed to parse Docker info JSON");
    }
}

#[test]
fn envelopes_carry_at_most_one_thing() {
    let launched = OperationResult::launched("abc123".to_string());
    assert_eq!(
        launched,
        OperationResult {
            success: true,
            container_id: Some("abc123".to_string()),
            containers: None,
            info: None,
            error: None
        }
    );
    let done = OperationResult::done();
    assert_eq!(
        done,
        OperationResult { success: true, container_id: None, containers: None, info: None, error: None }
    );
    let record = ContainerRecord {
        id: "a".to_string(),
        name: "b".to_string(),
        image: "c".to_string(),
        status: "d".to_string(),
        ports: "e".to_string(),
        created: "f".to_string(),
    };
    let listed = OperationResult::listed(vec![record.clone()]);
    assert_eq!(listed.containers, Some(vec![record]));
    assert_eq!((listed.success, &listed.container_id, &listed.info, &listed.error), (true, &None, &None, &None));
    let info = SystemInfo::from_fields(InfoFields {
        server_version: None,
        api_version: None,
        operating_system: None,
        architecture: None,
        mem_total: None,
        ncpu: None,
        containers_running: None,
        containers: None,
        images: None,
    });
    let informed = OperationResult::informed(info.clone());
    assert_eq!(informed.info, Some(info));
    assert_eq!((informed.success, &informed.container_id, &informed.containers, &informed.error), (true, &None, &None, &None));
    let empty = OperationResult::listed(Vec::new());
    for r in [launched, done, listed, informed, empty] {
        assert!(is_well_formed(&r));
    }
}

#[test]
fn failures_carry_a_text_that_is_not_empty() {
    for op in OPERATIONS {
        for failure in [
            Failure::Spawn(String::new()),
            Failure::Spawn("denied".to_string()),
            Failure::Runtime(String::new()),
            Failure::Runtime("boom".to_string()),
            Failure::MalformedInfo,
        ] {
            let r = OperationResult::failed(op, failure.clone());
            assert!(!r.success);
            assert_eq!(r.error, Some(failure.text(op)));
            assert!(is_well_formed(&r));
        }
    }
}
