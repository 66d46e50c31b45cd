use rencfs_desktop::models::Vault;
use rencfs_desktop::process_health::ProcessState;
use rencfs_desktop::vault_handler::{Action, Event, Pending, Step, VaultHandlerError};
use rencfs_desktop::vault_service::{EmptyReply, MyVaultService};
use rencfs_desktop::vault_service_error::{Code, VaultServiceError};

fn record(id: i32) -> Vault {
    Vault {
        id,
        name: format!("v{}", id),
        mount_point: format!("/mnt/v{}", id),
        data_dir: format!("/data/v{}", id),
        locked: 1,
    }
}

fn next(service: &mut MyVaultService, id: u32, step: Step, event: Event) -> Step {
    match step {
        Step::Await { pending, .. } => service.resume(id, pending, event),
        Step::Done(_) => panic!("the operation is over"),
    }
}

fn unlock_healthy(service: &mut MyVaultService, id: u32, pid: u32) -> Step {
    let mut step = service.unlock(id);
    for event in [
        Event::LogsOpened,
        Event::VaultRead { vault: Some(record(id as i32)) },
        Event::Spawned { ok: true },
        Event::GraceElapsed { pid: Some(pid) },
        Event::Probed { state: Some(ProcessState::Run) },
        Event::ProcessListed { output: "ok".to_string() },
        Event::Persisted { ok: true },
    ] {
        step = next(service, id, step, event);
    }
    step
}

#[test]
fn new_service_knows_no_vault() {
    let service = MyVaultService::new(true);
    assert!(!service.knows(7));
    assert!(!service.is_unlocked(7));
}

#[test]
fn first_request_registers_the_handler() {
    let mut service = MyVaultService::new(true);
    let step = service.lock(7);
    assert_eq!(
        step,
        Step::Await {
            pending: Pending::LockPersisting { mount_point: None, reopen: false },
            action: Action::PersistLocked { id: 7, locked: true },
        }
    );
    assert!(service.knows(7));
    assert!(!service.knows(9));
}

#[test]
fn lock_request_for_locked_vault_is_acknowledged_after_the_write() {
    let mut service = MyVaultService::new(true);
    let step = service.lock(7);
    let step = next(&mut service, 7, step, Event::Persisted { ok: true });
    assert_eq!(step, Step::Done(Ok(())));
    assert_eq!(MyVaultService::handle_handler_empty_response(Ok(())), Ok(EmptyReply {}));
}

#[test]
fn unlock_request_reuses_the_handler() {
    let mut service = MyVaultService::new(true);
    assert_eq!(unlock_healthy(&mut service, 7, 4242), Step::Done(Ok(())));
    assert!(service.is_unlocked(7));
    assert_eq!(service.unlock(7), Step::Done(Ok(())));
    assert!(service.is_unlocked(7));
}

#[test]
fn requests_for_different_vaults_do_not_wait_for_each_other() {
    let mut service = MyVaultService::new(true);
    let mut seven = service.unlock(7);
    let mut nine = service.unlock(9);
    let events = |id: i32, pid: u32| {
        vec![
            Event::LogsOpened,
            Event::VaultRead { vault: Some(record(id)) },
            Event::Spawned { ok: true },
            Event::GraceElapsed { pid: Some(pid) },
            Event::Probed { state: Some(ProcessState::Sleep) },
            Event::ProcessListed { output: "ok".to_string() },
            Event::Persisted { ok: true },
        ]
    };
    let mut for_seven = events(7, 70).into_iter();
    let mut for_nine = events(9, 90).into_iter();
    for _ in 0..7 {
        nine = next(&mut service, 9, nine, for_nine.next().unwrap());
        seven = next(&mut service, 7, seven, for_seven.next().unwrap());
    }
    assert_eq!(seven, Step::Done(Ok(())));
    assert_eq!(nine, Step::Done(Ok(())));
    assert!(service.is_unlocked(7));
    assert!(service.is_unlocked(9));
}

#[test]
fn failure_of_one_vault_leaves_the_other_alone() {
    let mut service = MyVaultService::new(true);
    assert_eq!(unlock_healthy(&mut service, 9, 90), Step::Done(Ok(())));
    let step = service.unlock(7);
    let step = next(&mut service, 7, step, Event::LogsOpened);
    let step = next(&mut service, 7, step, Event::VaultRead { vault: Some(record(7)) });
    let step = next(&mut service, 7, step, Event::Spawned { ok: false });
    assert_eq!(step, Step::Done(Err(VaultHandlerError::CannotUnlockVault)));
    assert!(!service.is_unlocked(7));
    assert!(service.is_unlocked(9));
    assert_eq!(service.unlock(9), Step::Done(Ok(())));
}

#[test]
fn relocation_requests_pass_the_path_to_the_handler() {
    let mut service = MyVaultService::new(true);
    assert_eq!(service.change_mount_point(7, "/mnt/old".to_string()), Step::Done(Ok(())));
    assert_eq!(service.change_data_dir(7, "/data/old".to_string()), Step::Done(Ok(())));
    assert_eq!(unlock_healthy(&mut service, 7, 4242), Step::Done(Ok(())));
    assert_eq!(
        service.change_mount_point(7, "/mnt/old".to_string()),
        Step::Await {
            pending: Pending::LockPersisting {
                mount_point: Some("/mnt/old".to_string()),
                reopen: true
            },
            action: Action::PersistLocked { id: 7, locked: true },
        }
    );
    assert_eq!(
        service.change_data_dir(7, "/data/old".to_string()),
        Step::Await {
            pending: Pending::RelocateReadingVault,
            action: Action::ReadVault { id: 7 },
        }
    );
}

#[test]
fn failure_becomes_a_status_that_names_its_kind() {
    let reply =
        MyVaultService::handle_handler_empty_response(Err(VaultHandlerError::CannotUnlockVault));
    let status = reply.unwrap_err();
    assert_eq!(status.code, Code::Internal);
    assert_eq!(status.message, "internal error: cannot unlock vault");
    assert_eq!(
        VaultServiceError::try_from(&status),
        Ok(VaultServiceError::VaultHandlerError(VaultHandlerError::CannotUnlockVault))
    );
}

#[test]
fn hello_greets_by_name() {
    assert_eq!(MyVaultService::hello("Ana"), "Hello, Ana!");
    assert_eq!(MyVaultService::hello(""), "Hello, !");
}

#[test]
fn get_or_create_makes_the_handler_once() {
    let mut service = MyVaultService::new(true);
    assert!(!service.knows(7));
    {
        let handler = service.get_or_create(7);
        assert_eq!(handler.id(), 7);
        assert!(!handler.is_unlocked());
    }
    assert!(service.knows(7));
    assert_eq!(unlock_healthy(&mut service, 7, 4242), Step::Done(Ok(())));
    let handler = service.get_or_create(7);
    assert_eq!(handler.child(), Some(4242));
}

#[test]
fn probing_through_the_service_fails_for_a_process_that_does_not_exist() {
    let mut service = MyVaultService::new(true);
    let step = service.resume_probing(7, Pending::UnlockProbing { pid: u32::MAX });
    assert_eq!(step, Step::Done(Err(VaultHandlerError::CannotUnlockVault)));
    assert!(service.knows(7));
    assert!(!service.is_unlocked(7));
}
