use mimir::enums::{ODPINativeTypeNum, ODPIOracleTypeNum};
use mimir::error::{ErrorKind, Info, Operation, Reason};
use mimir::handle::{HandleRef, HandleState};
use mimir::{Statement, Var};

fn not_live() -> ErrorKind {
    ErrorKind::InvalidArgument { reason: Reason::HandleNotLive }
}

fn none_left() -> ErrorKind {
    ErrorKind::InvalidArgument { reason: Reason::NoReference }
}

fn failure() -> Info {
    Info {
        code: 1002,
        offset: 0,
        message: "DPI-1002: invalid handle".to_string(),
        fn_name: "dpiStmt_addRef".to_string(),
        action: "check main error".to_string(),
        sql_state: "HY000".to_string(),
        is_recoverable: false,
    }
}

fn add(h: &mut HandleRef) -> Result<(), ErrorKind> {
    h.add_ref(Operation::StmtAddRef, Ok(()))
}

fn drop_one(h: &mut HandleRef) -> Result<(), ErrorKind> {
    h.release(Operation::StmtRelease, Ok(()))
}

fn shut(h: &mut HandleRef) -> Result<(), ErrorKind> {
    h.close(Operation::StmtClose, Ok(()))
}

#[test]
fn minted_reference_is_live() {
    let h = HandleRef::new(42);
    assert_eq!(h.get_state(), HandleState::Live);
    assert_eq!(h.ref_count(), 1);
    assert_eq!(h.inner(), 42);
    assert!(h.is_live());
    assert_eq!(h.check_live(), Ok(()));
}

#[test]
fn null_handle_is_unbound() {
    let mut h = HandleRef::new(0);
    assert_eq!(h.get_state(), HandleState::Unbound);
    assert_eq!(h.ref_count(), 0);
    assert_eq!(h.check_live(), Err(not_live()));
    assert_eq!(add(&mut h), Err(not_live()));
    assert_eq!(drop_one(&mut h), Err(none_left()));
    assert_eq!(shut(&mut h), Err(not_live()));
    assert_eq!(h, HandleRef::new(0));
}

#[test]
fn references_balance() {
    for added in 0u32..5 {
        let mut h = HandleRef::new(7);
        for _ in 0..added {
            assert_eq!(add(&mut h), Ok(()));
        }
        assert_eq!(h.ref_count(), 1 + added);
        for released in 0..added {
            assert_eq!(drop_one(&mut h), Ok(()));
            assert!(h.is_live());
            assert_eq!(h.ref_count(), added - released);
        }
        assert_eq!(drop_one(&mut h), Ok(()));
        assert_eq!(h.get_state(), HandleState::Released);
        assert_eq!(add(&mut h), Err(not_live()));
        assert_eq!(shut(&mut h), Err(not_live()));
    }
}

#[test]
fn release_after_the_last_fails_cleanly() {
    let mut h = HandleRef::new(7);
    assert_eq!(drop_one(&mut h), Ok(()));
    let after = h;
    for _ in 0..3 {
        assert_eq!(drop_one(&mut h), Err(none_left()));
        assert_eq!(h.release(Operation::StmtRelease, Err(failure())), Err(none_left()));
        assert_eq!(h, after);
        assert_eq!(h.ref_count(), 0);
        assert_eq!(h.get_state(), HandleState::Released);
    }
}

#[test]
fn close_keeps_the_references_to_release() {
    let mut h = HandleRef::new(7);
    assert_eq!(add(&mut h), Ok(()));
    assert_eq!(shut(&mut h), Ok(()));
    assert_eq!(h.get_state(), HandleState::Closed);
    assert_eq!(h.ref_count(), 2);
    assert_eq!(shut(&mut h), Err(not_live()));
    assert_eq!(add(&mut h), Err(not_live()));
    assert_eq!(drop_one(&mut h), Ok(()));
    assert_eq!(h.get_state(), HandleState::Closed);
    assert_eq!(drop_one(&mut h), Ok(()));
    assert_eq!(h.get_state(), HandleState::Released);
    assert_eq!(drop_one(&mut h), Err(none_left()));
}

#[test]
fn failed_call_changes_nothing() {
    let mut h = HandleRef::new(7);
    let before = h;
    assert_eq!(
        h.add_ref(Operation::StmtAddRef, Err(failure())),
        Err(ErrorKind::NativeCallFailed { operation: Operation::StmtAddRef, info: failure() })
    );
    assert_eq!(h, before);
    assert_eq!(
        h.release(Operation::StmtRelease, Err(failure())),
        Err(ErrorKind::NativeCallFailed { operation: Operation::StmtRelease, info: failure() })
    );
    assert_eq!(h, before);
    assert_eq!(
        h.close(Operation::StmtClose, Err(failure())),
        Err(ErrorKind::NativeCallFailed { operation: Operation::StmtClose, info: failure() })
    );
    assert_eq!(h, before);
    assert!(h.is_live());
    assert_eq!(Operation::StmtAddRef.name(), "dpiStmt_addRef");
    assert_eq!(Operation::StmtRelease.name(), "dpiStmt_release");
    assert_eq!(Operation::StmtClose.name(), "dpiStmt_close");
    assert_eq!(Operation::ContextDestroy.name(), "dpiContext_destroy");
}

#[test]
fn every_kind_names_its_own_call() {
    let mut stmt = Statement::new(5);
    assert_eq!(
        stmt.add_ref(Err(failure())),
        Err(ErrorKind::NativeCallFailed { operation: Operation::StmtAddRef, info: failure() })
    );
    assert_eq!(
        stmt.release(Err(failure())),
        Err(ErrorKind::NativeCallFailed { operation: Operation::StmtRelease, info: failure() })
    );
    assert_eq!(
        stmt.close(None, Err(failure())),
        Err(ErrorKind::NativeCallFailed { operation: Operation::StmtClose, info: failure() })
    );
    assert!(stmt.is_live());
    let mut var = Var::create(1, ODPIOracleTypeNum::Number, ODPINativeTypeNum::Int64, 1, 22, false, "")
        .expect("variable");
    assert_eq!(
        var.add_ref(Err(failure())),
        Err(ErrorKind::NativeCallFailed { operation: Operation::VarAddRef, info: failure() })
    );
    assert_eq!(
        var.release(Err(failure())),
        Err(ErrorKind::NativeCallFailed { operation: Operation::VarRelease, info: failure() })
    );
    assert_eq!(var.handle().ref_count(), 1);
    assert_eq!(var.add_ref(Ok(())), Ok(()));
    assert_eq!(var.handle().ref_count(), 2);
}

#[test]
fn every_kind_rejects_use_after_the_last_release() {
    let mut stmt = Statement::new(5);
    assert_eq!(stmt.add_ref(Ok(())), Ok(()));
    assert_eq!(stmt.release(Ok(())), Ok(()));
    assert!(stmt.is_live());
    assert_eq!(stmt.release(Ok(())), Ok(()));
    assert!(!stmt.is_live());
    assert_eq!(stmt.release(Ok(())), Err(none_left()));
    assert_eq!(stmt.get_bind_count(), Err(not_live()));

    let mut var = Var::create(1, ODPIOracleTypeNum::Number, ODPINativeTypeNum::Int64, 2, 22, false, "")
        .expect("variable");
    assert_eq!(var.release(Ok(())), Ok(()));
    assert_eq!(var.get_size_in_bytes(), Err(not_live()));
    assert!(var.get_data().is_err());
    assert_eq!(var.release(Ok(())), Err(none_left()));
}
