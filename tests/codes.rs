use trans2quik::{IsSell, Mode, Status, Trans2QuikResult, TransId};

#[test]
fn test_trans2quik_result_conversion() {
    assert_eq!(Trans2QuikResult::from(0), Trans2QuikResult::Success);
    assert_eq!(Trans2QuikResult::from(1), Trans2QuikResult::Failed);
    assert_eq!(
        Trans2QuikResult::from(2),
        Trans2QuikResult::TerminalNotFound
    );
    assert_eq!(
        Trans2QuikResult::from(3),
        Trans2QuikResult::DllVersionNotSupported
    );
    assert_eq!(
        Trans2QuikResult::from(4),
        Trans2QuikResult::AlreadyConnectedToQuik
    );
    assert_eq!(Trans2QuikResult::from(5), Trans2QuikResult::WrongSyntax);
    assert_eq!(
        Trans2QuikResult::from(6),
        Trans2QuikResult::QuikNotConnected
    );
    assert_eq!(Trans2QuikResult::from(7), Trans2QuikResult::DllNotConnected);
    assert_eq!(Trans2QuikResult::from(8), Trans2QuikResult::QuikConnected);
    assert_eq!(
        Trans2QuikResult::from(9),
        Trans2QuikResult::QuikDisconnected
    );
    assert_eq!(Trans2QuikResult::from(10), Trans2QuikResult::DllConnected);
    assert_eq!(
        Trans2QuikResult::from(11),
        Trans2QuikResult::DllDisconnected
    );
    assert_eq!(
        Trans2QuikResult::from(12),
        Trans2QuikResult::MemoryAllocationError
    );
    assert_eq!(
        Trans2QuikResult::from(13),
        Trans2QuikResult::WrongConnectionHandle
    );
    assert_eq!(
        Trans2QuikResult::from(14),
        Trans2QuikResult::WrongInputParams
    );
    assert_eq!(Trans2QuikResult::from(999), Trans2QuikResult::Unknown);
}

#[test]
fn result_codes_outside_the_table_are_unknown() {
    assert_eq!(Trans2QuikResult::from(-1), Trans2QuikResult::Unknown);
    assert_eq!(Trans2QuikResult::from(15), Trans2QuikResult::Unknown);
    assert_eq!(Trans2QuikResult::from(i32::MIN), Trans2QuikResult::Unknown);
    assert_eq!(Trans2QuikResult::from(i32::MAX), Trans2QuikResult::Unknown);
}

#[test]
fn status_codes() {
    assert_eq!(Status::from(1), Status::Active);
    assert_eq!(Status::from(2), Status::Canceled);
    assert_eq!(Status::from(0), Status::Executed);
    assert_eq!(Status::from(3), Status::Executed);
    assert_eq!(Status::from(-2), Status::Executed);
}

#[test]
fn side_codes() {
    assert_eq!(IsSell::from(0), IsSell::Buy);
    assert_eq!(IsSell::from(1), IsSell::Sell);
    assert_eq!(IsSell::from(-1), IsSell::Sell);
    assert_eq!(IsSell::from(42), IsSell::Sell);
}

#[test]
fn trans_id_codes() {
    assert_eq!(TransId::from(0), TransId::Unknown(0));
    assert_eq!(TransId::from(17), TransId::Id(17));
    assert_eq!(TransId::from(-5), TransId::Id(-5));
}

#[test]
fn mode_codes() {
    assert_eq!(Mode::from(0), Mode::NewOrder);
    assert_eq!(Mode::from(1), Mode::InitialOrder);
    assert_eq!(Mode::from(2), Mode::LastOrderReceived);
    assert_eq!(Mode::from(3), Mode::Unknown);
    assert_eq!(Mode::from(-1), Mode::Unknown);
}
