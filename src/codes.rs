//! Integer codes of the vendor interface and their typed counterparts.
use vstd::prelude::*;

verus! {

/// Represents the state of order receipt.
#[derive(Debug, Clone, Copy, PartialEq, Eq, Structural)]
pub enum Mode {
    NewOrder,
    InitialOrder,
    LastOrderReceived,
    Unknown,
}

/// The mode that a raw code stands for: 0, 1 and 2 are known, every other code is unknown.
pub open spec fn mode_of(code: i32) -> Mode {
    if code == 0 {
        Mode::NewOrder
    } else if code == 1 {
        Mode::InitialOrder
    } else if code == 2 {
        Mode::LastOrderReceived
    } else {
        Mode::Unknown
    }
}

impl From<i32> for Mode {
    fn from(code: i32) -> (r: Mode)
        ensures
            r == mode_of(code),
    {
        match code {
            0 => Mode::NewOrder,
            1 => Mode::InitialOrder,
            2 => Mode::LastOrderReceived,
            _ => Mode::Unknown,
        }
    }
}

impl vstd::std_specs::convert::FromSpecImpl<i32> for Mode {
    open spec fn obeys_from_spec() -> bool {
        true
    }

    open spec fn from_spec(code: i32) -> Mode {
        mode_of(code)
    }
}

/// The TransID of the transaction that generated an order.
/// It is `Unknown(0)` if the order did not come from a transaction, or if the TransID is unknown.
#[derive(Debug, Clone, Copy, PartialEq, Eq, Structural)]
pub enum TransId {
    Id(i32),
    Unknown(i32),
}

/// Zero means "no transaction"; every other value is a concrete id and is kept.
pub open spec fn trans_id_of(id: i32) -> TransId {
    if id == 0 {
        TransId::Unknown(id)
    } else {
        TransId::Id(id)
    }
}

impl From<i32> for TransId {
    fn from(id: i32) -> (r: TransId)
        ensures
            r == trans_id_of(id),
    {
        match id {
            0 => TransId::Unknown(id),
            _ => TransId::Id(id),
        }
    }
}

impl vstd::std_specs::convert::FromSpecImpl<i32> for TransId {
    open spec fn obeys_from_spec() -> bool {
        true
    }

    open spec fn from_spec(id: i32) -> TransId {
        trans_id_of(id)
    }
}

/// Direction of an order or a trade.
#[derive(Debug, Clone, Copy, PartialEq, Eq, Structural)]
pub enum IsSell {
    Buy,
    Sell,
}

/// Zero is a purchase; any other value, negative ones included, is a sale.
pub open spec fn is_sell_of(code: i32) -> IsSell {
    if code == 0 {
        IsSell::Buy
    } else {
        IsSell::Sell
    }
}

impl From<i32> for IsSell {
    fn from(code: i32) -> (r: IsSell)
        ensures
            r == is_sell_of(code),
    {
        match code {
            0 => IsSell::Buy,
            _ => IsSell::Sell,
        }
    }
}

impl vstd::std_specs::convert::FromSpecImpl<i32> for IsSell {
    open spec fn obeys_from_spec() -> bool {
        true
    }

    open spec fn from_spec(code: i32) -> IsSell {
        is_sell_of(code)
    }
}

/// Represents the execution status of an order.
#[derive(Debug, Clone, Copy, PartialEq, Eq, Structural)]
pub enum Status {
    Active,
    Canceled,
    Executed,
}

/// 1 is active, 2 is canceled; the vendor reports every other value for an executed order.
pub open spec fn status_of(code: i32) -> Status {
    if code == 1 {
        Status::Active
    } else if code == 2 {
        Status::Canceled
    } else {
        Status::Executed
    }
}

impl From<i32> for Status {
    fn from(code: i32) -> (r: Status)
        ensures
            r == status_of(code),
    {
        match code {
            1 => Status::Active,
            2 => Status::Canceled,
            _ => Status::Executed,
        }
    }
}

impl vstd::std_specs::convert::FromSpecImpl<i32> for Status {
    open spec fn obeys_from_spec() -> bool {
        true
    }

    open spec fn from_spec(code: i32) -> Status {
        status_of(code)
    }
}

/// The result codes that functions and callbacks of the vendor library return:
///
/// ```text
/// TRANS2QUIK_SUCCESS 0
/// TRANS2QUIK_FAILED 1
/// TRANS2QUIK_QUIK_TERMINAL_NOT_FOUND 2
/// TRANS2QUIK_DLL_VERSION_NOT_SUPPORTED 3
/// TRANS2QUIK_ALREADY_CONNECTED_TO_QUIK 4
/// TRANS2QUIK_WRONG_SYNTAX 5
/// TRANS2QUIK_QUIK_NOT_CONNECTED 6
/// TRANS2QUIK_DLL_NOT_CONNECTED 7
/// TRANS2QUIK_QUIK_CONNECTED 8
/// TRANS2QUIK_QUIK_DISCONNECTED 9
/// TRANS2QUIK_DLL_CONNECTED 10
/// TRANS2QUIK_DLL_DISCONNECTED 11
/// TRANS2QUIK_MEMORY_ALLOCATION_ERROR 12
/// TRANS2QUIK_WRONG_CONNECTION_HANDLE 13
/// TRANS2QUIK_WRONG_INPUT_PARAMS 14
/// ```
///
/// Any other code is `Unknown`.
#[derive(Debug, Clone, Copy, PartialEq, Eq, Structural)]
pub enum Trans2QuikResult {
    Success,
    Failed,
    TerminalNotFound,
    DllVersionNotSupported,
    AlreadyConnectedToQuik,
    WrongSyntax,
    QuikNotConnected,
    DllNotConnected,
    QuikConnected,
    QuikDisconnected,
    DllConnected,
    DllDisconnected,
    MemoryAllocationError,
    WrongConnectionHandle,
    WrongInputParams,
    Unknown,
}

/// The vendor's code of each known result.
pub open spec fn result_code(r: Trans2QuikResult) -> int {
    match r {
        Trans2QuikResult::Success => 0,
        Trans2QuikResult::Failed => 1,
        Trans2QuikResult::TerminalNotFound => 2,
        Trans2QuikResult::DllVersionNotSupported => 3,
        Trans2QuikResult::AlreadyConnectedToQuik => 4,
        Trans2QuikResult::WrongSyntax => 5,
        Trans2QuikResult::QuikNotConnected => 6,
        Trans2QuikResult::DllNotConnected => 7,
        Trans2QuikResult::QuikConnected => 8,
        Trans2QuikResult::QuikDisconnected => 9,
        Trans2QuikResult::DllConnected => 10,
        Trans2QuikResult::DllDisconnected => 11,
        Trans2QuikResult::MemoryAllocationError => 12,
        Trans2QuikResult::WrongConnectionHandle => 13,
        Trans2QuikResult::WrongInputParams => 14,
        Trans2QuikResult::Unknown => -1,
    }
}

/// The result that a raw code stands for; a code that no known result has is `Unknown`.
pub open spec fn result_of(code: i32) -> Trans2QuikResult {
    if code == 0 {
        Trans2QuikResult::Success
    } else if code == 1 {
        Trans2QuikResult::Failed
    } else if code == 2 {
        Trans2QuikResult::TerminalNotFound
    } else if code == 3 {
        Trans2QuikResult::DllVersionNotSupported
    } else if code == 4 {
        Trans2QuikResult::AlreadyConnectedToQuik
    } else if code == 5 {
        Trans2QuikResult::WrongSyntax
    } else if code == 6 {
        Trans2QuikResult::QuikNotConnected
    } else if code == 7 {
        Trans2QuikResult::DllNotConnected
    } else if code == 8 {
        Trans2QuikResult::QuikConnected
    } else if code == 9 {
        Trans2QuikResult::QuikDisconnected
    } else if code == 10 {
        Trans2QuikResult::DllConnected
    } else if code == 11 {
        Trans2QuikResult::DllDisconnected
    } else if code == 12 {
        Trans2QuikResult::MemoryAllocationError
    } else if code == 13 {
        Trans2QuikResult::WrongConnectionHandle
    } else if code == 14 {
        Trans2QuikResult::WrongInputParams
    } else {
        Trans2QuikResult::Unknown
    }
}

impl From<i32> for Trans2QuikResult {
    fn from(code: i32) -> (r: Trans2QuikResult)
        ensures
            r == result_of(code),
            0 <= code <= 14 ==> result_code(r) == code,
            !(0 <= code <= 14) ==> r == Trans2QuikResult::Unknown,
    {
        match code {
            0 => Trans2QuikResult::Success,
            1 => Trans2QuikResult::Failed,
            2 => Trans2QuikResult::TerminalNotFound,
            3 => Trans2QuikResult::DllVersionNotSupported,
            4 => Trans2QuikResult::AlreadyConnectedToQuik,
            5 => Trans2QuikResult::WrongSyntax,
            6 => Trans2QuikResult::QuikNotConnected,
            7 => Trans2QuikResult::DllNotConnected,
            8 => Trans2QuikResult::QuikConnected,
            9 => Trans2QuikResult::QuikDisconnected,
            10 => Trans2QuikResult::DllConnected,
            11 => Trans2QuikResult::DllDisconnected,
            12 => Trans2QuikResult::MemoryAllocationError,
            13 => Trans2QuikResult::WrongConnectionHandle,
            14 => Trans2QuikResult::WrongInputParams,
            _ => Trans2QuikResult::Unknown,
        }
    }
}

impl vstd::std_specs::convert::FromSpecImpl<i32> for Trans2QuikResult {
    open spec fn obeys_from_spec() -> bool {
        true
    }

    open spec fn from_spec(code: i32) -> Trans2QuikResult {
        result_of(code)
    }
}

/// Decoding is total and exact: a code from 0 to 14 gives the one result that
/// carries that code, and any other integer gives `Unknown`, never a known result.
pub proof fn lemma_result_of_exact(code: i32, r: Trans2QuikResult)
    ensures
        0 <= code <= 14 ==> result_code(result_of(code)) == code,
        result_of(code) == Trans2QuikResult::Unknown <==> !(0 <= code <= 14),
        r != Trans2QuikResult::Unknown ==> (result_of(code) == r <==> code == result_code(r)),
{
}

} // verus!
