//! Typed records built from what the vendor hands to a callback or writes
//! back from a call.
//!
//! Prices and values cross the boundary as C doubles. This crate never reads
//! them: the records are generic over their type `F`, and each field keeps
//! exactly the value that was handed over.
use vstd::prelude::*;

use crate::codes::{
    is_sell_of, mode_of, result_of, status_of, trans_id_of, IsSell, Mode, Status,
    Trans2QuikResult, TransId,
};
use crate::datetime::{
    date_or_default, default_date, default_time, format_date, format_time, packed_date,
    packed_time, time_or_default, CalendarDate, TimeOfDay,
};
use crate::text::{
    buffer_text, decode_error_name, decode_lpstr, decoded, extract_string_from_vec,
    DecodeLpstrError,
};

verus! {

/// Size of each buffer that the vendor writes a message into.
pub const MESSAGE_BUFFER_LEN: usize = 256;

/// What stands in a text field that could not be read.
pub open spec fn placeholder(field: Seq<char>, e: DecodeLpstrError) -> Seq<char> {
    "decode "@ + field + " error: "@ + decode_error_name(e)
}

/// A text field of an event: the decoded text, or a placeholder for a null pointer.
pub open spec fn field_text(raw: Option<Vec<u8>>, field: Seq<char>) -> Seq<char> {
    match raw {
        Some(b) => decoded(b@),
        None => placeholder(field, DecodeLpstrError::NullPointer),
    }
}

/// Reads a text field of an event; a field that cannot be read becomes a
/// placeholder that names the field and the reason, so that the rest of the
/// event is still delivered.
fn text_field(raw: Option<Vec<u8>>, field: &str) -> (r: String)
    ensures
        r@ == field_text(raw, field@),
{
    match decode_lpstr(raw) {
        Ok(s) => s,
        Err(e) => {
            let mut s = String::from_str("decode ");
            s.append(field);
            s.append(" error: ");
            s.append(e.name());
            s
        },
    }
}

/// Reads a packed date, falling back to the default date.
fn date_field(v: i32) -> (r: CalendarDate)
    ensures
        r == date_or_default(v as int),
{
    match format_date(v) {
        Ok(d) => d,
        Err(_) => CalendarDate::default(),
    }
}

/// Reads a packed time, falling back to the default time.
fn time_field(v: i32) -> (r: TimeOfDay)
    ensures
        r == time_or_default(v as int),
{
    match format_time(v) {
        Ok(t) => t,
        Err(_) => TimeOfDay::default(),
    }
}

/// An order as the order-status callback reports it.
#[derive(Debug)]
pub struct OrderInfo<F> {
    pub mode: Mode,
    pub trans_id: TransId,
    pub order_num: u64,
    pub class_code: String,
    pub sec_code: String,
    pub price: F,
    pub balance: i64,
    pub value: F,
    pub is_sell: IsSell,
    pub status: Status,
    pub date: CalendarDate,
    pub time: TimeOfDay,
}

/// Both the date and the time were read (neither is the stand-in default).
pub open spec fn has_date_time(date: CalendarDate, time: TimeOfDay) -> bool {
    date != default_date() && time != default_time()
}

/// An event's date and time count as read only if both packed values were
/// parsed: a value that fails to parse leaves the default in its place.
pub proof fn lemma_valid_only_if_parsed(date: i32, time: i32)
    ensures
        has_date_time(date_or_default(date as int), time_or_default(time as int)) ==> (packed_date(
            date as int,
        ) is Some && packed_time(time as int) is Some),
        date <= 0 || time <= 0 ==> !has_date_time(
            date_or_default(date as int),
            time_or_default(time as int),
        ),
{
}

impl<F> OrderInfo<F> {
    /// Whether the order's date and time were both read.
    pub fn is_valid(&self) -> (r: bool)
        ensures
            r == has_date_time(self.date, self.time),
    {
        self.date != CalendarDate::default() && self.time != TimeOfDay::default()
    }

    /// Builds the record from the raw values of one order-status callback;
    /// `date` and `time` are what the vendor's accessors returned for this
    /// callback's order descriptor.
    pub fn from_callback(
        mode: i32,
        trans_id: i32,
        order_num: u64,
        class_code: Option<Vec<u8>>,
        sec_code: Option<Vec<u8>>,
        price: F,
        balance: i64,
        value: F,
        is_sell: i32,
        status: i32,
        date: i32,
        time: i32,
    ) -> (r: OrderInfo<F>)
        ensures
            r.mode == mode_of(mode),
            r.trans_id == trans_id_of(trans_id),
            r.order_num == order_num,
            r.class_code@ == field_text(class_code, "class_code"@),
            r.sec_code@ == field_text(sec_code, "sec_code"@),
            r.price == price,
            r.balance == balance,
            r.value == value,
            r.is_sell == is_sell_of(is_sell),
            r.status == status_of(status),
            r.date == date_or_default(date as int),
            r.time == time_or_default(time as int),
    {
        OrderInfo {
            mode: Mode::from(mode),
            trans_id: TransId::from(trans_id),
            order_num,
            class_code: text_field(class_code, "class_code"),
            sec_code: text_field(sec_code, "sec_code"),
            price,
            balance,
            value,
            is_sell: IsSell::from(is_sell),
            status: Status::from(status),
            date: date_field(date),
            time: time_field(time),
        }
    }
}

/// A trade as the trade-status callback reports it.
#[derive(Debug)]
pub struct TradeInfo<F> {
    pub mode: Mode,
    pub trade_num: u64,
    pub order_num: u64,
    pub class_code: String,
    pub sec_code: String,
    pub price: F,
    pub quantity: i64,
    pub is_sell: IsSell,
    pub value: F,
    pub date: CalendarDate,
    pub time: TimeOfDay,
}

impl<F> TradeInfo<F> {
    /// Whether the trade's date and time were both read.
    pub fn is_valid(&self) -> (r: bool)
        ensures
            r == has_date_time(self.date, self.time),
    {
        self.date != CalendarDate::default() && self.time != TimeOfDay::default()
    }

    /// Builds the record from the raw values of one trade-status callback;
    /// `date` and `time` are what the vendor's accessors returned for this
    /// callback's trade descriptor.
    pub fn from_callback(
        mode: i32,
        trade_num: u64,
        order_num: u64,
        class_code: Option<Vec<u8>>,
        sec_code: Option<Vec<u8>>,
        price: F,
        quantity: i64,
        is_sell: i32,
        value: F,
        date: i32,
        time: i32,
    ) -> (r: TradeInfo<F>)
        ensures
            r.mode == mode_of(mode),
            r.trade_num == trade_num,
            r.order_num == order_num,
            r.class_code@ == field_text(class_code, "class_code"@),
            r.sec_code@ == field_text(sec_code, "sec_code"@),
            r.price == price,
            r.quantity == quantity,
            r.is_sell == is_sell_of(is_sell),
            r.value == value,
            r.date == date_or_default(date as int),
            r.time == time_or_default(time as int),
    {
        TradeInfo {
            mode: Mode::from(mode),
            trade_num,
            order_num,
            class_code: text_field(class_code, "class_code"),
            sec_code: text_field(sec_code, "sec_code"),
            price,
            quantity,
            is_sell: IsSell::from(is_sell),
            value,
            date: date_field(date),
            time: time_field(time),
        }
    }
}

/// The reply to an asynchronous transaction, as the transaction-reply callback reports it.
#[derive(Debug)]
pub struct TransactionInfo<F> {
    pub trans2quik_result: Trans2QuikResult,
    pub error_code: i32,
    pub reply_code: i32,
    pub trans_id: TransId,
    pub order_num: u64,
    pub reply_message: String,
    pub sec_code: String,
    pub price: F,
}

impl<F> TransactionInfo<F> {
    /// Builds the record from the raw values of one transaction-reply
    /// callback; `sec_code` and `price` are what the vendor's accessors
    /// returned for this callback's reply descriptor.
    pub fn from_callback(
        result_code: i32,
        error_code: i32,
        reply_code: i32,
        trans_id: i32,
        order_num: u64,
        reply_message: Option<Vec<u8>>,
        sec_code: Option<Vec<u8>>,
        price: F,
    ) -> (r: TransactionInfo<F>)
        ensures
            r.trans2quik_result == result_of(result_code),
            r.error_code == error_code,
            r.reply_code == reply_code,
            r.trans_id == trans_id_of(trans_id),
            r.order_num == order_num,
            r.reply_message@ == field_text(reply_message, "reply_message"@),
            r.sec_code@ == field_text(sec_code, "sec_code"@),
            r.price == price,
    {
        TransactionInfo {
            trans2quik_result: Trans2QuikResult::from(result_code),
            error_code,
            reply_code,
            trans_id: TransId::from(trans_id),
            order_num,
            reply_message: text_field(reply_message, "reply_message"),
            sec_code: text_field(sec_code, "sec_code"),
            price,
        }
    }
}

/// The outcome of a vendor call, with the error code and message it wrote back.
#[derive(Debug)]
pub struct CallReport {
    pub result: Trans2QuikResult,
    pub error_code: i32,
    pub error_message: String,
}

/// What the connection-status callback reports for a null message.
pub open spec fn null_message_text() -> Seq<char> {
    "error_message is null"@
}

impl CallReport {
    /// Reads what a vendor call returned and wrote into its error-code slot
    /// and its message buffer.
    pub fn from_call(function_result: i32, error_code: i32, error_message: Vec<u8>) -> (r: CallReport)
        ensures
            r.result == result_of(function_result),
            r.error_code == error_code,
            r.error_message@ == buffer_text(error_message@),
    {
        CallReport {
            result: Trans2QuikResult::from(function_result),
            error_code,
            error_message: extract_string_from_vec(error_message),
        }
    }

    /// Reads what the connection-status callback was handed; `error_message`
    /// is `None` for a null pointer.
    pub fn from_connection_event(
        connection_event: i32,
        error_code: i32,
        error_message: Option<Vec<u8>>,
    ) -> (r: CallReport)
        ensures
            r.result == result_of(connection_event),
            r.error_code == error_code,
            error_message is None ==> r.error_message@ == null_message_text(),
            error_message is Some ==> r.error_message@ == decoded(error_message->Some_0@),
    {
        let text = match decode_lpstr(error_message) {
            Ok(s) => s,
            Err(_) => String::from_str("error_message is null"),
        };
        CallReport { result: Trans2QuikResult::from(connection_event), error_code, error_message: text }
    }
}

} // verus!

verus! {

/// The outcome of a synchronous transaction, with everything the vendor wrote back.
#[derive(Debug)]
pub struct SyncTransactionReport<F> {
    pub result: Trans2QuikResult,
    pub reply_code: i32,
    pub trans_id: i32,
    pub order_num: F,
    pub result_message: String,
    pub error_code: i32,
    pub error_message: String,
}

impl<F> SyncTransactionReport<F> {
    /// Reads what the synchronous send returned and wrote into its output slots and buffers.
    pub fn from_call(
        function_result: i32,
        reply_code: i32,
        trans_id: i32,
        order_num: F,
        result_message: Vec<u8>,
        error_code: i32,
        error_message: Vec<u8>,
    ) -> (r: SyncTransactionReport<F>)
        ensures
            r.result == result_of(function_result),
            r.reply_code == reply_code,
            r.trans_id == trans_id,
            r.order_num == order_num,
            r.result_message@ == buffer_text(result_message@),
            r.error_code == error_code,
            r.error_message@ == buffer_text(error_message@),
    {
        SyncTransactionReport {
            result: Trans2QuikResult::from(function_result),
            reply_code,
            trans_id,
            order_num,
            result_message: extract_string_from_vec(result_message),
            error_code,
            error_message: extract_string_from_vec(error_message),
        }
    }
}

} // verus!
