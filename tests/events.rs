use tokio::sync::mpsc::unbounded_channel;
use trans2quik::datetime::{CalendarDate, TimeOfDay};
use trans2quik::events::{CallReport, OrderInfo, SyncTransactionReport, TradeInfo, TransactionInfo};
use trans2quik::sinks::{Delivery, EventSinks};
use trans2quik::{IsSell, Mode, Status, Trans2QuikResult, TransId};

fn order(date: i32, time: i32) -> OrderInfo<f64> {
    OrderInfo::from_callback(
        0,
        12,
        777,
        Some(b"QJSIM".to_vec()),
        Some(b"LKOH".to_vec()),
        7103.5,
        3,
        21310.5,
        1,
        2,
        date,
        time,
    )
}

#[test]
fn order_event_reaches_the_sink() {
    let (tx, mut rx) = unbounded_channel();
    let mut sinks = EventSinks::new();
    sinks.set_order_sink(Some(tx));
    assert_eq!(sinks.deliver_order(order(20240115, 93015)), Delivery::Sent);
    let got = rx.try_recv().unwrap();
    assert_eq!(got.is_sell, IsSell::Sell);
    assert_eq!(got.status, Status::Canceled);
    assert_eq!(got.mode, Mode::NewOrder);
    assert_eq!(got.trans_id, TransId::Id(12));
    assert_eq!(got.order_num, 777);
    assert_eq!(got.class_code, "QJSIM");
    assert_eq!(got.sec_code, "LKOH");
    assert_eq!(got.price, 7103.5);
    assert_eq!(got.balance, 3);
    assert_eq!(got.value, 21310.5);
    assert_eq!(got.date, CalendarDate { year: 2024, month: 1, day: 15 });
    assert_eq!(got.time, TimeOfDay { hour: 9, minute: 30, second: 15 });
    assert!(got.is_valid());
    assert!(rx.try_recv().is_err());
}

#[test]
fn order_event_with_zero_date_carries_the_default() {
    let (tx, mut rx) = unbounded_channel();
    let mut sinks = EventSinks::new();
    sinks.set_order_sink(Some(tx));
    assert_eq!(sinks.deliver_order(order(0, 93015)), Delivery::Sent);
    let got = rx.try_recv().unwrap();
    assert_eq!(got.date, CalendarDate::default());
    assert_eq!(got.time, TimeOfDay { hour: 9, minute: 30, second: 15 });
    assert!(!got.is_valid());
}

#[test]
fn order_with_bad_time_is_not_valid() {
    let o = order(20240115, 250000);
    assert_eq!(o.time, TimeOfDay::default());
    assert!(!o.is_valid());
}

#[test]
fn null_text_fields_become_placeholders() {
    let o: OrderInfo<f64> =
        OrderInfo::from_callback(1, 0, 1, None, None, 0.0, 0, 0.0, 0, 1, 20240115, 93015);
    assert_eq!(o.class_code, "decode class_code error: NullPointer");
    assert_eq!(o.sec_code, "decode sec_code error: NullPointer");
    assert_eq!(o.mode, Mode::InitialOrder);
    assert_eq!(o.trans_id, TransId::Unknown(0));
    assert_eq!(o.is_sell, IsSell::Buy);
    assert_eq!(o.status, Status::Active);
}

#[test]
fn transaction_reply_without_sink_is_dropped() {
    let sinks: EventSinks<f64> = EventSinks::new();
    let info = TransactionInfo::from_callback(0, 0, 3, 1, 555, Some(b"OK".to_vec()), None, 7103.5);
    assert_eq!(sinks.deliver_transaction_reply(info), Delivery::NoSink);
}

#[test]
fn transaction_reply_is_decoded_and_forwarded() {
    let (tx, mut rx) = unbounded_channel();
    let mut sinks = EventSinks::new();
    sinks.set_transaction_reply_sink(Some(tx));
    let info = TransactionInfo::from_callback(
        5,
        -1,
        3,
        0,
        555,
        Some(vec![0xCE, 0xF8, 0xE8, 0xE1, 0xEA, 0xE0]),
        None,
        7103.5,
    );
    assert_eq!(sinks.deliver_transaction_reply(info), Delivery::Sent);
    let got = rx.try_recv().unwrap();
    assert_eq!(got.trans2quik_result, Trans2QuikResult::WrongSyntax);
    assert_eq!(got.error_code, -1);
    assert_eq!(got.reply_code, 3);
    assert_eq!(got.trans_id, TransId::Unknown(0));
    assert_eq!(got.order_num, 555);
    assert_eq!(got.reply_message, "Ошибка");
    assert_eq!(got.sec_code, "decode sec_code error: NullPointer");
    assert_eq!(got.price, 7103.5);
}

#[test]
fn trade_event_reaches_the_sink() {
    let (tx, mut rx) = unbounded_channel();
    let mut sinks = EventSinks::new();
    sinks.set_trade_sink(Some(tx));
    let info = TradeInfo::from_callback(
        2,
        9001,
        777,
        Some(b"TQBR".to_vec()),
        Some(b"SBER".to_vec()),
        250.25,
        10,
        0,
        2502.5,
        20231231,
        235959,
    );
    assert_eq!(sinks.deliver_trade(info), Delivery::Sent);
    let got = rx.try_recv().unwrap();
    assert_eq!(got.mode, Mode::LastOrderReceived);
    assert_eq!(got.trade_num, 9001);
    assert_eq!(got.order_num, 777);
    assert_eq!(got.class_code, "TQBR");
    assert_eq!(got.sec_code, "SBER");
    assert_eq!(got.quantity, 10);
    assert_eq!(got.is_sell, IsSell::Buy);
    assert_eq!(got.date, CalendarDate { year: 2023, month: 12, day: 31 });
    assert_eq!(got.time, TimeOfDay { hour: 23, minute: 59, second: 59 });
    assert!(got.is_valid());
}

#[test]
fn sink_without_receiver_reports_closed() {
    let (tx, rx) = unbounded_channel();
    drop(rx);
    let mut sinks = EventSinks::new();
    sinks.set_trade_sink(Some(tx));
    let info = TradeInfo::from_callback(0, 1, 1, None, None, 1.0, 1, 1, 1.0, 0, 0);
    assert!(!info.is_valid());
    assert_eq!(sinks.deliver_trade(info), Delivery::Closed);
}

#[test]
fn replacing_a_sink_drops_the_old_one() {
    let (tx1, mut rx1) = unbounded_channel();
    let (tx2, mut rx2) = unbounded_channel();
    let mut sinks = EventSinks::new();
    sinks.set_order_sink(Some(tx1));
    sinks.set_order_sink(Some(tx2));
    assert!(rx1.try_recv().is_err());
    assert_eq!(sinks.deliver_order(order(20240115, 93015)), Delivery::Sent);
    assert!(rx1.try_recv().is_err());
    assert!(rx2.try_recv().is_ok());
    sinks.set_order_sink(None);
    assert_eq!(sinks.deliver_order(order(20240115, 93015)), Delivery::NoSink);
}

#[test]
fn call_report_reads_the_message_buffer() {
    let mut buf = vec![0u8; 256];
    buf[..3].copy_from_slice(&[0xC4, 0xE0, 0x21]);
    let r = CallReport::from_call(6, 42, buf);
    assert_eq!(r.result, Trans2QuikResult::QuikNotConnected);
    assert_eq!(r.error_code, 42);
    assert_eq!(r.error_message, "Да!");
}

#[test]
fn connection_event_with_null_message() {
    let r = CallReport::from_connection_event(8, 0, None);
    assert_eq!(r.result, Trans2QuikResult::QuikConnected);
    assert_eq!(r.error_message, "error_message is null");
    let r = CallReport::from_connection_event(11, 3, Some(b"lost".to_vec()));
    assert_eq!(r.result, Trans2QuikResult::DllDisconnected);
    assert_eq!(r.error_code, 3);
    assert_eq!(r.error_message, "lost");
}

#[test]
fn sync_transaction_report() {
    let mut result = vec![0u8; 256];
    result[..4].copy_from_slice(b"done");
    let r = SyncTransactionReport::from_call(0, 3, 7, 123456.0, result, 0, vec![0u8; 256]);
    assert_eq!(r.result, Trans2QuikResult::Success);
    assert_eq!(r.reply_code, 3);
    assert_eq!(r.trans_id, 7);
    assert_eq!(r.order_num, 123456.0);
    assert_eq!(r.result_message, "done");
    assert_eq!(r.error_message, "");
}
