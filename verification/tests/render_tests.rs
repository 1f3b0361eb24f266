use usage_report::model::{AccountDetails, CallRecord, MessageRecord, UsageRecord};
use usage_report::render::{account_sheet, call_sheet, message_sheet, usage_sheet, Cell};

fn text(s: &str) -> Cell {
    Cell::Text(s.to_string())
}

fn usage_record(description: &str, usage_unit: Option<&str>) -> UsageRecord {
    UsageRecord {
        account_sid: "ACxxx".to_string(),
        category: "calls".to_string(),
        description: description.to_string(),
        usage_unit: usage_unit.map(|u| u.to_string()),
        usage: "10".to_string(),
        price: "1.00".to_string(),
    }
}

fn message_record(sid: &str, price: Option<&str>) -> MessageRecord {
    MessageRecord {
        sid: sid.to_string(),
        account_sid: "ACxxx".to_string(),
        date_created: "2023-01-02".to_string(),
        date_sent: "2023-01-03".to_string(),
        from: "+15550001111".to_string(),
        to: "+15550002222".to_string(),
        status: "sent".to_string(),
        num_segments: "1".to_string(),
        num_media: "0".to_string(),
        price: price.map(|p| p.to_string()),
    }
}

fn call_record(sid: &str, price: Option<&str>) -> CallRecord {
    CallRecord {
        sid: sid.to_string(),
        account_sid: "ACxxx".to_string(),
        date_created: "2023-01-04".to_string(),
        from: "+15550003333".to_string(),
        to: "+15550004444".to_string(),
        status: "completed".to_string(),
        start_time: "2023-01-04T10:00:00Z".to_string(),
        end_time: "2023-01-04T10:05:00Z".to_string(),
        price: price.map(|p| p.to_string()),
    }
}

#[test]
fn account_sheet_lays_out_header_and_one_data_row() {
    let details = AccountDetails {
        friendly_name: "Acme".to_string(),
        sid: "ACxxx".to_string(),
        date_created: "2023-01-01".to_string(),
        status: "active".to_string(),
        account_type: "Full".to_string(),
    };
    let sheet = account_sheet(&details);
    assert_eq!(sheet.name, "Account");
    assert_eq!(sheet.rows.len(), 2);
    assert_eq!(
        sheet.rows[0],
        vec![
            text("Friendly name"),
            text("SID"),
            text("Date created"),
            text("Status"),
            text("Type"),
        ]
    );
    assert_eq!(
        sheet.rows[1],
        vec![
            text("Acme"),
            text("ACxxx"),
            text("2023-01-01"),
            text("active"),
            text("Full"),
        ]
    );
}

#[test]
fn usage_rows_are_numbered_in_input_order() {
    let records = vec![
        usage_record("Calls", Some("minutes")),
        usage_record("SMS", Some("messages")),
        usage_record("Recordings", Some("minutes")),
    ];
    let sheet = usage_sheet(&records);
    assert_eq!(sheet.name, "All time usage");
    assert_eq!(sheet.rows.len(), 4);
    for (i, expected_description) in ["Calls", "SMS", "Recordings"].iter().enumerate() {
        let row = &sheet.rows[i + 1];
        // The Nth record, 1-indexed, carries serial number N.
        assert_eq!(row[0], Cell::Num((i + 1) as u32));
        assert_eq!(row[3], text(expected_description));
    }
}

#[test]
fn absent_usage_unit_renders_as_empty_cell() {
    let records = vec![usage_record("Calls", None), usage_record("SMS", Some("messages"))];
    let sheet = usage_sheet(&records);
    assert_eq!(sheet.rows[1][4], text(""));
    assert_eq!(sheet.rows[2][4], text("messages"));
}

#[test]
fn absent_message_price_renders_as_empty_cell() {
    let records = vec![message_record("SM1", None), message_record("SM2", Some("-0.0075"))];
    let sheet = message_sheet(&records);
    assert_eq!(sheet.name, "Messages");
    assert_eq!(sheet.rows.len(), 3);
    assert_eq!(sheet.rows[1][10], text(""));
    assert_eq!(sheet.rows[2][10], text("-0.0075"));
}

#[test]
fn absent_call_price_renders_as_empty_cell() {
    let records = vec![call_record("CA1", None), call_record("CA2", Some("-0.0200"))];
    let sheet = call_sheet(&records);
    assert_eq!(sheet.name, "Calls");
    assert_eq!(sheet.rows.len(), 3);
    assert_eq!(sheet.rows[1][9], text(""));
    assert_eq!(sheet.rows[2][9], text("-0.0200"));
}

#[test]
fn message_rows_carry_every_field_in_column_order() {
    let sheet = message_sheet(&vec![message_record("SM1", Some("-0.0075"))]);
    assert_eq!(
        sheet.rows[0],
        vec![
            text("S/N"),
            text("SID"),
            text("Account SID"),
            text("Date created"),
            text("Date sent"),
            text("From"),
            text("To"),
            text("Status"),
            text("Segments"),
            text("Media"),
            text("Price"),
        ]
    );
    assert_eq!(
        sheet.rows[1],
        vec![
            Cell::Num(1),
            text("SM1"),
            text("ACxxx"),
            text("2023-01-02"),
            text("2023-01-03"),
            text("+15550001111"),
            text("+15550002222"),
            text("sent"),
            text("1"),
            text("0"),
            text("-0.0075"),
        ]
    );
}

#[test]
fn call_rows_carry_every_field_in_column_order() {
    let sheet = call_sheet(&vec![call_record("CA1", Some("-0.0200"))]);
    assert_eq!(
        sheet.rows[0],
        vec![
            text("S/N"),
            text("SID"),
            text("Account SID"),
            text("Date created"),
            text("From"),
            text("To"),
            text("Status"),
            text("Start time"),
            text("End time"),
            text("Price"),
        ]
    );
    assert_eq!(
        sheet.rows[1],
        vec![
            Cell::Num(1),
            text("CA1"),
            text("ACxxx"),
            text("2023-01-04"),
            text("+15550003333"),
            text("+15550004444"),
            text("completed"),
            text("2023-01-04T10:00:00Z"),
            text("2023-01-04T10:05:00Z"),
            text("-0.0200"),
        ]
    );
}

#[test]
fn call_rows_are_numbered_in_input_order() {
    let records = vec![call_record("CA1", None), call_record("CA2", None), call_record("CA3", None)];
    let sheet = call_sheet(&records);
    for n in 1..=3usize {
        assert_eq!(sheet.rows[n][0], Cell::Num(n as u32));
        assert_eq!(sheet.rows[n][1], text(&format!("CA{}", n)));
    }
}

#[test]
fn message_rows_are_numbered_in_input_order() {
    let records = vec![message_record("SM1", None), message_record("SM2", None)];
    let sheet = message_sheet(&records);
    assert_eq!(sheet.rows[1][0], Cell::Num(1));
    assert_eq!(sheet.rows[2][0], Cell::Num(2));
}

#[test]
fn empty_lists_still_yield_sheets_with_header_rows() {
    let usage = usage_sheet(&vec![]);
    let messages = message_sheet(&vec![]);
    let calls = call_sheet(&vec![]);
    assert_eq!(usage.rows.len(), 1);
    assert_eq!(messages.rows.len(), 1);
    assert_eq!(calls.rows.len(), 1);
    assert_eq!(usage.rows[0][0], text("S/N"));
    assert_eq!(messages.rows[0][0], text("S/N"));
    assert_eq!(calls.rows[0][0], text("S/N"));
}
