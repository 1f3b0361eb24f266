use usage_report::error::ResourceKind;
use usage_report::model::{AccountDetails, UsageRecord};
use usage_report::pipeline::{generate_report_synchronously, FetchResponses};
use usage_report::render::{account_sheet, call_sheet, message_sheet, usage_sheet, Cell};

// One full run against a concrete backend state: an account, a single usage
// record with no usage unit, and no messages or calls.
#[test]
fn one_usage_record_and_empty_lists_render_completely() {
    let responses = FetchResponses {
        account: Ok(AccountDetails {
            friendly_name: "Acme".to_string(),
            sid: "ACxxx".to_string(),
            date_created: "2023-01-01".to_string(),
            status: "active".to_string(),
            account_type: "Full".to_string(),
        }),
        usage: Ok(vec![UsageRecord {
            account_sid: "ACxxx".to_string(),
            category: "calls".to_string(),
            description: "Calls".to_string(),
            usage_unit: None,
            usage: "10".to_string(),
            price: "1.00".to_string(),
        }]),
        messages: Ok(vec![]),
        calls: Ok(vec![]),
    };

    let (outcome, attempts) = generate_report_synchronously(responses);
    assert_eq!(
        attempts,
        vec![
            ResourceKind::Account,
            ResourceKind::Usage,
            ResourceKind::Messages,
            ResourceKind::Calls,
        ]
    );
    let bundle = outcome.expect("all four fetches succeeded");

    // The bundle is fully populated.
    assert_eq!(bundle.account_details.friendly_name, "Acme");
    assert_eq!(bundle.usage_records.len(), 1);
    assert_eq!(bundle.message_records.len(), 0);
    assert_eq!(bundle.call_records.len(), 0);

    // The account sheet carries the account's fields.
    let account = account_sheet(&bundle.account_details);
    assert_eq!(account.rows.len(), 2);
    assert_eq!(account.rows[1][0], Cell::Text("Acme".to_string()));
    assert_eq!(account.rows[1][1], Cell::Text("ACxxx".to_string()));
    assert_eq!(account.rows[1][3], Cell::Text("active".to_string()));

    // The single usage record gets serial number 1 and an empty usage-unit
    // field, not an error.
    let usage = usage_sheet(&bundle.usage_records);
    assert_eq!(usage.rows.len(), 2);
    assert_eq!(usage.rows[1][0], Cell::Num(1));
    assert_eq!(usage.rows[1][4], Cell::Text("".to_string()));
    assert_eq!(usage.rows[1][5], Cell::Text("10".to_string()));
    assert_eq!(usage.rows[1][6], Cell::Text("1.00".to_string()));

    // The message and call sheets are still created, header rows only.
    let messages = message_sheet(&bundle.message_records);
    let calls = call_sheet(&bundle.call_records);
    assert_eq!(messages.rows.len(), 1);
    assert_eq!(calls.rows.len(), 1);
    assert_eq!(messages.name, "Messages");
    assert_eq!(calls.name, "Calls");
}
