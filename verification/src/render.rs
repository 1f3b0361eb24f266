//! Layout of the fetched records as spreadsheet cell grids.
//!
//! Each resource becomes one sheet: a name, a header row, and one row per
//! record in input order. List-shaped sheets carry a serial-number column:
//! the Nth record (1-indexed) is numbered N, with no resorting. An absent
//! optional field (a usage record's unit, a message or call record's price)
//! renders as an empty text cell, never as an error. Writing the grid into
//! a spreadsheet file is the report writer's job, outside this library.

use vstd::prelude::*;

use crate::model::{AccountDetails, CallRecord, MessageRecord, UsageRecord};

verus! {

/// One spreadsheet cell: a number (used for serial columns) or text.
#[derive(Debug, Clone, PartialEq)]
pub enum Cell {
    Num(u32),
    Text(String),
}

/// The mathematical value of a cell: a number, or text as a character
/// sequence.
pub enum CellValue {
    Num(u32),
    Text(Seq<char>),
}

impl View for Cell {
    type V = CellValue;

    open spec fn view(&self) -> CellValue {
        match self {
            Cell::Num(n) => CellValue::Num(*n),
            Cell::Text(s) => CellValue::Text(s@),
        }
    }
}

/// One sheet of the report: its tab name and its rows, the header row
/// first.
#[derive(Debug, Clone, PartialEq)]
pub struct Sheet {
    pub name: String,
    pub rows: Vec<Vec<Cell>>,
}

/// The values of a row of cells.
pub open spec fn row_view(row: Seq<Cell>) -> Seq<CellValue> {
    row.map_values(|c: Cell| c@)
}

/// An optional field's cell value: the text when present, empty text when
/// absent.
pub open spec fn text_or_empty(field: Option<String>) -> CellValue {
    match field {
        Some(s) => CellValue::Text(s@),
        None => CellValue::Text(Seq::<char>::empty()),
    }
}

/// The header row of the account sheet.
pub open spec fn account_header() -> Seq<CellValue> {
    seq![
        CellValue::Text("Friendly name"@),
        CellValue::Text("SID"@),
        CellValue::Text("Date created"@),
        CellValue::Text("Status"@),
        CellValue::Text("Type"@),
    ]
}

/// The single data row of the account sheet.
pub open spec fn account_row(details: AccountDetails) -> Seq<CellValue> {
    seq![
        CellValue::Text(details.friendly_name@),
        CellValue::Text(details.sid@),
        CellValue::Text(details.date_created@),
        CellValue::Text(details.status@),
        CellValue::Text(details.account_type@),
    ]
}

/// The header row of the usage sheet.
pub open spec fn usage_header() -> Seq<CellValue> {
    seq![
        CellValue::Text("S/N"@),
        CellValue::Text("Account SID"@),
        CellValue::Text("Category"@),
        CellValue::Text("Description"@),
        CellValue::Text("Usage unit"@),
        CellValue::Text("Usage"@),
        CellValue::Text("Price"@),
    ]
}

/// The row of one usage record, carrying its 1-indexed serial number.
pub open spec fn usage_row(record: UsageRecord, serial: u32) -> Seq<CellValue> {
    seq![
        CellValue::Num(serial),
        CellValue::Text(record.account_sid@),
        CellValue::Text(record.category@),
        CellValue::Text(record.description@),
        text_or_empty(record.usage_unit),
        CellValue::Text(record.usage@),
        CellValue::Text(record.price@),
    ]
}

/// The header row of the messages sheet.
pub open spec fn message_header() -> Seq<CellValue> {
    seq![
        CellValue::Text("S/N"@),
        CellValue::Text("SID"@),
        CellValue::Text("Account SID"@),
        CellValue::Text("Date created"@),
        CellValue::Text("Date sent"@),
        CellValue::Text("From"@),
        CellValue::Text("To"@),
        CellValue::Text("Status"@),
        CellValue::Text("Segments"@),
        CellValue::Text("Media"@),
        CellValue::Text("Price"@),
    ]
}

/// The row of one message record, carrying its 1-indexed serial number.
pub open spec fn message_row(record: MessageRecord, serial: u32) -> Seq<CellValue> {
    seq![
        CellValue::Num(serial),
        CellValue::Text(record.sid@),
        CellValue::Text(record.account_sid@),
        CellValue::Text(record.date_created@),
        CellValue::Text(record.date_sent@),
        CellValue::Text(record.from@),
        CellValue::Text(record.to@),
        CellValue::Text(record.status@),
        CellValue::Text(record.num_segments@),
        CellValue::Text(record.num_media@),
        text_or_empty(record.price),
    ]
}

/// The header row of the calls sheet.
pub open spec fn call_header() -> Seq<CellValue> {
    seq![
        CellValue::Text("S/N"@),
        CellValue::Text("SID"@),
        CellValue::Text("Account SID"@),
        CellValue::Text("Date created"@),
        CellValue::Text("From"@),
        CellValue::Text("To"@),
        CellValue::Text("Status"@),
        CellValue::Text("Start time"@),
        CellValue::Text("End time"@),
        CellValue::Text("Price"@),
    ]
}

/// The row of one call record, carrying its 1-indexed serial number.
pub open spec fn call_row(record: CallRecord, serial: u32) -> Seq<CellValue> {
    seq![
        CellValue::Num(serial),
        CellValue::Text(record.sid@),
        CellValue::Text(record.account_sid@),
        CellValue::Text(record.date_created@),
        CellValue::Text(record.from@),
        CellValue::Text(record.to@),
        CellValue::Text(record.status@),
        CellValue::Text(record.start_time@),
        CellValue::Text(record.end_time@),
        text_or_empty(record.price),
    ]
}

/// A text cell holding a copy of the given string.
fn text_cell(s: &String) -> (c: Cell)
    ensures
        c@ == CellValue::Text(s@),
{
    Cell::Text(s.clone())
}

/// A text cell for a column label.
fn label_cell(s: &str) -> (c: Cell)
    ensures
        c@ == CellValue::Text(s@),
{
    Cell::Text(s.to_owned())
}

/// The cell of an optional field: its text when present, an empty cell when
/// absent — never an error.
fn optional_text_cell(field: &Option<String>) -> (c: Cell)
    ensures
        c@ == text_or_empty(*field),
{
    match field {
        Some(s) => Cell::Text(s.clone()),
        None => Cell::Text(String::new()),
    }
}

/// Lays out the account sheet: the header row and one data row with the
/// account's five fields.
pub fn account_sheet(details: &AccountDetails) -> (sheet: Sheet)
    ensures
        sheet.name@ == "Account"@,
        sheet.rows@.len() == 2,
        row_view(sheet.rows@[0]@) == account_header(),
        row_view(sheet.rows@[1]@) == account_row(*details),
{
    let mut header: Vec<Cell> = Vec::new();
    header.push(label_cell("Friendly name"));
    header.push(label_cell("SID"));
    header.push(label_cell("Date created"));
    header.push(label_cell("Status"));
    header.push(label_cell("Type"));

    let mut data: Vec<Cell> = Vec::new();
    data.push(text_cell(&details.friendly_name));
    data.push(text_cell(&details.sid));
    data.push(text_cell(&details.date_created));
    data.push(text_cell(&details.status));
    data.push(text_cell(&details.account_type));

    let mut rows: Vec<Vec<Cell>> = Vec::new();
    proof {
        assert(row_view(header@) =~= account_header());
        assert(row_view(data@) =~= account_row(*details));
    }
    rows.push(header);
    rows.push(data);
    Sheet { name: "Account".to_owned(), rows }
}

/// Lays out the usage sheet: the header row, then one row per usage record
/// in input order, the Nth record (1-indexed) numbered N. An absent usage
/// unit renders as an empty cell.
pub fn usage_sheet(records: &Vec<UsageRecord>) -> (sheet: Sheet)
    requires
        records@.len() < u32::MAX,
    ensures
        sheet.name@ == "All time usage"@,
        sheet.rows@.len() == records@.len() + 1,
        row_view(sheet.rows@[0]@) == usage_header(),
        forall|i: int|
            0 <= i < records@.len() ==> row_view(sheet.rows@[i + 1]@) == usage_row(
                records@[i],
                (i + 1) as u32,
            ),
        forall|i: int|
            0 <= i < records@.len() ==> (#[trigger] row_view(sheet.rows@[i + 1]@))[0]
                == CellValue::Num(
                (i + 1) as u32,
            ),
        forall|i: int|
            0 <= i < records@.len() && records@[i].usage_unit is None ==> (#[trigger] row_view(
                sheet.rows@[i + 1]@,
            ))[4] == CellValue::Text(Seq::<char>::empty()),
{
    let mut header: Vec<Cell> = Vec::new();
    header.push(label_cell("S/N"));
    header.push(label_cell("Account SID"));
    header.push(label_cell("Category"));
    header.push(label_cell("Description"));
    header.push(label_cell("Usage unit"));
    header.push(label_cell("Usage"));
    header.push(label_cell("Price"));
    proof {
        assert(row_view(header@) =~= usage_header());
    }

    let mut rows: Vec<Vec<Cell>> = Vec::new();
    rows.push(header);
    let mut i: usize = 0;
    while i < records.len()
        invariant
            records@.len() < u32::MAX,
            0 <= i <= records@.len(),
            rows@.len() == i + 1,
            row_view(rows@[0]@) == usage_header(),
            forall|j: int|
                0 <= j < i ==> row_view(rows@[j + 1]@) == usage_row(records@[j], (j + 1) as u32),
        decreases records@.len() - i,
    {
        let record = &records[i];
        let mut row: Vec<Cell> = Vec::new();
        row.push(Cell::Num((i + 1) as u32));
        row.push(text_cell(&record.account_sid));
        row.push(text_cell(&record.category));
        row.push(text_cell(&record.description));
        row.push(optional_text_cell(&record.usage_unit));
        row.push(text_cell(&record.usage));
        row.push(text_cell(&record.price));
        proof {
            assert(row_view(row@) =~= usage_row(records@[i as int], (i + 1) as u32));
        }
        rows.push(row);
        i = i + 1;
    }
    proof {
        assert forall|i: int| 0 <= i < records@.len() implies (#[trigger] row_view(
            rows@[i + 1]@,
        ))[0] == CellValue::Num((i + 1) as u32) by {
            assert(row_view(rows@[i + 1]@) == usage_row(records@[i], (i + 1) as u32));
            assert(usage_row(records@[i], (i + 1) as u32)[0] == CellValue::Num((i + 1) as u32));
        }
        assert forall|i: int|
            0 <= i < records@.len() && records@[i].usage_unit is None implies (#[trigger] row_view(
            rows@[i + 1]@,
        ))[4] == CellValue::Text(Seq::<char>::empty()) by {
            assert(row_view(rows@[i + 1]@) == usage_row(records@[i], (i + 1) as u32));
            assert(usage_row(records@[i], (i + 1) as u32)[4] == text_or_empty(
                records@[i].usage_unit,
            ));
        }
    }
    Sheet { name: "All time usage".to_owned(), rows }
}

/// Lays out the messages sheet: the header row, then one row per message
/// record in input order, the Nth record (1-indexed) numbered N. An absent
/// price renders as an empty cell.
pub fn message_sheet(records: &Vec<MessageRecord>) -> (sheet: Sheet)
    requires
        records@.len() < u32::MAX,
    ensures
        sheet.name@ == "Messages"@,
        sheet.rows@.len() == records@.len() + 1,
        row_view(sheet.rows@[0]@) == message_header(),
        forall|i: int|
            0 <= i < records@.len() ==> row_view(sheet.rows@[i + 1]@) == message_row(
                records@[i],
                (i + 1) as u32,
            ),
        forall|i: int|
            0 <= i < records@.len() ==> (#[trigger] row_view(sheet.rows@[i + 1]@))[0]
                == CellValue::Num(
                (i + 1) as u32,
            ),
        forall|i: int|
            0 <= i < records@.len() && records@[i].price is None ==> (#[trigger] row_view(
                sheet.rows@[i + 1]@,
            ))[10] == CellValue::Text(Seq::<char>::empty()),
{
    let mut header: Vec<Cell> = Vec::new();
    header.push(label_cell("S/N"));
    header.push(label_cell("SID"));
    header.push(label_cell("Account SID"));
    header.push(label_cell("Date created"));
    header.push(label_cell("Date sent"));
    header.push(label_cell("From"));
    header.push(label_cell("To"));
    header.push(label_cell("Status"));
    header.push(label_cell("Segments"));
    header.push(label_cell("Media"));
    header.push(label_cell("Price"));
    proof {
        assert(row_view(header@) =~= message_header());
    }

    let mut rows: Vec<Vec<Cell>> = Vec::new();
    rows.push(header);
    let mut i: usize = 0;
    while i < records.len()
        invariant
            records@.len() < u32::MAX,
            0 <= i <= records@.len(),
            rows@.len() == i + 1,
            row_view(rows@[0]@) == message_header(),
            forall|j: int|
                0 <= j < i ==> row_view(rows@[j + 1]@) == message_row(records@[j], (j + 1) as u32),
        decreases records@.len() - i,
    {
        let record = &records[i];
        let mut row: Vec<Cell> = Vec::new();
        row.push(Cell::Num((i + 1) as u32));
        row.push(text_cell(&record.sid));
        row.push(text_cell(&record.account_sid));
        row.push(text_cell(&record.date_created));
        row.push(text_cell(&record.date_sent));
        row.push(text_cell(&record.from));
        row.push(text_cell(&record.to));
        row.push(text_cell(&record.status));
        row.push(text_cell(&record.num_segments));
        row.push(text_cell(&record.num_media));
        row.push(optional_text_cell(&record.price));
        proof {
            assert(row_view(row@) =~= message_row(records@[i as int], (i + 1) as u32));
        }
        rows.push(row);
        i = i + 1;
    }
    proof {
        assert forall|i: int| 0 <= i < records@.len() implies (#[trigger] row_view(
            rows@[i + 1]@,
        ))[0] == CellValue::Num((i + 1) as u32) by {
            assert(row_view(rows@[i + 1]@) == message_row(records@[i], (i + 1) as u32));
            assert(message_row(records@[i], (i + 1) as u32)[0] == CellValue::Num((i + 1) as u32));
        }
        assert forall|i: int|
            0 <= i < records@.len() && records@[i].price is None implies (#[trigger] row_view(
            rows@[i + 1]@,
        ))[10] == CellValue::Text(Seq::<char>::empty()) by {
            assert(row_view(rows@[i + 1]@) == message_row(records@[i], (i + 1) as u32));
            assert(message_row(records@[i], (i + 1) as u32)[10] == text_or_empty(
                records@[i].price,
            ));
        }
    }
    Sheet { name: "Messages".to_owned(), rows }
}

/// Lays out the calls sheet: the header row, then one row per call record
/// in input order, the Nth record (1-indexed) numbered N. An absent price
/// renders as an empty cell.
pub fn call_sheet(records: &Vec<CallRecord>) -> (sheet: Sheet)
    requires
        records@.len() < u32::MAX,
    ensures
        sheet.name@ == "Calls"@,
        sheet.rows@.len() == records@.len() + 1,
        row_view(sheet.rows@[0]@) == call_header(),
        forall|i: int|
            0 <= i < records@.len() ==> row_view(sheet.rows@[i + 1]@) == call_row(
                records@[i],
                (i + 1) as u32,
            ),
        forall|i: int|
            0 <= i < records@.len() ==> (#[trigger] row_view(sheet.rows@[i + 1]@))[0]
                == CellValue::Num(
                (i + 1) as u32,
            ),
        forall|i: int|
            0 <= i < records@.len() && records@[i].price is None ==> (#[trigger] row_view(
                sheet.rows@[i + 1]@,
            ))[9] == CellValue::Text(Seq::<char>::empty()),
{
    let mut header: Vec<Cell> = Vec::new();
    header.push(label_cell("S/N"));
    header.push(label_cell("SID"));
    header.push(label_cell("Account SID"));
    header.push(label_cell("Date created"));
    header.push(label_cell("From"));
    header.push(label_cell("To"));
    header.push(label_cell("Status"));
    header.push(label_cell("Start time"));
    header.push(label_cell("End time"));
    header.push(label_cell("Price"));
    proof {
        assert(row_view(header@) =~= call_header());
    }

    let mut rows: Vec<Vec<Cell>> = Vec::new();
    rows.push(header);
    let mut i: usize = 0;
    while i < records.len()
        invariant
            records@.len() < u32::MAX,
            0 <= i <= records@.len(),
            rows@.len() == i + 1,
            row_view(rows@[0]@) == call_header(),
            forall|j: int|
                0 <= j < i ==> row_view(rows@[j + 1]@) == call_row(records@[j], (j + 1) as u32),
        decreases records@.len() - i,
    {
        let record = &records[i];
        let mut row: Vec<Cell> = Vec::new();
        row.push(Cell::Num((i + 1) as u32));
        row.push(text_cell(&record.sid));
        row.push(text_cell(&record.account_sid));
        row.push(text_cell(&record.date_created));
        row.push(text_cell(&record.from));
        row.push(text_cell(&record.to));
        row.push(text_cell(&record.status));
        row.push(text_cell(&record.start_time));
        row.push(text_cell(&record.end_time));
        row.push(optional_text_cell(&record.price));
        proof {
            assert(row_view(row@) =~= call_row(records@[i as int], (i + 1) as u32));
        }
        rows.push(row);
        i = i + 1;
    }
    proof {
        assert forall|i: int| 0 <= i < records@.len() implies (#[trigger] row_view(
            rows@[i + 1]@,
        ))[0] == CellValue::Num((i + 1) as u32) by {
            assert(row_view(rows@[i + 1]@) == call_row(records@[i], (i + 1) as u32));
            assert(call_row(records@[i], (i + 1) as u32)[0] == CellValue::Num((i + 1) as u32));
        }
        assert forall|i: int|
            0 <= i < records@.len() && records@[i].price is None implies (#[trigger] row_view(
            rows@[i + 1]@,
        ))[9] == CellValue::Text(Seq::<char>::empty()) by {
            assert(row_view(rows@[i + 1]@) == call_row(records@[i], (i + 1) as u32));
            assert(call_row(records@[i], (i + 1) as u32)[9] == text_or_empty(
                records@[i].price,
            ));
        }
    }
    Sheet { name: "Calls".to_owned(), rows }
}

} // verus!
