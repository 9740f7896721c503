//! The ledger of trades: one row of comma-separated values per trade, after a
//! header row on the first write of a run.

use vstd::prelude::*;
use crate::decimal::{decimal_text, to_text, Decimal};
use crate::side::Side;

verus! {

/// One trade as it is written down.
#[derive(Clone, Debug, PartialEq, Eq)]
pub struct OrderRecord {
    pub timestamp: String,
    pub price: Decimal,
    pub size: Decimal,
    pub side: Side,
}

impl OrderRecord {
    /// The price and the size are well-formed decimals.
    pub open spec fn wf(self) -> bool {
        self.price.wf() && self.size.wf()
    }
}

/// The error type of the `csv` crate. It is handed through without a look
/// inside.
#[verifier::external_type_specification]
#[verifier::external_body]
pub struct ExCsvError(csv::Error);

/// The bytes that the `csv` crate writes for one record with its default
/// settings, terminator included.
pub uninterp spec fn csv_record(fields: Seq<Seq<char>>) -> Seq<u8>;

/// The texts held by a list of strings.
pub open spec fn texts(fields: Seq<String>) -> Seq<Seq<char>> {
    fields.map_values(|s: String| s@)
}

/// `csv`'s `Writer::write_record` on a fresh in-memory writer with the
/// crate's default settings, followed by `flush`. What is written is a
/// function of the fields. The crate reports an error only where the
/// underlying writer does, which memory never does, or where a record has
/// another number of fields than the first of its writer, which the only
/// record of a writer cannot have: the call succeeds.
#[verifier::external_body]
fn write_record(fields: &Vec<String>) -> (r: Result<Vec<u8>, csv::Error>)
    ensures
        r is Ok,
        r matches Ok(bytes) ==> bytes@ == csv_record(texts(fields@)),
{
    let mut writer = csv::Writer::from_writer(Vec::new());
    writer.write_record(fields)?;
    writer.flush()?;
    Ok(writer.get_ref().clone())
}

/// The column names of the ledger.
pub open spec fn spec_header() -> Seq<Seq<char>> {
    seq!["utc_time"@, "price"@, "size"@, "side"@]
}

/// The fields of a record's row: time, price, size and side.
pub open spec fn spec_row(record: OrderRecord) -> Seq<Seq<char>> {
    seq![
        record.timestamp@,
        decimal_text(record.price),
        decimal_text(record.size),
        record.side.spec_label(),
    ]
}

/// The ledger is started anew with the first trade of a run.
pub open spec fn spec_starts_ledger(positions_count: usize) -> bool {
    positions_count == 1
}

/// Whether the trade with this running number starts the ledger anew: the
/// store is then emptied and a header row written before the trade's row.
pub fn starts_ledger(positions_count: usize) -> (r: bool)
    ensures
        r == spec_starts_ledger(positions_count),
{
    positions_count == 1
}

/// The bytes to append to the ledger for a trade: its row, after the header
/// row if the trade starts the ledger.
pub open spec fn spec_ledger_entry(record: OrderRecord, positions_count: usize) -> Seq<u8> {
    let row = csv_record(spec_row(record));
    if spec_starts_ledger(positions_count) {
        csv_record(spec_header()) + row
    } else {
        row
    }
}

/// One record as the bytes of its line.
fn encode(fields: &Vec<String>) -> (r: Vec<u8>)
    ensures
        r@ == csv_record(texts(fields@)),
{
    match write_record(fields) {
        Ok(bytes) => bytes,
        Err(_) => unreached(),
    }
}

/// The column names as one record.
pub fn header_fields() -> (r: Vec<String>)
    ensures
        texts(r@) == spec_header(),
{
    let mut fields: Vec<String> = Vec::new();
    fields.push(String::from_str("utc_time"));
    fields.push(String::from_str("price"));
    fields.push(String::from_str("size"));
    fields.push(String::from_str("side"));
    assert(texts(fields@) =~= spec_header());
    fields
}

/// The fields of a record's row.
pub fn row_fields(record: &OrderRecord) -> (r: Vec<String>)
    requires
        record.wf(),
    ensures
        texts(r@) == spec_row(*record),
{
    let mut fields: Vec<String> = Vec::new();
    fields.push(record.timestamp.clone());
    fields.push(to_text(record.price));
    fields.push(to_text(record.size));
    fields.push(record.side.to_string());
    assert(texts(fields@) =~= spec_row(*record));
    fields
}

/// The bytes to append to the ledger for a trade. There always are some:
/// encoding a record does not fail.
pub fn ledger_entry(record: &OrderRecord, positions_count: usize) -> (r: Vec<u8>)
    requires
        record.wf(),
    ensures
        r@ == spec_ledger_entry(*record, positions_count),
{
    let mut bytes: Vec<u8> = Vec::new();
    if starts_ledger(positions_count) {
        let header = header_fields();
        let mut encoded = encode(&header);
        bytes.append(&mut encoded);
    }
    let row = row_fields(record);
    let mut encoded = encode(&row);
    bytes.append(&mut encoded);
    assert(bytes@ =~= spec_ledger_entry(*record, positions_count));
    bytes
}

} // verus!
