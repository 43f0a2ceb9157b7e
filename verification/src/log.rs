use vstd::prelude::*;
use vstd::string::*;

verus! {

/// One entry of the erasure log: what was done, how it went, and the detail.
pub struct LogRecord {
    pub action: String,
    pub result: String,
    pub details: String,
}

impl View for LogRecord {
    type V = (Seq<char>, Seq<char>, Seq<char>);

    open spec fn view(&self) -> Self::V {
        (self.action@, self.result@, self.details@)
    }
}

impl LogRecord {
    pub fn new(action: String, result: &str, details: String) -> (r: LogRecord)
        ensures
            r@ == (action@, result@, details@),
    {
        LogRecord { action, result: String::from_str(result), details }
    }
}

/// The views of a list of records.
pub open spec fn records_view(v: Seq<LogRecord>) -> Seq<(Seq<char>, Seq<char>, Seq<char>)> {
    v.map_values(|r: LogRecord| r@)
}

/// The text that one log entry adds to the log file, before the line end
/// that the writer appends.
pub open spec fn log_entry_text(
    timestamp: Seq<char>,
    record: (Seq<char>, Seq<char>, Seq<char>),
) -> Seq<char> {
    "["@ + timestamp + "] ACTION: "@ + record.0 + "\nRESULT: "@ + record.1 + "\nDETAILS: "@
        + record.2 + "\n"@
}

/// `[timestamp] ACTION: ..\nRESULT: ..\nDETAILS: ..\n` for one record.
pub fn format_log_entry(timestamp: &str, record: &LogRecord) -> (r: String)
    ensures
        r@ == log_entry_text(timestamp@, record@),
{
    let mut s = String::from_str("[");
    s.append(timestamp);
    s.append("] ACTION: ");
    s.append(record.action.as_str());
    s.append("\nRESULT: ");
    s.append(record.result.as_str());
    s.append("\nDETAILS: ");
    s.append(record.details.as_str());
    s.append("\n");
    s
}

} // verus!
