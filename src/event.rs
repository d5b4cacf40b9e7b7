//! The log event: the unit that is received, stored and served.
use vstd::prelude::*;

verus! {

/// One log event. All five fields are required and hold opaque text.
#[derive(Clone, Debug)]
pub struct Log {
    pub timestamp: String,
    pub app: String,
    pub host: String,
    pub filename: String,
    pub log: String,
}

/// The mathematical value of a `Log`: its five texts.
pub struct LogView {
    pub timestamp: Seq<char>,
    pub app: Seq<char>,
    pub host: Seq<char>,
    pub filename: Seq<char>,
    pub log: Seq<char>,
}

impl View for Log {
    type V = LogView;

    open spec fn view(&self) -> LogView {
        LogView {
            timestamp: self.timestamp@,
            app: self.app@,
            host: self.host@,
            filename: self.filename@,
            log: self.log@,
        }
    }
}

impl Log {
    /// Builds an event from its five fields, in the order of the stored columns.
    pub fn new(timestamp: String, app: String, host: String, filename: String, log: String) -> (r: Log)
        ensures
            r@ == (LogView {
                timestamp: timestamp@,
                app: app@,
                host: host@,
                filename: filename@,
                log: log@,
            }),
    {
        Log { timestamp, app, host, filename, log }
    }
}

} // verus!
