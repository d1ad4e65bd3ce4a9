use vstd::prelude::*;

use crate::log_entries::LogType;
use crate::tab_daplink::TabDaplinkMessage;
use crate::tab_wireless_stack::TabWsMessage;

verus! {

/// Messages that can carry a log line.
pub trait WithLogMessage: Sized {
    /// This message carries the line `log` and nothing else.
    spec fn carries(&self, log: LogType) -> bool;

    fn log(log: LogType) -> (r: Self)
        ensures
            r.carries(log),
    ;
}

impl WithLogMessage for TabWsMessage {
    open spec fn carries(&self, log: LogType) -> bool {
        *self == TabWsMessage::LogMessage(log)
    }

    fn log(log: LogType) -> (r: TabWsMessage) {
        TabWsMessage::LogMessage(log)
    }
}

impl WithLogMessage for TabDaplinkMessage {
    open spec fn carries(&self, log: LogType) -> bool {
        *self == TabDaplinkMessage::LogMessage(log)
    }

    fn log(log: LogType) -> (r: TabDaplinkMessage) {
        TabDaplinkMessage::LogMessage(log)
    }
}

} // verus!
