use vstd::prelude::*;

verus! {

/// Why a command stopped before its normal end.
#[derive(Clone, Copy, Debug, PartialEq, Eq, Structural)]
pub enum ScanError {
    /// The host reported no radio adapter at all.
    NoAdapterFound,
    /// The radio stack failed while starting or stopping a scan, listing
    /// peripherals or fetching a snapshot.
    AdapterError,
    /// No discovered peripheral carried the wanted address.
    DeviceNotFound,
}

impl ScanError {
    /// The text of the message that describes the error.
    pub open spec fn message_text(self) -> Seq<char> {
        match self {
            ScanError::NoAdapterFound => "no adapters"@,
            ScanError::AdapterError => "adapter error"@,
            ScanError::DeviceNotFound => "device not found"@,
        }
    }

    /// A message for the user that describes the error.
    pub fn message(&self) -> (text: String)
        ensures
            text@ == self.message_text(),
    {
        match self {
            ScanError::NoAdapterFound => "no adapters".to_owned(),
            ScanError::AdapterError => "adapter error".to_owned(),
            ScanError::DeviceNotFound => "device not found".to_owned(),
        }
    }
}

} // verus!
