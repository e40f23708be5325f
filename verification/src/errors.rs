use vstd::prelude::*;

verus! {

/// Structured failure taxonomy of the connection service.
///
/// Configuration errors (`InvalidDataBits`, `InvalidParity`, `InvalidStopBits`,
/// `InvalidHost`) are rejected before any transport work is attempted.
/// `MismatchedConnectionSettings` marks an establish attempt whose settings
/// variant does not match the connection's own transport kind.
/// `ConnectionFailed` carries a transport-level establish failure reported by
/// the protocol engine, `RequestFailed` a per-request failure (timeout,
/// exception response), both as the engine's own message. `InvalidRequest`
/// marks a multi-point write whose value sequence is empty or spans past the
/// end of the address space. `ConnectionNotFound` is the lookup miss: the
/// caller supplied an identifier with no registered connection.
#[derive(Debug, Clone)]
pub enum ModbusError {
    InvalidDataBits,
    InvalidParity,
    InvalidStopBits,
    InvalidHost(String),
    MismatchedConnectionSettings,
    ConnectionFailed(String),
    RequestFailed(String),
    InvalidRequest,
    ConnectionNotFound,
    NotEstablished,
}

impl ModbusError {
    /// The flattened, human-readable message that the outermost boundary
    /// surfaces in place of the structured error.
    pub open spec fn message_spec(&self) -> Seq<char> {
        match self {
            ModbusError::InvalidDataBits => "Invalid data bits"@,
            ModbusError::InvalidParity => "Invalid parity"@,
            ModbusError::InvalidStopBits => "Invalid stop bits"@,
            ModbusError::InvalidHost(m) => m@,
            ModbusError::MismatchedConnectionSettings => "Mismatched connection type"@,
            ModbusError::ConnectionFailed(m) => m@,
            ModbusError::RequestFailed(m) => m@,
            ModbusError::InvalidRequest => "Invalid request"@,
            ModbusError::ConnectionNotFound => "Connection not found"@,
            ModbusError::NotEstablished => "Connection not established"@,
        }
    }

    /// Flattens the error into one descriptive message.
    pub fn message(&self) -> (r: String)
        ensures
            r@ == self.message_spec(),
    {
        match self {
            ModbusError::InvalidDataBits => "Invalid data bits".to_owned(),
            ModbusError::InvalidParity => "Invalid parity".to_owned(),
            ModbusError::InvalidStopBits => "Invalid stop bits".to_owned(),
            ModbusError::InvalidHost(m) => m.clone(),
            ModbusError::MismatchedConnectionSettings => "Mismatched connection type".to_owned(),
            ModbusError::ConnectionFailed(m) => m.clone(),
            ModbusError::RequestFailed(m) => m.clone(),
            ModbusError::InvalidRequest => "Invalid request".to_owned(),
            ModbusError::ConnectionNotFound => "Connection not found".to_owned(),
            ModbusError::NotEstablished => "Connection not established".to_owned(),
        }
    }
}

} // verus!
