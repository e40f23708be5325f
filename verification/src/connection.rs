use vstd::prelude::*;
use crate::errors::ModbusError;
use crate::settings::ModbusConnectionSettings;

verus! {

/// Declares the protocol engine's channel type: the live, cloneable handle
/// through which framed requests are sent once a transport is open. The
/// library stores and hands out channel values but never looks inside them;
/// every request on a channel is issued by the surrounding application.
#[verifier::external_type_specification]
#[verifier::external_body]
pub struct ExChannel(rodbus::client::Channel);

/// The transport kind a connection was created for. It never changes over the
/// connection's lifetime.
#[derive(Debug, Clone, Copy, PartialEq, Eq, Structural)]
pub enum ConnectionKind {
    Rtu,
    Tcp,
}

/// Whether a settings value is of the variant that a connection of the given
/// kind can be established with.
pub open spec fn settings_match(kind: ConnectionKind, settings: ModbusConnectionSettings) -> bool {
    match settings {
        ModbusConnectionSettings::RTU { .. } => kind == ConnectionKind::Rtu,
        ModbusConnectionSettings::TCP { .. } => kind == ConnectionKind::Tcp,
    }
}

/// One Modbus master connection. It starts unestablished (no channel); once a
/// channel is attached it is established and stays so for its whole lifetime.
/// A broken established connection is discarded and replaced, never rebound.
pub struct ModbusConnection {
    /// The transport kind, fixed at creation.
    pub kind: ConnectionKind,
    /// The live channel handle, present exactly when the connection is
    /// established.
    pub channel: Option<rodbus::client::Channel>,
}

impl ModbusConnection {
    /// A connection is established exactly when it holds a channel.
    pub open spec fn established(&self) -> bool {
        self.channel is Some
    }

    /// Creates an unestablished RTU connection.
    pub fn new_rtu() -> (r: Self)
        ensures
            r.kind == ConnectionKind::Rtu,
            !r.established(),
    {
        ModbusConnection { kind: ConnectionKind::Rtu, channel: None }
    }

    /// Creates an unestablished TCP connection.
    pub fn new_tcp() -> (r: Self)
        ensures
            r.kind == ConnectionKind::Tcp,
            !r.established(),
    {
        ModbusConnection { kind: ConnectionKind::Tcp, channel: None }
    }

    /// Whether the connection has been established.
    pub fn is_established(&self) -> (r: bool)
        ensures
            r == self.established(),
    {
        match &self.channel {
            Some(_) => true,
            None => false,
        }
    }

    /// The first step of `establish`: decides whether the supplied settings
    /// can establish this connection at all. An RTU connection given TCP
    /// settings, or the other way round, is rejected here with
    /// `MismatchedConnectionSettings`, before any transport work; only on
    /// success may the caller open the transport and attach its channel.
    pub fn check_settings(&self, settings: &ModbusConnectionSettings) -> (r: Result<
        (),
        ModbusError,
    >)
        ensures
            r is Ok <==> settings_match(self.kind, *settings),
            r is Err ==> r == Err::<(), ModbusError>(ModbusError::MismatchedConnectionSettings),
    {
        match settings {
            ModbusConnectionSettings::RTU { .. } => {
                if matches!(self.kind, ConnectionKind::Rtu) {
                    Ok(())
                } else {
                    Err(ModbusError::MismatchedConnectionSettings)
                }
            },
            ModbusConnectionSettings::TCP { .. } => {
                if matches!(self.kind, ConnectionKind::Tcp) {
                    Ok(())
                } else {
                    Err(ModbusError::MismatchedConnectionSettings)
                }
            },
        }
    }

    /// The second step of `establish`: stores the channel the transport layer
    /// opened, making the connection established. Establishing is not
    /// idempotent: a second establish of an already-established connection is
    /// treated as an error, so the caller must not attach twice.
    pub fn attach_channel(&mut self, channel: rodbus::client::Channel)
        requires
            !old(self).established(),
        ensures
            final(self).kind == old(self).kind,
            final(self).channel == Some(channel),
            final(self).established(),
    {
        self.channel = Some(channel);
    }

    /// The channel of an established connection, or nothing when the
    /// connection was never established.
    pub fn channel(&self) -> (r: Option<&rodbus::client::Channel>)
        ensures
            match r {
                Some(c) => self.channel == Some(*c),
                None => self.channel is None,
            },
    {
        match &self.channel {
            Some(c) => Some(c),
            None => None,
        }
    }
}

} // verus!
