use vstd::prelude::*;
use crate::errors::ModbusError;

verus! {

/// Number of data bits per serial character. Only 5 through 8 are valid.
#[derive(Debug, Clone, Copy, PartialEq, Eq, Structural)]
pub enum DataBits {
    Five,
    Six,
    Seven,
    Eight,
}

/// Serial parity discipline.
#[derive(Debug, Clone, Copy, PartialEq, Eq, Structural)]
pub enum Parity {
    NoParity,
    Even,
    Odd,
}

/// Number of serial stop bits. Only 1 and 2 are valid.
#[derive(Debug, Clone, Copy, PartialEq, Eq, Structural)]
pub enum StopBits {
    One,
    Two,
}

/// How to reach a device: serial line parameters for an RTU link, or host
/// and port for a TCP link. Immutable once constructed; consumed by a single
/// establish attempt.
#[derive(Debug, Clone)]
pub enum ModbusConnectionSettings {
    RTU {
        path: String,
        baud_rate: u32,
        data_bits: DataBits,
        parity: Parity,
        stop_bits: StopBits,
    },
    TCP {
        host: String,
        port: u16,
    },
}

/// Maps a raw data-bits count to its enumeration value.
/// Exactly the counts 5, 6, 7 and 8 are accepted.
pub fn data_bits_from_u8(bits: u8) -> (r: Result<DataBits, ModbusError>)
    ensures
        r == if bits == 5 {
            Ok::<DataBits, ModbusError>(DataBits::Five)
        } else if bits == 6 {
            Ok::<DataBits, ModbusError>(DataBits::Six)
        } else if bits == 7 {
            Ok::<DataBits, ModbusError>(DataBits::Seven)
        } else if bits == 8 {
            Ok::<DataBits, ModbusError>(DataBits::Eight)
        } else {
            Err::<DataBits, ModbusError>(ModbusError::InvalidDataBits)
        },
{
    match bits {
        5 => Ok(DataBits::Five),
        6 => Ok(DataBits::Six),
        7 => Ok(DataBits::Seven),
        8 => Ok(DataBits::Eight),
        _ => Err(ModbusError::InvalidDataBits),
    }
}

/// Maps a parity name to its enumeration value.
/// Exactly the names "none", "even" and "odd" are accepted.
pub fn parity_from_name(name: &str) -> (r: Result<Parity, ModbusError>)
    ensures
        r == if name@ == "none"@ {
            Ok::<Parity, ModbusError>(Parity::NoParity)
        } else if name@ == "even"@ {
            Ok::<Parity, ModbusError>(Parity::Even)
        } else if name@ == "odd"@ {
            Ok::<Parity, ModbusError>(Parity::Odd)
        } else {
            Err::<Parity, ModbusError>(ModbusError::InvalidParity)
        },
{
    let owned = name.to_owned();
    if owned == "none".to_owned() {
        Ok(Parity::NoParity)
    } else if owned == "even".to_owned() {
        Ok(Parity::Even)
    } else if owned == "odd".to_owned() {
        Ok(Parity::Odd)
    } else {
        Err(ModbusError::InvalidParity)
    }
}

/// Maps a raw stop-bits count to its enumeration value.
/// Exactly the counts 1 and 2 are accepted.
pub fn stop_bits_from_u8(bits: u8) -> (r: Result<StopBits, ModbusError>)
    ensures
        r == if bits == 1 {
            Ok::<StopBits, ModbusError>(StopBits::One)
        } else if bits == 2 {
            Ok::<StopBits, ModbusError>(StopBits::Two)
        } else {
            Err::<StopBits, ModbusError>(ModbusError::InvalidStopBits)
        },
{
    match bits {
        1 => Ok(StopBits::One),
        2 => Ok(StopBits::Two),
        _ => Err(ModbusError::InvalidStopBits),
    }
}

/// Builds validated RTU settings from the raw values a caller supplies.
/// The data-bits count is checked first, then the parity name, then the
/// stop-bits count, and the first invalid value decides the error.
pub fn rtu_settings(
    path: String,
    baud_rate: u32,
    data_bits: u8,
    parity: &str,
    stop_bits: u8,
) -> (r: Result<ModbusConnectionSettings, ModbusError>)
    ensures
        !(data_bits == 5 || data_bits == 6 || data_bits == 7 || data_bits == 8) ==> r == Err::<
            ModbusConnectionSettings,
            ModbusError,
        >(ModbusError::InvalidDataBits),
        (data_bits == 5 || data_bits == 6 || data_bits == 7 || data_bits == 8) && !(parity@
            == "none"@ || parity@ == "even"@ || parity@ == "odd"@) ==> r == Err::<
            ModbusConnectionSettings,
            ModbusError,
        >(ModbusError::InvalidParity),
        (data_bits == 5 || data_bits == 6 || data_bits == 7 || data_bits == 8) && (parity@
            == "none"@ || parity@ == "even"@ || parity@ == "odd"@) && !(stop_bits == 1 || stop_bits
            == 2) ==> r == Err::<ModbusConnectionSettings, ModbusError>(
            ModbusError::InvalidStopBits,
        ),
        r matches Ok(s) ==> {
            &&& (data_bits == 5 || data_bits == 6 || data_bits == 7 || data_bits == 8)
            &&& (parity@ == "none"@ || parity@ == "even"@ || parity@ == "odd"@)
            &&& (stop_bits == 1 || stop_bits == 2)
            &&& s matches ModbusConnectionSettings::RTU {
                path: p,
                baud_rate: b,
                data_bits: d,
                parity: q,
                stop_bits: t,
            } && p == path && b == baud_rate && d == data_bits_of(data_bits) && q == parity_of(
                parity@,
            ) && t == stop_bits_of(stop_bits)
        },
        r is Ok <==> ((data_bits == 5 || data_bits == 6 || data_bits == 7 || data_bits == 8) && (
        parity@ == "none"@ || parity@ == "even"@ || parity@ == "odd"@) && (stop_bits == 1
            || stop_bits == 2)),
{
    let data_bits = data_bits_from_u8(data_bits)?;
    let parity = parity_from_name(parity)?;
    let stop_bits = stop_bits_from_u8(stop_bits)?;
    Ok(ModbusConnectionSettings::RTU { path, baud_rate, data_bits, parity, stop_bits })
}

/// The enumeration value a valid raw data-bits count stands for.
pub open spec fn data_bits_of(bits: u8) -> DataBits {
    if bits == 5 {
        DataBits::Five
    } else if bits == 6 {
        DataBits::Six
    } else if bits == 7 {
        DataBits::Seven
    } else {
        DataBits::Eight
    }
}

/// The enumeration value a valid parity name stands for.
pub open spec fn parity_of(name: Seq<char>) -> Parity {
    if name == "none"@ {
        Parity::NoParity
    } else if name == "even"@ {
        Parity::Even
    } else {
        Parity::Odd
    }
}

/// The enumeration value a valid raw stop-bits count stands for.
pub open spec fn stop_bits_of(bits: u8) -> StopBits {
    if bits == 1 {
        StopBits::One
    } else {
        StopBits::Two
    }
}

/// Builds TCP settings. Every host string and port are accepted here; whether
/// the host parses as an address is decided by the transport layer.
pub fn tcp_settings(host: String, port: u16) -> (r: ModbusConnectionSettings)
    ensures
        r matches ModbusConnectionSettings::TCP { host: h, port: p } && h == host && p == port,
{
    ModbusConnectionSettings::TCP { host, port }
}

} // verus!
