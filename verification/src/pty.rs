//! The line-discipline model of the slave device: the conventional POSIX
//! baud rates, the three parity modes, and the local-echo flag, applied to
//! a plain settings record. The surrounding process reads the device's
//! attributes into this record, lets these functions compute the new
//! settings, and writes the result back; allocation of the device itself is
//! retried under the policy at the bottom.

use vstd::prelude::*;

verus! {

/// Backoff between two allocation attempts, in milliseconds.
pub const RETRY_BACKOFF_MS: u64 = 500;

/// The enumerated baud rates a real serial driver accepts.
#[derive(Clone, Copy, PartialEq, Eq, Structural, Debug)]
pub enum Baud {
    B50,
    B75,
    B110,
    B134,
    B150,
    B200,
    B300,
    B600,
    B1200,
    B1800,
    B2400,
    B4800,
    B9600,
    B19200,
    B38400,
    B57600,
    B115200,
    B230400,
}

/// The integer speed of each enumerated rate.
pub open spec fn baud_speed(b: Baud) -> u32 {
    match b {
        Baud::B50 => 50,
        Baud::B75 => 75,
        Baud::B110 => 110,
        Baud::B134 => 134,
        Baud::B150 => 150,
        Baud::B200 => 200,
        Baud::B300 => 300,
        Baud::B600 => 600,
        Baud::B1200 => 1200,
        Baud::B1800 => 1800,
        Baud::B2400 => 2400,
        Baud::B4800 => 4800,
        Baud::B9600 => 9600,
        Baud::B19200 => 19200,
        Baud::B38400 => 38400,
        Baud::B57600 => 57600,
        Baud::B115200 => 115200,
        Baud::B230400 => 230400,
    }
}

/// Whether an integer speed names one of the enumerated rates.
pub open spec fn is_supported_speed(s: u32) -> bool {
    ||| s == 50
    ||| s == 75
    ||| s == 110
    ||| s == 134
    ||| s == 150
    ||| s == 200
    ||| s == 300
    ||| s == 600
    ||| s == 1200
    ||| s == 1800
    ||| s == 2400
    ||| s == 4800
    ||| s == 9600
    ||| s == 19200
    ||| s == 38400
    ||| s == 57600
    ||| s == 115200
    ||| s == 230400
}

/// The rate named by an integer speed, if any.
pub open spec fn speed_to_baud_spec(s: u32) -> Option<Baud> {
    if s == 50 {
        Some(Baud::B50)
    } else if s == 75 {
        Some(Baud::B75)
    } else if s == 110 {
        Some(Baud::B110)
    } else if s == 134 {
        Some(Baud::B134)
    } else if s == 150 {
        Some(Baud::B150)
    } else if s == 200 {
        Some(Baud::B200)
    } else if s == 300 {
        Some(Baud::B300)
    } else if s == 600 {
        Some(Baud::B600)
    } else if s == 1200 {
        Some(Baud::B1200)
    } else if s == 1800 {
        Some(Baud::B1800)
    } else if s == 2400 {
        Some(Baud::B2400)
    } else if s == 4800 {
        Some(Baud::B4800)
    } else if s == 9600 {
        Some(Baud::B9600)
    } else if s == 19200 {
        Some(Baud::B19200)
    } else if s == 38400 {
        Some(Baud::B38400)
    } else if s == 57600 {
        Some(Baud::B57600)
    } else if s == 115200 {
        Some(Baud::B115200)
    } else if s == 230400 {
        Some(Baud::B230400)
    } else {
        None
    }
}

/// Maps an integer speed to its enumerated rate; speeds outside the table
/// are rejected here, before any device is touched.
pub fn speed_to_baud(speed: u32) -> (r: Option<Baud>)
    ensures
        r == speed_to_baud_spec(speed),
        r is Some == is_supported_speed(speed),
        r matches Some(b) ==> baud_speed(b) == speed,
{
    match speed {
        50 => Some(Baud::B50),
        75 => Some(Baud::B75),
        110 => Some(Baud::B110),
        134 => Some(Baud::B134),
        150 => Some(Baud::B150),
        200 => Some(Baud::B200),
        300 => Some(Baud::B300),
        600 => Some(Baud::B600),
        1200 => Some(Baud::B1200),
        1800 => Some(Baud::B1800),
        2400 => Some(Baud::B2400),
        4800 => Some(Baud::B4800),
        9600 => Some(Baud::B9600),
        19200 => Some(Baud::B19200),
        38400 => Some(Baud::B38400),
        57600 => Some(Baud::B57600),
        115200 => Some(Baud::B115200),
        230400 => Some(Baud::B230400),
        _ => None,
    }
}

/// The integer speed of an enumerated rate: the value read back when the
/// device's configuration is inspected.
pub fn baud_to_speed(b: Baud) -> (r: u32)
    ensures
        r == baud_speed(b),
{
    match b {
        Baud::B50 => 50,
        Baud::B75 => 75,
        Baud::B110 => 110,
        Baud::B134 => 134,
        Baud::B150 => 150,
        Baud::B200 => 200,
        Baud::B300 => 300,
        Baud::B600 => 600,
        Baud::B1200 => 1200,
        Baud::B1800 => 1800,
        Baud::B2400 => 2400,
        Baud::B4800 => 4800,
        Baud::B9600 => 9600,
        Baud::B19200 => 19200,
        Baud::B38400 => 38400,
        Baud::B57600 => 57600,
        Baud::B115200 => 115200,
        Baud::B230400 => 230400,
    }
}

/// The three parity modes of the line discipline.
#[derive(Clone, Copy, PartialEq, Eq, Structural, Debug)]
pub enum Parity {
    /// No parity bit: parity generation is switched off.
    Disabled,
    /// Even parity: generation on, odd selection off.
    Even,
    /// Odd parity: generation on, odd selection on.
    Odd,
}

/// The termios bits the session manager reads and writes, as plain values:
/// the parity-enable and odd-parity control bits, the local-echo bit, and
/// the two line speeds.
#[derive(Clone, Copy, PartialEq, Eq, Structural, Debug)]
pub struct TtySettings {
    /// Parity generation and checking enabled.
    pub parity_enable: bool,
    /// Odd parity selected instead of even.
    pub parity_odd: bool,
    /// Local echo enabled on the device.
    pub echo: bool,
    /// Input speed, as an integer rate.
    pub input_speed: u32,
    /// Output speed, as an integer rate.
    pub output_speed: u32,
}

/// The configuration errors reported before any actor starts.
#[derive(Clone, Copy, PartialEq, Eq, Structural, Debug)]
pub enum ConfigError {
    /// The requested speed is outside the enumerated table.
    UnsupportedBaud,
    /// The parity mode string is none of none, even, odd.
    InvalidParity,
}

/// The spelling of each parity mode on the configuration surface.
pub open spec fn parity_name(p: Parity) -> Seq<u8> {
    match p {
        Parity::Disabled => seq![110u8, 111u8, 110u8, 101u8],
        Parity::Even => seq![101u8, 118u8, 101u8, 110u8],
        Parity::Odd => seq![111u8, 100u8, 100u8],
    }
}

/// The parity mode named by a configuration string, if any.
pub open spec fn parse_parity_spec(s: Seq<u8>) -> Option<Parity> {
    if s == parity_name(Parity::Disabled) {
        Some(Parity::Disabled)
    } else if s == parity_name(Parity::Even) {
        Some(Parity::Even)
    } else if s == parity_name(Parity::Odd) {
        Some(Parity::Odd)
    } else {
        None
    }
}

/// Parses the parity mode from its configuration spelling (none, even,
/// odd); anything else is rejected at this boundary, not mid-session.
pub fn parse_parity(name: &Vec<u8>) -> (r: Option<Parity>)
    ensures
        r == parse_parity_spec(name@),
{
    if name.len() == 4 && name[0] == 110 && name[1] == 111 && name[2] == 110 && name[3] == 101 {
        proof {
            assert(name@ =~= parity_name(Parity::Disabled));
        }
        Some(Parity::Disabled)
    } else if name.len() == 4 && name[0] == 101 && name[1] == 118 && name[2] == 101 && name[3]
        == 110 {
        proof {
            assert(name@ =~= parity_name(Parity::Even));
        }
        Some(Parity::Even)
    } else if name.len() == 3 && name[0] == 111 && name[1] == 100 && name[2] == 100 {
        proof {
            assert(name@ =~= parity_name(Parity::Odd));
        }
        Some(Parity::Odd)
    } else {
        proof {
            assert(name@ != parity_name(Parity::Disabled));
            assert(name@ != parity_name(Parity::Even));
            assert(name@ != parity_name(Parity::Odd));
        }
        None
    }
}

/// The settings after one parity mode is applied: disabling clears the
/// enable bit and leaves the odd-selection bit as it was; even sets enable
/// and clears odd; odd sets both. Nothing else changes.
pub open spec fn apply_parity_spec(t: TtySettings, p: Parity) -> TtySettings {
    match p {
        Parity::Disabled => TtySettings { parity_enable: false, ..t },
        Parity::Even => TtySettings { parity_enable: true, parity_odd: false, ..t },
        Parity::Odd => TtySettings { parity_enable: true, parity_odd: true, ..t },
    }
}

/// Applies a parity mode to the settings record.
pub fn apply_parity(t: TtySettings, p: Parity) -> (r: TtySettings)
    ensures
        r == apply_parity_spec(t, p),
{
    match p {
        Parity::Disabled => TtySettings { parity_enable: false, ..t },
        Parity::Even => TtySettings { parity_enable: true, parity_odd: false, ..t },
        Parity::Odd => TtySettings { parity_enable: true, parity_odd: true, ..t },
    }
}

/// The outcome of configuring parity from its string spelling: a known mode
/// is applied, an unknown one is reported and the settings stay untouched.
pub open spec fn configure_parity_spec(t: TtySettings, name: Seq<u8>) -> Result<
    TtySettings,
    ConfigError,
> {
    match parse_parity_spec(name) {
        Some(p) => Ok(apply_parity_spec(t, p)),
        None => Err(ConfigError::InvalidParity),
    }
}

/// Configures parity from its string spelling; on an unknown spelling the
/// prior settings are left untouched and the error says so.
pub fn configure_parity(t: TtySettings, name: &Vec<u8>) -> (r: Result<TtySettings, ConfigError>)
    ensures
        r == configure_parity_spec(t, name@),
{
    match parse_parity(name) {
        Some(p) => Ok(apply_parity(t, p)),
        None => Err(ConfigError::InvalidParity),
    }
}

/// The outcome of configuring a baud rate: a supported speed is written to
/// both directions, anything else is rejected with no mutation at all.
pub open spec fn apply_baud_spec(t: TtySettings, speed: u32) -> Result<TtySettings, ConfigError> {
    if is_supported_speed(speed) {
        Ok(TtySettings { input_speed: speed, output_speed: speed, ..t })
    } else {
        Err(ConfigError::UnsupportedBaud)
    }
}

/// Configures the baud rate; speeds outside the enumerated table are
/// rejected before any device mutation.
pub fn apply_baud(t: TtySettings, speed: u32) -> (r: Result<TtySettings, ConfigError>)
    ensures
        r == apply_baud_spec(t, speed),
{
    match speed_to_baud(speed) {
        Some(_) => Ok(TtySettings { input_speed: speed, output_speed: speed, ..t }),
        None => Err(ConfigError::UnsupportedBaud),
    }
}

/// The settings after the echo choice is applied: echo is disabled by
/// default, as a real serial port does not echo; the flag keeps the
/// device's echo bit as it is.
pub open spec fn apply_echo_spec(t: TtySettings, enable_echo: bool) -> TtySettings {
    if enable_echo {
        t
    } else {
        TtySettings { echo: false, ..t }
    }
}

/// Applies the echo choice to the settings record.
pub fn apply_echo(t: TtySettings, enable_echo: bool) -> (r: TtySettings)
    ensures
        r == apply_echo_spec(t, enable_echo),
{
    if enable_echo {
        t
    } else {
        TtySettings { echo: false, ..t }
    }
}

/// Configuring a supported rate and reading the settings back yields that
/// same rate on both directions, with every other bit untouched; an
/// unsupported rate changes nothing and is reported.
pub proof fn lemma_baud_round_trip(t: TtySettings, speed: u32)
    ensures
        is_supported_speed(speed) ==> (apply_baud_spec(t, speed) matches Ok(u) && u.input_speed
            == speed && u.output_speed == speed && u.parity_enable == t.parity_enable
            && u.parity_odd == t.parity_odd && u.echo == t.echo),
        !is_supported_speed(speed) ==> apply_baud_spec(t, speed) == Err::<TtySettings, ConfigError>(
            ConfigError::UnsupportedBaud,
        ),
{
}

/// Each enumerated rate maps to its speed and back to itself.
pub proof fn lemma_baud_speed_inverse(b: Baud)
    ensures
        speed_to_baud_spec(baud_speed(b)) == Some(b),
{
}

/// Each parity mode, applied and inspected, shows the expected combination
/// of the parity-enable and odd-parity bits, and touches nothing else.
pub proof fn lemma_parity_round_trip(t: TtySettings, p: Parity)
    ensures
        (apply_parity_spec(t, p).parity_enable) == !(p is Disabled),
        p is Even ==> !apply_parity_spec(t, p).parity_odd,
        p is Odd ==> apply_parity_spec(t, p).parity_odd,
        p is Disabled ==> apply_parity_spec(t, p).parity_odd == t.parity_odd,
        apply_parity_spec(t, p).echo == t.echo,
        apply_parity_spec(t, p).input_speed == t.input_speed,
        apply_parity_spec(t, p).output_speed == t.output_speed,
{
}

/// An unrecognized parity spelling is reported as an error and the prior
/// configuration is left untouched.
pub proof fn lemma_unknown_parity_rejected(t: TtySettings, name: Seq<u8>)
    ensures
        parse_parity_spec(name) is None ==> configure_parity_spec(t, name) == Err::<
            TtySettings,
            ConfigError,
        >(ConfigError::InvalidParity),
{
}

/// After a failed allocation attempt, whether another one is made (after
/// the fixed backoff) or the startup is abandoned as fatal: exactly
/// `max_attempts` attempts are allowed in all.
pub fn should_retry(failed_attempts: usize, max_attempts: usize) -> (r: bool)
    ensures
        r == (failed_attempts < max_attempts),
{
    failed_attempts < max_attempts
}

} // verus!
