//! The configuration surface consumed by the session: link path, verbosity,
//! echo choice, optional initial message and log file, heartbeat interval
//! and payload, and the requested baud rate and parity spelling. The
//! command-line front end fills this record in; its defaults are stated
//! here.

use vstd::prelude::*;

verus! {

/// The settings a session run is started with.
pub struct Args {
    /// Path for the symbolic link that exposes the virtual port.
    pub link: String,
    /// Verbose logging to the console.
    pub verbose: bool,
    /// Keep the device's local echo active instead of disabling it.
    pub enable_echo: bool,
    /// Message sent to the device right after startup, if any.
    pub init_msg: Option<String>,
    /// Path of the communication log file, if any.
    pub log_file: Option<String>,
    /// Heartbeat interval in seconds; zero disables the heartbeat actor.
    pub heartbeat: u64,
    /// Payload of each heartbeat message.
    pub hb_msg: String,
    /// Requested baud rate, as written on the command line.
    pub baud_rate: String,
    /// Requested parity mode: none, even or odd.
    pub parity: String,
}

impl Default for Args {
    /// The defaults of the configuration surface: the conventional link
    /// path, quiet output, echo disabled, no initial message and no log
    /// file, heartbeat off, and 9600 baud with no parity.
    fn default() -> (r: Args)
        ensures
            r.link@ == "/tmp/my_virtual_port"@,
            r.verbose == false,
            r.enable_echo == false,
            r.init_msg is None,
            r.log_file is None,
            r.heartbeat == 0,
            r.hb_msg@ == "HEARTBEAT\n"@,
            r.baud_rate@ == "9600"@,
            r.parity@ == "none"@,
    {
        Args {
            link: "/tmp/my_virtual_port".to_owned(),
            verbose: false,
            enable_echo: false,
            init_msg: None,
            log_file: None,
            heartbeat: 0,
            hb_msg: "HEARTBEAT\n".to_owned(),
            baud_rate: "9600".to_owned(),
            parity: "none".to_owned(),
        }
    }
}

} // verus!
