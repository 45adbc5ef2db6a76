//! The decisions of the streaming collectors: which commands go to the target on startup
//! and shutdown, where to connect, how the ITM byte stream is buffered, and how often RTT
//! is polled.

use crate::command::Command;
use crate::config::{ItmCollectorConfig, TcpCollectorConfig};
use vstd::prelude::*;
use vstd::string::*;

verus! {

/// The commands sent to the target on startup: unless the control plane is disabled, a
/// stop first when restarting, then a start
pub open spec fn spec_startup_commands(disable_control_plane: bool, restart: bool) -> Seq<Command> {
    if disable_control_plane {
        Seq::empty()
    } else if restart {
        seq![Command::Stop, Command::Start]
    } else {
        seq![Command::Start]
    }
}

/// The commands sent to the target on shutdown: a stop, unless the control plane is
/// disabled
pub open spec fn spec_shutdown_commands(disable_control_plane: bool) -> Seq<Command> {
    if disable_control_plane {
        Seq::empty()
    } else {
        seq![Command::Stop]
    }
}

/// The commands to send to the target on startup
pub fn startup_commands(disable_control_plane: bool, restart: bool) -> (r: Vec<Command>)
    ensures
        r@ == spec_startup_commands(disable_control_plane, restart),
{
    let mut r: Vec<Command> = Vec::new();
    if !disable_control_plane {
        if restart {
            r.push(Command::Stop);
        }
        r.push(Command::Start);
    }
    assert(r@ =~= spec_startup_commands(disable_control_plane, restart));
    r
}

/// The commands to send to the target on shutdown
pub fn shutdown_commands(disable_control_plane: bool) -> (r: Vec<Command>)
    ensures
        r@ == spec_shutdown_commands(disable_control_plane),
{
    let mut r: Vec<Command> = Vec::new();
    if !disable_control_plane {
        r.push(Command::Stop);
    }
    assert(r@ =~= spec_shutdown_commands(disable_control_plane));
    r
}

/// With the control plane enabled, tracing is started on startup and stopped on shutdown,
/// and a restart stops it before starting it
pub proof fn lemma_control_plane_starts_and_stops(restart: bool)
    ensures
        spec_startup_commands(false, restart).last() == Command::Start,
        restart ==> spec_startup_commands(false, restart)[0] == Command::Stop,
        spec_shutdown_commands(false) == seq![Command::Stop],
        spec_startup_commands(true, restart).len() == 0,
        spec_shutdown_commands(true).len() == 0,
{
}

/// The default TCP remote
pub open spec fn default_tcp_remote() -> Seq<char> {
    "127.0.0.1:8888"@
}

impl TcpCollectorConfig {
    /// The settings after the collector's own command-line options: set flags turn their
    /// setting on, given values replace the configured ones
    pub fn apply_opts(
        &mut self,
        disable_control_plane: bool,
        restart: bool,
        connect_timeout_ms: Option<u64>,
        remote: Option<String>,
    )
        ensures
            final(self).disable_control_plane == (old(self).disable_control_plane
                || disable_control_plane),
            final(self).restart == (old(self).restart || restart),
            final(self).connect_timeout_ms == match connect_timeout_ms {
                Some(t) => Some(t),
                None => old(self).connect_timeout_ms,
            },
            final(self).remote == match remote {
                Some(r) => Some(r),
                None => old(self).remote,
            },
    {
        if disable_control_plane {
            self.disable_control_plane = true;
        }
        if restart {
            self.restart = true;
        }
        if let Some(t) = connect_timeout_ms {
            self.connect_timeout_ms = Some(t);
        }
        if let Some(r) = remote {
            self.remote = Some(r);
        }
    }

    /// The remote to connect to: the configured one or the default
    pub fn remote_or_default(&self) -> (r: String)
        ensures
            r@ == match self.remote {
                Some(s) => s@,
                None => default_tcp_remote(),
            },
    {
        match &self.remote {
            Some(s) => s.clone(),
            None => {
                proof {
                    reveal_strlit("127.0.0.1:8888");
                }
                String::from_str("127.0.0.1:8888")
            },
        }
    }

    /// The connect timeout to use: the configured one when it is not zero
    pub fn effective_connect_timeout_ms(&self) -> (r: Option<u64>)
        ensures
            r == match self.connect_timeout_ms {
                Some(t) => if t != 0 {
                    Some(t)
                } else {
                    None
                },
                None => None,
            },
    {
        match self.connect_timeout_ms {
            Some(t) => if t != 0 {
                Some(t)
            } else {
                None
            },
            None => None,
        }
    }
}

/// What the ITM decoder produced next
pub enum ItmItem {
    /// The decoder has nothing more
    End,
    /// Reading the probe's data failed
    IoError,
    /// A malformed packet was skipped
    Malformed,
    /// An instrumentation packet from a stimulus port
    Instrumentation { port: u8, payload: Vec<u8> },
    /// Another kind of packet
    Other,
}

/// What the ITM reader takes from a decoded item
pub enum ItmPayload {
    /// Trace recorder bytes
    Data(Vec<u8>),
    /// Nothing for the trace recorder
    Nothing,
    /// Reading failed
    IoError,
}

/// The ITM byte stream of the trace recorder's stimulus port
pub struct ItmBuffer {
    pub port: u8,
    pub buf: Vec<u8>,
}

impl ItmBuffer {
    pub fn new(port: u8) -> (r: ItmBuffer)
        ensures
            r.port == port,
            r.buf@ == Seq::<u8>::empty(),
    {
        ItmBuffer { port, buf: Vec::new() }
    }

    /// The trace recorder bytes of a decoded item: the payload of instrumentation packets
    /// from this reader's port; other packets, malformed ones and the end carry none
    pub fn payload_of(&self, item: ItmItem) -> (r: ItmPayload)
        ensures
            match item {
                ItmItem::IoError => r is IoError,
                ItmItem::Instrumentation { port, payload } => if port == self.port {
                    r matches ItmPayload::Data(d) && d@ == payload@
                } else {
                    r is Nothing
                },
                _ => r is Nothing,
            },
    {
        match item {
            ItmItem::IoError => ItmPayload::IoError,
            ItmItem::Instrumentation { port, payload } => if port == self.port {
                ItmPayload::Data(payload)
            } else {
                ItmPayload::Nothing
            },
            _ => ItmPayload::Nothing,
        }
    }

    /// Whether fewer bytes are buffered than a read of `want` bytes asks for
    pub fn needs_more(&self, want: usize) -> (r: bool)
        ensures
            r == (self.buf@.len() < want),
    {
        self.buf.len() < want
    }

    /// Queues trace recorder bytes
    pub fn push(&mut self, payload: Vec<u8>)
        ensures
            final(self).port == old(self).port,
            final(self).buf@ == old(self).buf@ + payload@,
    {
        let mut i: usize = 0;
        let ghost b = self.buf@;
        while i < payload.len()
            invariant
                i <= payload@.len(),
                self.buf@ == b + payload@.subrange(0, i as int),
                self.port == old(self).port,
            decreases payload@.len() - i,
        {
            self.buf.push(payload[i]);
            i = i + 1;
            assert(self.buf@ =~= b + payload@.subrange(0, i as int));
        }
        assert(payload@.subrange(0, payload@.len() as int) =~= payload@);
    }

    /// Takes up to `want` bytes from the front
    pub fn take(&mut self, want: usize) -> (r: Vec<u8>)
        ensures
            final(self).port == old(self).port,
            r@ == old(self).buf@.take(if old(self).buf@.len() < want {
                old(self).buf@.len() as int
            } else {
                want as int
            }),
            final(self).buf@ == old(self).buf@.skip(r@.len() as int),
    {
        let n = if self.buf.len() < want {
            self.buf.len()
        } else {
            want
        };
        let mut front: Vec<u8> = Vec::new();
        let mut rest: Vec<u8> = Vec::new();
        let mut i: usize = 0;
        while i < self.buf.len()
            invariant
                n <= self.buf@.len(),
                i <= self.buf@.len(),
                front@ == self.buf@.take(if i < n { i as int } else { n as int }),
                rest@ == (if i < n {
                    Seq::<u8>::empty()
                } else {
                    self.buf@.subrange(n as int, i as int)
                }),
            decreases self.buf@.len() - i,
        {
            if i < n {
                front.push(self.buf[i]);
            } else {
                rest.push(self.buf[i]);
            }
            i = i + 1;
            assert(front@ =~= self.buf@.take(if i < n { i as int } else { n as int }));
            assert(rest@ =~= (if i < n {
                Seq::<u8>::empty()
            } else {
                self.buf@.subrange(n as int, i as int)
            }));
        }
        assert(rest@ =~= self.buf@.skip(n as int));
        self.buf = rest;
        front
    }
}

/// The ITM stream keeps the bytes in order: what is taken after a push is the front of
/// what was buffered followed by the payload
pub proof fn lemma_itm_bytes_in_order(b: Seq<u8>, payload: Seq<u8>, want: int)
    requires
        0 <= want <= b.len() + payload.len(),
    ensures
        (b + payload).take(want) + (b + payload).skip(want) == b + payload,
        want <= b.len() ==> (b + payload).take(want) == b.take(want),
{
    assert((b + payload).take(want) + (b + payload).skip(want) =~= b + payload);
    if want <= b.len() {
        assert((b + payload).take(want) =~= b.take(want));
    }
}

/// How often RTT is polled
#[derive(Copy, Clone, PartialEq, Eq, Structural, Debug)]
pub enum PollInterval {
    /// The configured interval, while data is coming in
    Data,
    /// The slower interval used while no data comes in
    NoData,
}

/// Whether the last RTT poll returned data
pub struct PollRate {
    pub last_poll_had_data: bool,
}

impl PollRate {
    pub fn new() -> (r: PollRate)
        ensures
            r.last_poll_had_data,
    {
        PollRate { last_poll_had_data: true }
    }

    /// Sees a poll that read `bytes_read` bytes: returns the interval to switch to, when
    /// data starts or stops coming in
    pub fn on_poll(&mut self, bytes_read: usize) -> (r: Option<PollInterval>)
        ensures
            final(self).last_poll_had_data == (bytes_read != 0),
            r == (if bytes_read != 0 && !old(self).last_poll_had_data {
                Some(PollInterval::Data)
            } else if bytes_read == 0 && old(self).last_poll_had_data {
                Some(PollInterval::NoData)
            } else {
                None
            }),
    {
        let had_data = bytes_read != 0;
        let r = if had_data && !self.last_poll_had_data {
            Some(PollInterval::Data)
        } else if !had_data && self.last_poll_had_data {
            Some(PollInterval::NoData)
        } else {
            None
        };
        self.last_poll_had_data = had_data;
        r
    }
}

/// Why the ITM collector settings cannot be used
#[derive(Clone, Debug, PartialEq, Eq)]
pub enum ItmSettingsError {
    /// With the control plane on, neither an ELF file nor both command variable addresses
    MissingItmPortVariables,
    MissingClk,
    MissingBaud,
    MissingChip,
    /// The stimulus port is not one of 0 to 31
    InvalidStimulusPort(u8),
}

/// The probe settings the ITM collector needs: the trace clock, the SWO baud rate and the
/// chip
#[derive(Clone, Debug, PartialEq, Eq)]
pub struct ItmProbeSettings {
    pub clk: u32,
    pub baud: u32,
    pub chip: String,
}

impl ItmCollectorConfig {
    /// The probe settings, checked in order: the control plane variables, the clock, the
    /// baud rate, the chip, then the stimulus port
    pub fn probe_settings(&self) -> (r: Result<ItmProbeSettings, ItmSettingsError>)
        ensures
            !self.disable_control_plane && self.elf_file is None && (self.command_data_addr is None
                || self.command_len_addr is None) ==> r == Err::<ItmProbeSettings, ItmSettingsError>(
                ItmSettingsError::MissingItmPortVariables,
            ),
            !(!self.disable_control_plane && self.elf_file is None && (self.command_data_addr is None
                || self.command_len_addr is None)) ==> r == match (self.clk, self.baud, self.chip) {
                (None, _, _) => Err::<ItmProbeSettings, ItmSettingsError>(ItmSettingsError::MissingClk),
                (Some(_), None, _) => Err(ItmSettingsError::MissingBaud),
                (Some(_), Some(_), None) => Err(ItmSettingsError::MissingChip),
                (Some(c), Some(b), Some(ch)) => if self.stimulus_port > 31 {
                    Err(ItmSettingsError::InvalidStimulusPort(self.stimulus_port))
                } else {
                    Ok(ItmProbeSettings { clk: c, baud: b, chip: ch })
                },
            },
    {
        if !self.disable_control_plane && self.elf_file.is_none() && (self.command_data_addr.is_none()
            || self.command_len_addr.is_none()) {
            return Err(ItmSettingsError::MissingItmPortVariables);
        }
        let clk = match self.clk {
            Some(c) => c,
            None => return Err(ItmSettingsError::MissingClk),
        };
        let baud = match self.baud {
            Some(b) => b,
            None => return Err(ItmSettingsError::MissingBaud),
        };
        let chip = match &self.chip {
            Some(c) => c.clone(),
            None => return Err(ItmSettingsError::MissingChip),
        };
        if self.stimulus_port > 31 {
            return Err(ItmSettingsError::InvalidStimulusPort(self.stimulus_port));
        }
        Ok(ItmProbeSettings { clk, baud, chip })
    }
}

} // verus!
