//! TraceRecorder control-plane commands and their wire encoding.

use vstd::prelude::*;

verus! {

/// Trace recorder control-plane commands
#[derive(Copy, Clone, PartialEq, Eq, Structural, Debug)]
pub enum Command {
    /// CMD_SET_ACTIVE with param1 set to 1, start tracing
    Start,
    /// CMD_SET_ACTIVE with param1 set to 0, stop tracing
    Stop,
}

/// The command code of `CMD_SET_ACTIVE`
pub const CMD_SET_ACTIVE: u8 = 1;

/// Wire size of a command, equivalent to `sizeof(TracealyzerCommandType)`
pub const COMMAND_WIRE_SIZE: usize = 8;

impl Command {
    /// The value of `param1` for this command: 1 starts tracing, 0 stops it
    pub open spec fn spec_param1(self) -> u8 {
        match self {
            Command::Start => 1,
            Command::Stop => 0,
        }
    }

    /// The checksum is `0xFFFF` minus the sum of the command code and its parameters
    pub open spec fn spec_checksum(self) -> u16 {
        (0xFFFFu16 - (CMD_SET_ACTIVE + self.spec_param1())) as u16
    }

    /// The `TracealyzerCommandType` wire representation
    pub open spec fn spec_wire_bytes(self) -> Seq<u8> {
        seq![
            CMD_SET_ACTIVE,
            self.spec_param1(),
            0u8,
            0u8,
            0u8,
            0u8,
            (self.spec_checksum() % 256) as u8,
            (self.spec_checksum() / 256) as u8,
        ]
    }

    pub fn param1(&self) -> (r: u8)
        ensures
            r == self.spec_param1(),
    {
        match self {
            Command::Start => 1,
            Command::Stop => 0,
        }
    }

    pub fn checksum(&self) -> (r: u16)
        ensures
            r == self.spec_checksum(),
    {
        // param2..=param5 are always zero
        let sum: u16 = (CMD_SET_ACTIVE as u16) + (self.param1() as u16);
        0xFFFFu16.wrapping_sub(sum)
    }

    /// Convert a command to its `TracealyzerCommandType` wire representation
    pub fn to_le_bytes(&self) -> (r: [u8; 8])
        ensures
            r@ == self.spec_wire_bytes(),
    {
        let checksum = self.checksum();
        let lo = (checksum % 256) as u8;
        let hi = (checksum / 256) as u8;
        let r = [CMD_SET_ACTIVE, self.param1(), 0, 0, 0, 0, lo, hi];
        assert(r@ =~= self.spec_wire_bytes());
        r
    }
}

/// The wire checksum makes every command's code, parameters and checksum add up to `0xFFFF`:
/// the sum of the first six bytes plus the little-endian checksum in the last two bytes
/// is `0xFFFF` for every command.
pub proof fn lemma_command_checksum_sums_to_ffff(c: Command)
    ensures
        ({
            let b = c.spec_wire_bytes();
            b[0] + b[1] + b[2] + b[3] + b[4] + b[5] + b[6] + 256 * b[7] == 0xFFFF
        }),
{
}

} // verus!
