//! The command descriptor of the MMC block driver, the response block, and
//! the vendor selectors sent as argument of the general command.

use vstd::prelude::*;

verus! {

/// The response carries a status.
pub const MMC_RSP_PRESENT: u32 = 1;

/// The response carries a valid CRC.
pub const MMC_RSP_CRC: u32 = 4;

/// The response echoes the opcode.
pub const MMC_RSP_OPCODE: u32 = 16;

/// Addressed command with a data transfer.
pub const MMC_CMD_ADTC: u32 = 32;

/// SPI mode: one status byte.
pub const MMC_RSP_SPI_S1: u32 = 128;

pub const MMC_RSP_SPI_R1: u32 = MMC_RSP_SPI_S1;

/// Response type R1.
pub const MMC_RSP_R1: u32 = MMC_RSP_PRESENT | MMC_RSP_CRC | MMC_RSP_OPCODE;

/// Flags of a general command that reads a block from the card.
pub const COMMAND_FLAGS_CMD56_DATA_IN: u32 = MMC_RSP_SPI_R1 | MMC_RSP_R1 | MMC_CMD_ADTC;

/// Flags of a general command that writes a block to the card.
pub const COMMAND_FLAGS_CMD56_WRITE: u32 = MMC_RSP_R1 | MMC_CMD_ADTC;

/// Size in bytes of the one block that each command transfers.
pub const SD_BLOCK_SIZE: usize = 512;

/// Opcode of the general command.
pub const SD_GEN_CMD: u32 = 56;

/// One block as the card sends it.
pub type SDBlock = [u8; SD_BLOCK_SIZE];

/// The response buffer: one block, all zero when made.
pub struct SDB1 {
    data: SDBlock,
}

impl View for SDB1 {
    type V = Seq<u8>;

    closed spec fn view(&self) -> Seq<u8> {
        self.data@
    }
}

/// Every byte of `s` is zero.
pub open spec fn all_zero(s: Seq<u8>) -> bool {
    forall|i: int| 0 <= i < s.len() ==> s[i] == 0
}

impl SDB1 {
    pub fn new() -> (r: Self)
        ensures
            r@.len() == SD_BLOCK_SIZE,
            all_zero(r@),
    {
        SDB1 { data: [0; SD_BLOCK_SIZE] }
    }

    pub fn data(&self) -> (r: &SDBlock)
        ensures
            r@ == self@,
    {
        &self.data
    }

    /// The block, for a transfer that fills it in place.
    pub fn data_mut(&mut self) -> (r: &mut SDBlock)
        ensures
            r@ == old(self)@,
            final(self)@ == final(r)@,
    {
        &mut self.data
    }
}

/// Hands out a block that holds nothing but zero bytes.
pub trait GetInstance<'sdb, T> {
    fn get_instance() -> &'sdb T;
}

impl<'sdb> GetInstance<'sdb, SDBlock> for SDBlock {
    fn get_instance() -> (r: &'sdb SDBlock)
        ensures
            r@.len() == SD_BLOCK_SIZE,
            all_zero(r@),
    {
        &[0; SD_BLOCK_SIZE]
    }
}

/// A vendor selector: the argument of the general command with which one
/// family of cards answers with its health block.
#[derive(Clone, Copy, Debug, PartialEq, Eq, Structural)]
pub enum Cmd56 {
    /// Sandisk, Longsys.
    Sandisk,
    /// Micron.
    Micron,
    /// Swissbit.
    Swissbit,
    /// Transcend.
    Transcend,
    /// Longsys industrial M9H, Innodisk.
    LongsysM9H,
    /// ATP industrial.
    Atp,
    /// ADATA.
    AData,
}

/// The argument word that the card receives for `c`.
pub open spec fn cmd56_arg(c: Cmd56) -> u32 {
    match c {
        Cmd56::Sandisk => 0x0000_0001,
        Cmd56::Micron => 0x1100_05fb,
        Cmd56::Swissbit => 0x5342_0001,
        Cmd56::Transcend => 0x1100_05f9,
        Cmd56::LongsysM9H => 0x1100_05fd,
        Cmd56::Atp => 0x1100_0001,
        Cmd56::AData => 0x1100_05f1,
    }
}

/// The vendor selectors in the order in which they are probed.
pub open spec fn cmds56_spec() -> Seq<Cmd56> {
    seq![
        Cmd56::Sandisk,
        Cmd56::Micron,
        Cmd56::Swissbit,
        Cmd56::Transcend,
        Cmd56::LongsysM9H,
        Cmd56::Atp,
        Cmd56::AData,
    ]
}

/// Number of vendor selectors.
pub const CMDS56_LEN: usize = 7;

impl Cmd56 {
    /// The argument word sent to the card.
    pub fn value(self) -> (r: u32)
        ensures
            r == cmd56_arg(self),
    {
        match self {
            Cmd56::Sandisk => 0x0000_0001,
            Cmd56::Micron => 0x1100_05fb,
            Cmd56::Swissbit => 0x5342_0001,
            Cmd56::Transcend => 0x1100_05f9,
            Cmd56::LongsysM9H => 0x1100_05fd,
            Cmd56::Atp => 0x1100_0001,
            Cmd56::AData => 0x1100_05f1,
        }
    }
}

/// The vendor selectors in the order in which they are probed.
pub fn cmds56() -> (r: [Cmd56; CMDS56_LEN])
    ensures
        r@ == cmds56_spec(),
{
    let r = [
        Cmd56::Sandisk,
        Cmd56::Micron,
        Cmd56::Swissbit,
        Cmd56::Transcend,
        Cmd56::LongsysM9H,
        Cmd56::Atp,
        Cmd56::AData,
    ];
    assert(r@ =~= cmds56_spec());
    r
}

/// The command descriptor of the MMC block driver, in the order of its
/// fields; the data field is the block that the transfer reads or writes.
pub struct MmcIocCmd<'a> {
    pub write_flag: cty::c_int,
    pub is_acmd: cty::c_int,
    pub opcode: cty::c_uint,
    pub arg: cty::c_uint,
    pub response: [cty::c_uint; 4],
    pub flags: cty::c_uint,
    pub blksz: cty::c_uint,
    pub blocks: cty::c_uint,
    pub postsleep_min_us: cty::c_uint,
    pub postsleep_max_us: cty::c_uint,
    pub data_timeout_ns: cty::c_uint,
    pub cmd_timeout_ms: cty::c_uint,
    pub data_ptr: &'a SDBlock,
}

impl<'a> MmcIocCmd<'a> {
    /// A descriptor for one block of `SD_BLOCK_SIZE` bytes at `lba_block_data`,
    /// with no sleep windows, the driver's own timeouts and an empty response.
    pub fn new(
        cmd_write_flag: i32,
        cmd_opcode: u32,
        cmd_arg: u32,
        cmd_flags: u32,
        lba_block_data: &'a SDBlock,
    ) -> (r: Self)
        ensures
            r.write_flag == cmd_write_flag,
            r.is_acmd == 0,
            r.opcode == cmd_opcode,
            r.arg == cmd_arg,
            r.response@ == seq![0u32, 0u32, 0u32, 0u32],
            r.flags == cmd_flags,
            r.blksz == SD_BLOCK_SIZE,
            r.blocks == 1,
            r.postsleep_min_us == 0,
            r.postsleep_max_us == 0,
            r.data_timeout_ns == 0,
            r.cmd_timeout_ms == 0,
            r.data_ptr == lba_block_data,
    {
        let response: [u32; 4] = [0, 0, 0, 0];
        assert(response@ =~= seq![0u32, 0u32, 0u32, 0u32]);
        MmcIocCmd {
            write_flag: cmd_write_flag,
            is_acmd: 0,
            opcode: cmd_opcode,
            arg: cmd_arg,
            response,
            flags: cmd_flags,
            blksz: SD_BLOCK_SIZE as u32,
            blocks: 1,
            postsleep_min_us: 0,
            postsleep_max_us: 0,
            data_timeout_ns: 0,
            cmd_timeout_ms: 0,
            data_ptr: lba_block_data,
        }
    }
}

/// `r` is a general command descriptor for one block, with the given
/// direction, argument and response flags.
pub open spec fn is_cmd56_descriptor(r: MmcIocCmd, write_flag: i32, arg: u32, flags: u32) -> bool {
    &&& r.write_flag == write_flag
    &&& r.is_acmd == 0
    &&& r.opcode == SD_GEN_CMD
    &&& r.arg == arg
    &&& r.response@ == seq![0u32, 0u32, 0u32, 0u32]
    &&& r.flags == flags
    &&& r.blksz == SD_BLOCK_SIZE
    &&& r.blocks == 1
    &&& r.postsleep_min_us == 0
    &&& r.postsleep_max_us == 0
    &&& r.data_timeout_ns == 0
    &&& r.cmd_timeout_ms == 0
}

/// The descriptor of a general command that reads one block from the card
/// into `lba_block_data`.
pub fn cmd56_data_in_command<'a>(cmd56_arg: u32, lba_block_data: &'a SDB1) -> (r: MmcIocCmd<'a>)
    ensures
        is_cmd56_descriptor(r, 0, cmd56_arg, COMMAND_FLAGS_CMD56_DATA_IN),
        r.data_ptr@ == lba_block_data@,
{
    MmcIocCmd::new(0, SD_GEN_CMD, cmd56_arg, COMMAND_FLAGS_CMD56_DATA_IN, lba_block_data.data())
}

/// The descriptor of a general command that writes the block
/// `lba_block_data` to the card.
pub fn cmd56_write_command<'a>(cmd56_arg: u32, lba_block_data: &'a SDB1) -> (r: MmcIocCmd<'a>)
    ensures
        is_cmd56_descriptor(r, 1, cmd56_arg, COMMAND_FLAGS_CMD56_WRITE),
        r.data_ptr@ == lba_block_data@,
{
    MmcIocCmd::new(1, SD_GEN_CMD, cmd56_arg, COMMAND_FLAGS_CMD56_WRITE, lba_block_data.data())
}

} // verus!
