//! The vendor decoders: each one recognises its vendor's block by a few
//! signature bytes and reads its health fields from fixed offsets.

use vstd::prelude::*;
use crate::bytes::{
    be16_at, be32_at, le32_at, le64_at, nb16, nb32, nword_to_u32, nword_to_u64, word16, word32,
};
use crate::fields::{
    ascii_chars, block_range, block_sum, block_text, bus_width_of, byte_sum, sanitized,
    speed_class_of, speed_mode_of, uhs_grade_of, BusWidth, SpeedClass, SpeedMode, UhsGrade,
};
use crate::mmc_ioc_cmd::{Cmd56, SDBlock};

verus! {

/// A vendor decoder: tells whether a block is its vendor's, and reads it.
pub trait SDParser {
    /// Whether `block`, answered to the selector `command`, is in this
    /// decoder's format.
    fn check_signature(&self, command: Cmd56, block: &SDBlock) -> bool;

    /// The health fields that `block` holds in this decoder's format.
    fn dump_data(&self, block: &SDBlock) -> Report;
}

/// The closed set of decoders.
#[derive(Clone, Copy, Debug, PartialEq, Eq, Structural)]
pub enum Decoder {
    Longsys,
    Sandisk,
    Micron,
    Swissbit,
    Transcend,
    AData,
    Innodisk,
    SmartData,
}

/// What a decoder's signature test says of `block`, answered to `command`.
pub open spec fn claims(d: Decoder, command: Cmd56, b: Seq<u8>) -> bool {
    match d {
        Decoder::Longsys => b[0] == 0x70 && b[1] == 0x58,
        Decoder::Sandisk => b[0] == 0x44 && (b[1] == 0x53 || b[1] == 0x57),
        Decoder::Micron => b[0] == 0x4d && b[1] == 0x45,
        Decoder::Swissbit => b[0] == 0x53 && b[1] == 0x77,
        Decoder::Transcend => b[0] == 0x54 && b[1] == 0x72,
        Decoder::AData => b[0] == 0x09 && b[1] == 0x41,
        Decoder::Innodisk => command == Cmd56::LongsysM9H && b[0] == 0x4c && b[1] == 0x58,
        // The second test holds of every byte: only the Longsys signature
        // keeps a block from the generic format.
        Decoder::SmartData => (b[0] != 0x70 || b[1] != 0x58) && (b[0] != 0x44 || (b[1] != 0x53
            || b[1] != 0x57)),
    }
}

/// A decoded block, in the format of the decoder that read it.
pub enum Report {
    Longsys(LongsysReport),
    Sandisk(SandiskReport),
    Micron(MicronReport),
    Swissbit(SwissbitReport),
    Transcend(TranscendReport),
    AData(ADataReport),
    Innodisk(InnodiskReport),
    SmartData(SmartDataReport),
}

/// `r` is what decoder `d` reads from the block `b`.
pub open spec fn decodes(d: Decoder, b: Seq<u8>, r: Report) -> bool {
    match r {
        Report::Longsys(x) => d == Decoder::Longsys && longsys_fields(x, b),
        Report::Sandisk(x) => d == Decoder::Sandisk && sandisk_fields(x, b),
        Report::Micron(x) => d == Decoder::Micron && micron_fields(x, b),
        Report::Swissbit(x) => d == Decoder::Swissbit && swissbit_fields(x, b),
        Report::Transcend(x) => d == Decoder::Transcend && transcend_fields(x, b),
        Report::AData(x) => d == Decoder::AData && adata_fields(x, b),
        Report::Innodisk(x) => d == Decoder::Innodisk && innodisk_fields(x, b),
        Report::SmartData(x) => d == Decoder::SmartData && smartdata_fields(x, b),
    }
}

pub struct LongsysSDParser;

pub struct SandiskSDParser;

pub struct MicronSDParser;

pub struct SwissbitSDParser;

pub struct TranscendSDParser;

pub struct ADataSDParser;

pub struct SmartDataSDParser;

pub struct InnodiskSDParser;

/// Health block of Longsys cards; words are little-endian.
pub struct LongsysReport {
    pub smart_versions: u32,
    pub size_of_dev_smart: u32,
    pub original_bad_block: u32,
    pub increase_bad_block: u32,
    /// In sectors of 512 bytes.
    pub write_all_sect_num: u64,
    pub replace_block_left: u32,
    /// In thousandths of a cycle.
    pub degree_of_wear: u32,
    pub sector_total: u32,
    /// In percent.
    pub remain_life_time: u32,
    /// In GB.
    pub remain_wr_gb_num: u32,
    /// In cycles.
    pub life_time_total: u32,
    /// In GB.
    pub phy_wr_gb_num: u32,
}

pub open spec fn longsys_fields(r: LongsysReport, b: Seq<u8>) -> bool {
    &&& r.smart_versions == le32_at(b, 4)
    &&& r.size_of_dev_smart == le32_at(b, 12)
    &&& r.original_bad_block == le32_at(b, 16)
    &&& r.increase_bad_block == le32_at(b, 20)
    &&& r.write_all_sect_num == le64_at(b, 24)
    &&& r.replace_block_left == le32_at(b, 32)
    &&& r.degree_of_wear == le32_at(b, 36)
    &&& r.sector_total == le32_at(b, 40)
    &&& r.remain_life_time == le32_at(b, 44)
    &&& r.remain_wr_gb_num == le32_at(b, 48)
    &&& r.life_time_total == le32_at(b, 52)
    &&& r.phy_wr_gb_num == le32_at(b, 56)
}

impl LongsysSDParser {
    pub fn decode(&self, block: &SDBlock) -> (r: LongsysReport)
        ensures
            longsys_fields(r, block@),
    {
        LongsysReport {
            smart_versions: nword_to_u32(block, 4),
            size_of_dev_smart: nword_to_u32(block, 12),
            original_bad_block: nword_to_u32(block, 16),
            increase_bad_block: nword_to_u32(block, 20),
            write_all_sect_num: nword_to_u64(block, 24),
            replace_block_left: nword_to_u32(block, 32),
            degree_of_wear: nword_to_u32(block, 36),
            sector_total: nword_to_u32(block, 40),
            remain_life_time: nword_to_u32(block, 44),
            remain_wr_gb_num: nword_to_u32(block, 48),
            life_time_total: nword_to_u32(block, 52),
            phy_wr_gb_num: nword_to_u32(block, 56),
        }
    }
}

impl SDParser for LongsysSDParser {
    fn check_signature(&self, command: Cmd56, block: &SDBlock) -> (r: bool)
        ensures
            r == claims(Decoder::Longsys, command, block@),
    {
        block[0] == 0x70 && block[1] == 0x58
    }

    fn dump_data(&self, block: &SDBlock) -> (r: Report)
        ensures
            decodes(Decoder::Longsys, block@, r),
    {
        Report::Longsys(self.decode(block))
    }
}

/// Health block of Sandisk and Western Digital cards.
pub struct SandiskReport {
    /// The block is marked as a Western Digital one.
    pub western_digital: bool,
    pub manufacture_yymmdd: String,
    pub health_status_percent_used: u8,
    pub feature_revision: u8,
    pub generation_identifier: u8,
    pub product_string: String,
    pub power_on_times: u32,
    pub tag: String,
}

/// The text of the bytes of `b` from `lo` up to `hi`, unprintable ones as `_`.
pub open spec fn text_at(b: Seq<u8>, lo: int, hi: int) -> Seq<char> {
    ascii_chars(sanitized(b.subrange(lo, hi)))
}

pub open spec fn sandisk_fields(r: SandiskReport, b: Seq<u8>) -> bool {
    &&& r.western_digital == (b[1] == 0x57)
    &&& r.manufacture_yymmdd@ == text_at(b, 2, 8)
    &&& r.health_status_percent_used == b[8]
    &&& r.feature_revision == b[11]
    &&& r.generation_identifier == b[14]
    &&& r.product_string@ == text_at(b, 49, 81)
    &&& r.power_on_times == word32(0, 0, b[25], b[26])
    &&& r.tag@ == text_at(b, 405, 432)
}

impl SandiskSDParser {
    pub fn decode(&self, block: &SDBlock) -> (r: SandiskReport)
        ensures
            sandisk_fields(r, block@),
    {
        SandiskReport {
            western_digital: block[1] == 0x57,
            manufacture_yymmdd: block_text(block, 2, 8),
            health_status_percent_used: block[8],
            feature_revision: block[11],
            generation_identifier: block[14],
            product_string: block_text(block, 49, 81),
            power_on_times: nb32(0, 0, block[25], block[26]),
            tag: block_text(block, 405, 432),
        }
    }
}

impl SDParser for SandiskSDParser {
    fn check_signature(&self, command: Cmd56, block: &SDBlock) -> (r: bool)
        ensures
            r == claims(Decoder::Sandisk, command, block@),
    {
        block[0] == 0x44 && (block[1] == 0x53 || block[1] == 0x57)
    }

    fn dump_data(&self, block: &SDBlock) -> (r: Report)
        ensures
            decodes(Decoder::Sandisk, block@, r),
    {
        Report::Sandisk(self.decode(block))
    }
}

/// Health block of Micron cards.
pub struct MicronReport {
    pub percentage_step_utilization: u8,
    pub tlc_area_utilization: u8,
    pub slc_area_utilization: u8,
}

pub open spec fn micron_fields(r: MicronReport, b: Seq<u8>) -> bool {
    &&& r.percentage_step_utilization == b[7]
    &&& r.tlc_area_utilization == b[8]
    &&& r.slc_area_utilization == b[9]
}

impl MicronSDParser {
    pub fn decode(&self, block: &SDBlock) -> (r: MicronReport)
        ensures
            micron_fields(r, block@),
    {
        MicronReport {
            percentage_step_utilization: block[7],
            tlc_area_utilization: block[8],
            slc_area_utilization: block[9],
        }
    }
}

impl SDParser for MicronSDParser {
    fn check_signature(&self, command: Cmd56, block: &SDBlock) -> (r: bool)
        ensures
            r == claims(Decoder::Micron, command, block@),
    {
        block[0] == 0x4d && block[1] == 0x45
    }

    fn dump_data(&self, block: &SDBlock) -> (r: Report)
        ensures
            decodes(Decoder::Micron, block@, r),
    {
        Report::Micron(self.decode(block))
    }
}

/// Health block of Swissbit cards; words are big-endian.
pub struct SwissbitReport {
    pub fw_version: Vec<u8>,
    pub user_area_rated_cycles: u32,
    pub user_area_max_cycle_cnt: u32,
    pub user_area_total_cycle_cnt: u32,
    pub user_area_average_cycle_cnt: u32,
    pub system_area_max_cycle_cnt: u32,
    pub system_area_total_cycle_cnt: u32,
    pub system_area_average_cycle_cnt: u32,
    pub remaining_lifetime_percent: u8,
    pub speed_mode: SpeedMode,
    pub bus_width: BusWidth,
    pub user_area_spare_blocks_cnt: u32,
    pub system_area_spare_blocks_cnt: u32,
    pub user_area_runtime_bad_blocks_cnt: u32,
    pub system_area_runtime_bad_blocks_cnt: u32,
    pub user_area_refresh_cnt: u32,
    pub system_area_refresh_cnt: u32,
    pub interface_crc_cnt: u32,
    pub power_cycle_cnt: u32,
}

pub open spec fn swissbit_fields(r: SwissbitReport, b: Seq<u8>) -> bool {
    &&& r.fw_version@ == b.subrange(32, 48)
    &&& r.user_area_rated_cycles == be32_at(b, 48)
    &&& r.user_area_max_cycle_cnt == be32_at(b, 52)
    &&& r.user_area_total_cycle_cnt == be32_at(b, 56)
    &&& r.user_area_average_cycle_cnt == be32_at(b, 60)
    &&& r.system_area_max_cycle_cnt == be32_at(b, 68)
    &&& r.system_area_total_cycle_cnt == be32_at(b, 72)
    &&& r.system_area_average_cycle_cnt == be32_at(b, 76)
    &&& r.remaining_lifetime_percent == b[80]
    &&& r.speed_mode == speed_mode_of(b[86])
    &&& r.bus_width == bus_width_of(b[87])
    &&& r.user_area_spare_blocks_cnt == be32_at(b, 88)
    &&& r.system_area_spare_blocks_cnt == be32_at(b, 92)
    &&& r.user_area_runtime_bad_blocks_cnt == be32_at(b, 96)
    &&& r.system_area_runtime_bad_blocks_cnt == be32_at(b, 100)
    &&& r.user_area_refresh_cnt == be32_at(b, 104)
    &&& r.system_area_refresh_cnt == be32_at(b, 108)
    &&& r.interface_crc_cnt == be32_at(b, 112)
    &&& r.power_cycle_cnt == be32_at(b, 116)
}

/// The big-endian 32-bit word at `offset` of `block`.
fn be32(block: &SDBlock, offset: usize) -> (r: u32)
    requires
        offset + 4 <= block@.len(),
    ensures
        r == be32_at(block@, offset as int),
{
    nb32(block[offset], block[offset + 1], block[offset + 2], block[offset + 3])
}

/// The big-endian 16-bit word at `offset` of `block`.
fn be16(block: &SDBlock, offset: usize) -> (r: u16)
    requires
        offset + 2 <= block@.len(),
    ensures
        r == be16_at(block@, offset as int),
{
    nb16(block[offset], block[offset + 1])
}

impl SwissbitSDParser {
    pub fn decode(&self, block: &SDBlock) -> (r: SwissbitReport)
        ensures
            swissbit_fields(r, block@),
    {
        SwissbitReport {
            fw_version: block_range(block, 32, 48),
            user_area_rated_cycles: be32(block, 48),
            user_area_max_cycle_cnt: be32(block, 52),
            user_area_total_cycle_cnt: be32(block, 56),
            user_area_average_cycle_cnt: be32(block, 60),
            system_area_max_cycle_cnt: be32(block, 68),
            system_area_total_cycle_cnt: be32(block, 72),
            system_area_average_cycle_cnt: be32(block, 76),
            remaining_lifetime_percent: block[80],
            speed_mode: SpeedMode::from_byte(block[86]),
            bus_width: BusWidth::from_byte(block[87]),
            user_area_spare_blocks_cnt: be32(block, 88),
            system_area_spare_blocks_cnt: be32(block, 92),
            user_area_runtime_bad_blocks_cnt: be32(block, 96),
            system_area_runtime_bad_blocks_cnt: be32(block, 100),
            user_area_refresh_cnt: be32(block, 104),
            system_area_refresh_cnt: be32(block, 108),
            interface_crc_cnt: be32(block, 112),
            power_cycle_cnt: be32(block, 116),
        }
    }
}

impl SDParser for SwissbitSDParser {
    fn check_signature(&self, command: Cmd56, block: &SDBlock) -> (r: bool)
        ensures
            r == claims(Decoder::Swissbit, command, block@),
    {
        block[0] == 0x53 && block[1] == 0x77
    }

    fn dump_data(&self, block: &SDBlock) -> (r: Report)
        ensures
            decodes(Decoder::Swissbit, block@, r),
    {
        Report::Swissbit(self.decode(block))
    }
}

/// Health block of Transcend cards; the byte order differs from field to
/// field.
pub struct TranscendReport {
    pub signature: Vec<u8>,
    pub secured_mode: u8,
    pub bus_width: BusWidth,
    pub speed_class: SpeedClass,
    pub uhs_speed_grade: UhsGrade,
    pub new_bad_blocks_cnt: u8,
    pub runtime_spare_blocks_cnt: u8,
    pub abnormal_power_loss: u32,
    pub minimum_erase_cnt: u32,
    pub maximum_erase_cnt: u32,
    pub average_erase_cnt: u32,
    pub remaining_card_life: u8,
    pub total_write_crc_cnt: u32,
    pub power_cycle_cnt: u32,
    pub nand_flash_id: Vec<u8>,
    pub ic: Vec<u8>,
    pub fw_version: Vec<u8>,
}

pub open spec fn transcend_fields(r: TranscendReport, b: Seq<u8>) -> bool {
    &&& r.signature@ == b.subrange(0, 2)
    &&& r.secured_mode == b[11]
    &&& r.bus_width == bus_width_of(b[16])
    &&& r.speed_class == speed_class_of(b[18])
    &&& r.uhs_speed_grade == uhs_grade_of(b[19])
    &&& r.new_bad_blocks_cnt == b[26]
    &&& r.runtime_spare_blocks_cnt == b[27]
    &&& r.abnormal_power_loss == le32_at(b, 28)
    &&& r.minimum_erase_cnt == le32_at(b, 32)
    &&& r.maximum_erase_cnt == be32_at(b, 36)
    &&& r.average_erase_cnt == le32_at(b, 44)
    &&& r.remaining_card_life == b[70]
    &&& r.total_write_crc_cnt == be32_at(b, 72)
    &&& r.power_cycle_cnt == word32(0, 0, b[76], b[77])
    &&& r.nand_flash_id@ == b.subrange(80, 86)
    &&& r.ic@ == b.subrange(87, 95)
    &&& r.fw_version@ == b.subrange(128, 134)
}

impl TranscendSDParser {
    pub fn decode(&self, block: &SDBlock) -> (r: TranscendReport)
        ensures
            transcend_fields(r, block@),
    {
        TranscendReport {
            signature: block_range(block, 0, 2),
            secured_mode: block[11],
            bus_width: BusWidth::from_byte(block[16]),
            speed_class: SpeedClass::from_byte(block[18]),
            uhs_speed_grade: UhsGrade::from_byte(block[19]),
            new_bad_blocks_cnt: block[26],
            runtime_spare_blocks_cnt: block[27],
            abnormal_power_loss: nb32(block[31], block[30], block[29], block[28]),
            minimum_erase_cnt: nb32(block[35], block[34], block[33], block[32]),
            maximum_erase_cnt: nb32(block[36], block[37], block[38], block[39]),
            average_erase_cnt: nb32(block[47], block[46], block[45], block[44]),
            remaining_card_life: block[70],
            total_write_crc_cnt: nb32(block[72], block[73], block[74], block[75]),
            power_cycle_cnt: nb32(0, 0, block[76], block[77]),
            nand_flash_id: block_range(block, 80, 86),
            ic: block_range(block, 87, 95),
            fw_version: block_range(block, 128, 134),
        }
    }
}

impl SDParser for TranscendSDParser {
    fn check_signature(&self, command: Cmd56, block: &SDBlock) -> (r: bool)
        ensures
            r == claims(Decoder::Transcend, command, block@),
    {
        block[0] == 0x54 && block[1] == 0x72
    }

    fn dump_data(&self, block: &SDBlock) -> (r: Report)
        ensures
            decodes(Decoder::Transcend, block@, r),
    {
        Report::Transcend(self.decode(block))
    }
}

/// Health block of ADATA cards; words are big-endian.
pub struct ADataReport {
    pub signature: Vec<u8>,
    pub factory_bad_block_cnt: u16,
    pub grown_bad_block_cnt: u8,
    pub spare_slc_block_cnt: u8,
    pub spare_block_cnt: u16,
    pub data_area_minimum_erase_cnt: u32,
    pub data_area_maximum_erase_cnt: u32,
    pub data_area_total_erase_cnt: u32,
    pub data_area_average_erase_cnt: u32,
    pub system_area_minimum_erase_cnt: u32,
    pub system_area_maximum_erase_cnt: u32,
    pub system_area_total_erase_cnt: u32,
    pub system_area_average_erase_cnt: u32,
    /// In MB.
    pub raw_card_capacity: u32,
    pub pe_cycle_life: u16,
    pub remaining_life: u8,
    pub power_cycle_cnt: u32,
    pub flash_id: Vec<u8>,
    pub controller: Vec<u8>,
    pub tlc_read_reclaim: u16,
    pub slc_read_reclaim: u16,
    pub firmware_block_refresh: u16,
    pub tlc_read_threshold: u32,
    pub slc_read_threshold: u32,
    pub fw_version: Vec<u8>,
    pub tlc_refresh_cnt: u32,
    /// Assembled from bytes 140, 141, 143 and 144: byte 142 is passed over.
    pub slc_refresh_cnt: u32,
}

pub open spec fn adata_fields(r: ADataReport, b: Seq<u8>) -> bool {
    &&& r.signature@ == b.subrange(0, 2)
    &&& r.factory_bad_block_cnt == be16_at(b, 24)
    &&& r.grown_bad_block_cnt == b[26]
    &&& r.spare_slc_block_cnt == b[27]
    &&& r.spare_block_cnt == be16_at(b, 30)
    &&& r.data_area_minimum_erase_cnt == be32_at(b, 32)
    &&& r.data_area_maximum_erase_cnt == be32_at(b, 36)
    &&& r.data_area_total_erase_cnt == be32_at(b, 40)
    &&& r.data_area_average_erase_cnt == be32_at(b, 44)
    &&& r.system_area_minimum_erase_cnt == be32_at(b, 48)
    &&& r.system_area_maximum_erase_cnt == be32_at(b, 52)
    &&& r.system_area_total_erase_cnt == be32_at(b, 56)
    &&& r.system_area_average_erase_cnt == be32_at(b, 60)
    &&& r.raw_card_capacity == be32_at(b, 64)
    &&& r.pe_cycle_life == be16_at(b, 68)
    &&& r.remaining_life == b[70]
    &&& r.power_cycle_cnt == be32_at(b, 76)
    &&& r.flash_id@ == b.subrange(80, 87)
    &&& r.controller@ == b.subrange(88, 94)
    &&& r.tlc_read_reclaim == be16_at(b, 96)
    &&& r.slc_read_reclaim == be16_at(b, 98)
    &&& r.firmware_block_refresh == be16_at(b, 100)
    &&& r.tlc_read_threshold == be32_at(b, 104)
    &&& r.slc_read_threshold == be32_at(b, 108)
    &&& r.fw_version@ == b.subrange(128, 134)
    &&& r.tlc_refresh_cnt == be32_at(b, 136)
    &&& r.slc_refresh_cnt == word32(b[140], b[141], b[143], b[144])
}

impl ADataSDParser {
    pub fn decode(&self, block: &SDBlock) -> (r: ADataReport)
        ensures
            adata_fields(r, block@),
    {
        ADataReport {
            signature: block_range(block, 0, 2),
            factory_bad_block_cnt: be16(block, 24),
            grown_bad_block_cnt: block[26],
            spare_slc_block_cnt: block[27],
            spare_block_cnt: be16(block, 30),
            data_area_minimum_erase_cnt: be32(block, 32),
            data_area_maximum_erase_cnt: be32(block, 36),
            data_area_total_erase_cnt: be32(block, 40),
            data_area_average_erase_cnt: be32(block, 44),
            system_area_minimum_erase_cnt: be32(block, 48),
            system_area_maximum_erase_cnt: be32(block, 52),
            system_area_total_erase_cnt: be32(block, 56),
            system_area_average_erase_cnt: be32(block, 60),
            raw_card_capacity: be32(block, 64),
            pe_cycle_life: be16(block, 68),
            remaining_life: block[70],
            power_cycle_cnt: be32(block, 76),
            flash_id: block_range(block, 80, 87),
            controller: block_range(block, 88, 94),
            tlc_read_reclaim: be16(block, 96),
            slc_read_reclaim: be16(block, 98),
            firmware_block_refresh: be16(block, 100),
            tlc_read_threshold: be32(block, 104),
            slc_read_threshold: be32(block, 108),
            fw_version: block_range(block, 128, 134),
            tlc_refresh_cnt: be32(block, 136),
            slc_refresh_cnt: nb32(block[140], block[141], block[143], block[144]),
        }
    }
}

impl SDParser for ADataSDParser {
    fn check_signature(&self, command: Cmd56, block: &SDBlock) -> (r: bool)
        ensures
            r == claims(Decoder::AData, command, block@),
    {
        block[0] == 0x09 && block[1] == 0x41
    }

    fn dump_data(&self, block: &SDBlock) -> (r: Report)
        ensures
            decodes(Decoder::AData, block@, r),
    {
        Report::AData(self.decode(block))
    }
}

/// Health block of Innodisk cards, answered to the Longsys M9H selector;
/// erase counts are little-endian.
pub struct InnodiskReport {
    pub signature: Vec<u8>,
    pub bus_width: BusWidth,
    pub speed_class: SpeedClass,
    pub uhs_speed_grade: UhsGrade,
    pub total_spare_blocks_cnt: u8,
    pub factory_bad_blocks_cnt: u8,
    pub runtime_bad_blocks_cnt: u8,
    /// In percent.
    pub spare_utilization_rate: u8,
    pub spor_failure_cnt: u32,
    pub minimum_erase_cnt: u32,
    pub maximum_erase_cnt: u32,
    pub total_erase_cnt: u32,
    pub average_erase_cnt: u32,
    pub fw_version: Vec<u8>,
}

pub open spec fn innodisk_fields(r: InnodiskReport, b: Seq<u8>) -> bool {
    &&& r.signature@ == b.subrange(0, 2)
    &&& r.bus_width == bus_width_of(b[16])
    &&& r.speed_class == speed_class_of(b[18])
    &&& r.uhs_speed_grade == uhs_grade_of(b[19])
    &&& r.total_spare_blocks_cnt == b[24]
    &&& r.factory_bad_blocks_cnt == b[25]
    &&& r.runtime_bad_blocks_cnt == b[26]
    &&& r.spare_utilization_rate == b[27]
    &&& r.spor_failure_cnt == be32_at(b, 28)
    &&& r.minimum_erase_cnt == le32_at(b, 32)
    &&& r.maximum_erase_cnt == le32_at(b, 36)
    &&& r.total_erase_cnt == le32_at(b, 40)
    &&& r.average_erase_cnt == le32_at(b, 44)
    &&& r.fw_version@ == b.subrange(53, 60)
}

impl InnodiskSDParser {
    pub fn decode(&self, block: &SDBlock) -> (r: InnodiskReport)
        ensures
            innodisk_fields(r, block@),
    {
        InnodiskReport {
            signature: block_range(block, 0, 2),
            bus_width: BusWidth::from_byte(block[16]),
            speed_class: SpeedClass::from_byte(block[18]),
            uhs_speed_grade: UhsGrade::from_byte(block[19]),
            total_spare_blocks_cnt: block[24],
            factory_bad_blocks_cnt: block[25],
            runtime_bad_blocks_cnt: block[26],
            spare_utilization_rate: block[27],
            spor_failure_cnt: be32(block, 28),
            minimum_erase_cnt: nword_to_u32(block, 32),
            maximum_erase_cnt: nword_to_u32(block, 36),
            total_erase_cnt: nword_to_u32(block, 40),
            average_erase_cnt: nword_to_u32(block, 44),
            fw_version: block_range(block, 53, 60),
        }
    }
}

impl SDParser for InnodiskSDParser {
    fn check_signature(&self, command: Cmd56, block: &SDBlock) -> (r: bool)
        ensures
            r == claims(Decoder::Innodisk, command, block@),
    {
        command == Cmd56::LongsysM9H && block[0] == 0x4c && block[1] == 0x58
    }

    fn dump_data(&self, block: &SDBlock) -> (r: Report)
        ensures
            decodes(Decoder::Innodisk, block@, r),
    {
        Report::Innodisk(self.decode(block))
    }
}

/// The generic health block of SMART-capable cards.
pub struct SmartDataReport {
    pub flash_id: Vec<u8>,
    pub ic_version: Vec<u8>,
    pub fw_version: Vec<u8>,
    pub ce_number: u8,
    pub spare_block_count: u16,
    /// The sum of bytes 32 to 62.
    pub initial_bad_block_count: u16,
    /// In hundredths of a percent.
    pub good_block_rate_percent: u16,
    pub total_erase_count: u32,
    /// In hundredths of a percent; both bytes of the word are byte 97.
    pub endurance_remain_life_percent: u16,
    pub avg_erase_count: u32,
    pub min_erase_count: u32,
    pub max_erase_count: u32,
    pub power_up_count: u32,
    pub abnormal_power_off_count: u16,
    pub total_refresh_count: u16,
    pub product_marker: Vec<u8>,
    /// The sum of bytes 184 to 214.
    pub later_bad_block_count: u16,
}

pub open spec fn smartdata_fields(r: SmartDataReport, b: Seq<u8>) -> bool {
    &&& r.flash_id@ == b.subrange(0, 9)
    &&& r.ic_version@ == b.subrange(9, 11)
    &&& r.fw_version@ == b.subrange(11, 13)
    &&& r.ce_number == b[14]
    &&& r.spare_block_count == word16(b[17], b[16])
    &&& r.initial_bad_block_count == byte_sum(b, 32, 63)
    &&& r.good_block_rate_percent == be16_at(b, 64)
    &&& r.total_erase_count == be32_at(b, 80)
    &&& r.endurance_remain_life_percent == word16(b[97], b[97])
    &&& r.avg_erase_count == word32(b[104], b[105], b[98], b[99])
    &&& r.min_erase_count == word32(b[106], b[107], b[100], b[101])
    &&& r.max_erase_count == word32(b[108], b[109], b[102], b[103])
    &&& r.power_up_count == be32_at(b, 112)
    &&& r.abnormal_power_off_count == be16_at(b, 128)
    &&& r.total_refresh_count == be16_at(b, 160)
    &&& r.product_marker@ == b.subrange(176, 184)
    &&& r.later_bad_block_count == byte_sum(b, 184, 215)
}

impl SmartDataSDParser {
    pub fn decode(&self, block: &SDBlock) -> (r: SmartDataReport)
        ensures
            smartdata_fields(r, block@),
    {
        SmartDataReport {
            flash_id: block_range(block, 0, 9),
            ic_version: block_range(block, 9, 11),
            fw_version: block_range(block, 11, 13),
            ce_number: block[14],
            spare_block_count: nb16(block[17], block[16]),
            initial_bad_block_count: block_sum(block, 32, 63),
            good_block_rate_percent: be16(block, 64),
            total_erase_count: be32(block, 80),
            endurance_remain_life_percent: nb16(block[97], block[97]),
            avg_erase_count: nb32(block[104], block[105], block[98], block[99]),
            min_erase_count: nb32(block[106], block[107], block[100], block[101]),
            max_erase_count: nb32(block[108], block[109], block[102], block[103]),
            power_up_count: be32(block, 112),
            abnormal_power_off_count: be16(block, 128),
            total_refresh_count: be16(block, 160),
            product_marker: block_range(block, 176, 184),
            later_bad_block_count: block_sum(block, 184, 215),
        }
    }
}

impl SDParser for SmartDataSDParser {
    fn check_signature(&self, command: Cmd56, block: &SDBlock) -> (r: bool)
        ensures
            r == claims(Decoder::SmartData, command, block@),
    {
        (block[0] != 0x70 || block[1] != 0x58) && (block[0] != 0x44 || (block[1] != 0x53
            || block[1] != 0x57))
    }

    fn dump_data(&self, block: &SDBlock) -> (r: Report)
        ensures
            decodes(Decoder::SmartData, block@, r),
    {
        Report::SmartData(self.decode(block))
    }
}

impl SDParser for Decoder {
    fn check_signature(&self, command: Cmd56, block: &SDBlock) -> (r: bool)
        ensures
            r == claims(*self, command, block@),
    {
        match self {
            Decoder::Longsys => LongsysSDParser.check_signature(command, block),
            Decoder::Sandisk => SandiskSDParser.check_signature(command, block),
            Decoder::Micron => MicronSDParser.check_signature(command, block),
            Decoder::Swissbit => SwissbitSDParser.check_signature(command, block),
            Decoder::Transcend => TranscendSDParser.check_signature(command, block),
            Decoder::AData => ADataSDParser.check_signature(command, block),
            Decoder::Innodisk => InnodiskSDParser.check_signature(command, block),
            Decoder::SmartData => SmartDataSDParser.check_signature(command, block),
        }
    }

    fn dump_data(&self, block: &SDBlock) -> (r: Report)
        ensures
            decodes(*self, block@, r),
    {
        match self {
            Decoder::Longsys => LongsysSDParser.dump_data(block),
            Decoder::Sandisk => SandiskSDParser.dump_data(block),
            Decoder::Micron => MicronSDParser.dump_data(block),
            Decoder::Swissbit => SwissbitSDParser.dump_data(block),
            Decoder::Transcend => TranscendSDParser.dump_data(block),
            Decoder::AData => ADataSDParser.dump_data(block),
            Decoder::Innodisk => InnodiskSDParser.dump_data(block),
            Decoder::SmartData => SmartDataSDParser.dump_data(block),
        }
    }
}

/// The vendor decoders in the order in which they are tried.
pub open spec fn registry() -> Seq<Decoder> {
    seq![
        Decoder::Longsys,
        Decoder::Sandisk,
        Decoder::Micron,
        Decoder::Swissbit,
        Decoder::Transcend,
        Decoder::AData,
        Decoder::Innodisk,
    ]
}

/// The first decoder of `reg` that claims the block `b` answered to
/// `command`, if any does.
pub open spec fn first_claim(reg: Seq<Decoder>, command: Cmd56, b: Seq<u8>) -> Option<Decoder>
    decreases reg.len(),
{
    if reg.len() == 0 {
        None
    } else if claims(reg[0], command, b) {
        Some(reg[0])
    } else {
        first_claim(reg.drop_first(), command, b)
    }
}

/// The vendor decoders in the order in which they are tried.
pub fn get_parsers() -> (r: Vec<Decoder>)
    ensures
        r@ == registry(),
{
    let r = vec![
        Decoder::Longsys,
        Decoder::Sandisk,
        Decoder::Micron,
        Decoder::Swissbit,
        Decoder::Transcend,
        Decoder::AData,
        Decoder::Innodisk,
    ];
    assert(r@ =~= registry());
    r
}

/// The generic decoder, for blocks that no vendor decoder claims.
pub fn get_smartdata_parser() -> (r: Decoder)
    ensures
        r == Decoder::SmartData,
{
    Decoder::SmartData
}

/// The decoder that reads `block`, answered to `command`: the first of
/// the registry whose signature test holds, or none.
pub fn dispatch(command: Cmd56, block: &SDBlock) -> (r: Option<Decoder>)
    ensures
        r == first_claim(registry(), command, block@),
{
    let parsers = get_parsers();
    let mut i: usize = 0;
    assert(parsers@.subrange(0, parsers@.len() as int) =~= parsers@);
    while i < parsers.len()
        invariant
            i <= parsers@.len(),
            parsers@ == registry(),
            first_claim(registry(), command, block@) == first_claim(
                parsers@.subrange(i as int, parsers@.len() as int),
                command,
                block@,
            ),
        decreases parsers@.len() - i,
    {
        let ghost rest = parsers@.subrange(i as int, parsers@.len() as int);
        assert(rest[0] == parsers@[i as int]);
        if parsers[i].check_signature(command, block) {
            return Some(parsers[i]);
        }
        assert(rest.drop_first() =~= parsers@.subrange(i + 1, parsers@.len() as int));
        i = i + 1;
    }
    None
}

/// First match wins: where the decoder at `i` claims the block and none
/// before it does, dispatch over `reg` picks that decoder, whatever the
/// decoders after it say.
pub proof fn lemma_first_match_wins(reg: Seq<Decoder>, command: Cmd56, b: Seq<u8>, i: int)
    requires
        0 <= i < reg.len(),
        claims(reg[i], command, b),
        forall|j: int| 0 <= j < i ==> !claims(#[trigger] reg[j], command, b),
    ensures
        first_claim(reg, command, b) == Some(reg[i]),
    decreases i,
{
    if i > 0 {
        assert(!claims(reg[0], command, b));
        let rest = reg.drop_first();
        assert forall|j: int| 0 <= j < i - 1 implies !claims(#[trigger] rest[j], command, b) by {
            assert(rest[j] == reg[j + 1]);
        }
        lemma_first_match_wins(rest, command, b, i - 1);
    }
}

/// A block that starts with the Longsys signature `70 58` is read by the
/// Longsys decoder, whichever selector it answered and whatever the later
/// decoders of the registry would say of it.
pub proof fn lemma_longsys_signature_wins(command: Cmd56, b: Seq<u8>)
    requires
        b.len() >= 2,
        b[0] == 0x70,
        b[1] == 0x58,
    ensures
        first_claim(registry(), command, b) == Some(Decoder::Longsys),
{
    lemma_first_match_wins(registry(), command, b, 0);
}

/// A block that starts with `4C 58` is read by the Innodisk decoder when it
/// answered the Longsys M9H selector; after any other selector no vendor
/// decoder claims it, and the generic decoder is left.
pub proof fn lemma_innodisk_needs_m9h(command: Cmd56, b: Seq<u8>)
    requires
        b.len() >= 2,
        b[0] == 0x4c,
        b[1] == 0x58,
    ensures
        claims(Decoder::Innodisk, command, b) <==> command == Cmd56::LongsysM9H,
        command == Cmd56::LongsysM9H ==> first_claim(registry(), command, b) == Some(
            Decoder::Innodisk,
        ),
        command != Cmd56::LongsysM9H ==> first_claim(registry(), command, b) == None::<Decoder>,
        claims(Decoder::SmartData, command, b),
{
    reveal_with_fuel(first_claim, 8);
}

} // verus!
