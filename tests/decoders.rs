use sdmon::bytes::{nb16, nb32, nb64, nword_to_u32, nword_to_u64};
use sdmon::fields::{
    ascii_text, block_range, block_sum, block_text, sanitize_ascii, BusWidth, SpeedClass,
    SpeedMode, UhsGrade,
};
use sdmon::mmc_ioc_cmd::{Cmd56, SDBlock, SD_BLOCK_SIZE};
use sdmon::parsers::{
    dispatch, get_parsers, get_smartdata_parser, ADataSDParser, Decoder, InnodiskSDParser,
    LongsysSDParser, MicronSDParser, Report, SDParser, SandiskSDParser, SmartDataSDParser,
    SwissbitSDParser, TranscendSDParser,
};

const ALL: [Cmd56; 7] = [
    Cmd56::Sandisk,
    Cmd56::Micron,
    Cmd56::Swissbit,
    Cmd56::Transcend,
    Cmd56::LongsysM9H,
    Cmd56::Atp,
    Cmd56::AData,
];

fn block_with(sig0: u8, sig1: u8) -> SDBlock {
    let mut b: SDBlock = [0; SD_BLOCK_SIZE];
    b[0] = sig0;
    b[1] = sig1;
    b
}

/// A block whose byte at offset i is i mod 256.
fn counting_block() -> SDBlock {
    let mut b: SDBlock = [0; SD_BLOCK_SIZE];
    for (i, x) in b.iter_mut().enumerate() {
        *x = i as u8;
    }
    b
}

#[test]
fn words_most_significant_byte_first() {
    assert_eq!(nb16(0x12, 0x34), 0x1234);
    assert_eq!(nb16(0xff, 0xff), 0xffff);
    assert_eq!(nb32(0x12, 0x34, 0x56, 0x78), 0x12345678);
    assert_eq!(nb32(0, 0, 0x01, 0x02), 0x0102);
    assert_eq!(nb64(1, 2, 3, 4, 5, 6, 7, 8), 0x0102030405060708);
    assert_eq!(nb64(0xff, 0, 0, 0, 0, 0, 0, 0x01), 0xff00000000000001);
}

#[test]
fn block_words_little_endian() {
    let b = counting_block();
    assert_eq!(nword_to_u32(&b, 4), 0x07060504);
    assert_eq!(nword_to_u64(&b, 24), 0x1f1e1d1c1b1a1918);
}

#[test]
fn sanitizer_replaces_every_unprintable_byte() {
    let all: Vec<u8> = (0..=255u8).collect();
    let clean = sanitize_ascii(&all);
    assert_eq!(clean.len(), 256);
    for b in 0..=255u8 {
        let expected = if (0x20..=0x7e).contains(&b) { b } else { b'_' };
        assert_eq!(clean[b as usize], expected, "byte {:#04x}", b);
    }
    let text = ascii_text(&all);
    assert_eq!(text.len(), 256);
    assert_eq!(text.as_bytes(), clean.as_slice());
}

#[test]
fn ascii_text_turns_bytes_into_characters() {
    assert_eq!(ascii_text(&[0x41, 0x00, 0x7e, 0x7f, 0x80, 0xff, 0x20]), "A_~___ ");
    assert_eq!(ascii_text(&[]), "");
}

#[test]
fn block_pieces() {
    let b = counting_block();
    assert_eq!(block_range(&b, 30, 34), vec![30, 31, 32, 33]);
    assert_eq!(block_range(&b, 7, 7), Vec::<u8>::new());
    assert_eq!(block_text(&b, 0x41, 0x44), "ABC");
    assert_eq!(block_text(&b, 0x1e, 0x22), "__ !");
    assert_eq!(block_sum(&b, 1, 5), 1 + 2 + 3 + 4);
    assert_eq!(block_sum(&[0xff; SD_BLOCK_SIZE], 0, 257), 255 * 257);
}

#[test]
fn bus_width_labels() {
    assert_eq!(BusWidth::from_byte(0x00), BusWidth::OneBit);
    assert_eq!(BusWidth::from_byte(0x00).label(), "1 bit");
    assert_eq!(BusWidth::from_byte(0x10), BusWidth::FourBits);
    assert_eq!(BusWidth::from_byte(0x10).label(), "4 bits");
    assert_eq!(BusWidth::from_byte(0x22), BusWidth::Unknown(0x22));
    assert!(BusWidth::from_byte(0x22).label().contains("unknown"));
}

#[test]
fn speed_mode_labels() {
    let cases = [
        (0x00, "Default speed"),
        (0x01, "High speed"),
        (0x10, "SDR12 speed"),
        (0x11, "SDR25 speed"),
        (0x12, "SDR50 speed"),
        (0x14, "DDR50 speed"),
        (0x18, "SDR104 speed"),
    ];
    for (b, label) in cases {
        assert_eq!(SpeedMode::from_byte(b).label(), label);
    }
    assert_eq!(SpeedMode::from_byte(0x13), SpeedMode::Unknown(0x13));
    assert_eq!(SpeedMode::from_byte(0x13).label(), "unknown");
}

#[test]
fn speed_class_and_uhs_labels() {
    assert_eq!(SpeedClass::from_byte(0).label(), "Class 0");
    assert_eq!(SpeedClass::from_byte(1).label(), "Class 2");
    assert_eq!(SpeedClass::from_byte(2).label(), "Class 4");
    assert_eq!(SpeedClass::from_byte(3).label(), "Class 6");
    assert_eq!(SpeedClass::from_byte(4).label(), "Class 10");
    assert_eq!(SpeedClass::from_byte(5), SpeedClass::Unknown(5));
    assert_eq!(UhsGrade::from_byte(0).label(), "Less than 10MB/s");
    assert_eq!(UhsGrade::from_byte(1).label(), "10MB/s and higher");
    assert_eq!(UhsGrade::from_byte(3).label(), "30MB/s and higher");
    assert_eq!(UhsGrade::from_byte(2), UhsGrade::Unknown(2));
    assert_eq!(UhsGrade::from_byte(2).label(), "unknown");
}

#[test]
fn registry_order() {
    assert_eq!(
        get_parsers(),
        vec![
            Decoder::Longsys,
            Decoder::Sandisk,
            Decoder::Micron,
            Decoder::Swissbit,
            Decoder::Transcend,
            Decoder::AData,
            Decoder::Innodisk,
        ]
    );
    assert_eq!(get_smartdata_parser(), Decoder::SmartData);
}

#[test]
fn signatures_select_their_decoders() {
    let cases = [
        (0x70, 0x58, Decoder::Longsys),
        (0x44, 0x53, Decoder::Sandisk),
        (0x44, 0x57, Decoder::Sandisk),
        (0x4d, 0x45, Decoder::Micron),
        (0x53, 0x77, Decoder::Swissbit),
        (0x54, 0x72, Decoder::Transcend),
        (0x09, 0x41, Decoder::AData),
    ];
    for (s0, s1, d) in cases {
        for c in ALL {
            assert_eq!(dispatch(c, &block_with(s0, s1)), Some(d));
        }
    }
}

#[test]
fn longsys_signature_wins_over_later_decoders() {
    let b = block_with(0x70, 0x58);
    for c in ALL {
        assert_eq!(dispatch(c, &b), Some(Decoder::Longsys));
    }
    assert!(LongsysSDParser.check_signature(Cmd56::Atp, &b));
}

#[test]
fn innodisk_signature_needs_the_m9h_selector() {
    let b = block_with(0x4c, 0x58);
    assert!(InnodiskSDParser.check_signature(Cmd56::LongsysM9H, &b));
    assert_eq!(dispatch(Cmd56::LongsysM9H, &b), Some(Decoder::Innodisk));
    for c in ALL {
        if c != Cmd56::LongsysM9H {
            assert!(!InnodiskSDParser.check_signature(c, &b));
            assert_eq!(dispatch(c, &b), None);
        }
    }
    assert!(SmartDataSDParser.check_signature(Cmd56::Sandisk, &b));
}

#[test]
fn zero_block_goes_to_the_generic_decoder() {
    let b: SDBlock = [0; SD_BLOCK_SIZE];
    assert_eq!(dispatch(Cmd56::Sandisk, &b), None);
    for d in get_parsers() {
        assert!(!d.check_signature(Cmd56::Sandisk, &b));
    }
    assert!(get_smartdata_parser().check_signature(Cmd56::Sandisk, &b));
    let r = SmartDataSDParser.decode(&b);
    assert_eq!(r.initial_bad_block_count, 0);
    assert_eq!(r.later_bad_block_count, 0);
    assert_eq!(r.good_block_rate_percent, 0);
    assert_eq!(r.endurance_remain_life_percent, 0);
    assert_eq!(r.total_erase_count, 0);
}

#[test]
fn generic_signature_refuses_only_longsys() {
    assert!(!SmartDataSDParser.check_signature(Cmd56::Sandisk, &block_with(0x70, 0x58)));
    assert!(SmartDataSDParser.check_signature(Cmd56::Sandisk, &block_with(0x44, 0x53)));
    assert!(SmartDataSDParser.check_signature(Cmd56::Sandisk, &block_with(0x44, 0x57)));
    assert!(SmartDataSDParser.check_signature(Cmd56::Sandisk, &block_with(0x70, 0x57)));
}

#[test]
fn swissbit_block() {
    let mut b = counting_block();
    b[0] = 0x53;
    b[1] = 0x77;
    b[86] = 0x14;
    b[87] = 0x10;
    assert_eq!(dispatch(Cmd56::Swissbit, &b), Some(Decoder::Swissbit));
    let r = SwissbitSDParser.decode(&b);
    assert_eq!(r.fw_version, (32..48).collect::<Vec<u8>>());
    assert_eq!(r.user_area_rated_cycles, 0x30313233);
    assert_eq!(r.user_area_average_cycle_cnt, 0x3c3d3e3f);
    assert_eq!(r.system_area_max_cycle_cnt, 0x44454647);
    assert_eq!(r.remaining_lifetime_percent, 80);
    assert_eq!(r.speed_mode, SpeedMode::Ddr50);
    assert_eq!(r.bus_width, BusWidth::FourBits);
    assert_eq!(r.bus_width.label(), "4 bits");
    assert_eq!(r.user_area_spare_blocks_cnt, 0x58595a5b);
    assert_eq!(r.power_cycle_cnt, 0x74757677);
    b[87] = 0x22;
    let r = SwissbitSDParser.decode(&b);
    assert_eq!(r.bus_width, BusWidth::Unknown(0x22));
    assert!(r.bus_width.label().contains("unknown"));
    assert!(matches!(
        Decoder::Swissbit.dump_data(&b),
        Report::Swissbit(x) if x.bus_width == BusWidth::Unknown(0x22)
    ));
}

#[test]
fn longsys_block() {
    let b = counting_block();
    let r = LongsysSDParser.decode(&b);
    assert_eq!(r.smart_versions, 0x07060504);
    assert_eq!(r.size_of_dev_smart, 0x0f0e0d0c);
    assert_eq!(r.original_bad_block, 0x13121110);
    assert_eq!(r.increase_bad_block, 0x17161514);
    assert_eq!(r.write_all_sect_num, 0x1f1e1d1c1b1a1918);
    assert_eq!(r.replace_block_left, 0x23222120);
    assert_eq!(r.degree_of_wear, 0x27262524);
    assert_eq!(r.sector_total, 0x2b2a2928);
    assert_eq!(r.remain_life_time, 0x2f2e2d2c);
    assert_eq!(r.remain_wr_gb_num, 0x33323130);
    assert_eq!(r.life_time_total, 0x37363534);
    assert_eq!(r.phy_wr_gb_num, 0x3b3a3938);
}

#[test]
fn sandisk_block() {
    let mut b: SDBlock = [0; SD_BLOCK_SIZE];
    b[0] = 0x44;
    b[1] = 0x57;
    b[2..8].copy_from_slice(b"240131");
    b[8] = 3;
    b[11] = 4;
    b[14] = 5;
    b[25] = 0x01;
    b[26] = 0x02;
    b[49..53].copy_from_slice(b"SDSQ");
    b[405..409].copy_from_slice(&[b'T', 0x01, 0x7f, b'g']);
    b[431] = 0x90;
    let r = SandiskSDParser.decode(&b);
    assert!(r.western_digital);
    assert_eq!(r.manufacture_yymmdd, "240131");
    assert_eq!(r.health_status_percent_used, 3);
    assert_eq!(r.feature_revision, 4);
    assert_eq!(r.generation_identifier, 5);
    assert_eq!(r.power_on_times, 0x0102);
    assert_eq!(r.product_string.len(), 32);
    assert!(r.product_string.starts_with("SDSQ____"));
    assert_eq!(r.tag.len(), 27);
    assert!(r.tag.starts_with("T__g"));
    assert!(r.tag.ends_with('_'));
    b[1] = 0x53;
    assert!(!SandiskSDParser.decode(&b).western_digital);
}

#[test]
fn micron_block() {
    let b = counting_block();
    let r = MicronSDParser.decode(&b);
    assert_eq!(r.percentage_step_utilization, 7);
    assert_eq!(r.tlc_area_utilization, 8);
    assert_eq!(r.slc_area_utilization, 9);
    assert!(MicronSDParser.check_signature(Cmd56::Micron, &block_with(0x4d, 0x45)));
}

#[test]
fn transcend_block_mixes_byte_orders() {
    let mut b = counting_block();
    b[16] = 0x00;
    b[18] = 0x04;
    b[19] = 0x03;
    let r = TranscendSDParser.decode(&b);
    assert_eq!(r.signature, vec![0, 1]);
    assert_eq!(r.secured_mode, 11);
    assert_eq!(r.bus_width, BusWidth::OneBit);
    assert_eq!(r.speed_class, SpeedClass::Class10);
    assert_eq!(r.uhs_speed_grade, UhsGrade::From30);
    assert_eq!(r.new_bad_blocks_cnt, 26);
    assert_eq!(r.runtime_spare_blocks_cnt, 27);
    assert_eq!(r.abnormal_power_loss, 0x1f1e1d1c);
    assert_eq!(r.minimum_erase_cnt, 0x23222120);
    assert_eq!(r.maximum_erase_cnt, 0x24252627);
    assert_eq!(r.average_erase_cnt, 0x2f2e2d2c);
    assert_eq!(r.remaining_card_life, 70);
    assert_eq!(r.total_write_crc_cnt, 0x48494a4b);
    assert_eq!(r.power_cycle_cnt, 0x4c4d);
    assert_eq!(r.nand_flash_id, (80..86).collect::<Vec<u8>>());
    assert_eq!(r.ic, (87..95).collect::<Vec<u8>>());
    assert_eq!(r.fw_version, (128..134).collect::<Vec<u8>>());
}

#[test]
fn adata_block() {
    let b = counting_block();
    let r = ADataSDParser.decode(&b);
    assert_eq!(r.factory_bad_block_cnt, 0x1819);
    assert_eq!(r.grown_bad_block_cnt, 26);
    assert_eq!(r.spare_slc_block_cnt, 27);
    assert_eq!(r.spare_block_cnt, 0x1e1f);
    assert_eq!(r.data_area_minimum_erase_cnt, 0x20212223);
    assert_eq!(r.system_area_average_erase_cnt, 0x3c3d3e3f);
    assert_eq!(r.raw_card_capacity, 0x40414243);
    assert_eq!(r.pe_cycle_life, 0x4445);
    assert_eq!(r.remaining_life, 70);
    assert_eq!(r.power_cycle_cnt, 0x4c4d4e4f);
    assert_eq!(r.flash_id, (80..87).collect::<Vec<u8>>());
    assert_eq!(r.controller, (88..94).collect::<Vec<u8>>());
    assert_eq!(r.tlc_read_reclaim, 0x6061);
    assert_eq!(r.slc_read_reclaim, 0x6263);
    assert_eq!(r.firmware_block_refresh, 0x6465);
    assert_eq!(r.tlc_read_threshold, 0x68696a6b);
    assert_eq!(r.slc_read_threshold, 0x6c6d6e6f);
    assert_eq!(r.tlc_refresh_cnt, 0x88898a8b);
    assert_eq!(r.slc_refresh_cnt, 0x8c8d8f90);
}

#[test]
fn innodisk_block() {
    let mut b = counting_block();
    b[16] = 0x10;
    b[18] = 0x07;
    b[19] = 0x00;
    let r = InnodiskSDParser.decode(&b);
    assert_eq!(r.bus_width, BusWidth::FourBits);
    assert_eq!(r.speed_class, SpeedClass::Unknown(7));
    assert_eq!(r.uhs_speed_grade, UhsGrade::Below10);
    assert_eq!(r.total_spare_blocks_cnt, 24);
    assert_eq!(r.factory_bad_blocks_cnt, 25);
    assert_eq!(r.runtime_bad_blocks_cnt, 26);
    assert_eq!(r.spare_utilization_rate, 27);
    assert_eq!(r.spor_failure_cnt, 0x1c1d1e1f);
    assert_eq!(r.minimum_erase_cnt, 0x23222120);
    assert_eq!(r.maximum_erase_cnt, 0x27262524);
    assert_eq!(r.total_erase_cnt, 0x2b2a2928);
    assert_eq!(r.average_erase_cnt, 0x2f2e2d2c);
    assert_eq!(r.fw_version, (53..60).collect::<Vec<u8>>());
}

#[test]
fn generic_block() {
    let b = counting_block();
    let r = SmartDataSDParser.decode(&b);
    assert_eq!(r.flash_id, (0..9).collect::<Vec<u8>>());
    assert_eq!(r.ic_version, vec![9, 10]);
    assert_eq!(r.fw_version, vec![11, 12]);
    assert_eq!(r.ce_number, 14);
    assert_eq!(r.spare_block_count, 0x1110);
    assert_eq!(r.initial_bad_block_count, (32..63).sum::<u16>());
    assert_eq!(r.good_block_rate_percent, 0x4041);
    assert_eq!(r.total_erase_count, 0x50515253);
    assert_eq!(r.endurance_remain_life_percent, 0x6161);
    assert_eq!(r.avg_erase_count, 0x68696263);
    assert_eq!(r.min_erase_count, 0x6a6b6465);
    assert_eq!(r.max_erase_count, 0x6c6d6667);
    assert_eq!(r.power_up_count, 0x70717273);
    assert_eq!(r.abnormal_power_off_count, 0x8081);
    assert_eq!(r.total_refresh_count, 0xa0a1);
    assert_eq!(r.product_marker, (176..184).collect::<Vec<u8>>());
    assert_eq!(r.later_bad_block_count, (184..215).sum::<u16>());
}

#[test]
fn generic_sums_stop_before_the_last_byte_of_each_range() {
    let mut b: SDBlock = [0; SD_BLOCK_SIZE];
    b[32] = 1;
    b[62] = 2;
    b[63] = 100;
    b[184] = 3;
    b[214] = 4;
    b[215] = 100;
    let r = SmartDataSDParser.decode(&b);
    assert_eq!(r.initial_bad_block_count, 3);
    assert_eq!(r.later_bad_block_count, 7);
}
