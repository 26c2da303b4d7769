use sd_mmc::bits;
use sd_mmc::bus::spi::adtc::{command_frame, crc7};
use sd_mmc::bus::spi::response::{
    check_r1, check_token, check_write_response, BitField, ErrorToken, ErrorTokenField, Field,
    R1Response, R1ResponseField, ReadToken, ResponseCode, WriteToken, BLOCK_READ_DATA_TOKEN,
};
use sd_mmc::card::version::{CardVersion, MmcVersion, SdCardVersion};
use sd_mmc::card::{Type, MMC_TRANS_MULTIPLIERS, SD_MMC_TRANS_UNITS, SD_TRANS_MULTIPLIERS};
use sd_mmc::command_arguments::mci_command::MciCommand;
use sd_mmc::command_arguments::mmc::{
    bus_width_switch, high_speed_switch, Access, BusWidth, Cmd6 as MmcCmd6,
};
use sd_mmc::command_arguments::sd::cmd6::{high_speed_switch as sd_high_speed_switch, Cmd6, Cmd6Mode};
use sd_mmc::command_arguments::sd::cmd8::{high_voltage_check, Cmd8};
use sd_mmc::command_arguments::sdio::cmd52::{direct_access, Cmd52, Direction};
use sd_mmc::command_arguments::sdio::cmd53::{extended_access, Cmd53};
use sd_mmc::commands;
use sd_mmc::decode::{
    capacity_v1, capacity_v2, high_speed_capable, max_clock, mmc_version, sd_version,
    transfer_multiplier, transfer_unit,
};
use sd_mmc::error::{CommandOrDataError, MciError};
use sd_mmc::mode_index::ModeIndex;
use sd_mmc::pin::condition;
use sd_mmc::registers::csd::{CsdRegister, SdCsdStructureVersion};
use sd_mmc::registers::ocr::{ocr_voltage_support, AccessMode, OcrRegister};
use sd_mmc::registers::register_address::RegisterAddress;
use sd_mmc::registers::sd::card_status::CardStatusRegister;
use sd_mmc::registers::sd::scr::ScrRegister;
use sd_mmc::registers::sd::switch_status::{SwitchStatusRegister, SD_SW_STATUS_FUN_GRP_RC_ERROR};
use sd_mmc::registers::sdio::cccr::block_size::BlockSize;
use sd_mmc::registers::sdio::cccr::bus_interface::{
    BusInterfaceControlRegister, BusWidth as IoBusWidth,
};
use sd_mmc::registers::sdio::cccr::card_capability::CardCapabilityRegister;
use sd_mmc::registers::sdio::cccr::function_select::FunctionSelection;
use sd_mmc::registers::sdio::cccr::high_speed::HighSpeedRegister;
use sd_mmc::registers::sdio::cccr::io_enable::IoEnableRegister;
use sd_mmc::registers::sdio::cccr::power_control::PowerControlRegister;
use sd_mmc::registers::sdio::cccr::sd_physical_specification::SdPhysicalSpecificationRegister;
use sd_mmc::registers::sdio::fbr::csa_pointer::CsaPointerRegister;
use sd_mmc::sd::sd_physical_specification::SdPhysicalSpecification;
use sd_mmc::transaction::Transaction;

const TABLE: [u32; 62] = [
    commands::SDMMC_SPI_CMD0_GO_IDLE_STATE,
    commands::SDMMC_MCI_CMD0_GO_IDLE_STATE,
    commands::MMC_SPI_CMD1_SEND_OP_COND,
    commands::MMC_MCI_CMD1_SEND_OP_COND,
    commands::SDMMC_CMD2_ALL_SEND_CID,
    commands::SD_CMD3_SEND_RELATIVE_ADDR,
    commands::MMC_CMD3_SET_RELATIVE_ADDR,
    commands::SDMMC_CMD4_SET_DSR,
    commands::MMC_CMD5_SLEEP_AWAKE,
    commands::SDMMC_CMD7_SELECT_CARD_CMD,
    commands::SDMMC_CMD7_DESELECT_CARD_CMD,
    commands::MMC_CMD8_SEND_EXT_CSD,
    commands::SD_CMD8_SEND_IF_COND,
    commands::SDMMC_MCI_CMD9_SEND_CSD,
    commands::SDMMC_SPI_CMD9_SEND_CSD,
    commands::SDMMC_CMD10_SEND_CID,
    commands::MMC_CMD11_READ_DAT_UNTIL_STOP,
    commands::SDMMC_CMD12_STOP_TRANSMISSION,
    commands::SDMMC_SPI_CMD13_SEND_STATUS,
    commands::SDMMC_MCI_CMD13_SEND_STATUS,
    commands::SDMMC_CMD15_GO_INACTIVE_STATE,
    commands::MMC_CMD19_BUSTEST_R,
    commands::SDMMC_SPI_CMD58_READ_OCR,
    commands::SDMMC_SPI_CMD59_CRC_ON_OFF,
    commands::SDMMC_CMD16_SET_BLOCKLEN,
    commands::SDMMC_CMD17_READ_SINGLE_BLOCK,
    commands::SDMMC_CMD18_READ_MULTIPLE_BLOCK,
    commands::MMC_CMD20_WRITE_DAT_UNTIL_STOP,
    commands::MMC_CMD23_SET_BLOCK_COUNT,
    commands::SDMMC_CMD24_WRITE_BLOCK,
    commands::SDMMC_CMD25_WRITE_MULTIPLE_BLOCK,
    commands::SDMMC_CMD26_PROGRAM_CID,
    commands::SDMMC_CMD27_PROGRAM_CSD,
    commands::SD_CMD32_ERASE_WR_BLK_START,
    commands::SD_CMD33_ERASE_WR_BLK_END,
    commands::MMC_CMD35_ERASE_GROUP_START,
    commands::MMC_CMD36_ERASE_GROUP_END,
    commands::SDMMC_CMD38_ERASE,
    commands::SDMMC_CMD28_SET_WRITE_PROT,
    commands::SDMMC_CMD29_CLR_WRITE_PROT,
    commands::SDMMC_CMD30_SEND_WRITE_PROT,
    commands::SDMMC_CMD42_LOCK_UNLOCK,
    commands::SDMMC_CMD55_APP_CMD,
    commands::SDMMC_CMD56_GEN_CMD,
    commands::MMC_CMD6_SWITCH,
    commands::SD_CMD6_SWITCH_FUNC,
    commands::SD_ACMD6_SET_BUS_WIDTH,
    commands::SD_ACMD13_SD_STATUS,
    commands::SD_ACMD22_SEND_NUM_WR_BLOCKS,
    commands::SD_ACMD23_SET_WR_BLK_ERASE_COUNT,
    commands::SD_MCI_ACMD41_SD_SEND_OP_COND,
    commands::SD_SPI_ACMD41_SD_SEND_OP_COND,
    commands::SD_ACMD42_SET_CLR_CARD_DETECT,
    commands::SD_ACMD51_SEND_SCR,
    commands::MMC_CMD39_FAST_IO,
    commands::MMC_CMD40_GO_IRQ_STATE,
    commands::SDIO_CMD5_SEND_OP_COND,
    commands::SDIO_CMD52_IO_RW_DIRECT,
    commands::SDIO_CMD53_IO_R_BYTE_EXTENDED,
    commands::SDIO_CMD53_IO_W_BYTE_EXTENDED,
    commands::SDIO_CMD53_IO_R_BLOCK_EXTENDED,
    commands::SDIO_CMD53_IO_W_BLOCK_EXTENDED,
];

fn csd_with(fields: &[(usize, usize, u32)]) -> CsdRegister {
    let mut words = [0u32; 4];
    for &(lo, width, value) in fields {
        for bit in 0..width {
            if (value >> bit) & 1 == 1 {
                let position = lo + bit;
                words[position / 32] |= 1 << (position % 32);
            }
        }
    }
    CsdRegister(words)
}

#[test]
fn multi_block_write_descriptor_flags() {
    let c = MciCommand::from(commands::SDMMC_CMD25_WRITE_MULTIPLE_BLOCK);
    assert_eq!(c.get_index(), 25);
    assert!(c.have_response());
    assert!(!c.have_8bit_response());
    assert!(!c.have_32bit_response());
    assert!(!c.have_136bit_response());
    assert!(c.expect_valid_crc());
    assert!(!c.card_may_send_busy());
    assert!(!c.open_drain_broadcast_command());
    assert!(c.data_write_command());
    assert!(!c.sdio_multi_byte_transfer());
    assert!(!c.sdio_block_mode_transfer());
    assert!(!c.stream_mode_data_transfer());
    assert!(c.multi_block_data_transfer());
    assert!(!c.single_block_data_transfer());
}

#[test]
fn descriptor_predicates_read_their_own_bit() {
    assert_eq!(MciCommand { val: 0xFFFF_FFFF }.get_index(), 0x3F);
    assert_eq!(MciCommand { val: 0x0000_00C0 }.get_index(), 0);
    assert!(MciCommand { val: 1 << 8 }.have_response());
    assert!(MciCommand { val: 1 << 9 }.have_8bit_response());
    assert!(MciCommand { val: 1 << 10 }.have_32bit_response());
    assert!(MciCommand { val: 1 << 11 }.have_136bit_response());
    assert!(MciCommand { val: 1 << 12 }.expect_valid_crc());
    assert!(MciCommand { val: 1 << 13 }.card_may_send_busy());
    assert!(MciCommand { val: 1 << 14 }.open_drain_broadcast_command());
    assert!(MciCommand { val: 1 << 15 }.data_write_command());
    assert!(MciCommand { val: 1 << 16 }.sdio_multi_byte_transfer());
    assert!(MciCommand { val: 1 << 17 }.sdio_block_mode_transfer());
    assert!(MciCommand { val: 1 << 18 }.stream_mode_data_transfer());
    assert!(MciCommand { val: 1 << 19 }.single_block_data_transfer());
    assert!(MciCommand { val: 1 << 20 }.multi_block_data_transfer());
    assert!(!MciCommand { val: !(1 << 9) }.have_8bit_response());
}

#[test]
fn short_response_excludes_long_responses_in_the_whole_table() {
    for &descriptor in TABLE.iter() {
        let c = MciCommand::from(descriptor);
        if c.have_8bit_response() {
            assert!(!c.have_32bit_response(), "descriptor {:#x}", descriptor);
            assert!(!c.have_136bit_response(), "descriptor {:#x}", descriptor);
        }
        assert!(!(c.single_block_data_transfer() && c.multi_block_data_transfer()));
    }
}

#[test]
fn command_table_indices_and_classes() {
    assert_eq!(commands::SDMMC_MCI_CMD0_GO_IDLE_STATE, 0x0000_4000);
    assert_eq!(commands::MMC_MCI_CMD1_SEND_OP_COND, 0x0000_4501);
    assert_eq!(commands::SDMMC_CMD12_STOP_TRANSMISSION, 0x0000_310C);
    assert_eq!(commands::SDMMC_MCI_CMD13_SEND_STATUS, 0x0000_110D);
    assert_eq!(commands::SDMMC_CMD17_READ_SINGLE_BLOCK, 0x0008_1111);
    assert_eq!(commands::SDMMC_CMD18_READ_MULTIPLE_BLOCK, 0x0010_1112);
    assert_eq!(commands::SDMMC_CMD24_WRITE_BLOCK, 0x0008_9118);
    assert_eq!(commands::SDMMC_CMD25_WRITE_MULTIPLE_BLOCK, 0x0010_9119);
    assert_eq!(commands::SD_CMD8_SEND_IF_COND, 0x0000_5508);
    assert_eq!(commands::SDIO_CMD52_IO_RW_DIRECT, 0x0000_1334);
    assert_eq!(MciCommand::from(commands::SD_MCI_ACMD41_SD_SEND_OP_COND).get_index(), 41);
    assert!(MciCommand::from(commands::SDMMC_CMD7_SELECT_CARD_CMD).card_may_send_busy());
    assert!(MciCommand::from(commands::SDMMC_MCI_CMD9_SEND_CSD).have_136bit_response());
}

#[test]
fn crc7_of_known_frames() {
    assert_eq!(crc7(&[0x40, 0x00, 0x00, 0x00, 0x00]), 0x95);
    assert_eq!(crc7(&[0x48, 0x00, 0x00, 0x01, 0xAA]), 0x87);
    assert_eq!(crc7(&[]), 0x01);
}

#[test]
fn crc7_low_bit_is_set_also_over_a_frame_with_its_checksum() {
    for index in 0u8..64 {
        for &argument in [0u32, 1, 0x1AA, 0x0001_0000, 0xFFFF_FFFF, 0x1234_5678].iter() {
            let frame = command_frame(index, argument);
            assert_eq!(frame[5] & 1, 1);
            assert_eq!(crc7(&frame) & 1, 1);
        }
    }
}

#[test]
fn command_frame_layout() {
    assert_eq!(command_frame(0, 0), [0x40, 0x00, 0x00, 0x00, 0x00, 0x95]);
    assert_eq!(command_frame(8, 0x1AA), [0x48, 0x00, 0x00, 0x01, 0xAA, 0x87]);
    let frame = command_frame(17, 0x1234_5678);
    assert_eq!(&frame[..5], &[0x51, 0x12, 0x34, 0x56, 0x78]);
    assert_eq!(frame[5], crc7(&frame[..5]));
}

#[test]
fn voltage_window_is_2v7_to_3v3() {
    assert_eq!(ocr_voltage_support().val, 0x001F_8000);
}

#[test]
fn ocr_register_fields() {
    let mut ocr = OcrRegister { val: 0 };
    ocr.set_vdd_27_28(true);
    assert_eq!(ocr.val, 1 << 15);
    ocr.set_vdd_28_29(true).set_vdd_29_30(true);
    assert_eq!(ocr.val, 0b111 << 15);
    ocr.set_vdd_27_28(false);
    assert_eq!(ocr.val, 0b110 << 15);
    ocr.set_vdd_30_31(true).set_vdd_31_32(true).set_vdd_32_33(true);
    assert_eq!(ocr.val, 0b111110 << 15);

    let mut ocr = ocr_voltage_support();
    ocr.set_access_mode(AccessMode::Sector);
    assert_eq!(ocr.val, 0x401F_8000);
    assert_eq!(ocr.access_mode(), AccessMode::Sector);
    ocr.set_access_mode(AccessMode::Byte);
    assert_eq!(ocr.val, 0x001F_8000);
    assert_eq!(ocr.access_mode(), AccessMode::Byte);
    assert_eq!(OcrRegister { val: 0x2000_0000 }.access_mode(), AccessMode::Reserved);

    assert!(OcrRegister { val: 0x8000_0000 }.card_powered_up_status());
    assert!(!OcrRegister { val: 0x7FFF_FFFF }.card_powered_up_status());
    assert!(OcrRegister { val: 0x4000_0000 }.card_capacity_status());
    assert!(OcrRegister { val: 0x0800_0000 }.memory_present());
    assert!(OcrRegister { val: 0x1000_0000 }.number_of_io_functions());
    assert!(OcrRegister { val: 0x7000_0000 }.number_of_io_functions());
    assert!(!OcrRegister { val: 0x8FFF_FFFF }.number_of_io_functions());
}

#[test]
fn card_status_flags() {
    assert_eq!(CardStatusRegister::default().val, 0);
    assert!(CardStatusRegister { val: 1 << 7 }.switch_error());
    assert!(CardStatusRegister { val: 1 << 8 }.ready_for_data());
    assert!(CardStatusRegister { val: 1 << 26 }.write_protect_violation());
    let others = CardStatusRegister { val: !((1 << 7) | (1 << 8) | (1 << 26)) };
    assert!(!others.switch_error());
    assert!(!others.ready_for_data());
    assert!(!others.write_protect_violation());
}

#[test]
fn csd_fields_are_read_at_their_positions() {
    let csd = csd_with(&[
        (126, 2, 1),
        (122, 4, 4),
        (96, 8, 0x32),
        (80, 4, 9),
        (62, 12, 0xABC),
        (47, 3, 5),
    ]);
    assert_eq!(csd.sd_csd_structure_version(), SdCsdStructureVersion::Ver2d0);
    assert_eq!(csd.mmc_csd_spec_version(), 4);
    assert_eq!(csd.transmission_speed(), 0x32);
    assert_eq!(csd.read_bl_length(), 9);
    assert_eq!(csd.card_size(), 0xABC);
    assert_eq!(csd.card_size_multiplier(), 5);
    let csd = csd_with(&[(48, 22, 0x3B37)]);
    assert_eq!(csd.sd_2_0_card_size(), 0x3B37);
    assert_eq!(csd.sd_csd_structure_version(), SdCsdStructureVersion::Ver1d0);
    assert_eq!(CsdRegister::default().0, [0, 0, 0, 0]);
    assert_eq!(CsdRegister([0, 0, 0, 0xC000_0000]).sd_csd_structure_version(), SdCsdStructureVersion::Reserved);
    assert_eq!(CsdRegister([0, 0, 0, 0x8000_0000]).sd_csd_structure_version(), SdCsdStructureVersion::Ver3d0);
    assert_eq!(CsdRegister([0, 0xC000_0000, 0x0000_03FF, 0]).card_size(), 0xFFF);
    assert!(SdCsdStructureVersion::Ver2d0.is_2_0_or_later());
    assert!(!SdCsdStructureVersion::Ver1d0.is_2_0_or_later());
}

#[test]
fn transfer_rate_tables() {
    assert_eq!(SD_MMC_TRANS_UNITS, [10, 100, 1_000, 10_000, 0, 0, 0]);
    assert_eq!(SD_TRANS_MULTIPLIERS[6], 25);
    assert_eq!(SD_TRANS_MULTIPLIERS[11], 50);
    assert_eq!(MMC_TRANS_MULTIPLIERS[6], 26);
    assert_eq!(MMC_TRANS_MULTIPLIERS[11], 52);
    for code in 0u8..16 {
        if code != 6 && code != 11 {
            assert_eq!(transfer_multiplier(code, false), transfer_multiplier(code, true));
        }
    }
    assert_eq!(transfer_unit(0), 10);
    assert_eq!(transfer_unit(3), 10_000);
    assert_eq!(transfer_unit(4), 0);
    assert_eq!(transfer_unit(7), 0);
    assert_eq!(transfer_multiplier(15, false), 80);
    assert_eq!(transfer_multiplier(16, false), 0);
}

#[test]
fn maximum_clock_of_transfer_speed_codes() {
    assert_eq!(max_clock(0x32, false), 25_000_000);
    assert_eq!(max_clock(0x32, true), 26_000_000);
    assert_eq!(max_clock(0x5A, false), 50_000_000);
    assert_eq!(max_clock(0x5A, true), 52_000_000);
    assert_eq!(max_clock(0x2A, false), 20_000_000);
    assert_eq!(max_clock(0x00, false), 0);
    assert_eq!(max_clock(0x7B, false), 800_000_000);
    assert_eq!(max_clock(0xB2, false), 25_000_000);
    assert_eq!(max_clock(0x0F, true), 0);
}

#[test]
fn capacity_of_the_first_layout() {
    let csd = csd_with(&[(62, 12, 4095), (47, 3, 7), (80, 4, 9)]);
    assert_eq!(capacity_v1(&csd), 4096 * 9 * 512 / 1024);
    let csd = csd_with(&[(62, 12, 1000), (47, 3, 2), (80, 4, 10)]);
    assert_eq!(capacity_v1(&csd), 1001 * 4 * 1024 / 1024);
    let csd = csd_with(&[(62, 12, 0), (47, 3, 0), (80, 4, 0)]);
    assert_eq!(capacity_v1(&csd), 0);
    let csd = csd_with(&[(62, 12, 4095), (47, 3, 7), (80, 4, 15)]);
    assert_eq!(capacity_v1(&csd), 36_864 * 32);
}

#[test]
fn capacity_of_the_second_layout() {
    let csd = csd_with(&[(126, 2, 1), (48, 22, 0x3B37)]);
    assert_eq!(capacity_v2(&csd), (0x3B37 + 1) * 512);
    assert_eq!(capacity_v2(&csd), 7_761_920);
    let csd = csd_with(&[(126, 2, 1), (48, 22, 0x3BFF)]);
    assert_eq!(capacity_v2(&csd), 7_864_320);
    let csd = csd_with(&[(48, 22, 0x3F_FFFF)]);
    assert_eq!(capacity_v2(&csd), 0x8000_0000);
}

#[test]
fn versions_from_register_codes() {
    assert_eq!(mmc_version(0), CardVersion::Mmc(MmcVersion::Mmc1d2));
    assert_eq!(mmc_version(1), CardVersion::Mmc(MmcVersion::Mmc1d4));
    assert_eq!(mmc_version(2), CardVersion::Mmc(MmcVersion::Mmc2d2));
    assert_eq!(mmc_version(3), CardVersion::Mmc(MmcVersion::SdMmc3d0));
    assert_eq!(mmc_version(4), CardVersion::Mmc(MmcVersion::Mmc4d0));
    assert_eq!(mmc_version(5), CardVersion::Unknown);
    assert!(mmc_version(4).is_mmc_4_or_later());
    assert!(!mmc_version(3).is_mmc_4_or_later());
    assert!(!CardVersion::SdCard(SdCardVersion::Sd2d0).is_mmc_4_or_later());
    assert_eq!(sd_version(SdPhysicalSpecification::Revision1d01), CardVersion::SdCard(SdCardVersion::Sd1d0));
    assert_eq!(sd_version(SdPhysicalSpecification::Revision1d10), CardVersion::SdCard(SdCardVersion::Sd1d10));
    assert_eq!(sd_version(SdPhysicalSpecification::Revision2d00), CardVersion::SdCard(SdCardVersion::Sd2d0));
    assert_eq!(sd_version(SdPhysicalSpecification::Revision3d0x), CardVersion::SdCard(SdCardVersion::Sd1d0));
    assert_eq!(sd_version(SdPhysicalSpecification::Unknown), CardVersion::SdCard(SdCardVersion::Sd1d0));
}

#[test]
fn card_type_byte_of_the_extended_data() {
    assert!(high_speed_capable(0x0000_0002));
    assert!(!high_speed_capable(0x0000_0001));
    assert!(!high_speed_capable(0x0000_0003));
    assert!(high_speed_capable(0xFFFF_FFFE));
}

#[test]
fn scr_and_switch_status_fields() {
    let scr = ScrRegister::from([0x02, 0, 0, 0, 0, 0, 0, 0]);
    assert_eq!(scr.sd_specification_version(), SdPhysicalSpecification::Revision2d00);
    let scr = ScrRegister::from([0xF1, 0xFF, 0, 0, 0, 0, 0, 0]);
    assert_eq!(scr.sd_specification_version(), SdPhysicalSpecification::Revision1d10);
    let scr = ScrRegister::from([0x0F, 0, 0, 0, 0, 0, 0, 0]);
    assert_eq!(scr.sd_specification_version(), SdPhysicalSpecification::Unknown);

    let mut raw = [0u8; 64];
    raw[16] = 0xAF;
    raw[28] = 0x12;
    raw[29] = 0x34;
    let status = SwitchStatusRegister::from(raw);
    assert_eq!(status.group1_info_status(), SD_SW_STATUS_FUN_GRP_RC_ERROR);
    assert_eq!(status.group1_busy(), 0x1234);
    raw[16] = 0x01;
    raw[28] = 0;
    raw[29] = 0;
    let status = SwitchStatusRegister::from(raw);
    assert_eq!(status.group1_info_status(), 1);
    assert_eq!(status.group1_busy(), 0);
}

#[test]
fn physical_specification_codes() {
    for code in 0u8..=255 {
        let revision = SdPhysicalSpecification::from(code);
        if code <= 3 {
            assert_eq!(revision.code(), code);
        } else {
            assert_eq!(revision, SdPhysicalSpecification::Unknown);
        }
    }
    let mut register = SdPhysicalSpecificationRegister { val: 0xFF };
    register.set_specification(SdPhysicalSpecification::Revision2d00);
    assert_eq!(register.val, 2);
    assert_eq!(register.specification(), SdPhysicalSpecification::Revision2d00);
    assert_eq!(SdPhysicalSpecificationRegister { val: 9 }.specification(), SdPhysicalSpecification::Unknown);
    assert_eq!(SdPhysicalSpecificationRegister::address(), 0x01);
}

#[test]
fn high_speed_and_power_control_registers() {
    let mut hs = HighSpeedRegister { val: 0 };
    hs.set_supports_high_speed(true);
    assert_eq!(hs.val, 1);
    assert!(hs.supports_high_speed());
    assert!(!hs.enable_high_speed());
    hs.set_enable_high_speed(true);
    assert_eq!(hs.val, 3);
    hs.set_supports_high_speed(false);
    assert_eq!(hs.val, 2);
    assert!(hs.enable_high_speed());
    assert_eq!(HighSpeedRegister::address(), 0x13);

    let mut power = PowerControlRegister { val: 0xFC };
    assert!(!power.supports_master_power_control());
    assert!(!power.enable_master_power_control());
    power.set_supports_master_power_control(true);
    power.set_enable_master_power_control(true);
    assert_eq!(power.val, 0xFF);
    power.set_enable_master_power_control(false);
    assert_eq!(power.val, 0xFD);
    assert!(power.supports_master_power_control());
    assert_eq!(power.value(), 0xFD);
    assert_eq!(PowerControlRegister::address(), 0x12);
}

#[test]
fn io_enable_register_has_one_bit_for_each_function() {
    let mut io = IoEnableRegister { val: 0 };
    io.set_function1_enabled(true);
    assert_eq!(io.val, 0x02);
    io.set_function2_enabled(true);
    assert_eq!(io.val, 0x06);
    io.set_function3_enabled(true);
    assert_eq!(io.val, 0x0E);
    io.set_function4_enabled(true);
    assert_eq!(io.val, 0x1E);
    io.set_function5_enabled(true);
    assert_eq!(io.val, 0x3E);
    io.set_function6_enabled(true);
    assert_eq!(io.val, 0x7E);
    io.set_function7_enabled(true);
    assert_eq!(io.val, 0xFE);
    assert!(io.function1_enabled());
    assert!(io.function2_enabled());
    assert!(io.function3_enabled());
    assert!(io.function4_enabled());
    assert!(io.function5_enabled());
    assert!(io.function6_enabled());
    assert!(io.function7_enabled());
    io.set_function4_enabled(false);
    assert_eq!(io.val, 0xEE);
    assert!(!io.function4_enabled());
    assert_eq!(io.val, 0xEE);
    assert_eq!(IoEnableRegister::address(), 0x02);
}

#[test]
fn block_size_register_parts() {
    let mut size = BlockSize { val: 0 };
    size.set_lsb(0x7F);
    assert_eq!(size.val, 0x7F00);
    assert_eq!(size.lsb(), 0x7F);
    size.set_msb(0xAB);
    assert_eq!(size.val, 0x7FAB);
    assert_eq!(size.msb(), 0xAB);
    size.set_lsb(0x01);
    assert_eq!(size.val, 0x01AB);
    for low in [0x00u8, 0x80, 0xFF, 0x5A] {
        for high in [0x00u8, 0x02, 0xFF] {
            let mut size = BlockSize { val: 0xFFFF };
            size.set_msb(high);
            size.set_lsb(low);
            assert_eq!(size.lsb(), low);
            assert_eq!(size.msb(), high);
            assert_eq!(size.val, ((low as u16) << 8) | high as u16);
            size.set_msb(!high);
            assert_eq!(size.lsb(), low);
        }
    }
    let mut top = BlockSize { val: 0x8000 };
    assert_eq!(top.lsb(), 0x80);
    assert_eq!(top.msb(), 0);
    assert_eq!(top.val, 0x8000);
    assert_eq!(BlockSize::address(), 0x10);
}

#[test]
fn csa_pointer_register_parts() {
    let mut pointer = CsaPointerRegister { val: 0 };
    pointer.set_lsb(0x7F);
    assert_eq!(pointer.val, 0x007F_0000);
    pointer.set_mid(0x55);
    assert_eq!(pointer.val, 0x007F_5500);
    pointer.set_msb(0x2A);
    assert_eq!(pointer.val, 0x007F_552A);
    assert_eq!(pointer.lsb(), 0x7F);
    assert_eq!(pointer.mid(), 0x55);
    assert_eq!(pointer.msb(), 0x2A);
    assert_eq!(pointer.value(), 0x007F_552A);
    let outside = CsaPointerRegister { val: 0xFF80_8080 };
    assert_eq!(outside.lsb(), 0);
    assert_eq!(outside.mid(), 0);
    assert_eq!(outside.msb(), 0);
    assert_eq!(CsaPointerRegister::address(), 0x09);
}

#[test]
fn card_capability_and_bus_interface_registers() {
    assert!(CardCapabilityRegister { val: 0x80 }.low_speed_card_supports_4bit_mode());
    assert!(!CardCapabilityRegister { val: 0x7F }.low_speed_card_supports_4bit_mode());
    assert_eq!(CardCapabilityRegister::address(), 0x08);
    let mut control = BusInterfaceControlRegister { val: 0xFC };
    control.set_bus_width(IoBusWidth::_4bit);
    assert_eq!(control.val, 0xFE);
    assert_eq!(control.bus_width(), IoBusWidth::_4bit);
    control.set_bus_width(IoBusWidth::_1bit);
    assert_eq!(control.val, 0xFC);
    assert_eq!(control.bus_width(), IoBusWidth::_1bit);
    assert_eq!(BusInterfaceControlRegister { val: 3 }.bus_width(), IoBusWidth::Reserved);
    assert_eq!(BusInterfaceControlRegister::address(), 0x07);
    assert_eq!(FunctionSelection::FunctionCia0.number(), 0);
    assert_eq!(FunctionSelection::Function7.number(), 7);
}

#[test]
fn mmc_switch_arguments() {
    assert_eq!(bus_width_switch(&BusWidth::_1BIT).val, 0x01B7_0000);
    assert_eq!(bus_width_switch(&BusWidth::_4BIT).val, 0x01B7_0100);
    assert_eq!(bus_width_switch(&BusWidth::_8BIT).val, 0x01B7_0200);
    assert_eq!(high_speed_switch().val, 0x03B9_0100);
    let mut arg = MmcCmd6::default();
    arg.set_access(Access::ClearBits).set_mode_index(ModeIndex::PowerClass).set_hs_timing_enable(false);
    assert_eq!(arg.val, 0x02BB_0000);
    assert_eq!(ModeIndex::CmdSet.index(), 191);
    assert_eq!(ModeIndex::ErasedMemCont.index(), 181);
    assert_eq!(Access::CommandSet.code(), 0);
    assert_eq!(BusWidth::_8BIT.lanes(), 8);
    assert!(BusWidth::_1BIT < BusWidth::_4BIT && BusWidth::_4BIT < BusWidth::_8BIT);
}

#[test]
fn sd_switch_and_interface_arguments() {
    assert_eq!(sd_high_speed_switch().val, 0x80FF_FF01);
    let mut arg = Cmd6 { val: 0 };
    arg.set_function_group_1_access_mode(false)
        .set_function_group2_command_system(true)
        .set_function_group3(false)
        .set_function_group4(true)
        .set_function_group5(false)
        .set_function_group6(true)
        .set_mode(Cmd6Mode::Check);
    assert_eq!(arg.val, 0x00F0_F0F0);
    assert_eq!(high_voltage_check().val, 0x01AA);
    let mut arg = Cmd8 { val: 0xFFFF };
    arg.set_cmd8_pattern(false).set_high_voltage(false);
    assert_eq!(arg.val, 0xFE00);
}

#[test]
fn sdio_command_arguments() {
    let arg = direct_access(Direction::Read, FunctionSelection::FunctionCia0, 0x08, false, 0);
    assert_eq!(arg.val, 0x08 << 9);
    let arg = direct_access(Direction::Write, FunctionSelection::Function1, 0x1_FFFF, true, 0xA5);
    assert_eq!(arg.val, 0x8000_0000 | (1 << 28) | (1 << 27) | (0x1_FFFF << 9) | 0xA5);
    let mut arg = Cmd52 { val: 0xFFFF_FFFF };
    arg.set_write_data(0).set_direction(Direction::Read).set_function_number(0).set_read_after_write(false).set_register_address(0);
    assert_eq!(arg.val, (1 << 26) | (1 << 8));

    let arg = extended_access(Direction::Write, FunctionSelection::Function2, 0x1234, true, 512);
    assert_eq!(arg.val, 0x8000_0000 | (2 << 28) | (1 << 26) | (0x1234 << 9));
    let arg = extended_access(Direction::Read, FunctionSelection::Function7, 0, false, 64);
    assert_eq!(arg.val, (7 << 28) | 64);
    let mut arg = Cmd53::default();
    arg.set_block_mode(true).set_block_or_bytes_count(0x1FF).set_address(0xFFFF);
    assert_eq!(arg.val, (1 << 27) | (0xFFFF << 9) | 0x1FF);
}

#[test]
fn card_kind_flags() {
    let mut kind = Type::default();
    assert_eq!(kind.0, 0);
    kind.set_sd(true);
    assert_eq!(kind.0, 0x02);
    kind.set_mmc(true);
    assert_eq!(kind.0, 0x06);
    kind.set_sdio(true);
    assert_eq!(kind.0, 0x0E);
    kind.set_high_capacity(true);
    assert_eq!(kind.0, 0x1E);
    assert!(kind.sd() && kind.mmc() && kind.sdio() && kind.high_capacity());
    kind.set_mmc(false).set_sdio(false);
    assert_eq!(kind.0, 0x12);
    assert!(kind.sd() && !kind.mmc() && !kind.sdio() && kind.high_capacity());
    kind.set_unknown();
    assert_eq!(kind.0, 0);
    assert!(!kind.sd() && !kind.high_capacity());
}

#[test]
fn transaction_starts_with_all_blocks_remaining() {
    let t = Transaction::new(7);
    assert_eq!(t.total, 7);
    assert_eq!(t.remain, 7);
    assert_eq!(Transaction::new(0), Transaction { total: 0, remain: 0 });
}

#[test]
fn first_response_byte_decoding() {
    assert_eq!(check_r1(0x00), Ok(()));
    assert_eq!(check_r1(0x08), Err(MciError::CommandError(CommandOrDataError::Crc)));
    assert_eq!(check_r1(0x04), Err(MciError::CommandError(CommandOrDataError::Index)));
    assert_eq!(check_r1(0x01), Err(MciError::WriteError));
    assert_eq!(check_r1(0x0D), Err(MciError::CommandError(CommandOrDataError::Crc)));
    assert_eq!(check_r1(0x05), Err(MciError::CommandError(CommandOrDataError::Index)));
    assert_eq!(check_r1(0x72), Ok(()));
    let r1 = R1Response::from(0x81);
    assert!(r1.has(R1ResponseField::Error));
    assert!(r1.has(R1ResponseField::Idle));
    assert!(!r1.has(R1ResponseField::Parameter));
    assert_eq!(r1.no(R1ResponseField::Address), Some(()));
    assert_eq!(r1.no(R1ResponseField::Error), None);
    assert_eq!(r1.value(), 0x81);
    assert_eq!(R1ResponseField::EraseReset.bit(), 1);
    assert_eq!(R1ResponseField::EraseSequence.bit(), 4);
}

#[test]
fn data_error_token_decoding() {
    assert_eq!(BLOCK_READ_DATA_TOKEN, 0xFE);
    assert_eq!(check_token(0x05), Err(MciError::UnusableCard));
    assert_eq!(check_token(0x04), Err(MciError::UnusableCard));
    assert_eq!(check_token(0x01), Err(MciError::ReadError));
    assert_eq!(check_token(0x02), Err(MciError::DataError(CommandOrDataError::Crc)));
    assert_eq!(check_token(0x07), Err(MciError::DataError(CommandOrDataError::Crc)));
    assert_eq!(check_token(0x09), Err(MciError::ReadError));
    assert_eq!(check_token(0x00), Ok(()));
    assert_eq!(check_token(0x08), Ok(()));
    assert_eq!(check_token(0x10), Ok(()));
    assert_eq!(check_token(0x15), Ok(()));
    assert_eq!(check_token(0xFF), Ok(()));
    assert!(ErrorToken::try_from(0x0F).is_some());
    assert!(ErrorToken::try_from(0x10).is_none());
    let token = ErrorToken::try_from(0x0A).unwrap();
    assert!(token.has(ErrorTokenField::CCError));
    assert!(token.has(ErrorTokenField::OutOfRange));
    assert!(!token.has(ErrorTokenField::CardIsLocked));
    assert_eq!(ErrorTokenField::CardECCFailed.bit(), 2);
}

#[test]
fn data_response_token_decoding() {
    assert_eq!(check_write_response(0x05), Ok(()));
    assert_eq!(check_write_response(0xE5), Ok(()));
    assert_eq!(check_write_response(0x0B), Err(MciError::DataError(CommandOrDataError::Crc)));
    assert_eq!(check_write_response(0x0D), Err(MciError::WriteError));
    assert_eq!(check_write_response(0x01), Err(MciError::WriteError));
    assert_eq!(check_write_response(0x0F), Err(MciError::WriteError));
    assert_eq!(check_write_response(0x04), Err(MciError::ReadError));
    assert_eq!(check_write_response(0x15), Err(MciError::ReadError));
    assert_eq!(check_write_response(0xFF), Err(MciError::ReadError));
    assert!(ReadToken::try_from(0x05).is_some());
    assert!(ReadToken::try_from(0x00).is_none());
    assert!(ReadToken::try_from(0x11).is_none());
    assert_eq!(ReadToken::try_from(0x05).unwrap().response_code(), Some(ResponseCode::Accepted));
    assert_eq!(ReadToken::try_from(0x0B).unwrap().response_code(), Some(ResponseCode::CRCError));
    assert_eq!(ReadToken::try_from(0x0D).unwrap().response_code(), Some(ResponseCode::WriteError));
    assert_eq!(ReadToken::try_from(0x07).unwrap().response_code(), None);
    assert_eq!(WriteToken::SingleWrite.code(), 0xFE);
    assert_eq!(WriteToken::MultiWrite.code(), 0xFC);
    assert_eq!(WriteToken::StopTransmit.code(), 0xFD);
}

#[test]
fn pin_reading_against_polarity() {
    assert_eq!(condition(Ok(true), true), Ok(true));
    assert_eq!(condition(Ok(false), false), Ok(true));
    assert_eq!(condition(Ok(true), false), Ok(false));
    assert_eq!(condition(Ok(false), true), Ok(false));
    assert_eq!(condition(Err(()), true), Err(MciError::PinLevelReadError));
}

#[test]
fn bit_access_reads_and_writes_single_bits() {
    assert!(bits::bit_u8(0x80, 7));
    assert!(!bits::bit_u8(0x7F, 7));
    assert!(bits::bit_u32(0x8000_0000, 31));
    assert!(!bits::bit_u32(0x8000_0000, 30));
    let mut byte = 0u8;
    bits::put_bit_u8(&mut byte, 3, true);
    assert_eq!(byte, 0x08);
    bits::put_bit_u8(&mut byte, 3, false);
    assert_eq!(byte, 0x00);
    let mut word = 0xFFFF_FFFFu32;
    bits::put_bit_u32(&mut word, 16, false);
    assert_eq!(word, 0xFFFE_FFFF);
    bits::put_bit_u32(&mut word, 16, true);
    assert_eq!(word, 0xFFFF_FFFF);
}

#[test]
fn bit_access_reads_and_writes_fields() {
    assert_eq!(bits::field_u8(0b1011_0110, 2, 6), 0b1101);
    assert_eq!(bits::field_u8(0xFF, 0, 8), 0xFF);
    assert_eq!(bits::field_u16(0xABCD, 4, 12), 0xBC);
    assert_eq!(bits::field_u32(0x1234_5678, 8, 24), 0x3456);
    assert_eq!(bits::field_u32(0x1234_5678, 0, 32), 0x1234_5678);
    let mut byte = 0xFFu8;
    bits::put_field_u8(&mut byte, 2, 5, 0b010);
    assert_eq!(byte, 0b1110_1011);
    let mut half = 0u16;
    bits::put_field_u16(&mut half, 8, 16, 0xAB);
    assert_eq!(half, 0xAB00);
    let mut word = 0xFFFF_FFFFu32;
    bits::put_field_u32(&mut word, 9, 26, 0);
    assert_eq!(word, 0xFC00_01FF);
    bits::put_field_u32(&mut word, 9, 26, 0x1_5555);
    assert_eq!(word, 0xFC00_01FF | (0x1_5555 << 9));
    let words = [0x0000_0001, 0x8000_0000, 0x0000_0003, 0xF000_0000];
    assert_eq!(bits::field_words(&words, 0, 1), 1);
    assert_eq!(bits::field_words(&words, 63, 66), 0b111);
    assert_eq!(bits::field_words(&words, 124, 128), 0xF);
    assert_eq!(bits::field_words(&words, 32, 64), 0x8000_0000);
    assert_eq!(bits::field_words(&words, 62, 74), 0b1110);
}

#[test]
fn flag_positions_of_response_fields() {
    assert_eq!(R1ResponseField::Idle.bit(), 0);
    assert_eq!(R1ResponseField::IllegalCommand.bit(), 2);
    assert_eq!(R1ResponseField::CommandCRC.bit(), 3);
    assert_eq!(R1ResponseField::Address.bit(), 5);
    assert_eq!(R1ResponseField::Parameter.bit(), 6);
    assert_eq!(R1ResponseField::Error.bit(), 7);
    assert_eq!(ErrorTokenField::Error.bit(), 0);
    assert_eq!(ErrorTokenField::CCError.bit(), 1);
    assert_eq!(ErrorTokenField::OutOfRange.bit(), 3);
    assert_eq!(ErrorTokenField::CardIsLocked.bit(), 4);
}
