//! The command table: every card command with the flags of its response
//! class and of its data phase.

use vstd::prelude::*;
use crate::command_arguments::mci_command::{
    valid_descriptor, SDMMC_CMD_MULTI_BLOCK, SDMMC_CMD_NO_RESP, SDMMC_CMD_OPENDRAIN, SDMMC_CMD_R1,
    SDMMC_CMD_R1B, SDMMC_CMD_R2, SDMMC_CMD_R3, SDMMC_CMD_R4, SDMMC_CMD_R5, SDMMC_CMD_R6,
    SDMMC_CMD_R7, SDMMC_CMD_SDIO_BLOCK, SDMMC_CMD_SDIO_BYTE, SDMMC_CMD_SINGLE_BLOCK,
    SDMMC_CMD_WRITE,
};

verus! {

// Basic commands and read stream (class 0 and class 1).

/// CMD0 over SPI: reset the card to idle state.
pub const SDMMC_SPI_CMD0_GO_IDLE_STATE: u32 = 0 | SDMMC_CMD_R1;

/// CMD0 on the native interface: reset all cards to idle state.
pub const SDMMC_MCI_CMD0_GO_IDLE_STATE: u32 = 0 | SDMMC_CMD_NO_RESP | SDMMC_CMD_OPENDRAIN;

/// CMD1 over SPI: ask an MMC for its operating conditions.
pub const MMC_SPI_CMD1_SEND_OP_COND: u32 = 1 | SDMMC_CMD_R1;

/// CMD1 on the native interface: ask an MMC for its operating conditions.
pub const MMC_MCI_CMD1_SEND_OP_COND: u32 = 1 | SDMMC_CMD_R3 | SDMMC_CMD_OPENDRAIN;

/// CMD2: ask all cards for their identification.
pub const SDMMC_CMD2_ALL_SEND_CID: u32 = 2 | SDMMC_CMD_R2 | SDMMC_CMD_OPENDRAIN;

/// CMD3 for SD: ask the card to publish a relative address.
pub const SD_CMD3_SEND_RELATIVE_ADDR: u32 = 3 | SDMMC_CMD_R6 | SDMMC_CMD_OPENDRAIN;

/// CMD3 for MMC: assign a relative address to the card.
pub const MMC_CMD3_SET_RELATIVE_ADDR: u32 = 3 | SDMMC_CMD_R1;

/// CMD4: program the driver stage register of all cards.
pub const SDMMC_CMD4_SET_DSR: u32 = 4 | SDMMC_CMD_NO_RESP;

/// CMD5 for MMC: toggle between sleep and standby.
pub const MMC_CMD5_SLEEP_AWAKE: u32 = 5 | SDMMC_CMD_R1B;

/// CMD7: select the addressed card.
pub const SDMMC_CMD7_SELECT_CARD_CMD: u32 = 7 | SDMMC_CMD_R1B;

/// CMD7: deselect all cards.
pub const SDMMC_CMD7_DESELECT_CARD_CMD: u32 = 7 | SDMMC_CMD_R1;

/// CMD8 for MMC: send the extended card specific data as a block.
pub const MMC_CMD8_SEND_EXT_CSD: u32 = 8 | SDMMC_CMD_R1 | SDMMC_CMD_SINGLE_BLOCK;

/// CMD8 for SD: send the interface condition.
pub const SD_CMD8_SEND_IF_COND: u32 = 8 | SDMMC_CMD_R7 | SDMMC_CMD_OPENDRAIN;

/// CMD9 on the native interface: send the card specific data.
pub const SDMMC_MCI_CMD9_SEND_CSD: u32 = 9 | SDMMC_CMD_R2;

/// CMD9 over SPI: send the card specific data as a block.
pub const SDMMC_SPI_CMD9_SEND_CSD: u32 = 9 | SDMMC_CMD_R1 | SDMMC_CMD_SINGLE_BLOCK;

/// CMD10: send the card identification.
pub const SDMMC_CMD10_SEND_CID: u32 = 10 | SDMMC_CMD_R2;

/// CMD11 for MMC: read a stream until stopped.
pub const MMC_CMD11_READ_DAT_UNTIL_STOP: u32 = 11 | SDMMC_CMD_R1;

/// CMD12: stop the running transmission.
pub const SDMMC_CMD12_STOP_TRANSMISSION: u32 = 12 | SDMMC_CMD_R1B;

/// CMD13 over SPI: send the status, one extra byte after the first.
pub const SDMMC_SPI_CMD13_SEND_STATUS: u32 = 13 | SDMMC_CMD_R5;

/// CMD13 on the native interface: send the status register.
pub const SDMMC_MCI_CMD13_SEND_STATUS: u32 = 13 | SDMMC_CMD_R1;

/// CMD15: send the addressed card to inactive state.
pub const SDMMC_CMD15_GO_INACTIVE_STATE: u32 = 15 | SDMMC_CMD_NO_RESP;

/// CMD19 for MMC: read the bus test pattern.
pub const MMC_CMD19_BUSTEST_R: u32 = 19 | SDMMC_CMD_R1;

/// CMD58 over SPI: read the operating conditions register.
pub const SDMMC_SPI_CMD58_READ_OCR: u32 = 58 | SDMMC_CMD_R3;

/// CMD59 over SPI: turn the checksum option on or off.
pub const SDMMC_SPI_CMD59_CRC_ON_OFF: u32 = 59 | SDMMC_CMD_R1;

// Block oriented read commands (class 2).

/// CMD16: set the block length.
pub const SDMMC_CMD16_SET_BLOCKLEN: u32 = 16 | SDMMC_CMD_R1;

/// CMD17: read one block.
pub const SDMMC_CMD17_READ_SINGLE_BLOCK: u32 = 17 | SDMMC_CMD_R1 | SDMMC_CMD_SINGLE_BLOCK;

/// CMD18: read blocks until stopped.
pub const SDMMC_CMD18_READ_MULTIPLE_BLOCK: u32 = 18 | SDMMC_CMD_R1 | SDMMC_CMD_MULTI_BLOCK;

// Sequential write and block oriented write commands (class 3 and class 4).

/// CMD20 for MMC: write a stream until stopped.
pub const MMC_CMD20_WRITE_DAT_UNTIL_STOP: u32 = 20 | SDMMC_CMD_R1;

/// CMD23 for MMC: set the block count of the next transfer.
pub const MMC_CMD23_SET_BLOCK_COUNT: u32 = 23 | SDMMC_CMD_R1;

/// CMD24: write one block.
pub const SDMMC_CMD24_WRITE_BLOCK: u32 = 24 | SDMMC_CMD_R1 | SDMMC_CMD_WRITE
    | SDMMC_CMD_SINGLE_BLOCK;

/// CMD25: write blocks until stopped.
pub const SDMMC_CMD25_WRITE_MULTIPLE_BLOCK: u32 = 25 | SDMMC_CMD_R1 | SDMMC_CMD_WRITE
    | SDMMC_CMD_MULTI_BLOCK;

/// CMD26: program the card identification.
pub const SDMMC_CMD26_PROGRAM_CID: u32 = 26 | SDMMC_CMD_R1;

/// CMD27: program the programmable bits of the card specific data.
pub const SDMMC_CMD27_PROGRAM_CSD: u32 = 27 | SDMMC_CMD_R1;

// Erase commands (class 5).

/// CMD32 for SD: set the first block to erase.
pub const SD_CMD32_ERASE_WR_BLK_START: u32 = 32 | SDMMC_CMD_R1;

/// CMD33 for SD: set the last block to erase.
pub const SD_CMD33_ERASE_WR_BLK_END: u32 = 33 | SDMMC_CMD_R1;

/// CMD35 for MMC: set the first group to erase.
pub const MMC_CMD35_ERASE_GROUP_START: u32 = 35 | SDMMC_CMD_R1;

/// CMD36 for MMC: set the last group to erase.
pub const MMC_CMD36_ERASE_GROUP_END: u32 = 36 | SDMMC_CMD_R1;

/// CMD38: erase the selected range.
pub const SDMMC_CMD38_ERASE: u32 = 38 | SDMMC_CMD_R1B;

// Write protection commands (class 6).

/// CMD28: protect the addressed group against writing.
pub const SDMMC_CMD28_SET_WRITE_PROT: u32 = 28 | SDMMC_CMD_R1B;

/// CMD29: lift the write protection of the addressed group.
pub const SDMMC_CMD29_CLR_WRITE_PROT: u32 = 29 | SDMMC_CMD_R1B;

/// CMD30: send the write protection bits.
pub const SDMMC_CMD30_SEND_WRITE_PROT: u32 = 30 | SDMMC_CMD_R1;

// Lock card (class 7).

/// CMD42: set, reset or use the card password.
pub const SDMMC_CMD42_LOCK_UNLOCK: u32 = 42 | SDMMC_CMD_R1;

// Application specific commands (class 8).

/// CMD55: announce that an application specific command follows.
pub const SDMMC_CMD55_APP_CMD: u32 = 55 | SDMMC_CMD_R1;

/// CMD56: general purpose data block.
pub const SDMMC_CMD56_GEN_CMD: u32 = 56 | SDMMC_CMD_R1;

/// CMD6 for MMC: switch the mode of operation or write the extended data.
pub const MMC_CMD6_SWITCH: u32 = 6 | SDMMC_CMD_R1B;

/// CMD6 for SD: check or switch a card function; the status comes as a block.
pub const SD_CMD6_SWITCH_FUNC: u32 = 6 | SDMMC_CMD_R1 | SDMMC_CMD_SINGLE_BLOCK;

/// ACMD6: set the bus width.
pub const SD_ACMD6_SET_BUS_WIDTH: u32 = 6 | SDMMC_CMD_R1;

/// ACMD13: send the SD status.
pub const SD_ACMD13_SD_STATUS: u32 = 13 | SDMMC_CMD_R1;

/// ACMD22: send the number of well written blocks.
pub const SD_ACMD22_SEND_NUM_WR_BLOCKS: u32 = 22 | SDMMC_CMD_R1;

/// ACMD23: set the number of blocks to erase before writing.
pub const SD_ACMD23_SET_WR_BLK_ERASE_COUNT: u32 = 23 | SDMMC_CMD_R1;

/// ACMD41 on the native interface: send the host capacity support and ask
/// for the operating conditions.
pub const SD_MCI_ACMD41_SD_SEND_OP_COND: u32 = 41 | SDMMC_CMD_R3 | SDMMC_CMD_OPENDRAIN;

/// ACMD41 over SPI: start the initialisation of the card.
pub const SD_SPI_ACMD41_SD_SEND_OP_COND: u32 = 41 | SDMMC_CMD_R1;

/// ACMD42: connect or disconnect the pull-up on the detect line.
pub const SD_ACMD42_SET_CLR_CARD_DETECT: u32 = 42 | SDMMC_CMD_R1;

/// ACMD51: read the SD configuration register as a block.
pub const SD_ACMD51_SEND_SCR: u32 = 51 | SDMMC_CMD_R1 | SDMMC_CMD_SINGLE_BLOCK;

// I/O mode commands (class 9).

/// CMD39 for MMC: fast register access.
pub const MMC_CMD39_FAST_IO: u32 = 39 | SDMMC_CMD_R4;

/// CMD40 for MMC: enter interrupt mode.
pub const MMC_CMD40_GO_IRQ_STATE: u32 = 40 | SDMMC_CMD_R5 | SDMMC_CMD_OPENDRAIN;

/// CMD5 for SDIO: ask for the I/O operating conditions.
pub const SDIO_CMD5_SEND_OP_COND: u32 = 5 | SDMMC_CMD_R4 | SDMMC_CMD_OPENDRAIN;

/// CMD52: read or write one I/O register.
pub const SDIO_CMD52_IO_RW_DIRECT: u32 = 52 | SDMMC_CMD_R5;

/// CMD53: read I/O registers, counted in bytes.
pub const SDIO_CMD53_IO_R_BYTE_EXTENDED: u32 = 53 | SDMMC_CMD_R5 | SDMMC_CMD_SDIO_BYTE;

/// CMD53: write I/O registers, counted in bytes.
pub const SDIO_CMD53_IO_W_BYTE_EXTENDED: u32 = 53 | SDMMC_CMD_R5 | SDMMC_CMD_SDIO_BYTE
    | SDMMC_CMD_WRITE;

/// CMD53: read I/O registers, counted in blocks.
pub const SDIO_CMD53_IO_R_BLOCK_EXTENDED: u32 = 53 | SDMMC_CMD_R5 | SDMMC_CMD_SDIO_BLOCK;

/// CMD53: write I/O registers, counted in blocks.
pub const SDIO_CMD53_IO_W_BLOCK_EXTENDED: u32 = 53 | SDMMC_CMD_R5 | SDMMC_CMD_SDIO_BLOCK
    | SDMMC_CMD_WRITE;

/// Every entry of the table is a valid descriptor.
pub proof fn lemma_table_is_valid()
    by (bit_vector)
    ensures
        valid_descriptor(SDMMC_SPI_CMD0_GO_IDLE_STATE),
        valid_descriptor(SDMMC_MCI_CMD0_GO_IDLE_STATE),
        valid_descriptor(MMC_SPI_CMD1_SEND_OP_COND),
        valid_descriptor(MMC_MCI_CMD1_SEND_OP_COND),
        valid_descriptor(SDMMC_CMD2_ALL_SEND_CID),
        valid_descriptor(SD_CMD3_SEND_RELATIVE_ADDR),
        valid_descriptor(MMC_CMD3_SET_RELATIVE_ADDR),
        valid_descriptor(SDMMC_CMD4_SET_DSR),
        valid_descriptor(MMC_CMD5_SLEEP_AWAKE),
        valid_descriptor(SDMMC_CMD7_SELECT_CARD_CMD),
        valid_descriptor(SDMMC_CMD7_DESELECT_CARD_CMD),
        valid_descriptor(MMC_CMD8_SEND_EXT_CSD),
        valid_descriptor(SD_CMD8_SEND_IF_COND),
        valid_descriptor(SDMMC_MCI_CMD9_SEND_CSD),
        valid_descriptor(SDMMC_SPI_CMD9_SEND_CSD),
        valid_descriptor(SDMMC_CMD10_SEND_CID),
        valid_descriptor(MMC_CMD11_READ_DAT_UNTIL_STOP),
        valid_descriptor(SDMMC_CMD12_STOP_TRANSMISSION),
        valid_descriptor(SDMMC_SPI_CMD13_SEND_STATUS),
        valid_descriptor(SDMMC_MCI_CMD13_SEND_STATUS),
        valid_descriptor(SDMMC_CMD15_GO_INACTIVE_STATE),
        valid_descriptor(MMC_CMD19_BUSTEST_R),
        valid_descriptor(SDMMC_SPI_CMD58_READ_OCR),
        valid_descriptor(SDMMC_SPI_CMD59_CRC_ON_OFF),
        valid_descriptor(SDMMC_CMD16_SET_BLOCKLEN),
        valid_descriptor(SDMMC_CMD17_READ_SINGLE_BLOCK),
        valid_descriptor(SDMMC_CMD18_READ_MULTIPLE_BLOCK),
        valid_descriptor(MMC_CMD20_WRITE_DAT_UNTIL_STOP),
        valid_descriptor(MMC_CMD23_SET_BLOCK_COUNT),
        valid_descriptor(SDMMC_CMD24_WRITE_BLOCK),
        valid_descriptor(SDMMC_CMD25_WRITE_MULTIPLE_BLOCK),
        valid_descriptor(SDMMC_CMD26_PROGRAM_CID),
        valid_descriptor(SDMMC_CMD27_PROGRAM_CSD),
        valid_descriptor(SD_CMD32_ERASE_WR_BLK_START),
        valid_descriptor(SD_CMD33_ERASE_WR_BLK_END),
        valid_descriptor(MMC_CMD35_ERASE_GROUP_START),
        valid_descriptor(MMC_CMD36_ERASE_GROUP_END),
        valid_descriptor(SDMMC_CMD38_ERASE),
        valid_descriptor(SDMMC_CMD28_SET_WRITE_PROT),
        valid_descriptor(SDMMC_CMD29_CLR_WRITE_PROT),
        valid_descriptor(SDMMC_CMD30_SEND_WRITE_PROT),
        valid_descriptor(SDMMC_CMD42_LOCK_UNLOCK),
        valid_descriptor(SDMMC_CMD55_APP_CMD),
        valid_descriptor(SDMMC_CMD56_GEN_CMD),
        valid_descriptor(MMC_CMD6_SWITCH),
        valid_descriptor(SD_CMD6_SWITCH_FUNC),
        valid_descriptor(SD_ACMD6_SET_BUS_WIDTH),
        valid_descriptor(SD_ACMD13_SD_STATUS),
        valid_descriptor(SD_ACMD22_SEND_NUM_WR_BLOCKS),
        valid_descriptor(SD_ACMD23_SET_WR_BLK_ERASE_COUNT),
        valid_descriptor(SD_MCI_ACMD41_SD_SEND_OP_COND),
        valid_descriptor(SD_SPI_ACMD41_SD_SEND_OP_COND),
        valid_descriptor(SD_ACMD42_SET_CLR_CARD_DETECT),
        valid_descriptor(SD_ACMD51_SEND_SCR),
        valid_descriptor(MMC_CMD39_FAST_IO),
        valid_descriptor(MMC_CMD40_GO_IRQ_STATE),
        valid_descriptor(SDIO_CMD5_SEND_OP_COND),
        valid_descriptor(SDIO_CMD52_IO_RW_DIRECT),
        valid_descriptor(SDIO_CMD53_IO_R_BYTE_EXTENDED),
        valid_descriptor(SDIO_CMD53_IO_W_BYTE_EXTENDED),
        valid_descriptor(SDIO_CMD53_IO_R_BLOCK_EXTENDED),
        valid_descriptor(SDIO_CMD53_IO_W_BLOCK_EXTENDED),
{
}

} // verus!
