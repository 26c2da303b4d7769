use sd_mmc::bus::{Adtc, Bus, Read, SdMmcBus, Write};
use sd_mmc::card::version::{CardVersion, MmcVersion, SdCardVersion};
use sd_mmc::card::State;
use sd_mmc::command_arguments::mmc::BusWidth;
use sd_mmc::command_arguments::sd::cmd6::high_speed_switch;
use sd_mmc::command_arguments::sdio::cmd52::Direction;
use sd_mmc::commands;
use sd_mmc::error::{CommandOrDataError, ImplError, MciError, SetupError};
use sd_mmc::functions::sdio::{SDIO_CCCR_CIS_PTR, SDIO_CISTPL_END, SDIO_CISTPL_FUNCE};
use sd_mmc::mci::Mci;
use sd_mmc::mci_card::{ocr_voltage_support, MciCard};
use sd_mmc::mmc_card::MmcCard;
use sd_mmc::pin::InputPin;
use sd_mmc::registers::csd::CsdRegister;
use sd_mmc::registers::sdio::cccr::function_select::FunctionSelection;
use sd_mmc::sd_mmc::mmc::SdMmcCard;
use sd_mmc::transaction::Transaction;
use std::cell::RefCell;
use std::collections::{HashMap, VecDeque};

#[derive(Debug, Clone, PartialEq)]
enum Op {
    Select(u8, u32, BusWidth, bool),
    Deselect(u8),
    Clock,
    Command(u32, u32),
    Response,
    Response128,
    Adtc(u32, u32, u16, u16, bool),
    Stop(u32, u32),
    ReadWord,
    ReadBlocks(usize),
    WaitRead,
    WriteBlocks(Vec<u8>),
    WaitWrite,
    MaxWidth(u8),
    HighSpeed,
}

struct MockBus {
    ops: RefCell<Vec<Op>>,
    scripted: HashMap<u32, VecDeque<Result<u32, MciError>>>,
    lasting: HashMap<u32, Result<u32, MciError>>,
    response: u32,
    response_fails: Option<MciError>,
    response128: Result<[u32; 4], MciError>,
    words: VecDeque<Result<u32, MciError>>,
    incoming: VecDeque<Result<Vec<u8>, MciError>>,
    write_result: Result<(), MciError>,
    wait_result: Result<(), MciError>,
    select_result: Result<(), MciError>,
    clock_result: Result<(), MciError>,
    stops: RefCell<VecDeque<Result<(), MciError>>>,
    width: Result<BusWidth, MciError>,
    high_speed: Result<bool, MciError>,
}

impl MockBus {
    fn new() -> Self {
        MockBus {
            ops: RefCell::new(Vec::new()),
            scripted: HashMap::new(),
            lasting: HashMap::new(),
            response: 0,
            response_fails: None,
            response128: Ok([0; 4]),
            words: VecDeque::new(),
            incoming: VecDeque::new(),
            write_result: Ok(()),
            wait_result: Ok(()),
            select_result: Ok(()),
            clock_result: Ok(()),
            stops: RefCell::new(VecDeque::new()),
            width: Ok(BusWidth::_1BIT),
            high_speed: Ok(false),
        }
    }

    fn script(&mut self, cmd: u32, outcomes: &[Result<u32, MciError>]) {
        self.scripted.entry(cmd).or_default().extend(outcomes.iter().cloned());
    }

    fn always(&mut self, cmd: u32, outcome: Result<u32, MciError>) {
        self.lasting.insert(cmd, outcome);
    }

    fn take(&mut self, cmd: u32) -> Result<(), MciError> {
        let outcome = match self.scripted.get_mut(&cmd).and_then(|q| q.pop_front()) {
            Some(outcome) => outcome,
            None => self.lasting.get(&cmd).cloned().unwrap_or(Ok(0)),
        };
        match outcome {
            Ok(response) => {
                self.response = response;
                Ok(())
            }
            Err(e) => Err(e),
        }
    }

    fn ops(&self) -> Vec<Op> {
        self.ops.borrow().clone()
    }

    fn commands(&self) -> Vec<(u32, u32)> {
        self.ops
            .borrow()
            .iter()
            .filter_map(|op| match op {
                Op::Command(c, a) => Some((*c, *a)),
                Op::Adtc(c, a, _, _, _) => Some((*c, *a)),
                Op::Stop(c, a) => Some((*c, *a)),
                _ => None,
            })
            .collect()
    }

    fn count(&self, cmd: u32) -> usize {
        self.commands().iter().filter(|(c, _)| *c == cmd).count()
    }
}

impl Bus for MockBus {
    fn init(&mut self) -> Result<(), MciError> {
        Ok(())
    }

    fn deinit(&mut self) -> Result<(), MciError> {
        Ok(())
    }

    fn select_device(&mut self, slot: u8, clock: u32, bus_width: &BusWidth, high_speed: bool) -> Result<(), MciError> {
        self.ops.borrow_mut().push(Op::Select(slot, clock, *bus_width, high_speed));
        self.select_result
    }

    fn deselect_device(&mut self, slot: u8) -> Result<(), MciError> {
        self.ops.borrow_mut().push(Op::Deselect(slot));
        Ok(())
    }

    fn send_clock(&mut self) -> Result<(), MciError> {
        self.ops.borrow_mut().push(Op::Clock);
        self.clock_result
    }

    fn send_command(&mut self, cmd: u32, arg: u32) -> Result<(), MciError> {
        self.ops.borrow_mut().push(Op::Command(cmd, arg));
        self.take(cmd)
    }

    fn get_response(&mut self) -> Result<u32, MciError> {
        self.ops.borrow_mut().push(Op::Response);
        match self.response_fails {
            Some(e) => Err(e),
            None => Ok(self.response),
        }
    }
}

impl Adtc for MockBus {
    fn adtc_start(&mut self, command: u32, argument: u32, block_size: u16, block_amount: u16, access_in_blocks: bool) -> Result<(), MciError> {
        self.ops.borrow_mut().push(Op::Adtc(command, argument, block_size, block_amount, access_in_blocks));
        self.take(command)
    }

    fn adtc_stop(&self, command: u32, argument: u32) -> Result<(), MciError> {
        self.ops.borrow_mut().push(Op::Stop(command, argument));
        self.stops.borrow_mut().pop_front().unwrap_or(Ok(()))
    }
}

impl Read for MockBus {
    fn read_word(&mut self) -> Result<u32, MciError> {
        self.ops.borrow_mut().push(Op::ReadWord);
        self.words.pop_front().unwrap_or(Ok(0))
    }

    fn read_blocks(&mut self, blocks: &mut [u8]) -> Result<(), MciError> {
        self.ops.borrow_mut().push(Op::ReadBlocks(blocks.len()));
        match self.incoming.pop_front() {
            None => Ok(()),
            Some(Err(e)) => Err(e),
            Some(Ok(data)) => {
                blocks[..data.len()].copy_from_slice(&data);
                Ok(())
            }
        }
    }

    fn wait_until_read_finished(&mut self) -> Result<(), MciError> {
        self.ops.borrow_mut().push(Op::WaitRead);
        self.wait_result
    }
}

impl Write for MockBus {
    fn write_word(&mut self, _val: u32) -> Result<(), MciError> {
        Ok(())
    }

    fn write_blocks(&mut self, blocks: &[u8]) -> Result<(), MciError> {
        self.ops.borrow_mut().push(Op::WriteBlocks(blocks.to_vec()));
        self.write_result
    }

    fn wait_until_write_finished(&mut self) -> Result<(), MciError> {
        self.ops.borrow_mut().push(Op::WaitWrite);
        self.wait_result
    }
}

impl SdMmcBus for MockBus {
    fn get_bus_width(&mut self, slot: u8) -> Result<BusWidth, MciError> {
        self.ops.borrow_mut().push(Op::MaxWidth(slot));
        self.width
    }

    fn is_high_speed_capable(&mut self) -> Result<bool, MciError> {
        self.ops.borrow_mut().push(Op::HighSpeed);
        self.high_speed
    }

    fn get_response128(&mut self) -> Result<[u32; 4], MciError> {
        self.ops.borrow_mut().push(Op::Response128);
        self.response128
    }
}

impl Mci for MockBus {}

struct Level(Result<bool, ()>);

impl InputPin for Level {
    fn is_high(&self) -> Result<bool, ()> {
        self.0
    }

    fn is_low(&self) -> Result<bool, ()> {
        self.0.map(|high| !high)
    }
}

fn csd_with(fields: &[(usize, usize, u32)]) -> [u32; 4] {
    let mut words = [0u32; 4];
    for &(lo, width, value) in fields {
        for bit in 0..width {
            if (value >> bit) & 1 == 1 {
                let position = lo + bit;
                words[position / 32] |= 1 << (position % 32);
            }
        }
    }
    words
}

const TIMED_OUT: MciError = MciError::Impl(ImplError::TimedOut);
const BROKEN: MciError = MciError::CommandError(CommandOrDataError::EndBit);

type Mock = MciCard<MockBus, Level, Level>;

fn card(bus: MockBus) -> Mock {
    MciCard::new(bus, Level(Ok(false)), true, Level(Ok(true)), true, 1)
}

fn select() -> Op {
    Op::Select(1, 400_000, BusWidth::_1BIT, false)
}

fn read_cia(address: u32) -> (u32, u32) {
    (commands::SDIO_CMD52_IO_RW_DIRECT, address << 9)
}

/// A bus whose direct I/O commands read from `memory`, which starts at
/// address zero of the common I/O area.
fn io_bus(memory: &[u8]) -> MockBus {
    let mut bus = MockBus::new();
    bus.script(
        commands::SDIO_CMD52_IO_RW_DIRECT,
        &memory.iter().map(|&b| Ok(0xFFFF_FF00 | b as u32)).collect::<Vec<_>>(),
    );
    bus
}

#[test]
fn new_mci_card_starts_from_nothing() {
    let c = card(MockBus::new());
    assert_eq!(c.slot, 1);
    assert!(c.wp_high_activated);
    assert!(c.detect_high_activated);
    assert_eq!(c.mmc_card.clock, 400_000);
    assert_eq!(c.mmc_card.capacity, 0);
    assert_eq!(c.mmc_card.rca, 0);
    assert_eq!(c.mmc_card.state, State::NoCard);
    assert_eq!(c.mmc_card.card_type.0, 0);
    assert_eq!(c.mmc_card.version, CardVersion::Unknown);
    assert_eq!(c.mmc_card.bus_width, BusWidth::_1BIT);
    assert_eq!(c.mmc_card.csd, CsdRegister([0; 4]));
    assert!(!c.mmc_card.high_speed);
    assert_eq!(ocr_voltage_support().val, 0x001F_8000);
    assert_eq!(c.write_protected(), Ok(false));
    let c = MciCard::new(MockBus::new(), Level(Ok(false)), false, Level(Ok(true)), true, 1);
    assert_eq!(c.write_protected(), Ok(true));
    let c = MciCard::new(MockBus::new(), Level(Err(())), false, Level(Ok(true)), true, 1);
    assert_eq!(c.write_protected(), Err(MciError::PinLevelReadError));
}

#[test]
fn mci_card_installs_an_mmc_of_version_4() {
    let mut bus = MockBus::new();
    bus.always(commands::MMC_MCI_CMD1_SEND_OP_COND, Ok(0xC0FF_8000));
    bus.response128 = Ok(csd_with(&[(122, 4, 4), (96, 8, 0x32), (62, 12, 0xFFF)]));
    for index in 0..128u32 {
        bus.words.push_back(Ok(match index {
            49 => 2,
            53 => 0x0074_0000,
            _ => 0,
        }));
    }
    bus.width = Ok(BusWidth::_4BIT);
    bus.high_speed = Ok(true);
    let mut c = card(bus);
    assert_eq!(c.sd_mmc_mci_install_mmc(), Ok(()));
    assert_eq!(c.mmc_card.rca, 1);
    assert_eq!(c.mmc_card.version, CardVersion::Mmc(MmcVersion::Mmc4d0));
    assert_eq!(c.mmc_card.capacity, 7_602_176);
    assert_eq!(c.mmc_card.clock, 52_000_000);
    assert_eq!(c.mmc_card.bus_width, BusWidth::_4BIT);
    assert!(c.mmc_card.high_speed);
    assert!(c.mmc_card.card_type.high_capacity());
    assert_eq!(c.mmc_card.state, State::Ready);
    let commands_sent = c.mmc_card.mmc.commands();
    assert_eq!(commands_sent[0], (commands::SDMMC_MCI_CMD0_GO_IDLE_STATE, 0));
    assert!(commands_sent.contains(&(commands::MMC_CMD6_SWITCH, 0x01B7_0100)));
    assert!(commands_sent.contains(&(commands::MMC_CMD6_SWITCH, 0x03B9_0100)));
    assert_eq!(commands_sent.last(), Some(&(commands::SDMMC_CMD16_SET_BLOCKLEN, 512)));
    assert!(c.mmc_card.mmc.ops().contains(&Op::Select(1, 52_000_000, BusWidth::_4BIT, true)));

    let mut bus = MockBus::new();
    bus.always(commands::MMC_MCI_CMD1_SEND_OP_COND, Ok(0x80FF_8000));
    bus.always(commands::SDMMC_CMD2_ALL_SEND_CID, Err(BROKEN));
    let mut c = card(bus);
    assert_eq!(c.sd_mmc_mci_install_mmc(), Err(BROKEN));
    assert_eq!(c.mmc_card.rca, 0);
    assert_eq!(c.mmc_card.state, State::Unusable);
    let mut bus = MockBus::new();
    bus.always(commands::MMC_MCI_CMD1_SEND_OP_COND, Ok(0x80FF_8000));
    bus.response128 = Ok(csd_with(&[(122, 4, 4)]));
    bus.width = Ok(BusWidth::_8BIT);
    bus.always(commands::MMC_CMD6_SWITCH, Err(BROKEN));
    let mut c = card(bus);
    assert_eq!(c.sd_mmc_mci_install_mmc(), Err(MciError::Setup(SetupError::CouldNotSetBusWidth)));
}

#[test]
fn mci_card_operating_conditions() {
    let mut bus = MockBus::new();
    bus.script(commands::MMC_MCI_CMD1_SEND_OP_COND, &[Ok(0), Ok(0xC000_0000)]);
    let mut c = card(bus);
    assert_eq!(c.mmc_mci_send_operation_condition(), Ok(()));
    assert!(c.mmc_card.card_type.high_capacity());
    assert_eq!(c.mmc_card.mmc.commands(), vec![(commands::MMC_MCI_CMD1_SEND_OP_COND, 0x401F_8000); 2]);

    let mut bus = MockBus::new();
    bus.always(commands::SD_MCI_ACMD41_SD_SEND_OP_COND, Ok(0xC000_0000));
    let mut c = card(bus);
    assert_eq!(c.sd_mci_operations_conditions(true), Ok(()));
    assert!(c.mmc_card.card_type.high_capacity());
    let mut c = card(MockBus::new());
    assert_eq!(c.sd_mci_operations_conditions(false), Err(TIMED_OUT));
    assert_eq!(c.mmc_card.mmc.count(commands::SD_MCI_ACMD41_SD_SEND_OP_COND), 2099);
}

#[test]
fn mci_card_sd_commands() {
    let mut bus = MockBus::new();
    bus.always(commands::SD_CMD8_SEND_IF_COND, Ok(0x1AA));
    bus.response128 = Ok(csd_with(&[(126, 2, 1), (96, 8, 0x32), (48, 22, 0x3B37)]));
    let mut status = vec![0u8; 64];
    status[16] = 1;
    bus.incoming.push_back(Ok(status.clone()));
    bus.incoming.push_back(Ok(vec![0x02, 0, 0, 0, 0, 0, 0, 0]));
    bus.incoming.push_back(Ok(vec![0x01, 0, 0, 0, 0, 0, 0, 0]));
    bus.incoming.push_back(Ok(status.clone()));
    let mut c = card(bus);
    assert_eq!(c.sd_cmd8_is_v2(), Ok(true));
    c.mmc_card.rca = 1;
    assert_eq!(c.sd_mmc_cmd9_mci(), Ok(()));
    assert_eq!(c.sd_decode_csd(), Ok(()));
    assert_eq!(c.mmc_card.capacity, 7_761_920);
    assert_eq!(c.mmc_card.clock, 25_000_000);
    assert_eq!(c.sd_acmd6_set_data_bus_width_to_4_bits(), Ok(()));
    assert_eq!(c.mmc_card.bus_width, BusWidth::_4BIT);
    assert_eq!(c.sd_cmd6_set_to_high_speed_mode(), Ok(true));
    assert!(c.mmc_card.high_speed);
    assert_eq!(c.mmc_card.clock, 50_000_000);
    assert_eq!(c.sd_acmd51(), Ok(()));
    assert_eq!(c.mmc_card.version, CardVersion::SdCard(SdCardVersion::Sd2d0));
    assert_eq!(c.sd_scr().unwrap().val[0], 1);
    assert_eq!(&c.sd_cmd6(commands::SD_CMD6_SWITCH_FUNC, high_speed_switch()).unwrap().val[..], &status[..]);
    assert_eq!(
        c.mmc_card.mmc.commands(),
        vec![
            (commands::SD_CMD8_SEND_IF_COND, 0x1AA),
            (commands::SDMMC_MCI_CMD9_SEND_CSD, 0x0001_0000),
            (commands::SDMMC_CMD55_APP_CMD, 0x0001_0000),
            (commands::SD_ACMD6_SET_BUS_WIDTH, 2),
            (commands::SD_CMD6_SWITCH_FUNC, 0x80FF_FF01),
            (commands::SDMMC_CMD55_APP_CMD, 0x0001_0000),
            (commands::SD_ACMD51_SEND_SCR, 0),
            (commands::SDMMC_CMD55_APP_CMD, 0x0001_0000),
            (commands::SD_ACMD51_SEND_SCR, 0),
            (commands::SD_CMD6_SWITCH_FUNC, 0x80FF_FF01),
        ]
    );
}

#[test]
fn mci_card_selection_status_and_slot() {
    let mut bus = MockBus::new();
    bus.script(commands::SDMMC_MCI_CMD13_SEND_STATUS, &[Ok(0), Ok(0x100)]);
    let mut c = card(bus);
    c.mmc_card.rca = 4;
    assert_eq!(c.sd_mmc_select_this_device_on_mci_and_configure_mci(), Ok(()));
    assert_eq!(c.sd_mmc_cmd13_get_status_and_wait_for_ready_for_data_flag().map(|s| s.val), Ok(0x100));
    assert_eq!(c.sd_mmc_deselect_this_device(), Ok(()));
    assert_eq!(
        c.mmc_card.mmc.ops(),
        vec![
            select(),
            Op::Command(commands::SDMMC_MCI_CMD13_SEND_STATUS, 0x0004_0000),
            Op::Response,
            Op::Command(commands::SDMMC_MCI_CMD13_SEND_STATUS, 0x0004_0000),
            Op::Response,
            Op::Deselect(1),
        ]
    );

    let mut c = card(MockBus::new());
    c.mmc_card.state = State::Ready;
    c.detect = Level(Ok(false));
    assert_eq!(c.sd_mmc_select_slot(), Err(MciError::NoCard));
    assert_eq!(c.mmc_card.state, State::NoCard);
    c.detect_high_activated = false;
    c.mmc_card.state = State::Ready;
    assert_eq!(c.sd_mmc_select_slot(), Ok(()));
    assert_eq!(c.mmc_card.state, State::Ready);
    assert!(c.sd_mmc_init_write_blocks(0, 1).is_ok());
    let mut c = card(MockBus::new());
    c.wp = Level(Ok(true));
    c.mmc_card.state = State::Debounce;
    c.mmc_card.clock = 1;
    assert_eq!(c.sd_mmc_select_slot(), Ok(()));
    assert_eq!(c.mmc_card.state, State::Init);
    assert_eq!(c.mmc_card.mmc.ops(), vec![select()]);
    c.mmc_card.state = State::Unusable;
    assert_eq!(c.sd_mmc_select_slot(), Err(MciError::UnusableCard));
    c.mmc_card.state = State::Ready;
    c.wp = Level(Err(()));
    assert_eq!(c.sd_mmc_select_slot(), Ok(()));
    c.detect = Level(Err(()));
    assert_eq!(c.sd_mmc_select_slot(), Err(MciError::PinLevelReadError));
}

#[test]
fn mci_card_block_transfers() {
    let mut bus = MockBus::new();
    bus.always(commands::SDMMC_MCI_CMD13_SEND_STATUS, Ok(0x100));
    bus.incoming.push_back(Ok(vec![3u8; 1024]));
    let mut c = card(bus);
    let mut transaction = c.sd_mmc_init_read_blocks(5, 2).unwrap();
    assert_eq!(transaction, Transaction { total: 2, remain: 2 });
    let mut buffer = vec![0u8; 1024];
    assert_eq!(c.sd_mmc_start_read(&mut transaction, &mut buffer), Ok(()));
    assert_eq!(buffer, vec![3u8; 1024]);
    assert_eq!(c.sd_mmc_wait_end_of_read_blocks(false, &mut transaction), Ok(()));
    assert_eq!(transaction.remain, 0);
    assert_eq!(
        c.mmc_card.mmc.ops(),
        vec![
            select(),
            Op::Command(commands::SDMMC_MCI_CMD13_SEND_STATUS, 0),
            Op::Response,
            Op::Adtc(commands::SDMMC_CMD18_READ_MULTIPLE_BLOCK, 2560, 512, 2, true),
            Op::ReadBlocks(1024),
            Op::WaitRead,
            Op::Stop(commands::SDMMC_CMD12_STOP_TRANSMISSION, 0),
        ]
    );

    let mut c = card(MockBus::new());
    c.mmc_card.card_type.set_high_capacity(true);
    let mut transaction = c.sd_mmc_init_write_blocks(9, 1).unwrap();
    assert_eq!(c.sd_mmc_start_write_blocks(&mut transaction, &[1u8; 512]), Ok(()));
    assert_eq!(c.sd_mmc_wait_end_of_write_blocks(false, &mut transaction), Ok(()));
    assert_eq!(transaction, Transaction { total: 1, remain: 0 });
    assert_eq!(
        c.mmc_card.mmc.ops(),
        vec![
            select(),
            Op::Adtc(commands::SDMMC_CMD24_WRITE_BLOCK, 9, 512, 1, true),
            Op::Response,
            Op::WriteBlocks(vec![1u8; 512]),
            Op::WaitWrite,
            Op::Stop(commands::SDMMC_CMD12_STOP_TRANSMISSION, 0),
        ]
    );

    let mut c = card(MockBus::new());
    c.wp = Level(Ok(true));
    assert_eq!(c.sd_mmc_init_write_blocks(0, 3), Err(MciError::WriteProtected));
    assert_eq!(c.mmc_card.mmc.ops(), vec![select()]);
}

#[test]
fn io_card_is_sought_with_the_shared_voltage_window() {
    let mut bus = MockBus::new();
    bus.script(commands::SDIO_CMD5_SEND_OP_COND, &[Ok(0x10FF_FF00), Ok(0x10FF_FF00), Ok(0x98FF_FF00)]);
    let mut c = card(bus);
    assert_eq!(c.sdio_send_operation_condition_command(), Ok(()));
    assert!(c.mmc_card.card_type.sdio());
    assert!(c.mmc_card.card_type.sd());
    assert_eq!(
        c.mmc_card.mmc.commands(),
        vec![
            (commands::SDIO_CMD5_SEND_OP_COND, 0),
            (commands::SDIO_CMD5_SEND_OP_COND, 0x001F_8000),
            (commands::SDIO_CMD5_SEND_OP_COND, 0x001F_8000),
        ]
    );

    let mut bus = MockBus::new();
    bus.script(commands::SDIO_CMD5_SEND_OP_COND, &[Ok(0x7010_0000), Ok(0x9010_0000)]);
    let mut c = card(bus);
    assert_eq!(c.sdio_send_operation_condition_command(), Ok(()));
    assert!(c.mmc_card.card_type.sdio());
    assert!(!c.mmc_card.card_type.sd());
    assert_eq!(c.mmc_card.mmc.commands()[1], (commands::SDIO_CMD5_SEND_OP_COND, 0x0010_0000));
}

#[test]
fn card_without_io_functions_is_left_as_it_is() {
    let mut bus = MockBus::new();
    bus.always(commands::SDIO_CMD5_SEND_OP_COND, Err(BROKEN));
    let mut c = card(bus);
    assert_eq!(c.sdio_send_operation_condition_command(), Ok(()));
    assert_eq!(c.mmc_card.card_type.0, 0);
    assert_eq!(c.mmc_card.mmc.ops().len(), 1);

    let mut bus = MockBus::new();
    bus.always(commands::SDIO_CMD5_SEND_OP_COND, Ok(0x8FFF_FFFF));
    let mut c = card(bus);
    assert_eq!(c.sdio_send_operation_condition_command(), Ok(()));
    assert_eq!(c.mmc_card.card_type.0, 0);
    assert_eq!(c.mmc_card.mmc.ops().len(), 2);

    let mut bus = MockBus::new();
    bus.always(commands::SDIO_CMD5_SEND_OP_COND, Ok(0x1000_0000));
    let mut c = card(bus);
    assert_eq!(c.sdio_send_operation_condition_command(), Err(TIMED_OUT));
    assert_eq!(c.mmc_card.mmc.count(commands::SDIO_CMD5_SEND_OP_COND), 5000);
    assert_eq!(c.mmc_card.card_type.0, 0);

    let mut bus = MockBus::new();
    bus.response_fails = Some(BROKEN);
    let mut c = card(bus);
    assert_eq!(c.sdio_send_operation_condition_command(), Err(BROKEN));
}

#[test]
fn direct_io_command_carries_its_fields() {
    let mut bus = MockBus::new();
    bus.always(commands::SDIO_CMD52_IO_RW_DIRECT, Ok(0x1234_56A7));
    let mut c = card(bus);
    assert_eq!(c.sdio_cmd52(Direction::Write, FunctionSelection::Function3, 0x1_0001, true, 0x5A), Ok(0xA7));
    assert_eq!(
        c.mmc_card.mmc.ops(),
        vec![
            Op::Command(
                commands::SDIO_CMD52_IO_RW_DIRECT,
                0x8000_0000 | (3 << 28) | (1 << 27) | (0x1_0001 << 9) | 0x5A
            ),
            Op::Response,
        ]
    );
    assert_eq!(c.sdio_read_direct(FunctionSelection::Function1, 0x55), Ok(0xA7));
    assert_eq!(c.sdio_write_direct(FunctionSelection::Function1, 0x55, 0x99), Ok(()));
    assert_eq!(
        &c.mmc_card.mmc.ops()[2..],
        &[
            select(),
            Op::Command(commands::SDIO_CMD52_IO_RW_DIRECT, (1 << 28) | (0x55 << 9)),
            Op::Response,
            select(),
            Op::Command(commands::SDIO_CMD52_IO_RW_DIRECT, 0x8000_0000 | (1 << 28) | (0x55 << 9) | 0x99),
            Op::Response,
        ]
    );
    c.mmc_card.mmc.select_result = Err(BROKEN);
    assert_eq!(c.sdio_read_direct(FunctionSelection::Function1, 0), Err(MciError::CouldNotSelectDevice));
    assert_eq!(c.sdio_write_direct(FunctionSelection::Function1, 0, 0), Err(MciError::CouldNotSelectDevice));
    c.mmc_card.mmc.select_result = Ok(());
    c.mmc_card.mmc.always(commands::SDIO_CMD52_IO_RW_DIRECT, Err(BROKEN));
    assert_eq!(c.sdio_cmd52(Direction::Read, FunctionSelection::FunctionCia0, 0, false, 0), Err(BROKEN));
    assert_eq!(c.sdio_write_direct(FunctionSelection::Function1, 0, 0), Err(BROKEN));
}

#[test]
fn common_io_area_is_read_byte_by_byte() {
    let mut c = card(io_bus(&[0x11, 0x22, 0x33, 0x44]));
    let mut buffer = [0xEEu8; 6];
    assert_eq!(c.sdio_read_cia(0x100, &mut buffer, 3), Ok(()));
    assert_eq!(buffer, [0x11, 0x22, 0x33, 0xEE, 0xEE, 0xEE]);
    assert_eq!(c.mmc_card.mmc.commands(), vec![read_cia(0x100), read_cia(0x101), read_cia(0x102)]);
    assert_eq!(c.sdio_read_cia(0, &mut buffer, 7), Err(MciError::Impl(ImplError::InvalidConfiguration)));
    assert_eq!(c.mmc_card.mmc.commands().len(), 3);
    assert_eq!(c.sdio_read_cia(0, &mut buffer, 0), Ok(()));
    assert_eq!(c.mmc_card.mmc.commands().len(), 3);

    let mut bus = MockBus::new();
    bus.script(commands::SDIO_CMD52_IO_RW_DIRECT, &[Ok(1), Ok(2), Err(BROKEN)]);
    let mut c = card(bus);
    let mut buffer = [0xEEu8; 4];
    assert_eq!(c.sdio_read_cia(0, &mut buffer, 4), Err(BROKEN));
    assert_eq!(buffer, [1, 2, 0xEE, 0xEE]);

    let mut c = card(io_bus(&[0x78, 0x56, 0x34, 0x12]));
    assert_eq!(c.sdio_read_cia_32bits(0x20), Ok(0x1234_5678));
    let mut c = card(io_bus(&[0x00, 0x10, 0x00, 0x00]));
    assert_eq!(c.sdio_cis_area_in_ccr_address(), Ok(0x1000));
    assert_eq!(c.mmc_card.mmc.commands(), vec![read_cia(9), read_cia(10), read_cia(11), read_cia(12)]);
    assert_eq!(SDIO_CCCR_CIS_PTR, 9);
}

#[test]
fn maximum_speed_from_the_function_extension_tuple() {
    let mut memory = vec![0x00, 0x10, 0x00, 0x00];
    memory.extend_from_slice(&[0x20, 0x04, 0x00, 0x00]);
    memory.extend_from_slice(&[SDIO_CISTPL_FUNCE, 0x04, 0x00, 0x00]);
    memory.extend_from_slice(&[SDIO_CISTPL_FUNCE, 0x04, 0x00, 0x00, 0x02, 0x32]);
    let mut c = card(io_bus(&memory));
    assert_eq!(c.sdio_get_max_speed(), Ok(()));
    assert_eq!(c.mmc_card.clock, 25_000_000);
    let mut expected: Vec<(u32, u32)> = (9..13).map(read_cia).collect();
    expected.extend((0x1000..0x1004).map(read_cia));
    expected.extend((0x1006..0x100A).map(read_cia));
    expected.extend((0x1006..0x100C).map(read_cia));
    assert_eq!(c.mmc_card.mmc.commands(), expected);

    let mut memory = vec![0x00, 0x10, 0x00, 0x00];
    memory.extend_from_slice(&[SDIO_CISTPL_FUNCE, 0x04, 0x00, 0x00]);
    memory.extend_from_slice(&[SDIO_CISTPL_FUNCE, 0x04, 0x00, 0x00, 0x02, 0x5A]);
    let mut c = card(io_bus(&memory));
    assert_eq!(c.sdio_get_max_speed(), Ok(()));
    assert_eq!(c.mmc_card.clock, 25_000_000);

    let mut memory = vec![0x00, 0x10, 0x00, 0x00];
    memory.extend_from_slice(&[SDIO_CISTPL_FUNCE, 0x04, 0x00, 0x00]);
    memory.extend_from_slice(&[SDIO_CISTPL_FUNCE, 0x04, 0x00, 0x00, 0x02, 0x2A]);
    let mut c = card(io_bus(&memory));
    assert_eq!(c.sdio_get_max_speed(), Ok(()));
    assert_eq!(c.mmc_card.clock, 20_000_000);
}

#[test]
fn tuple_chain_without_the_tuple_is_given_up() {
    let not_found = Err(MciError::CiaCouldNotFindTuple);
    let mut c = card(io_bus(&[0x00, 0x10, 0x00, 0x00, SDIO_CISTPL_END, 0, 0, 0]));
    c.mmc_card.clock = 7;
    assert_eq!(c.sdio_get_max_speed(), not_found);
    assert_eq!(c.mmc_card.clock, 7);
    let mut c = card(io_bus(&[0x00, 0x10, 0x00, 0x00, 0x21, 0x00, 0, 0]));
    assert_eq!(c.sdio_get_max_speed(), not_found);
    let mut c = card(io_bus(&[0x00, 0x10, 0x00, 0x00, 0x21, 0xFF, 0, 0, 0x21, 0xFF, 0, 0]));
    assert_eq!(c.sdio_get_max_speed(), not_found);
    assert_eq!(c.mmc_card.mmc.count(commands::SDIO_CMD52_IO_RW_DIRECT), 8);
    let mut c = card(io_bus(&[0x00, 0x10, 0x00, 0x00, 0x21, 0x7E, 0, 0, 0x21, 0x7E, 0, 0, 0x21, 0x01, 0, 0]));
    assert_eq!(c.sdio_get_max_speed(), not_found);
    assert_eq!(c.mmc_card.mmc.count(commands::SDIO_CMD52_IO_RW_DIRECT), 16);
    assert_eq!(c.mmc_card.mmc.commands()[12], read_cia(0x1100));
    let mut c = card(io_bus(&[0x00, 0x00, 0x02, 0x00]));
    assert_eq!(c.sdio_get_max_speed(), not_found);
    assert_eq!(c.mmc_card.mmc.count(commands::SDIO_CMD52_IO_RW_DIRECT), 4);
    let mut c = card(io_bus(&[0xFB, 0xFF, 0x01, 0x00]));
    assert_eq!(c.sdio_get_max_speed(), not_found);
    let mut bus = io_bus(&[0x00, 0x10, 0x00, 0x00]);
    bus.always(commands::SDIO_CMD52_IO_RW_DIRECT, Ok(0x01));
    let mut c = card(bus);
    assert_eq!(c.sdio_get_max_speed(), not_found);
    assert_eq!(c.mmc_card.mmc.count(commands::SDIO_CMD52_IO_RW_DIRECT), 4 + 4 * 86);
    let mut bus = io_bus(&[0x00, 0x10, 0x00, 0x00, SDIO_CISTPL_FUNCE, 4, 0, 0, SDIO_CISTPL_FUNCE]);
    bus.always(commands::SDIO_CMD52_IO_RW_DIRECT, Err(BROKEN));
    let mut c = card(bus);
    assert_eq!(c.sdio_get_max_speed(), Err(BROKEN));
    assert_eq!(c.mmc_card.clock, 400_000);
}

#[test]
fn io_card_bus_width_switch() {
    let mut c = card(io_bus(&[0x80, 0x02]));
    assert_eq!(c.sdio_cmd52_switch_to_4_bus_width_mode(), Ok(BusWidth::_4BIT));
    assert_eq!(c.mmc_card.bus_width, BusWidth::_4BIT);
    assert_eq!(
        c.mmc_card.mmc.commands(),
        vec![
            (commands::SDIO_CMD52_IO_RW_DIRECT, 0x08 << 9),
            (commands::SDIO_CMD52_IO_RW_DIRECT, 0x8000_0000 | (1 << 27) | (0x07 << 9) | 0x02),
        ]
    );
    let mut c = card(io_bus(&[0x7F]));
    assert_eq!(c.sdio_cmd52_switch_to_4_bus_width_mode(), Ok(BusWidth::_1BIT));
    assert_eq!(c.mmc_card.bus_width, BusWidth::_1BIT);
    assert_eq!(c.mmc_card.mmc.commands().len(), 1);
    let mut bus = MockBus::new();
    bus.script(commands::SDIO_CMD52_IO_RW_DIRECT, &[Ok(0x80), Err(BROKEN)]);
    let mut c = card(bus);
    assert_eq!(c.sdio_cmd52_switch_to_4_bus_width_mode(), Err(BROKEN));
    assert_eq!(c.mmc_card.bus_width, BusWidth::_1BIT);
}

#[test]
fn io_card_high_speed_switch() {
    let mut c = card(io_bus(&[0x01, 0x03]));
    c.mmc_card.clock = 25_000_000;
    assert_eq!(c.sdio_cmd52_set_high_speed_mode(), Ok(true));
    assert!(c.mmc_card.high_speed);
    assert_eq!(c.mmc_card.clock, 50_000_000);
    assert_eq!(
        c.mmc_card.mmc.commands(),
        vec![
            (commands::SDIO_CMD52_IO_RW_DIRECT, 0x13 << 9),
            (commands::SDIO_CMD52_IO_RW_DIRECT, 0x8000_0000 | (1 << 27) | (0x13 << 9) | 0x02),
        ]
    );
    let mut c = card(io_bus(&[0xFE]));
    assert_eq!(c.sdio_cmd52_set_high_speed_mode(), Ok(false));
    assert!(!c.mmc_card.high_speed);
    assert_eq!(c.mmc_card.clock, 400_000);
    let mut bus = MockBus::new();
    bus.script(commands::SDIO_CMD52_IO_RW_DIRECT, &[Ok(0x01), Err(BROKEN)]);
    let mut c = card(bus);
    assert_eq!(c.sdio_cmd52_set_high_speed_mode(), Err(BROKEN));
    assert!(!c.mmc_card.high_speed);
}

#[test]
fn extended_io_transfers() {
    let mut c = card(MockBus::new());
    assert_eq!(
        c.sdio_cmd53_io_rw_extended(Direction::Read, FunctionSelection::Function1, 0x10, true, 0, true),
        Err(MciError::IncorrectDataSize)
    );
    assert_eq!(
        c.sdio_cmd53_io_rw_extended(Direction::Write, FunctionSelection::Function1, 0x10, true, 513, true),
        Err(MciError::IncorrectDataSize)
    );
    assert!(c.mmc_card.mmc.ops().is_empty());
    assert_eq!(
        c.sdio_cmd53_io_rw_extended(Direction::Write, FunctionSelection::Function2, 0x10, true, 512, false),
        Ok(())
    );
    assert_eq!(
        c.mmc_card.mmc.ops(),
        vec![Op::Adtc(
            commands::SDIO_CMD53_IO_W_BYTE_EXTENDED,
            0x8000_0000 | (2 << 28) | (1 << 26) | (0x10 << 9),
            512,
            1,
            false
        )]
    );

    let mut bus = MockBus::new();
    bus.incoming.push_back(Ok(vec![7u8; 64]));
    let mut c = card(bus);
    let mut buffer = [0u8; 64];
    assert_eq!(c.sdio_read_extended(FunctionSelection::Function1, 0x20, false, &mut buffer, 64), Ok(()));
    assert_eq!(buffer, [7u8; 64]);
    assert_eq!(c.sdio_write_extended(FunctionSelection::Function1, 0x20, true, &buffer, 64), Ok(()));
    assert_eq!(
        c.mmc_card.mmc.ops(),
        vec![
            select(),
            Op::Adtc(commands::SDIO_CMD53_IO_R_BYTE_EXTENDED, (1 << 28) | (0x20 << 9) | 64, 64, 1, true),
            Op::ReadBlocks(64),
            Op::WaitRead,
            select(),
            Op::Adtc(
                commands::SDIO_CMD53_IO_W_BYTE_EXTENDED,
                0x8000_0000 | (1 << 28) | (1 << 26) | (0x20 << 9) | 64,
                64,
                1,
                true
            ),
            Op::WriteBlocks(vec![7u8; 64]),
            Op::WaitWrite,
        ]
    );
    assert_eq!(
        c.sdio_read_extended(FunctionSelection::Function1, 0x20, false, &mut buffer, 0),
        Err(MciError::IncorrectDataSize)
    );
    c.mmc_card.mmc.write_result = Err(BROKEN);
    assert_eq!(c.sdio_write_extended(FunctionSelection::Function1, 0, false, &buffer, 64), Err(BROKEN));
    c.mmc_card.mmc.wait_result = Err(TIMED_OUT);
    assert_eq!(c.sdio_read_extended(FunctionSelection::Function1, 0, false, &mut buffer, 64), Err(TIMED_OUT));
    c.mmc_card.mmc.select_result = Err(BROKEN);
    assert_eq!(
        c.sdio_write_extended(FunctionSelection::Function1, 0, false, &buffer, 64),
        Err(MciError::CouldNotSelectDevice)
    );
}

#[test]
fn mmc_card_commands() {
    let mut bus = MockBus::new();
    bus.script(commands::MMC_CMD6_SWITCH, &[Ok(0), Ok(0), Ok(1 << 7)]);
    for index in 0..128u32 {
        bus.words.push_back(Ok(match index {
            49 => 2,
            53 => 99,
            _ => 0,
        }));
    }
    let mut mmc = MmcCard::new(bus);
    assert_eq!(mmc.mmc_cmd6_set_bus_width(&BusWidth::_8BIT), Ok(true));
    assert_eq!(mmc.bus_width, BusWidth::_8BIT);
    assert_eq!(mmc.mmc_cmd6_set_high_speed(), Ok(true));
    assert_eq!(mmc.clock, 52_000_000);
    assert_eq!(mmc.mmc_cmd6_set_bus_width(&BusWidth::_1BIT), Ok(false));
    assert_eq!(mmc.bus_width, BusWidth::_8BIT);
    mmc.csd = CsdRegister(csd_with(&[(122, 4, 4), (96, 8, 0x32), (62, 12, 0xFFF)]));
    assert_eq!(mmc.mmc_cmd8_high_speed_capable_and_update_capacity(), Ok(true));
    assert_eq!(mmc.capacity, 99);
    assert_eq!(mmc.mmc_decode_csd(), Ok(()));
    assert_eq!(mmc.version, CardVersion::Mmc(MmcVersion::Mmc4d0));
    assert_eq!(mmc.clock, 26_000_000);
    assert_eq!(mmc.capacity, 99);
    mmc.rca = 3;
    assert_eq!(mmc.sd_mmc_cmd9_spi(), Ok(()));
    assert_eq!(mmc.mmc.ops().last(), Some(&Op::Adtc(commands::SDMMC_MCI_CMD9_SEND_CSD, 0x0003_0000, 16, 1, true)));
}

#[test]
fn combined_card_reports_failures_without_a_name() {
    let mut bus = MockBus::new();
    bus.script(commands::MMC_MCI_CMD1_SEND_OP_COND, &[Ok(0xC000_0000), Err(BROKEN)]);
    bus.script(commands::MMC_CMD6_SWITCH, &[Ok(0), Ok(1 << 7), Ok(0), Err(BROKEN), Err(BROKEN)]);
    for index in 0..128u32 {
        bus.words.push_back(Ok(match index {
            49 => 2,
            53 => 4242,
            _ => 0,
        }));
    }
    bus.words.push_back(Err(BROKEN));
    let mut c = SdMmcCard::new(bus, Level(Ok(false)), Level(Ok(true)));
    assert_eq!(c.clock, 400_000);
    assert_eq!(c.state, State::NoCard);
    assert_eq!(c.mmc_mci_send_operation_condition(), Ok(()));
    assert!(c.card_type.high_capacity());
    assert_eq!(c.mmc_mci_send_operation_condition(), Err(()));
    assert_eq!(c.mmc_cmd6_set_bus_width(BusWidth::_4BIT), Ok(true));
    assert_eq!(c.bus_width, BusWidth::_4BIT);
    assert_eq!(c.mmc_cmd6_set_bus_width(BusWidth::_8BIT), Ok(false));
    assert_eq!(c.bus_width, BusWidth::_4BIT);
    assert_eq!(c.mmc_cmd6_set_high_speed(), Ok(true));
    assert!(c.high_speed);
    assert_eq!(c.clock, 52_000_000);
    assert_eq!(c.mmc_cmd6_set_high_speed(), Err(()));
    assert_eq!(c.mmc_cmd6_set_bus_width(BusWidth::_8BIT), Err(()));
    c.csd = CsdRegister(csd_with(&[(122, 4, 1), (96, 8, 0x2A), (62, 12, 0xFFF)]));
    assert_eq!(c.mmc_cmd8_high_speed_capable_and_update_capacity(), Ok(true));
    assert_eq!(c.capacity, 4242);
    assert_eq!(c.mmc_cmd8_high_speed_capable_and_update_capacity(), Err(()));
    assert_eq!(c.capacity, 4242);
    assert_eq!(c.mmc_decode_csd(), Ok(()));
    assert_eq!(c.version, CardVersion::Mmc(MmcVersion::Mmc1d4));
    assert_eq!(c.clock, 20_000_000);
    assert_eq!(c.capacity, 4242);
}
