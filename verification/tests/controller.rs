use sd_mmc::bus::{Adtc, Bus, Read, SdMmcBus, Write};
use sd_mmc::card::version::{CardVersion, MmcVersion, SdCardVersion};
use sd_mmc::card::{Card, State};
use sd_mmc::command_arguments::mmc::BusWidth;
use sd_mmc::command_arguments::sd::cmd6::high_speed_switch;
use sd_mmc::commands;
use sd_mmc::controller::controller::ocr_voltage_support;
use sd_mmc::controller::Controller;
use sd_mmc::error::{CommandOrDataError, ImplError, MciError, SetupError};
use sd_mmc::mci::Mci;
use sd_mmc::pin::InputPin;
use sd_mmc::registers::csd::CsdRegister;
use sd_mmc::transaction::Transaction;
use std::cell::RefCell;
use std::collections::{HashMap, VecDeque};

#[derive(Debug, Clone, PartialEq)]
enum Op {
    Select(u8, u32, BusWidth, bool),
    Deselect(u8),
    Clock,
    Command(u32, u32),
    Response,
    Response128,
    Adtc(u32, u32, u16, u16, bool),
    Stop(u32, u32),
    ReadWord,
    ReadBlocks(usize),
    WaitRead,
    WriteBlocks(Vec<u8>),
    WaitWrite,
    MaxWidth(u8),
    HighSpeed,
}

struct MockBus {
    ops: RefCell<Vec<Op>>,
    scripted: HashMap<u32, VecDeque<Result<u32, MciError>>>,
    lasting: HashMap<u32, Result<u32, MciError>>,
    response: u32,
    response_fails: Option<MciError>,
    response128: Result<[u32; 4], MciError>,
    words: VecDeque<Result<u32, MciError>>,
    incoming: VecDeque<Result<Vec<u8>, MciError>>,
    write_result: Result<(), MciError>,
    wait_result: Result<(), MciError>,
    select_result: Result<(), MciError>,
    clock_result: Result<(), MciError>,
    stops: RefCell<VecDeque<Result<(), MciError>>>,
    width: Result<BusWidth, MciError>,
    high_speed: Result<bool, MciError>,
}

impl MockBus {
    fn new() -> Self {
        MockBus {
            ops: RefCell::new(Vec::new()),
            scripted: HashMap::new(),
            lasting: HashMap::new(),
            response: 0,
            response_fails: None,
            response128: Ok([0; 4]),
            words: VecDeque::new(),
            incoming: VecDeque::new(),
            write_result: Ok(()),
            wait_result: Ok(()),
            select_result: Ok(()),
            clock_result: Ok(()),
            stops: RefCell::new(VecDeque::new()),
            width: Ok(BusWidth::_1BIT),
            high_speed: Ok(false),
        }
    }

    fn script(&mut self, cmd: u32, outcomes: &[Result<u32, MciError>]) {
        self.scripted.entry(cmd).or_default().extend(outcomes.iter().cloned());
    }

    fn always(&mut self, cmd: u32, outcome: Result<u32, MciError>) {
        self.lasting.insert(cmd, outcome);
    }

    fn take(&mut self, cmd: u32) -> Result<(), MciError> {
        let outcome = match self.scripted.get_mut(&cmd).and_then(|q| q.pop_front()) {
            Some(outcome) => outcome,
            None => self.lasting.get(&cmd).cloned().unwrap_or(Ok(0)),
        };
        match outcome {
            Ok(response) => {
                self.response = response;
                Ok(())
            }
            Err(e) => Err(e),
        }
    }

    fn ops(&self) -> Vec<Op> {
        self.ops.borrow().clone()
    }

    fn commands(&self) -> Vec<(u32, u32)> {
        self.ops
            .borrow()
            .iter()
            .filter_map(|op| match op {
                Op::Command(c, a) => Some((*c, *a)),
                Op::Adtc(c, a, _, _, _) => Some((*c, *a)),
                Op::Stop(c, a) => Some((*c, *a)),
                _ => None,
            })
            .collect()
    }

    fn count(&self, cmd: u32) -> usize {
        self.commands().iter().filter(|(c, _)| *c == cmd).count()
    }
}

impl Bus for MockBus {
    fn init(&mut self) -> Result<(), MciError> {
        Ok(())
    }

    fn deinit(&mut self) -> Result<(), MciError> {
        Ok(())
    }

    fn select_device(&mut self, slot: u8, clock: u32, bus_width: &BusWidth, high_speed: bool) -> Result<(), MciError> {
        self.ops.borrow_mut().push(Op::Select(slot, clock, *bus_width, high_speed));
        self.select_result
    }

    fn deselect_device(&mut self, slot: u8) -> Result<(), MciError> {
        self.ops.borrow_mut().push(Op::Deselect(slot));
        Ok(())
    }

    fn send_clock(&mut self) -> Result<(), MciError> {
        self.ops.borrow_mut().push(Op::Clock);
        self.clock_result
    }

    fn send_command(&mut self, cmd: u32, arg: u32) -> Result<(), MciError> {
        self.ops.borrow_mut().push(Op::Command(cmd, arg));
        self.take(cmd)
    }

    fn get_response(&mut self) -> Result<u32, MciError> {
        self.ops.borrow_mut().push(Op::Response);
        match self.response_fails {
            Some(e) => Err(e),
            None => Ok(self.response),
        }
    }
}

impl Adtc for MockBus {
    fn adtc_start(&mut self, command: u32, argument: u32, block_size: u16, block_amount: u16, access_in_blocks: bool) -> Result<(), MciError> {
        self.ops.borrow_mut().push(Op::Adtc(command, argument, block_size, block_amount, access_in_blocks));
        self.take(command)
    }

    fn adtc_stop(&self, command: u32, argument: u32) -> Result<(), MciError> {
        self.ops.borrow_mut().push(Op::Stop(command, argument));
        self.stops.borrow_mut().pop_front().unwrap_or(Ok(()))
    }
}

impl Read for MockBus {
    fn read_word(&mut self) -> Result<u32, MciError> {
        self.ops.borrow_mut().push(Op::ReadWord);
        self.words.pop_front().unwrap_or(Ok(0))
    }

    fn read_blocks(&mut self, blocks: &mut [u8]) -> Result<(), MciError> {
        self.ops.borrow_mut().push(Op::ReadBlocks(blocks.len()));
        match self.incoming.pop_front() {
            None => Ok(()),
            Some(Err(e)) => Err(e),
            Some(Ok(data)) => {
                blocks[..data.len()].copy_from_slice(&data);
                Ok(())
            }
        }
    }

    fn wait_until_read_finished(&mut self) -> Result<(), MciError> {
        self.ops.borrow_mut().push(Op::WaitRead);
        self.wait_result
    }
}

impl Write for MockBus {
    fn write_word(&mut self, _val: u32) -> Result<(), MciError> {
        Ok(())
    }

    fn write_blocks(&mut self, blocks: &[u8]) -> Result<(), MciError> {
        self.ops.borrow_mut().push(Op::WriteBlocks(blocks.to_vec()));
        self.write_result
    }

    fn wait_until_write_finished(&mut self) -> Result<(), MciError> {
        self.ops.borrow_mut().push(Op::WaitWrite);
        self.wait_result
    }
}

impl SdMmcBus for MockBus {
    fn get_bus_width(&mut self, slot: u8) -> Result<BusWidth, MciError> {
        self.ops.borrow_mut().push(Op::MaxWidth(slot));
        self.width
    }

    fn is_high_speed_capable(&mut self) -> Result<bool, MciError> {
        self.ops.borrow_mut().push(Op::HighSpeed);
        self.high_speed
    }

    fn get_response128(&mut self) -> Result<[u32; 4], MciError> {
        self.ops.borrow_mut().push(Op::Response128);
        self.response128
    }
}

impl Mci for MockBus {}

struct Level(Result<bool, ()>);

impl InputPin for Level {
    fn is_high(&self) -> Result<bool, ()> {
        self.0
    }

    fn is_low(&self) -> Result<bool, ()> {
        self.0.map(|high| !high)
    }
}

fn csd_with(fields: &[(usize, usize, u32)]) -> [u32; 4] {
    let mut words = [0u32; 4];
    for &(lo, width, value) in fields {
        for bit in 0..width {
            if (value >> bit) & 1 == 1 {
                let position = lo + bit;
                words[position / 32] |= 1 << (position % 32);
            }
        }
    }
    words
}

const TIMED_OUT: MciError = MciError::Impl(ImplError::TimedOut);
const BROKEN: MciError = MciError::CommandError(CommandOrDataError::EndBit);

type Mock = Controller<MockBus, Level, Level>;

fn controller(bus: MockBus) -> Mock {
    Controller::new(Card::spi(bus), Level(Ok(true)), Level(Ok(true)), false, 3)
}

fn select() -> Op {
    Op::Select(3, 400_000, BusWidth::_1BIT, false)
}

#[test]
fn new_card_and_controller_start_from_nothing() {
    let c = controller(MockBus::new());
    assert_eq!(c.slot, 3);
    assert!(!c.lower_is_true);
    assert_eq!(c.card.clock, 400_000);
    assert_eq!(c.card.capacity, 0);
    assert_eq!(c.card.rca, 0);
    assert_eq!(c.card.state, State::NoCard);
    assert_eq!(c.card.card_type.0, 0);
    assert_eq!(c.card.version, CardVersion::Unknown);
    assert_eq!(c.card.bus_width, BusWidth::_1BIT);
    assert_eq!(c.card.csd, CsdRegister([0; 4]));
    assert!(!c.card.high_speed);
    assert_eq!(ocr_voltage_support().val, 0x001F_8000);
}

#[test]
fn write_protection_follows_pin_and_polarity() {
    let mut c = controller(MockBus::new());
    c.write_protect_pin = Level(Ok(true));
    c.lower_is_true = false;
    assert_eq!(c.write_protected(), Ok(true));
    c.lower_is_true = true;
    assert_eq!(c.write_protected(), Ok(false));
    c.write_protect_pin = Level(Ok(false));
    assert_eq!(c.write_protected(), Ok(true));
    c.write_protect_pin = Level(Err(()));
    assert_eq!(c.write_protected(), Err(MciError::PinLevelReadError));
}

#[test]
fn mmc_version_4_install() {
    let mut bus = MockBus::new();
    bus.script(commands::MMC_MCI_CMD1_SEND_OP_COND, &[Ok(0x00FF_8000), Ok(0xC0FF_8000)]);
    bus.response128 = Ok(csd_with(&[(122, 4, 4), (96, 8, 0x32), (62, 12, 0xFFF), (47, 3, 7), (80, 4, 9)]));
    for index in 0..128u32 {
        bus.words.push_back(Ok(match index {
            49 => 0x0000_0002,
            53 => 0x0074_0000,
            _ => 0xEEEE_EEEE,
        }));
    }
    bus.width = Ok(BusWidth::_8BIT);
    bus.high_speed = Ok(true);
    bus.script(commands::SDMMC_CMD16_SET_BLOCKLEN, &[Err(BROKEN), Err(BROKEN), Ok(0)]);
    let mut c = controller(bus);
    c.card.state = State::Init;
    c.card.capacity = 1;
    assert_eq!(c.init(), Ok(()));

    let mut expected = vec![
        Op::Command(commands::SDMMC_MCI_CMD0_GO_IDLE_STATE, 0),
        Op::Command(commands::MMC_MCI_CMD1_SEND_OP_COND, 0x401F_8000),
        Op::Response,
        Op::Command(commands::MMC_MCI_CMD1_SEND_OP_COND, 0x401F_8000),
        Op::Response,
        Op::Command(commands::SDMMC_CMD2_ALL_SEND_CID, 0),
        Op::Command(commands::MMC_CMD3_SET_RELATIVE_ADDR, 0x0001_0000),
        Op::Command(commands::SDMMC_MCI_CMD9_SEND_CSD, 0x0001_0000),
        Op::Response128,
        Op::Command(commands::SDMMC_CMD7_SELECT_CARD_CMD, 0x0001_0000),
        Op::Adtc(commands::MMC_CMD8_SEND_EXT_CSD, 0, 512, 1, false),
    ];
    expected.extend(std::iter::repeat(Op::ReadWord).take(128));
    expected.extend_from_slice(&[
        Op::MaxWidth(3),
        Op::Command(commands::MMC_CMD6_SWITCH, 0x01B7_0200),
        Op::Response,
        Op::Select(3, 26_000_000, BusWidth::_8BIT, false),
        Op::HighSpeed,
        Op::Command(commands::MMC_CMD6_SWITCH, 0x03B9_0100),
        Op::Response,
        Op::Select(3, 52_000_000, BusWidth::_8BIT, true),
        Op::Command(commands::SDMMC_CMD16_SET_BLOCKLEN, 512),
        Op::Command(commands::SDMMC_CMD16_SET_BLOCKLEN, 512),
        Op::Command(commands::SDMMC_CMD16_SET_BLOCKLEN, 512),
    ]);
    assert_eq!(c.card.bus.ops(), expected);
    assert_eq!(c.card.rca, 1);
    assert_eq!(c.card.version, CardVersion::Mmc(MmcVersion::Mmc4d0));
    assert_eq!(c.card.capacity, 7_602_176);
    assert_eq!(c.card.clock, 52_000_000);
    assert_eq!(c.card.bus_width, BusWidth::_8BIT);
    assert!(c.card.high_speed);
    assert!(c.card.card_type.high_capacity());
    assert!(!c.card.card_type.sd());
    assert_eq!(c.card.state, State::Ready);
    assert_eq!(c.slot, 3);
}

#[test]
fn older_mmc_install_keeps_one_data_line() {
    let mut bus = MockBus::new();
    bus.always(commands::MMC_MCI_CMD1_SEND_OP_COND, Ok(0x80FF_8000));
    bus.response128 = Ok(csd_with(&[(122, 4, 3), (96, 8, 0x2A), (62, 12, 1000), (47, 3, 2), (80, 4, 10)]));
    bus.width = Ok(BusWidth::_8BIT);
    bus.high_speed = Ok(true);
    let mut c = controller(bus);
    assert_eq!(c.init(), Ok(()));
    assert_eq!(
        c.card.bus.ops(),
        vec![
            Op::Command(commands::SDMMC_MCI_CMD0_GO_IDLE_STATE, 0),
            Op::Command(commands::MMC_MCI_CMD1_SEND_OP_COND, 0x401F_8000),
            Op::Response,
            Op::Command(commands::SDMMC_CMD2_ALL_SEND_CID, 0),
            Op::Command(commands::MMC_CMD3_SET_RELATIVE_ADDR, 0x0001_0000),
            Op::Command(commands::SDMMC_MCI_CMD9_SEND_CSD, 0x0001_0000),
            Op::Response128,
            Op::Command(commands::SDMMC_CMD7_SELECT_CARD_CMD, 0x0001_0000),
            Op::Select(3, 20_000_000, BusWidth::_1BIT, false),
            Op::Command(commands::SDMMC_CMD16_SET_BLOCKLEN, 512),
        ]
    );
    assert_eq!(c.card.version, CardVersion::Mmc(MmcVersion::SdMmc3d0));
    assert_eq!(c.card.clock, 20_000_000);
    assert_eq!(c.card.capacity, 1001 * 4 * 1024 / 1024);
    assert!(!c.card.card_type.high_capacity());
    assert!(!c.card.high_speed);
    assert_eq!(c.card.state, State::Ready);
}

fn version_4_bus() -> MockBus {
    let mut bus = MockBus::new();
    bus.always(commands::MMC_MCI_CMD1_SEND_OP_COND, Ok(0x80FF_8000));
    bus.response128 = Ok(csd_with(&[(122, 4, 4), (96, 8, 0x32), (62, 12, 100), (47, 3, 1), (80, 4, 9)]));
    for index in 0..128u32 {
        bus.words.push_back(Ok(if index == 49 { 2 } else { 0 }));
    }
    bus.width = Ok(BusWidth::_4BIT);
    bus.high_speed = Ok(true);
    bus
}

#[test]
fn install_names_the_step_that_failed() {
    let mut bus = version_4_bus();
    bus.script(commands::MMC_CMD6_SWITCH, &[Err(BROKEN)]);
    let mut c = controller(bus);
    assert_eq!(c.init(), Err(MciError::Setup(SetupError::CouldNotSetBusWidth)));
    assert_eq!(c.card.bus_width, BusWidth::_1BIT);
    assert_eq!(c.card.state, State::Unusable);

    let mut bus = version_4_bus();
    bus.script(commands::MMC_CMD6_SWITCH, &[Ok(0), Err(BROKEN)]);
    let mut c = controller(bus);
    assert_eq!(c.init(), Err(MciError::Setup(SetupError::CouldNotSetToHighSpeed)));
    assert_eq!(c.card.bus_width, BusWidth::_4BIT);
    assert!(!c.card.high_speed);

    let mut bus = version_4_bus();
    bus.high_speed = Err(BROKEN);
    let mut c = controller(bus);
    assert_eq!(c.init(), Err(MciError::Setup(SetupError::CouldNotCheckIfIsHighSpeed)));

    let mut bus = version_4_bus();
    bus.select_result = Err(BROKEN);
    let mut c = controller(bus);
    assert_eq!(c.init(), Err(MciError::Setup(SetupError::CouldNotSetToHighSpeed)));

    let mut bus = version_4_bus();
    bus.width = Ok(BusWidth::_1BIT);
    bus.select_result = Err(BROKEN);
    let mut c = controller(bus);
    assert_eq!(c.init(), Err(MciError::CouldNotSelectDevice));
    assert!(c.card.high_speed);
    assert_eq!(c.card.clock, 52_000_000);

    let mut bus = version_4_bus();
    bus.width = Err(BROKEN);
    let mut c = controller(bus);
    assert_eq!(c.init(), Err(BROKEN));

    let mut bus = version_4_bus();
    bus.always(commands::SDMMC_CMD16_SET_BLOCKLEN, Err(BROKEN));
    let mut c = controller(bus);
    assert_eq!(c.init(), Err(TIMED_OUT));
    assert_eq!(c.card.bus.count(commands::SDMMC_CMD16_SET_BLOCKLEN), 10);
    assert_eq!(c.card.state, State::Unusable);
    assert_eq!(c.select_slot(), Err(MciError::UnusableCard));

    let mut bus = version_4_bus();
    bus.always(commands::SDMMC_MCI_CMD0_GO_IDLE_STATE, Err(BROKEN));
    let mut c = controller(bus);
    c.card.state = State::Init;
    assert_eq!(c.init(), Err(BROKEN));
    assert_eq!(c.card.bus.ops().len(), 1);
    assert_eq!(c.card.state, State::Unusable);

    let mut bus = version_4_bus();
    bus.always(commands::MMC_CMD3_SET_RELATIVE_ADDR, Err(BROKEN));
    let mut c = controller(bus);
    assert_eq!(c.init(), Err(BROKEN));
    assert_eq!(c.card.rca, 1);
}

#[test]
fn install_goes_on_where_the_card_refuses_a_switch() {
    let mut bus = version_4_bus();
    bus.always(commands::MMC_CMD6_SWITCH, Ok(1 << 7));
    let mut c = controller(bus);
    assert_eq!(c.init(), Ok(()));
    assert_eq!(c.card.bus_width, BusWidth::_1BIT);
    assert!(!c.card.high_speed);
    assert_eq!(c.card.clock, 26_000_000);
    assert_eq!(c.card.bus.count(commands::MMC_CMD6_SWITCH), 2);
    assert_eq!(c.card.state, State::Ready);

    let mut bus = version_4_bus();
    bus.words.clear();
    let mut c = controller(bus);
    assert_eq!(c.init(), Ok(()));
    assert_eq!(c.card.bus.count(commands::MMC_CMD6_SWITCH), 1);
    assert!(!c.card.high_speed);
    assert_eq!(c.card.bus_width, BusWidth::_4BIT);
}

#[test]
fn sd_version_2_high_capacity_bring_up() {
    let mut bus = MockBus::new();
    bus.always(commands::SD_CMD8_SEND_IF_COND, Ok(0x1AA));
    bus.script(commands::SD_MCI_ACMD41_SD_SEND_OP_COND, &[Ok(0x00FF_8000), Ok(0xC0FF_8000)]);
    bus.response128 = Ok(csd_with(&[(126, 2, 1), (96, 8, 0x32), (48, 22, 0x3B37)]));
    let mut status = vec![0u8; 64];
    status[16] = 0x01;
    bus.incoming.push_back(Ok(status));
    let mut c = controller(bus);

    assert_eq!(c.card.bus.send_command(commands::SDMMC_MCI_CMD0_GO_IDLE_STATE, 0), Ok(()));
    assert_eq!(c.is_v2(), Ok(true));
    c.card.card_type.set_sd(true);
    assert_eq!(c.load_ocr_sdcard(true), Ok(()));
    assert!(c.card.card_type.sd() && c.card.card_type.high_capacity());
    assert_eq!(c.card.bus.send_command(commands::SDMMC_CMD2_ALL_SEND_CID, 0), Ok(()));
    c.card.rca = 1;
    assert_eq!(c.card.bus.send_command(commands::SD_CMD3_SEND_RELATIVE_ADDR, 0), Ok(()));
    assert_eq!(c.card.mci_load_csd(), Ok(()));
    assert_eq!(c.sd_decode_csd(), Ok(()));
    assert_eq!(c.card.capacity, (0x3B37 + 1) * 512);
    assert_eq!(c.card.clock, 25_000_000);
    assert_eq!(c.card.bus.send_command(commands::SDMMC_CMD7_SELECT_CARD_CMD, 0x0001_0000), Ok(()));
    assert_eq!(c.card.set_data_bus_width_to_4_bits(), Ok(()));
    assert_eq!(c.card.bus_width, BusWidth::_4BIT);
    assert_eq!(c.set_to_high_speed_mode(), Ok(true));
    assert!(c.card.high_speed);
    assert_eq!(c.card.clock, 50_000_000);
    assert_eq!(c.select(), Ok(()));

    assert_eq!(
        c.card.bus.ops(),
        vec![
            Op::Command(commands::SDMMC_MCI_CMD0_GO_IDLE_STATE, 0),
            Op::Command(commands::SD_CMD8_SEND_IF_COND, 0x1AA),
            Op::Response,
            Op::Command(commands::SDMMC_CMD55_APP_CMD, 0),
            Op::Command(commands::SD_MCI_ACMD41_SD_SEND_OP_COND, 0x401F_8000),
            Op::Response,
            Op::Command(commands::SDMMC_CMD55_APP_CMD, 0),
            Op::Command(commands::SD_MCI_ACMD41_SD_SEND_OP_COND, 0x401F_8000),
            Op::Response,
            Op::Command(commands::SDMMC_CMD2_ALL_SEND_CID, 0),
            Op::Command(commands::SD_CMD3_SEND_RELATIVE_ADDR, 0),
            Op::Command(commands::SDMMC_MCI_CMD9_SEND_CSD, 0x0001_0000),
            Op::Response128,
            Op::Command(commands::SDMMC_CMD7_SELECT_CARD_CMD, 0x0001_0000),
            Op::Command(commands::SDMMC_CMD55_APP_CMD, 0x0001_0000),
            Op::Command(commands::SD_ACMD6_SET_BUS_WIDTH, 2),
            Op::Adtc(commands::SD_CMD6_SWITCH_FUNC, 0x80FF_FF01, 64, 1, true),
            Op::ReadBlocks(64),
            Op::WaitRead,
            Op::Clock,
            Op::Select(3, 50_000_000, BusWidth::_4BIT, true),
        ]
    );
}

#[test]
fn sd_conditions_without_high_capacity_support() {
    let mut bus = MockBus::new();
    bus.always(commands::SD_MCI_ACMD41_SD_SEND_OP_COND, Ok(0x80FF_8000));
    let mut c = controller(bus);
    assert_eq!(c.load_ocr_sdcard(false), Ok(()));
    assert!(!c.card.card_type.high_capacity());
    assert_eq!(
        c.card.bus.commands(),
        vec![(commands::SDMMC_CMD55_APP_CMD, 0), (commands::SD_MCI_ACMD41_SD_SEND_OP_COND, 0x001F_8000)]
    );
}

#[test]
fn operating_conditions_time_out() {
    let mut bus = MockBus::new();
    bus.always(commands::SD_MCI_ACMD41_SD_SEND_OP_COND, Ok(0x40FF_8000));
    let mut c = controller(bus);
    assert_eq!(c.load_ocr_sdcard(true), Err(TIMED_OUT));
    assert_eq!(c.card.bus.count(commands::SD_MCI_ACMD41_SD_SEND_OP_COND), 2099);
    assert_eq!(c.card.bus.count(commands::SDMMC_CMD55_APP_CMD), 2099);
    assert!(!c.card.card_type.high_capacity());

    let mut bus = MockBus::new();
    bus.always(commands::MMC_MCI_CMD1_SEND_OP_COND, Ok(0x40FF_8000));
    let mut c = controller(bus);
    assert_eq!(c.load_ocr_mmc(), Err(TIMED_OUT));
    assert_eq!(c.card.bus.count(commands::MMC_MCI_CMD1_SEND_OP_COND), 4199);
    assert!(!c.card.card_type.high_capacity());
}

#[test]
fn operating_conditions_pass_failures_on() {
    let mut bus = MockBus::new();
    bus.script(commands::SDMMC_CMD55_APP_CMD, &[Ok(0), Err(BROKEN)]);
    let mut c = controller(bus);
    assert_eq!(c.load_ocr_sdcard(true), Err(BROKEN));
    assert_eq!(c.card.bus.ops().len(), 4);

    let mut bus = MockBus::new();
    bus.response_fails = Some(BROKEN);
    let mut c = controller(bus);
    assert_eq!(c.load_ocr_mmc(), Err(BROKEN));
    assert_eq!(c.card.bus.ops().len(), 2);

    let mut bus = MockBus::new();
    bus.always(commands::MMC_MCI_CMD1_SEND_OP_COND, Ok(0x80FF_8000));
    let mut c = controller(bus);
    assert_eq!(c.load_ocr_mmc(), Ok(()));
    assert!(!c.card.card_type.high_capacity());
    let mut bus = MockBus::new();
    bus.always(commands::MMC_MCI_CMD1_SEND_OP_COND, Ok(0xA0FF_8000));
    let mut c = controller(bus);
    assert_eq!(c.load_ocr_mmc(), Ok(()));
    assert!(!c.card.card_type.high_capacity());
}

#[test]
fn interface_condition_outcomes() {
    let mut bus = MockBus::new();
    bus.always(commands::SD_CMD8_SEND_IF_COND, Err(BROKEN));
    let mut c = controller(bus);
    assert_eq!(c.is_v2(), Ok(false));
    assert_eq!(c.card.bus.ops(), vec![Op::Command(commands::SD_CMD8_SEND_IF_COND, 0x1AA)]);

    let mut bus = MockBus::new();
    bus.always(commands::SD_CMD8_SEND_IF_COND, Ok(0xFFFF_FFFF));
    let mut c = controller(bus);
    assert_eq!(c.is_v2(), Ok(false));

    let mut bus = MockBus::new();
    bus.always(commands::SD_CMD8_SEND_IF_COND, Ok(0x1AB));
    let mut c = controller(bus);
    assert_eq!(c.is_v2(), Err(MciError::Impl(ImplError::InvalidConfiguration)));

    let mut bus = MockBus::new();
    bus.response_fails = Some(BROKEN);
    let mut c = controller(bus);
    assert_eq!(c.is_v2(), Err(BROKEN));
}

#[test]
fn sd_high_speed_switch_outcomes() {
    let mut refused = vec![0u8; 64];
    refused[16] = 0x0F;
    let mut bus = MockBus::new();
    bus.incoming.push_back(Ok(refused));
    let mut c = controller(bus);
    c.card.clock = 25_000_000;
    assert_eq!(c.set_to_high_speed_mode(), Ok(false));
    assert_eq!(c.card.clock, 25_000_000);
    assert!(!c.card.high_speed);
    assert!(!c.card.bus.ops().contains(&Op::Clock));

    let mut busy = vec![0u8; 64];
    busy[29] = 0x02;
    let mut bus = MockBus::new();
    bus.incoming.push_back(Ok(busy));
    let mut c = controller(bus);
    assert_eq!(c.set_to_high_speed_mode(), Err(MciError::GroupBusy));
    assert!(!c.card.high_speed);
    assert!(!c.card.bus.ops().contains(&Op::Clock));

    let mut bus = MockBus::new();
    bus.clock_result = Err(BROKEN);
    let mut c = controller(bus);
    assert_eq!(c.set_to_high_speed_mode(), Err(BROKEN));
    assert!(!c.card.high_speed);
    assert_eq!(c.card.clock, 400_000);

    let mut bus = MockBus::new();
    bus.incoming.push_back(Err(BROKEN));
    let mut c = controller(bus);
    assert_eq!(c.set_to_high_speed_mode(), Err(BROKEN));
    assert_eq!(c.card.bus.ops().len(), 2);

    let mut bus = MockBus::new();
    bus.always(commands::SD_CMD6_SWITCH_FUNC, Err(BROKEN));
    let mut c = controller(bus);
    assert_eq!(c.cmd6(commands::SD_CMD6_SWITCH_FUNC, high_speed_switch()).err(), Some(BROKEN));
    let mut raw = vec![0u8; 64];
    raw[16] = 0x21;
    raw[28] = 0x80;
    let mut bus = MockBus::new();
    bus.incoming.push_back(Ok(raw.clone()));
    let mut c = controller(bus);
    let status = c.cmd6(commands::SD_CMD6_SWITCH_FUNC, high_speed_switch()).unwrap();
    assert_eq!(&status.val[..], &raw[..]);
    assert_eq!(status.group1_info_status(), 1);
    assert_eq!(status.group1_busy(), 0x8000);
}

#[test]
fn configuration_register_gives_the_version() {
    for (code, version) in [
        (0u8, SdCardVersion::Sd1d0),
        (1, SdCardVersion::Sd1d10),
        (2, SdCardVersion::Sd2d0),
        (3, SdCardVersion::Sd1d0),
        (9, SdCardVersion::Sd1d0),
    ] {
        let mut bus = MockBus::new();
        bus.incoming.push_back(Ok(vec![code, 0, 0, 0, 0, 0, 0, 0]));
        let mut c = controller(bus);
        c.card.rca = 5;
        assert_eq!(c.sd_acmd51(), Ok(()));
        assert_eq!(c.card.version, CardVersion::SdCard(version));
        assert_eq!(
            c.card.bus.ops(),
            vec![
                Op::Command(commands::SDMMC_CMD55_APP_CMD, 0x0005_0000),
                Op::Adtc(commands::SD_ACMD51_SEND_SCR, 0, 8, 1, true),
                Op::ReadBlocks(8),
                Op::WaitRead,
            ]
        );
    }
    let mut bus = MockBus::new();
    bus.incoming.push_back(Ok(vec![0x12, 0x34, 0, 0, 0, 0, 0, 0x56]));
    let mut c = controller(bus);
    assert_eq!(c.sd_scr().unwrap().val, [0x12, 0x34, 0, 0, 0, 0, 0, 0x56]);
    let mut bus = MockBus::new();
    bus.wait_result = Err(BROKEN);
    let mut c = controller(bus);
    c.card.version = CardVersion::Unknown;
    assert_eq!(c.sd_acmd51(), Err(BROKEN));
    assert_eq!(c.card.version, CardVersion::Unknown);
}

#[test]
fn sd_card_specific_data_decoding_by_layout() {
    let mut c = controller(MockBus::new());
    c.card.csd = CsdRegister(csd_with(&[(126, 2, 0), (96, 8, 0x5A), (62, 12, 2047), (47, 3, 6), (80, 4, 11)]));
    assert_eq!(c.sd_decode_csd(), Ok(()));
    assert_eq!(c.card.clock, 50_000_000);
    assert_eq!(c.card.capacity, 2048 * 8 * 2048 / 1024);
    c.card.csd = CsdRegister(csd_with(&[(126, 2, 1), (96, 8, 0x32), (48, 22, 0x3BFF)]));
    assert_eq!(c.sd_decode_csd(), Ok(()));
    assert_eq!(c.card.capacity, 7_864_320);
    assert!(c.card.bus.ops().is_empty());
}

#[test]
fn mmc_card_specific_data_decoding() {
    let mut card = Card::spi(MockBus::new());
    card.capacity = 77;
    card.csd = CsdRegister(csd_with(&[(122, 4, 2), (96, 8, 0x5A), (62, 12, 0xFFF), (47, 3, 7), (80, 4, 9)]));
    assert_eq!(card.decode_csd(), Ok(()));
    assert_eq!(card.version, CardVersion::Mmc(MmcVersion::Mmc2d2));
    assert_eq!(card.clock, 52_000_000);
    assert_eq!(card.capacity, 77);
    card.csd = CsdRegister(csd_with(&[(122, 4, 9), (96, 8, 0x32), (62, 12, 0xFFE), (47, 3, 7), (80, 4, 9)]));
    assert_eq!(card.decode_csd(), Ok(()));
    assert_eq!(card.version, CardVersion::Unknown);
    assert_eq!(card.clock, 26_000_000);
    assert_eq!(card.capacity, 0xFFF * 9 * 512 / 1024);
}

#[test]
fn card_commands_over_the_native_interface() {
    let mut bus = MockBus::new();
    bus.script(commands::MMC_CMD6_SWITCH, &[Ok(0), Ok(1 << 7), Ok(0), Ok(1 << 7), Err(BROKEN)]);
    let mut card = Card::spi(bus);
    assert_eq!(card.set_bus_width(&BusWidth::_4BIT), Ok(true));
    assert_eq!(card.bus_width, BusWidth::_4BIT);
    assert_eq!(card.set_bus_width(&BusWidth::_8BIT), Ok(false));
    assert_eq!(card.bus_width, BusWidth::_4BIT);
    assert_eq!(card.set_high_speed(), Ok(true));
    assert!(card.high_speed);
    assert_eq!(card.clock, 52_000_000);
    card.high_speed = false;
    card.clock = 1;
    assert_eq!(card.set_high_speed(), Ok(false));
    assert!(!card.high_speed);
    assert_eq!(card.clock, 1);
    assert_eq!(card.set_high_speed(), Err(BROKEN));
    assert_eq!(
        card.bus.commands(),
        vec![
            (commands::MMC_CMD6_SWITCH, 0x01B7_0100),
            (commands::MMC_CMD6_SWITCH, 0x01B7_0200),
            (commands::MMC_CMD6_SWITCH, 0x03B9_0100),
            (commands::MMC_CMD6_SWITCH, 0x03B9_0100),
            (commands::MMC_CMD6_SWITCH, 0x03B9_0100),
        ]
    );

    let mut bus = MockBus::new();
    bus.response128 = Err(BROKEN);
    let mut card = Card::spi(bus);
    card.rca = 7;
    assert_eq!(card.mci_load_csd(), Err(BROKEN));
    assert_eq!(card.csd.0, [0; 4]);
    assert_eq!(card.bus.ops(), vec![Op::Command(commands::SDMMC_MCI_CMD9_SEND_CSD, 0x0007_0000), Op::Response128]);
    card.bus.response128 = Ok([1, 2, 3, 4]);
    assert_eq!(card.mci_load_csd(), Ok(()));
    assert_eq!(card.csd.0, [1, 2, 3, 4]);

    let mut bus = MockBus::new();
    bus.script(commands::SD_ACMD6_SET_BUS_WIDTH, &[Err(BROKEN)]);
    let mut card = Card::spi(bus);
    assert_eq!(card.set_data_bus_width_to_4_bits(), Err(BROKEN));
    assert_eq!(card.bus_width, BusWidth::_1BIT);
    assert_eq!(card.set_data_bus_width_to_4_bits(), Ok(()));
    assert_eq!(card.bus_width, BusWidth::_4BIT);
}

#[test]
fn extended_data_gives_speed_and_sector_count() {
    let mut bus = MockBus::new();
    for index in 0..128u32 {
        bus.words.push_back(Ok(match index {
            49 => 0xFFFF_FF01,
            53 => 123_456,
            _ => 0,
        }));
    }
    let mut card = Card::spi(bus);
    card.capacity = 5;
    card.csd = CsdRegister(csd_with(&[(62, 12, 0xFFE)]));
    assert_eq!(card.load_extcsd(), Ok(false));
    assert_eq!(card.capacity, 5);
    assert_eq!(card.bus.ops().len(), 129);
    assert_eq!(card.bus.ops()[0], Op::Adtc(commands::MMC_CMD8_SEND_EXT_CSD, 0, 512, 1, false));

    let mut bus = MockBus::new();
    for index in 0..128u32 {
        bus.words.push_back(Ok(match index {
            49 => 0x0000_0002,
            53 => 123_456,
            _ => 0,
        }));
    }
    let mut card = Card::spi(bus);
    card.csd = CsdRegister(csd_with(&[(62, 12, 0xFFF)]));
    assert_eq!(card.load_extcsd(), Ok(true));
    assert_eq!(card.capacity, 123_456);

    let mut bus = MockBus::new();
    for _ in 0..60 {
        bus.words.push_back(Ok(2));
    }
    bus.words.push_back(Err(BROKEN));
    let mut card = Card::spi(bus);
    card.csd = CsdRegister(csd_with(&[(62, 12, 0xFFF)]));
    assert_eq!(card.load_extcsd(), Err(BROKEN));
    assert_eq!(card.capacity, 0);
    assert_eq!(card.bus.ops().len(), 62);
}

#[test]
fn status_is_polled_until_the_card_is_ready() {
    let mut bus = MockBus::new();
    bus.script(commands::SDMMC_MCI_CMD13_SEND_STATUS, &[Ok(0), Ok(0x0000_0E00 & !0x100), Ok(0x0000_0900)]);
    let mut c = controller(bus);
    c.card.rca = 2;
    assert_eq!(c.load_status().map(|s| s.val), Ok(0x900));
    assert_eq!(c.card.bus.commands(), vec![(commands::SDMMC_MCI_CMD13_SEND_STATUS, 0x0002_0000); 3]);

    let mut c = controller(MockBus::new());
    assert_eq!(c.load_status().err(), Some(TIMED_OUT));
    assert_eq!(c.card.bus.count(commands::SDMMC_MCI_CMD13_SEND_STATUS), 199_999);

    let mut bus = MockBus::new();
    bus.always(commands::SDMMC_MCI_CMD13_SEND_STATUS, Err(BROKEN));
    let mut c = controller(bus);
    assert_eq!(c.load_status().err(), Some(BROKEN));
}

#[test]
fn selection_and_deselection_of_the_device() {
    let mut c = controller(MockBus::new());
    c.card.clock = 25_000_000;
    c.card.bus_width = BusWidth::_4BIT;
    c.card.high_speed = true;
    assert_eq!(c.select(), Ok(()));
    assert_eq!(c.deselect(), Ok(()));
    assert_eq!(c.card.bus.ops(), vec![Op::Select(3, 25_000_000, BusWidth::_4BIT, true), Op::Deselect(3)]);
    c.card.bus.select_result = Err(BROKEN);
    assert_eq!(c.select(), Err(MciError::CouldNotSelectDevice));
}

#[test]
fn slot_selection_by_pin_and_state() {
    let mut c = controller(MockBus::new());
    c.card.state = State::Ready;
    c.detect_pin = Level(Ok(false));
    assert_eq!(c.select_slot(), Err(MciError::NoCard));
    assert_eq!(c.card.state, State::NoCard);
    assert!(c.card.bus.ops().is_empty());

    let mut c = controller(MockBus::new());
    c.detect_pin = Level(Err(()));
    c.card.state = State::Ready;
    assert_eq!(c.select_slot(), Err(MciError::PinLevelReadError));
    assert_eq!(c.card.state, State::Ready);

    let mut c = controller(MockBus::new());
    c.card.state = State::Debounce;
    c.card.clock = 50_000_000;
    c.card.bus_width = BusWidth::_4BIT;
    c.card.high_speed = true;
    assert_eq!(c.select_slot(), Ok(()));
    assert_eq!(c.card.state, State::Init);
    assert_eq!(c.card.clock, 400_000);
    assert_eq!(c.card.bus_width, BusWidth::_1BIT);
    assert!(!c.card.high_speed);
    assert_eq!(c.card.bus.ops(), vec![select()]);

    let mut c = controller(MockBus::new());
    c.card.state = State::Unusable;
    assert_eq!(c.select_slot(), Err(MciError::UnusableCard));
    assert!(c.card.bus.ops().is_empty());

    let mut c = controller(MockBus::new());
    c.card.state = State::Ready;
    c.card.clock = 50_000_000;
    assert_eq!(c.select_slot(), Ok(()));
    assert_eq!(c.card.state, State::Ready);
    assert_eq!(c.card.bus.ops(), vec![Op::Select(3, 50_000_000, BusWidth::_1BIT, false)]);
    c.card.bus.select_result = Err(BROKEN);
    assert_eq!(c.select_slot(), Err(MciError::CouldNotSelectDevice));
}

#[test]
fn card_detect_and_write_protect_are_read_from_their_own_pins() {
    for &(detect_high, detect_lower_is_true, present) in
        [(true, false, true), (false, true, true), (true, true, false), (false, false, false)].iter()
    {
        for &protect in [Ok(true), Ok(false), Err(())].iter() {
            let mut c = controller(MockBus::new());
            c.card.state = State::Ready;
            c.detect_pin = Level(Ok(detect_high));
            c.detect_lower_is_true = detect_lower_is_true;
            c.write_protect_pin = Level(protect);
            let expected = if present { Ok(()) } else { Err(MciError::NoCard) };
            assert_eq!(c.select_slot(), expected);
        }
    }
    let mut c = controller(MockBus::new());
    assert!(!c.detect_lower_is_true);
    c.card.state = State::Ready;
    c.detect_pin = Level(Ok(true));
    c.write_protect_pin = Level(Ok(false));
    assert_eq!(c.select_slot(), Ok(()));
    assert_eq!(c.init_write_blocks(0, 1), Ok(Transaction { total: 1, remain: 1 }));
    c.detect_pin = Level(Err(()));
    assert_eq!(c.init_write_blocks(0, 1), Ok(Transaction { total: 1, remain: 1 }));
    assert_eq!(c.select_slot(), Err(MciError::PinLevelReadError));
    let c = Controller::new(Card::spi(MockBus::new()), Level(Ok(true)), Level(Ok(true)), true, 0);
    assert!(c.lower_is_true && c.detect_lower_is_true);
}

fn ready_bus() -> MockBus {
    let mut bus = MockBus::new();
    bus.always(commands::SDMMC_MCI_CMD13_SEND_STATUS, Ok(0x100));
    bus
}

#[test]
fn read_address_counts_blocks_for_high_capacity_and_bytes_otherwise() {
    for &start in [0u32, 1, 7, 0x007F_FFFF].iter() {
        let mut c = controller(ready_bus());
        assert_eq!(c.init_read_blocks(start, 1), Ok(Transaction { total: 1, remain: 1 }));
        assert_eq!(
            c.card.bus.ops().last(),
            Some(&Op::Adtc(commands::SDMMC_CMD17_READ_SINGLE_BLOCK, start * 512, 512, 1, true))
        );
        let mut c = controller(ready_bus());
        c.card.card_type.set_high_capacity(true);
        assert_eq!(c.init_read_blocks(start, 4), Ok(Transaction { total: 4, remain: 4 }));
        assert_eq!(
            c.card.bus.ops().last(),
            Some(&Op::Adtc(commands::SDMMC_CMD18_READ_MULTIPLE_BLOCK, start, 512, 4, true))
        );
        let mut c = controller(MockBus::new());
        c.write_protect_pin = Level(Ok(false));
        assert_eq!(c.init_write_blocks(start, 1), Ok(Transaction { total: 1, remain: 1 }));
        assert_eq!(
            c.card.bus.ops()[1],
            Op::Adtc(commands::SDMMC_CMD24_WRITE_BLOCK, start * 512, 512, 1, true)
        );
        let mut c = controller(MockBus::new());
        c.write_protect_pin = Level(Ok(false));
        c.card.card_type.set_high_capacity(true);
        assert_eq!(c.init_write_blocks(start, 2), Ok(Transaction { total: 2, remain: 2 }));
        assert_eq!(
            c.card.bus.ops()[1],
            Op::Adtc(commands::SDMMC_CMD25_WRITE_MULTIPLE_BLOCK, start, 512, 2, true)
        );
    }
    let mut c = controller(ready_bus());
    c.card.card_type.set_high_capacity(true);
    assert!(c.init_read_blocks(0xFFFF_FFFF, 2).is_ok());
    assert_eq!(
        c.card.bus.ops().last(),
        Some(&Op::Adtc(commands::SDMMC_CMD18_READ_MULTIPLE_BLOCK, 0xFFFF_FFFF, 512, 2, true))
    );
}

#[test]
fn read_start_stages() {
    let mut c = controller(ready_bus());
    c.card.rca = 1;
    assert!(c.init_read_blocks(2, 0).is_ok());
    assert_eq!(
        c.card.bus.ops(),
        vec![
            select(),
            Op::Command(commands::SDMMC_MCI_CMD13_SEND_STATUS, 0x0001_0000),
            Op::Response,
            Op::Adtc(commands::SDMMC_CMD17_READ_SINGLE_BLOCK, 1024, 512, 0, true),
        ]
    );
    let mut bus = ready_bus();
    bus.select_result = Err(BROKEN);
    let mut c = controller(bus);
    assert_eq!(c.init_read_blocks(0, 1), Err(MciError::CouldNotSelectDevice));
    assert_eq!(c.card.bus.ops(), vec![select()]);
    let mut c = controller(MockBus::new());
    assert_eq!(c.init_read_blocks(0, 1), Err(TIMED_OUT));
    assert_eq!(c.card.bus.count(commands::SDMMC_CMD17_READ_SINGLE_BLOCK), 0);
    let mut bus = ready_bus();
    bus.always(commands::SDMMC_CMD18_READ_MULTIPLE_BLOCK, Err(BROKEN));
    let mut c = controller(bus);
    assert_eq!(c.init_read_blocks(0, 2), Err(BROKEN));
}

#[test]
fn write_protected_card_gets_no_write_command() {
    for &blocks in [1u16, 5].iter() {
        let mut c = controller(MockBus::new());
        c.write_protect_pin = Level(Ok(true));
        c.lower_is_true = false;
        assert_eq!(c.init_write_blocks(0, blocks), Err(MciError::WriteProtected));
        assert_eq!(c.card.bus.ops(), vec![select()]);
        let mut c = controller(MockBus::new());
        c.write_protect_pin = Level(Ok(false));
        c.lower_is_true = true;
        assert_eq!(c.init_write_blocks(0, blocks), Err(MciError::WriteProtected));
        assert_eq!(c.card.bus.ops(), vec![select()]);
    }
    let mut c = controller(MockBus::new());
    c.write_protect_pin = Level(Err(()));
    assert_eq!(c.init_write_blocks(0, 1), Err(MciError::PinLevelReadError));
    assert_eq!(c.card.bus.ops(), vec![select()]);
}

#[test]
fn write_start_stages() {
    let mut bus = MockBus::new();
    bus.always(commands::SDMMC_CMD24_WRITE_BLOCK, Ok(1 << 26));
    let mut c = controller(bus);
    c.write_protect_pin = Level(Ok(false));
    assert_eq!(c.init_write_blocks(3, 1), Err(MciError::WriteProtected));
    assert_eq!(
        c.card.bus.ops(),
        vec![select(), Op::Adtc(commands::SDMMC_CMD24_WRITE_BLOCK, 1536, 512, 1, true), Op::Response]
    );
    let mut bus = MockBus::new();
    bus.always(commands::SDMMC_CMD25_WRITE_MULTIPLE_BLOCK, Err(BROKEN));
    let mut c = controller(bus);
    c.write_protect_pin = Level(Ok(false));
    assert_eq!(c.init_write_blocks(3, 2), Err(BROKEN));
    assert_eq!(c.card.bus.ops().len(), 2);
    let mut bus = MockBus::new();
    bus.response_fails = Some(BROKEN);
    let mut c = controller(bus);
    c.write_protect_pin = Level(Ok(false));
    assert_eq!(c.init_write_blocks(3, 2), Err(BROKEN));
    let mut bus = MockBus::new();
    bus.select_result = Err(BROKEN);
    let mut c = controller(bus);
    c.write_protect_pin = Level(Ok(false));
    assert_eq!(c.init_write_blocks(3, 2), Err(MciError::CouldNotSelectDevice));
    assert_eq!(c.card.bus.ops(), vec![select()]);
}

#[test]
fn whole_write_transfer_ends_with_nothing_remaining() {
    for &blocks in [1u16, 2, 8].iter() {
        let mut c = controller(MockBus::new());
        c.write_protect_pin = Level(Ok(false));
        let mut transaction = c.init_write_blocks(0, blocks).unwrap();
        let data = vec![0xA5u8; 512 * blocks as usize];
        assert_eq!(c.start_write_blocks(&mut transaction, &data), Ok(()));
        assert_eq!(c.wait_end_of_write_blocks(false, &mut transaction), Ok(()));
        assert_eq!(transaction, Transaction { total: blocks, remain: 0 });
        assert!(c.card.bus.ops().contains(&Op::WriteBlocks(data)));
    }
    let mut c = controller(MockBus::new());
    c.card.bus.write_result = Err(BROKEN);
    c.write_protect_pin = Level(Ok(false));
    let mut transaction = c.init_write_blocks(0, 2).unwrap();
    assert_eq!(c.start_write_blocks(&mut transaction, &[0u8; 1024]), Err(MciError::WriteError));
    assert_eq!(transaction.remain, 0);
    assert_eq!(c.wait_end_of_write_blocks(false, &mut transaction), Ok(()));
    assert_eq!(transaction.remain, 0);
}

#[test]
fn batches_take_their_blocks_off_the_transaction() {
    let mut c = controller(MockBus::new());
    let mut transaction = Transaction::new(5);
    let mut buffer = vec![0u8; 1024 + 100];
    c.card.bus.incoming.push_back(Ok(vec![9u8; 1024]));
    assert_eq!(c.start_read(&mut transaction, &mut buffer), Ok(()));
    assert_eq!(transaction, Transaction { total: 5, remain: 3 });
    assert_eq!(&buffer[..1024], &[9u8; 1024][..]);
    assert_eq!(c.wait_end_of_read_blocks(false, &mut transaction), Ok(()));
    assert_eq!(transaction.remain, 3);
    assert_eq!(c.card.bus.ops(), vec![Op::ReadBlocks(1124), Op::WaitRead]);
    assert_eq!(c.start_write_blocks(&mut transaction, &buffer[..511]), Ok(()));
    assert_eq!(transaction.remain, 3);
    assert_eq!(c.start_write_blocks(&mut transaction, &[0u8; 1536]), Ok(()));
    assert_eq!(transaction.remain, 0);
    c.card.bus.incoming.push_back(Err(BROKEN));
    let mut transaction = Transaction::new(5);
    assert_eq!(c.start_read(&mut transaction, &mut buffer), Err(MciError::ReadError));
    assert_eq!(transaction, Transaction { total: 5, remain: 0 });
}

#[test]
fn single_block_transfer_that_has_not_moved_gets_no_stop_command() {
    let mut c = controller(MockBus::new());
    let mut transaction = Transaction::new(1);
    assert_eq!(c.wait_end_of_read_blocks(false, &mut transaction), Ok(()));
    assert_eq!(c.wait_end_of_write_blocks(false, &mut transaction), Ok(()));
    assert_eq!(transaction, Transaction { total: 1, remain: 1 });
    assert_eq!(c.card.bus.ops(), vec![Op::WaitRead, Op::WaitWrite]);
    assert_eq!(c.card.bus.count(commands::SDMMC_CMD12_STOP_TRANSMISSION), 0);
}

#[test]
fn transmission_is_stopped_when_nothing_remains() {
    let mut c = controller(MockBus::new());
    let mut transaction = Transaction { total: 4, remain: 0 };
    assert_eq!(c.wait_end_of_read_blocks(false, &mut transaction), Ok(()));
    assert_eq!(c.card.bus.ops(), vec![Op::WaitRead, Op::Stop(commands::SDMMC_CMD12_STOP_TRANSMISSION, 0)]);

    let mut c = controller(MockBus::new());
    let mut transaction = Transaction { total: 4, remain: 3 };
    assert_eq!(c.wait_end_of_write_blocks(true, &mut transaction), Ok(()));
    assert_eq!(transaction.remain, 0);
    assert_eq!(c.card.bus.ops(), vec![Op::WaitWrite, Op::Stop(commands::SDMMC_CMD12_STOP_TRANSMISSION, 0)]);

    let mut c = controller(MockBus::new());
    let mut transaction = Transaction { total: 1, remain: 0 };
    assert_eq!(c.wait_end_of_read_blocks(false, &mut transaction), Ok(()));
    assert_eq!(c.card.bus.count(commands::SDMMC_CMD12_STOP_TRANSMISSION), 1);

    let mut c = controller(MockBus::new());
    c.card.bus.stops.borrow_mut().push_back(Err(BROKEN));
    let mut transaction = Transaction { total: 2, remain: 0 };
    assert_eq!(c.wait_end_of_read_blocks(false, &mut transaction), Ok(()));
    assert_eq!(c.card.bus.count(commands::SDMMC_CMD12_STOP_TRANSMISSION), 2);

    let mut c = controller(MockBus::new());
    c.card.bus.stops.borrow_mut().extend([Err(BROKEN), Err(TIMED_OUT)]);
    let mut transaction = Transaction { total: 2, remain: 0 };
    assert_eq!(c.wait_end_of_read_blocks(false, &mut transaction), Err(TIMED_OUT));

    let mut c = controller(MockBus::new());
    c.card.bus.stops.borrow_mut().push_back(Err(BROKEN));
    let mut transaction = Transaction { total: 2, remain: 0 };
    assert_eq!(c.wait_end_of_write_blocks(false, &mut transaction), Err(BROKEN));
    assert_eq!(c.card.bus.count(commands::SDMMC_CMD12_STOP_TRANSMISSION), 1);

    let mut c = controller(MockBus::new());
    c.card.bus.wait_result = Err(BROKEN);
    let mut transaction = Transaction { total: 2, remain: 2 };
    assert_eq!(c.wait_end_of_read_blocks(true, &mut transaction), Err(BROKEN));
    assert_eq!(transaction.remain, 2);
    assert_eq!(c.card.bus.ops(), vec![Op::WaitRead]);
}
