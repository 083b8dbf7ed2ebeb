use std::cell::RefCell;
use std::collections::VecDeque;
use std::rc::Rc;

use lcd_controller::{
    Controller, CtrlDisplay, DisplayIdentification, DisplayPowerMode, DisplayStatus, ImageFormat,
    Interface, MADCtl, MemoryAccessControl, PixelFormat, SelfDiagnosticResult, SignalMode,
    TearingEffect,
};

#[derive(Debug, Clone, PartialEq, Eq)]
enum Record {
    Write(u8, Vec<u8>),
    /// Opcode and the buffer as the bus received it.
    Read(u8, Vec<u8>),
    WriteMemory(Vec<u32>),
    ReadMemory(usize),
}

#[derive(Default)]
struct Shared {
    records: Vec<Record>,
    replies: VecDeque<u8>,
    words: VecDeque<u32>,
}

/// A bus that records each transaction and answers reads from queued bytes.
struct MockBus {
    shared: Rc<RefCell<Shared>>,
}

impl Interface for MockBus {
    fn write_parameters(&mut self, command: u8, data: &[u8]) {
        self.shared.borrow_mut().records.push(Record::Write(command, data.to_vec()));
    }

    fn write_memory<I>(&mut self, iterable: I)
    where
        I: Iterator<Item = u32>,
    {
        let words: Vec<u32> = iterable.collect();
        self.shared.borrow_mut().records.push(Record::WriteMemory(words));
    }

    fn read_parameters(&mut self, command: u8, data: &mut [u8]) {
        let mut s = self.shared.borrow_mut();
        s.records.push(Record::Read(command, data.to_vec()));
        // With no reply queued the bus leaves the byte as it was handed over.
        for b in data.iter_mut() {
            if let Some(reply) = s.replies.pop_front() {
                *b = reply;
            }
        }
    }

    fn read_memory(&mut self, data: &mut [u32]) {
        let mut s = self.shared.borrow_mut();
        s.records.push(Record::ReadMemory(data.len()));
        for w in data.iter_mut() {
            *w = s.words.pop_front().expect("no reply word queued");
        }
    }
}

fn setup(replies: &[u8]) -> (Controller<MockBus>, Rc<RefCell<Shared>>) {
    let shared = Rc::new(RefCell::new(Shared::default()));
    shared.borrow_mut().replies.extend(replies.iter().copied());
    let c = Controller::new(MockBus { shared: shared.clone() });
    (c, shared)
}

fn records(shared: &Rc<RefCell<Shared>>) -> Vec<Record> {
    shared.borrow().records.clone()
}

fn bare_write(op: u8) -> Record {
    Record::Write(op, vec![])
}

#[test]
fn bare_commands_send_opcode_without_parameters() {
    let (mut c, shared) = setup(&[]);
    c.nop();
    c.software_reset();
    c.enter_sleep_mode();
    c.sleep_out();
    c.partial_mode_on();
    c.normal_display_mode_on();
    c.memory_write_start();
    c.memory_read_start();
    c.write_memory_continue();
    c.read_memory_continue();
    let expected: Vec<Record> = [0x00, 0x01, 0x10, 0x11, 0x12, 0x13, 0x2c, 0x2e, 0x3c, 0x3e]
        .iter()
        .map(|&op| bare_write(op))
        .collect();
    assert_eq!(records(&shared), expected);
}

#[test]
fn column_address_set_is_big_endian() {
    let (mut c, shared) = setup(&[]);
    c.column_address_set(0x1234, 0x5678);
    assert_eq!(records(&shared), vec![Record::Write(0x2a, vec![0x12, 0x34, 0x56, 0x78])]);
}

#[test]
fn sixteen_bit_writes_are_big_endian() {
    let (mut c, shared) = setup(&[]);
    c.page_address_set(0x0001, 0x013f);
    c.partial_area(0xabcd, 0xef01);
    c.vertical_scrolling_definition(0x0102, 0x0304, 0x0506);
    c.vertical_scrolling_start_address(0xff00);
    c.set_tear_scanline(0x00ff);
    assert_eq!(
        records(&shared),
        vec![
            Record::Write(0x2b, vec![0x00, 0x01, 0x01, 0x3f]),
            Record::Write(0x30, vec![0xab, 0xcd, 0xef, 0x01]),
            Record::Write(0x33, vec![0x01, 0x02, 0x03, 0x04, 0x05, 0x06]),
            Record::Write(0x37, vec![0xff, 0x00]),
            Record::Write(0x44, vec![0x00, 0xff]),
        ]
    );
}

#[test]
fn address_set_extremes() {
    let (mut c, shared) = setup(&[]);
    c.column_address_set(0, 0xffff);
    assert_eq!(records(&shared), vec![Record::Write(0x2a, vec![0x00, 0x00, 0xff, 0xff])]);
}

#[test]
fn tearing_effect_modes() {
    let (mut c, shared) = setup(&[]);
    c.tearing_effect(TearingEffect::Off);
    c.tearing_effect(TearingEffect::VBlankOnly);
    c.tearing_effect(TearingEffect::HAndVBlank);
    assert_eq!(
        records(&shared),
        vec![bare_write(0x34), Record::Write(0x35, vec![0]), Record::Write(0x35, vec![1])]
    );
}

#[test]
fn boolean_pairs_pick_adjacent_opcodes() {
    let (mut c, shared) = setup(&[]);
    c.display_inversion(false);
    c.display_inversion(true);
    c.display(false);
    c.display(true);
    c.idle_mode(false);
    c.idle_mode(true);
    let expected: Vec<Record> =
        [0x20, 0x21, 0x28, 0x29, 0x38, 0x39].iter().map(|&op| bare_write(op)).collect();
    assert_eq!(records(&shared), expected);
}

#[test]
fn color_set_forwards_all_bytes() {
    let (mut c, shared) = setup(&[]);
    let mut table = [0u8; 128];
    for (i, b) in table.iter_mut().enumerate() {
        *b = (i as u8).wrapping_mul(37) ^ 0x5a;
    }
    c.color_set(&table);
    assert_eq!(records(&shared), vec![Record::Write(0x2d, table.to_vec())]);
}

#[test]
fn single_byte_writes() {
    let (mut c, shared) = setup(&[]);
    c.gamma_set(0x08);
    c.write_display_brightness(0xff);
    c.write_cabc(0x03);
    c.write_cabc_minimum_brightness(0x40);
    assert_eq!(
        records(&shared),
        vec![
            Record::Write(0x26, vec![0x08]),
            Record::Write(0x51, vec![0xff]),
            Record::Write(0x55, vec![0x03]),
            Record::Write(0x5e, vec![0x40]),
        ]
    );
}

#[test]
fn typed_writes_forward_raw_bytes() {
    let (mut c, shared) = setup(&[]);
    c.memory_access_control(MemoryAccessControl::from_raw([0x48]));
    c.pixel_format_set(PixelFormat::from_raw([0x55]));
    c.write_ctrl_display(CtrlDisplay::from_raw([0x2c]));
    assert_eq!(
        records(&shared),
        vec![
            Record::Write(0x36, vec![0x48]),
            Record::Write(0x3a, vec![0x55]),
            Record::Write(0x53, vec![0x2c]),
        ]
    );
}

#[test]
fn register_reads_have_documented_lengths_and_return_bytes() {
    let replies: Vec<u8> = (1..=14).collect();
    let (mut c, shared) = setup(&replies);
    let id: DisplayIdentification = c.read_display_identification();
    let status: DisplayStatus = c.read_display_status();
    let power: DisplayPowerMode = c.read_display_power_mode();
    let madctl: MADCtl = c.read_display_madctl();
    let pixel: PixelFormat = c.read_pixel_format();
    let image: ImageFormat = c.read_image_format();
    let signal: SignalMode = c.read_signal_mode();
    let diag: SelfDiagnosticResult = c.read_self_diagnostic_result();
    let ctrl: CtrlDisplay = c.read_ctrl_display();
    assert_eq!(id.raw(), [1, 2, 3]);
    assert_eq!(status.raw(), [4, 5, 6, 7]);
    assert_eq!(power.raw(), [8]);
    assert_eq!(madctl.raw(), [9]);
    assert_eq!(pixel.raw(), [10]);
    assert_eq!(image.raw(), [11]);
    assert_eq!(signal.raw(), [12]);
    assert_eq!(diag.raw(), [13]);
    assert_eq!(ctrl.raw(), [14]);
    assert_eq!(
        records(&shared),
        vec![
            Record::Read(0x04, vec![0; 3]),
            Record::Read(0x09, vec![0; 4]),
            Record::Read(0x0a, vec![0; 1]),
            Record::Read(0x0b, vec![0; 1]),
            Record::Read(0x0c, vec![0; 1]),
            Record::Read(0x0d, vec![0; 1]),
            Record::Read(0x0e, vec![0; 1]),
            Record::Read(0x0f, vec![0; 1]),
            Record::Read(0x54, vec![0; 1]),
        ]
    );
}

#[test]
fn scalar_reads_return_the_byte_read() {
    let (mut c, shared) = setup(&[0x11, 0x22, 0x33, 0x44, 0x55, 0x66]);
    assert_eq!(c.read_display_brightness(), 0x11);
    assert_eq!(c.read_cabc(), 0x22);
    assert_eq!(c.read_cabc_minimum_brightness(), 0x33);
    assert_eq!(c.read_id1(), 0x44);
    assert_eq!(c.read_id2(), 0x55);
    assert_eq!(c.read_id3(), 0x66);
    assert_eq!(
        records(&shared),
        vec![
            Record::Read(0x52, vec![0; 1]),
            Record::Read(0x56, vec![0; 1]),
            Record::Read(0x5f, vec![0; 1]),
            Record::Read(0xda, vec![0; 1]),
            Record::Read(0xdb, vec![0; 1]),
            Record::Read(0xdc, vec![0; 1]),
        ]
    );
}

#[test]
fn get_scanline_reassembles_big_endian() {
    let (mut c, shared) = setup(&[0x12, 0x34]);
    assert_eq!(c.get_scanline(), 0x1234);
    assert_eq!(records(&shared), vec![Record::Read(0x45, vec![0; 2])]);
}

#[test]
fn get_scanline_high_byte_only() {
    let (mut c, _shared) = setup(&[0xff, 0x00]);
    assert_eq!(c.get_scanline(), 0xff00);
}

#[test]
fn sleep_out_then_display_on() {
    let (mut c, shared) = setup(&[]);
    c.sleep_out();
    c.display(true);
    assert_eq!(records(&shared), vec![bare_write(0x11), bare_write(0x29)]);
}

#[test]
fn memory_streams_pass_through_unframed() {
    let (mut c, shared) = setup(&[]);
    shared.borrow_mut().words.extend([0xdead_beef, 7]);
    c.memory_write_start();
    c.write_memory((0..3u32).map(|i| i * 0x0101));
    let mut buf = [0u32; 2];
    c.memory_read_start();
    c.read_memory(&mut buf);
    assert_eq!(buf, [0xdead_beef, 7]);
    assert_eq!(
        records(&shared),
        vec![
            bare_write(0x2c),
            Record::WriteMemory(vec![0, 0x0101, 0x0202]),
            bare_write(0x2e),
            Record::ReadMemory(2),
        ]
    );
}

#[test]
fn registers_default_to_zero() {
    assert_eq!(DisplayIdentification::default().raw(), [0, 0, 0]);
    assert_eq!(DisplayStatus::default().raw(), [0, 0, 0, 0]);
    assert_eq!(MemoryAccessControl::default().raw(), [0]);
    assert_eq!(CtrlDisplay::default().raw(), [0]);
}

#[test]
fn reads_hand_the_bus_zeroed_buffers() {
    let (mut c, shared) = setup(&[]);
    assert_eq!(c.read_display_identification().raw(), [0, 0, 0]);
    assert_eq!(c.read_display_status().raw(), [0, 0, 0, 0]);
    assert_eq!(c.read_ctrl_display().raw(), [0]);
    assert_eq!(c.get_scanline(), 0);
    assert_eq!(c.read_id1(), 0);
    assert_eq!(
        records(&shared),
        vec![
            Record::Read(0x04, vec![0, 0, 0]),
            Record::Read(0x09, vec![0, 0, 0, 0]),
            Record::Read(0x54, vec![0]),
            Record::Read(0x45, vec![0, 0]),
            Record::Read(0xda, vec![0]),
        ]
    );
}
