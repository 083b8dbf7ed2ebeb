//! The command encoder: one operation per supported controller command.
use vstd::prelude::*;
use vstd::std_specs::iter::IteratorSpec;

use crate::bus::{BusEvent, Interface};
use crate::registers::{
    CtrlDisplay, DisplayIdentification, DisplayPowerMode, DisplayStatus, ImageFormat, MADCtl,
    MemoryAccessControl, PixelFormat, SelfDiagnosticResult, SignalMode, TearingEffect, zeros,
};

verus! {

/// A 16-bit parameter as it goes over the wire: most significant byte first.
pub open spec fn be_bytes(v: u16) -> Seq<u8> {
    seq![(v >> 8u16) as u8, (v & 0xffu16) as u8]
}

/// The two wire bytes of a 16-bit parameter are its high and low byte, so the
/// value is recovered as the high byte times 256 plus the low byte.
pub proof fn lemma_be_bytes_value(v: u16)
    ensures
        be_bytes(v).len() == 2,
        v as int == be_bytes(v)[0] as int * 256 + be_bytes(v)[1] as int,
{
    let hi: u8 = (v >> 8u16) as u8;
    let lo: u8 = (v & 0xffu16) as u8;
    assert(v == (hi as u16) * 256u16 + (lo as u16)) by (bit_vector)
        requires
            hi == (v >> 8u16) as u8,
            lo == (v & 0xffu16) as u8,
    ;
}

/// `after` is `before` followed by exactly one bare command strobe of `command`.
pub open spec fn strobed(before: Seq<BusEvent>, after: Seq<BusEvent>, command: u8) -> bool {
    after == before.push(BusEvent::Write(command, Seq::empty()))
}

/// Implements the panel command set on top of an [`Interface`].
///
/// The controller keeps no state of its own besides the bus: every operation
/// performs exactly one bus transaction and returns once it has completed.
#[derive(Clone, Copy)]
pub struct Controller<T> where T: Interface {
    iface: T,
}

impl<T: Interface> Controller<T> {
    /// The bus this controller drives.
    pub closed spec fn interface(&self) -> T {
        self.iface
    }

    /// The transactions the bus has carried out, oldest first.
    pub open spec fn history(&self) -> Seq<BusEvent> {
        self.interface().history()
    }

    /// Takes exclusive ownership of the bus.
    pub fn new(iface: T) -> (r: Controller<T>)
        ensures
            r.interface() == iface,
    {
        Controller { iface: iface }
    }

    fn write_command(&mut self, command: u8)
        ensures
            strobed(old(self).history(), final(self).history(), command),
    {
        let empty: [u8; 0] = [];
        self.iface.write_parameters(command, &empty);
        assert(empty@ =~= Seq::<u8>::empty());
    }

    fn write_parameters(&mut self, command: u8, parameters: &[u8])
        ensures
            final(self).history() == old(self).history().push(
                BusEvent::Write(command, parameters@),
            ),
    {
        self.iface.write_parameters(command, parameters);
    }

    fn read_parameters(&mut self, command: u8, parameters: &mut [u8])
        ensures
            final(parameters)@.len() == old(parameters)@.len(),
            final(self).history() == old(self).history().push(
                BusEvent::Read(command, old(parameters)@, final(parameters)@),
            ),
    {
        self.iface.read_parameters(command, parameters);
    }

    /// Sends the no-operation command.
    pub fn nop(&mut self)
        ensures
            strobed(old(self).history(), final(self).history(), 0x00),
    {
        self.write_command(0x00);
    }

    /// Resets the controller to its power-on defaults.
    pub fn software_reset(&mut self)
        ensures
            strobed(old(self).history(), final(self).history(), 0x01),
    {
        self.write_command(0x01);
    }

    /// Reads the 3-byte display identification.
    pub fn read_display_identification(&mut self) -> (r: DisplayIdentification)
        ensures
            r@.len() == 3,
            final(self).history() == old(self).history().push(
                BusEvent::Read(0x04, zeros(3), r@),
            ),
    {
        let mut raw: [u8; 3] = [0u8; 3];
        assert(raw@ =~= zeros(3));
        self.read_parameters(0x04, &mut raw);
        DisplayIdentification::from_raw(raw)
    }

    /// Reads the 4-byte display status.
    pub fn read_display_status(&mut self) -> (r: DisplayStatus)
        ensures
            r@.len() == 4,
            final(self).history() == old(self).history().push(
                BusEvent::Read(0x09, zeros(4), r@),
            ),
    {
        let mut raw: [u8; 4] = [0u8; 4];
        assert(raw@ =~= zeros(4));
        self.read_parameters(0x09, &mut raw);
        DisplayStatus::from_raw(raw)
    }

    /// Reads the power-mode register.
    pub fn read_display_power_mode(&mut self) -> (r: DisplayPowerMode)
        ensures
            r@.len() == 1,
            final(self).history() == old(self).history().push(
                BusEvent::Read(0x0a, zeros(1), r@),
            ),
    {
        let mut raw: [u8; 1] = [0u8; 1];
        assert(raw@ =~= zeros(1));
        self.read_parameters(0x0a, &mut raw);
        DisplayPowerMode::from_raw(raw)
    }

    /// Reads the memory-access-control register.
    pub fn read_display_madctl(&mut self) -> (r: MADCtl)
        ensures
            r@.len() == 1,
            final(self).history() == old(self).history().push(
                BusEvent::Read(0x0b, zeros(1), r@),
            ),
    {
        let mut raw: [u8; 1] = [0u8; 1];
        assert(raw@ =~= zeros(1));
        self.read_parameters(0x0b, &mut raw);
        MADCtl::from_raw(raw)
    }

    /// Reads the pixel-format register.
    pub fn read_pixel_format(&mut self) -> (r: PixelFormat)
        ensures
            r@.len() == 1,
            final(self).history() == old(self).history().push(
                BusEvent::Read(0x0c, zeros(1), r@),
            ),
    {
        let mut raw: [u8; 1] = [0u8; 1];
        assert(raw@ =~= zeros(1));
        self.read_parameters(0x0c, &mut raw);
        PixelFormat::from_raw(raw)
    }

    /// Reads the image-format register.
    pub fn read_image_format(&mut self) -> (r: ImageFormat)
        ensures
            r@.len() == 1,
            final(self).history() == old(self).history().push(
                BusEvent::Read(0x0d, zeros(1), r@),
            ),
    {
        let mut raw: [u8; 1] = [0u8; 1];
        assert(raw@ =~= zeros(1));
        self.read_parameters(0x0d, &mut raw);
        ImageFormat::from_raw(raw)
    }

    /// Reads the signal-mode register.
    pub fn read_signal_mode(&mut self) -> (r: SignalMode)
        ensures
            r@.len() == 1,
            final(self).history() == old(self).history().push(
                BusEvent::Read(0x0e, zeros(1), r@),
            ),
    {
        let mut raw: [u8; 1] = [0u8; 1];
        assert(raw@ =~= zeros(1));
        self.read_parameters(0x0e, &mut raw);
        SignalMode::from_raw(raw)
    }

    /// Reads the self-diagnostic result register.
    pub fn read_self_diagnostic_result(&mut self) -> (r: SelfDiagnosticResult)
        ensures
            r@.len() == 1,
            final(self).history() == old(self).history().push(
                BusEvent::Read(0x0f, zeros(1), r@),
            ),
    {
        let mut raw: [u8; 1] = [0u8; 1];
        assert(raw@ =~= zeros(1));
        self.read_parameters(0x0f, &mut raw);
        SelfDiagnosticResult::from_raw(raw)
    }

    /// Puts the panel into sleep mode.
    pub fn enter_sleep_mode(&mut self)
        ensures
            strobed(old(self).history(), final(self).history(), 0x10),
    {
        self.write_command(0x10);
    }

    /// Wakes the panel from sleep mode.
    pub fn sleep_out(&mut self)
        ensures
            strobed(old(self).history(), final(self).history(), 0x11),
    {
        self.write_command(0x11);
    }

    /// Switches to partial display mode.
    pub fn partial_mode_on(&mut self)
        ensures
            strobed(old(self).history(), final(self).history(), 0x12),
    {
        self.write_command(0x12);
    }

    /// Switches to normal display mode.
    pub fn normal_display_mode_on(&mut self)
        ensures
            strobed(old(self).history(), final(self).history(), 0x13),
    {
        self.write_command(0x13);
    }

    /// Turns display inversion on or off.
    pub fn display_inversion(&mut self, on: bool)
        ensures
            strobed(old(self).history(), final(self).history(), if on { 0x21u8 } else { 0x20u8 }),
    {
        let command: u8 = match on {
            false => 0x20,
            true => 0x21,
        };
        self.write_command(command);
    }

    /// Selects gamma curve `gc`.
    pub fn gamma_set(&mut self, gc: u8)
        ensures
            final(self).history() == old(self).history().push(BusEvent::Write(0x26, seq![gc])),
    {
        let data: [u8; 1] = [gc];
        assert(data@ =~= seq![gc]);
        self.write_parameters(0x26, &data);
    }

    /// Turns the display output on or off.
    pub fn display(&mut self, on: bool)
        ensures
            strobed(old(self).history(), final(self).history(), if on { 0x29u8 } else { 0x28u8 }),
    {
        let command: u8 = match on {
            false => 0x28,
            true => 0x29,
        };
        self.write_command(command);
    }

    /// Sets the column range `sc..=ec` that memory access addresses.
    pub fn column_address_set(&mut self, sc: u16, ec: u16)
        ensures
            final(self).history() == old(self).history().push(
                BusEvent::Write(0x2a, be_bytes(sc) + be_bytes(ec)),
            ),
    {
        let data: [u8; 4] = [(sc >> 8) as u8, (sc & 0xff) as u8, (ec >> 8) as u8, (ec & 0xff) as u8];
        assert(data@ =~= be_bytes(sc) + be_bytes(ec));
        self.write_parameters(0x2a, &data);
    }

    /// Sets the page (row) range `sp..=ep` that memory access addresses.
    pub fn page_address_set(&mut self, sp: u16, ep: u16)
        ensures
            final(self).history() == old(self).history().push(
                BusEvent::Write(0x2b, be_bytes(sp) + be_bytes(ep)),
            ),
    {
        let data: [u8; 4] = [(sp >> 8) as u8, (sp & 0xff) as u8, (ep >> 8) as u8, (ep & 0xff) as u8];
        assert(data@ =~= be_bytes(sp) + be_bytes(ep));
        self.write_parameters(0x2b, &data);
    }

    /// Starts a graphics-memory write; pixel words follow through `write_memory`.
    pub fn memory_write_start(&mut self)
        ensures
            strobed(old(self).history(), final(self).history(), 0x2c),
    {
        self.write_command(0x2c);
    }

    /// Writes the 128-byte colour lookup table, unchanged.
    pub fn color_set(&mut self, data: &[u8; 128])
        ensures
            final(self).history() == old(self).history().push(BusEvent::Write(0x2d, data@)),
    {
        self.write_parameters(0x2d, data);
    }

    /// Starts a graphics-memory read; pixel words follow through `read_memory`.
    pub fn memory_read_start(&mut self)
        ensures
            strobed(old(self).history(), final(self).history(), 0x2e),
    {
        self.write_command(0x2e);
    }

    /// Sets the rows `sr..=er` shown in partial mode.
    pub fn partial_area(&mut self, sr: u16, er: u16)
        ensures
            final(self).history() == old(self).history().push(
                BusEvent::Write(0x30, be_bytes(sr) + be_bytes(er)),
            ),
    {
        let data: [u8; 4] = [(sr >> 8) as u8, (sr & 0xff) as u8, (er >> 8) as u8, (er & 0xff) as u8];
        assert(data@ =~= be_bytes(sr) + be_bytes(er));
        self.write_parameters(0x30, &data);
    }

    /// Defines the top fixed, vertical scrolling and bottom fixed areas.
    pub fn vertical_scrolling_definition(&mut self, tfa: u16, vsa: u16, bfa: u16)
        ensures
            final(self).history() == old(self).history().push(
                BusEvent::Write(0x33, be_bytes(tfa) + be_bytes(vsa) + be_bytes(bfa)),
            ),
    {
        let data: [u8; 6] = [(tfa >> 8) as u8, (tfa & 0xff) as u8, (vsa >> 8) as u8, (vsa & 0xff) as u8, (bfa >> 8) as u8, (bfa & 0xff) as u8];
        assert(data@ =~= be_bytes(tfa) + be_bytes(vsa) + be_bytes(bfa));
        self.write_parameters(0x33, &data);
    }

    /// Selects the tearing-effect output mode.
    pub fn tearing_effect(&mut self, mode: TearingEffect)
        ensures
            final(self).history() == old(self).history().push(
                match mode {
                    TearingEffect::Off => BusEvent::Write(0x34, Seq::empty()),
                    TearingEffect::VBlankOnly => BusEvent::Write(0x35, seq![0u8]),
                    TearingEffect::HAndVBlank => BusEvent::Write(0x35, seq![1u8]),
                },
            ),
    {
        match mode {
            TearingEffect::VBlankOnly => {
                let data: [u8; 1] = [0u8];
                assert(data@ =~= seq![0u8]);
                self.write_parameters(0x35, &data);
            },
            TearingEffect::HAndVBlank => {
                let data: [u8; 1] = [1u8];
                assert(data@ =~= seq![1u8]);
                self.write_parameters(0x35, &data);
            },
            _ => self.write_command(0x34),
        }
    }

    /// Writes the memory-access-control register.
    pub fn memory_access_control(&mut self, value: MemoryAccessControl)
        ensures
            final(self).history() == old(self).history().push(BusEvent::Write(0x36, value@)),
    {
        let raw: [u8; 1] = value.raw();
        self.write_parameters(0x36, &raw);
    }

    /// Sets the first line of the vertical scrolling area.
    pub fn vertical_scrolling_start_address(&mut self, vsp: u16)
        ensures
            final(self).history() == old(self).history().push(
                BusEvent::Write(0x37, be_bytes(vsp)),
            ),
    {
        let data: [u8; 2] = [(vsp >> 8) as u8, (vsp & 0xff) as u8];
        assert(data@ =~= be_bytes(vsp));
        self.write_parameters(0x37, &data);
    }

    /// Turns idle (reduced colour) mode on or off.
    pub fn idle_mode(&mut self, on: bool)
        ensures
            strobed(old(self).history(), final(self).history(), if on { 0x39u8 } else { 0x38u8 }),
    {
        let command: u8 = match on {
            false => 0x38,
            true => 0x39,
        };
        self.write_command(command);
    }

    /// Writes the pixel-format register.
    pub fn pixel_format_set(&mut self, value: PixelFormat)
        ensures
            final(self).history() == old(self).history().push(BusEvent::Write(0x3a, value@)),
    {
        let raw: [u8; 1] = value.raw();
        self.write_parameters(0x3a, &raw);
    }

    /// Continues a graphics-memory write where the last one stopped.
    pub fn write_memory_continue(&mut self)
        ensures
            strobed(old(self).history(), final(self).history(), 0x3c),
    {
        self.write_command(0x3c);
    }

    /// Streams pixel words to graphics memory, after `memory_write_start` or
    /// `write_memory_continue`.
    pub fn write_memory<I>(&mut self, iterable: I) where I: Iterator<Item = u32>
        ensures
            final(self).history().len() == old(self).history().len() + 1,
            final(self).history().drop_last() == old(self).history(),
            final(self).history().last() is WriteMemory,
            iterable.obeys_prophetic_iter_laws() ==> final(self).history().last()
                == BusEvent::WriteMemory(iterable.remaining()),
    {
        self.iface.write_memory(iterable);
    }

    /// Continues a graphics-memory read where the last one stopped.
    pub fn read_memory_continue(&mut self)
        ensures
            strobed(old(self).history(), final(self).history(), 0x3e),
    {
        self.write_command(0x3e);
    }

    /// Fills `data` with pixel words from graphics memory, after
    /// `memory_read_start` or `read_memory_continue`.
    pub fn read_memory(&mut self, data: &mut [u32])
        ensures
            final(data)@.len() == old(data)@.len(),
            final(self).history() == old(self).history().push(BusEvent::ReadMemory(final(data)@)),
    {
        self.iface.read_memory(data);
    }

    /// Sets the scanline at which the tearing-effect signal fires.
    pub fn set_tear_scanline(&mut self, sts: u16)
        ensures
            final(self).history() == old(self).history().push(
                BusEvent::Write(0x44, be_bytes(sts)),
            ),
    {
        let data: [u8; 2] = [(sts >> 8) as u8, (sts & 0xff) as u8];
        assert(data@ =~= be_bytes(sts));
        self.write_parameters(0x44, &data);
    }

    /// Reads the scanline currently being refreshed: two bytes, most
    /// significant first.
    pub fn get_scanline(&mut self) -> (r: u16)
        ensures
            final(self).history() == old(self).history().push(
                BusEvent::Read(0x45, zeros(2), be_bytes(r)),
            ),
    {
        let mut result: [u8; 2] = [0u8; 2];
        assert(result@ =~= zeros(2));
        self.read_parameters(0x45, &mut result);
        let hi: u8 = result[0];
        let lo: u8 = result[1];
        let r: u16 = ((hi as u16) << 8) | lo as u16;
        assert((r >> 8u16) as u8 == hi && (r & 0xffu16) as u8 == lo) by (bit_vector)
            requires
                r == ((hi as u16) << 8u16) | lo as u16,
        ;
        assert(result@ =~= be_bytes(r));
        r
    }

    /// Writes the display brightness value.
    pub fn write_display_brightness(&mut self, dbv: u8)
        ensures
            final(self).history() == old(self).history().push(BusEvent::Write(0x51, seq![dbv])),
    {
        let data: [u8; 1] = [dbv];
        assert(data@ =~= seq![dbv]);
        self.write_parameters(0x51, &data);
    }

    /// Reads the display brightness value.
    pub fn read_display_brightness(&mut self) -> (r: u8)
        ensures
            final(self).history() == old(self).history().push(BusEvent::Read(0x52, zeros(1), seq![r])),
    {
        let mut raw: [u8; 1] = [0u8; 1];
        assert(raw@ =~= zeros(1));
        self.read_parameters(0x52, &mut raw);
        assert(raw@ =~= seq![raw[0]]);
        raw[0]
    }

    /// Writes the control-display register.
    pub fn write_ctrl_display(&mut self, value: CtrlDisplay)
        ensures
            final(self).history() == old(self).history().push(BusEvent::Write(0x53, value@)),
    {
        let raw: [u8; 1] = value.raw();
        self.write_parameters(0x53, &raw);
    }

    /// Reads the control-display register.
    pub fn read_ctrl_display(&mut self) -> (r: CtrlDisplay)
        ensures
            r@.len() == 1,
            final(self).history() == old(self).history().push(
                BusEvent::Read(0x54, zeros(1), r@),
            ),
    {
        let mut raw: [u8; 1] = [0u8; 1];
        assert(raw@ =~= zeros(1));
        self.read_parameters(0x54, &mut raw);
        CtrlDisplay::from_raw(raw)
    }

    /// Writes the content-adaptive brightness control mode.
    pub fn write_cabc(&mut self, c: u8)
        ensures
            final(self).history() == old(self).history().push(BusEvent::Write(0x55, seq![c])),
    {
        let data: [u8; 1] = [c];
        assert(data@ =~= seq![c]);
        self.write_parameters(0x55, &data);
    }

    /// Reads the content-adaptive brightness control mode.
    pub fn read_cabc(&mut self) -> (r: u8)
        ensures
            final(self).history() == old(self).history().push(BusEvent::Read(0x56, zeros(1), seq![r])),
    {
        let mut raw: [u8; 1] = [0u8; 1];
        assert(raw@ =~= zeros(1));
        self.read_parameters(0x56, &mut raw);
        assert(raw@ =~= seq![raw[0]]);
        raw[0]
    }

    /// Writes the content-adaptive brightness control minimum brightness.
    pub fn write_cabc_minimum_brightness(&mut self, cmb: u8)
        ensures
            final(self).history() == old(self).history().push(BusEvent::Write(0x5e, seq![cmb])),
    {
        let data: [u8; 1] = [cmb];
        assert(data@ =~= seq![cmb]);
        self.write_parameters(0x5e, &data);
    }

    /// Reads the content-adaptive brightness control minimum brightness.
    pub fn read_cabc_minimum_brightness(&mut self) -> (r: u8)
        ensures
            final(self).history() == old(self).history().push(BusEvent::Read(0x5f, zeros(1), seq![r])),
    {
        let mut raw: [u8; 1] = [0u8; 1];
        assert(raw@ =~= zeros(1));
        self.read_parameters(0x5f, &mut raw);
        assert(raw@ =~= seq![raw[0]]);
        raw[0]
    }

    /// Reads identification byte 1 (manufacturer).
    pub fn read_id1(&mut self) -> (r: u8)
        ensures
            final(self).history() == old(self).history().push(BusEvent::Read(0xda, zeros(1), seq![r])),
    {
        let mut raw: [u8; 1] = [0u8; 1];
        assert(raw@ =~= zeros(1));
        self.read_parameters(0xda, &mut raw);
        assert(raw@ =~= seq![raw[0]]);
        raw[0]
    }

    /// Reads identification byte 2 (driver version).
    pub fn read_id2(&mut self) -> (r: u8)
        ensures
            final(self).history() == old(self).history().push(BusEvent::Read(0xdb, zeros(1), seq![r])),
    {
        let mut raw: [u8; 1] = [0u8; 1];
        assert(raw@ =~= zeros(1));
        self.read_parameters(0xdb, &mut raw);
        assert(raw@ =~= seq![raw[0]]);
        raw[0]
    }

    /// Reads identification byte 3 (driver).
    pub fn read_id3(&mut self) -> (r: u8)
        ensures
            final(self).history() == old(self).history().push(BusEvent::Read(0xdc, zeros(1), seq![r])),
    {
        let mut raw: [u8; 1] = [0u8; 1];
        assert(raw@ =~= zeros(1));
        self.read_parameters(0xdc, &mut raw);
        assert(raw@ =~= seq![raw[0]]);
        raw[0]
    }
}

/// Waking the panel and then turning the display on leaves exactly two
/// transactions on the bus: the bare sleep-out command, then the bare
/// display-on command, in that order.
pub proof fn lemma_sleep_out_then_display_on<T: Interface>(
    c0: Controller<T>,
    c1: Controller<T>,
    c2: Controller<T>,
)
    requires
        strobed(c0.history(), c1.history(), 0x11),
        strobed(c1.history(), c2.history(), 0x29),
    ensures
        c2.history() == c0.history() + seq![
            BusEvent::Write(0x11, Seq::empty()),
            BusEvent::Write(0x29, Seq::empty()),
        ],
{
    assert(c2.history() =~= c0.history() + seq![
        BusEvent::Write(0x11, Seq::empty()),
        BusEvent::Write(0x29, Seq::empty()),
    ]);
}

} // verus!
