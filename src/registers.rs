//! Register snapshots: fixed-length byte containers holding raw register
//! contents exactly as they travel over the bus, and the tearing-effect mode.
use vstd::prelude::*;

verus! {

/// `n` zero bytes.
pub open spec fn zeros(n: nat) -> Seq<u8> {
    Seq::new(n, |_i: int| 0u8)
}

/// State of the tearing-effect output line.
pub enum TearingEffect {
    /// The line is disabled.
    Off,
    /// The line signals vertical blanking only.
    VBlankOnly,
    /// The line signals both horizontal and vertical blanking.
    HAndVBlank,
}

/// Raw response of the read-display-identification command. Holds exactly 3 bytes.
#[derive(Clone, Copy)]
pub struct DisplayIdentification {
    raw: [u8; 3],
}

impl View for DisplayIdentification {
    type V = Seq<u8>;

    closed spec fn view(&self) -> Seq<u8> {
        self.raw@
    }
}

impl DisplayIdentification {
    /// Wraps the given register bytes.
    pub fn from_raw(raw: [u8; 3]) -> (r: Self)
        ensures
            r@ == raw@,
    {
        DisplayIdentification { raw }
    }

    /// The register bytes.
    pub fn raw(&self) -> (r: [u8; 3])
        ensures
            r@ == self@,
    {
        self.raw
    }
}

impl Default for DisplayIdentification {
    /// All bytes zero.
    fn default() -> (r: Self)
        ensures
            r@ == zeros(3),
    {
        let r = DisplayIdentification { raw: [0u8; 3] };
        assert(r@ =~= zeros(3));
        r
    }
}

/// Raw response of the read-display-status command. Holds exactly 4 bytes.
#[derive(Clone, Copy)]
pub struct DisplayStatus {
    raw: [u8; 4],
}

impl View for DisplayStatus {
    type V = Seq<u8>;

    closed spec fn view(&self) -> Seq<u8> {
        self.raw@
    }
}

impl DisplayStatus {
    /// Wraps the given register bytes.
    pub fn from_raw(raw: [u8; 4]) -> (r: Self)
        ensures
            r@ == raw@,
    {
        DisplayStatus { raw }
    }

    /// The register bytes.
    pub fn raw(&self) -> (r: [u8; 4])
        ensures
            r@ == self@,
    {
        self.raw
    }
}

impl Default for DisplayStatus {
    /// All bytes zero.
    fn default() -> (r: Self)
        ensures
            r@ == zeros(4),
    {
        let r = DisplayStatus { raw: [0u8; 4] };
        assert(r@ =~= zeros(4));
        r
    }
}

/// Raw power-mode register. Holds exactly 1 byte.
#[derive(Clone, Copy)]
pub struct DisplayPowerMode {
    raw: [u8; 1],
}

impl View for DisplayPowerMode {
    type V = Seq<u8>;

    closed spec fn view(&self) -> Seq<u8> {
        self.raw@
    }
}

impl DisplayPowerMode {
    /// Wraps the given register bytes.
    pub fn from_raw(raw: [u8; 1]) -> (r: Self)
        ensures
            r@ == raw@,
    {
        DisplayPowerMode { raw }
    }

    /// The register bytes.
    pub fn raw(&self) -> (r: [u8; 1])
        ensures
            r@ == self@,
    {
        self.raw
    }
}

impl Default for DisplayPowerMode {
    /// All bytes zero.
    fn default() -> (r: Self)
        ensures
            r@ == zeros(1),
    {
        let r = DisplayPowerMode { raw: [0u8; 1] };
        assert(r@ =~= zeros(1));
        r
    }
}

/// Raw memory-access-control register, as read back from the panel. Holds exactly 1 byte.
#[derive(Clone, Copy)]
pub struct MADCtl {
    raw: [u8; 1],
}

impl View for MADCtl {
    type V = Seq<u8>;

    closed spec fn view(&self) -> Seq<u8> {
        self.raw@
    }
}

impl MADCtl {
    /// Wraps the given register bytes.
    pub fn from_raw(raw: [u8; 1]) -> (r: Self)
        ensures
            r@ == raw@,
    {
        MADCtl { raw }
    }

    /// The register bytes.
    pub fn raw(&self) -> (r: [u8; 1])
        ensures
            r@ == self@,
    {
        self.raw
    }
}

impl Default for MADCtl {
    /// All bytes zero.
    fn default() -> (r: Self)
        ensures
            r@ == zeros(1),
    {
        let r = MADCtl { raw: [0u8; 1] };
        assert(r@ =~= zeros(1));
        r
    }
}

/// Raw pixel-format register, as written or read back. Holds exactly 1 byte.
#[derive(Clone, Copy)]
pub struct PixelFormat {
    raw: [u8; 1],
}

impl View for PixelFormat {
    type V = Seq<u8>;

    closed spec fn view(&self) -> Seq<u8> {
        self.raw@
    }
}

impl PixelFormat {
    /// Wraps the given register bytes.
    pub fn from_raw(raw: [u8; 1]) -> (r: Self)
        ensures
            r@ == raw@,
    {
        PixelFormat { raw }
    }

    /// The register bytes.
    pub fn raw(&self) -> (r: [u8; 1])
        ensures
            r@ == self@,
    {
        self.raw
    }
}

impl Default for PixelFormat {
    /// All bytes zero.
    fn default() -> (r: Self)
        ensures
            r@ == zeros(1),
    {
        let r = PixelFormat { raw: [0u8; 1] };
        assert(r@ =~= zeros(1));
        r
    }
}

/// Raw image-format register. Holds exactly 1 byte.
#[derive(Clone, Copy)]
pub struct ImageFormat {
    raw: [u8; 1],
}

impl View for ImageFormat {
    type V = Seq<u8>;

    closed spec fn view(&self) -> Seq<u8> {
        self.raw@
    }
}

impl ImageFormat {
    /// Wraps the given register bytes.
    pub fn from_raw(raw: [u8; 1]) -> (r: Self)
        ensures
            r@ == raw@,
    {
        ImageFormat { raw }
    }

    /// The register bytes.
    pub fn raw(&self) -> (r: [u8; 1])
        ensures
            r@ == self@,
    {
        self.raw
    }
}

impl Default for ImageFormat {
    /// All bytes zero.
    fn default() -> (r: Self)
        ensures
            r@ == zeros(1),
    {
        let r = ImageFormat { raw: [0u8; 1] };
        assert(r@ =~= zeros(1));
        r
    }
}

/// Raw signal-mode register. Holds exactly 1 byte.
#[derive(Clone, Copy)]
pub struct SignalMode {
    raw: [u8; 1],
}

impl View for SignalMode {
    type V = Seq<u8>;

    closed spec fn view(&self) -> Seq<u8> {
        self.raw@
    }
}

impl SignalMode {
    /// Wraps the given register bytes.
    pub fn from_raw(raw: [u8; 1]) -> (r: Self)
        ensures
            r@ == raw@,
    {
        SignalMode { raw }
    }

    /// The register bytes.
    pub fn raw(&self) -> (r: [u8; 1])
        ensures
            r@ == self@,
    {
        self.raw
    }
}

impl Default for SignalMode {
    /// All bytes zero.
    fn default() -> (r: Self)
        ensures
            r@ == zeros(1),
    {
        let r = SignalMode { raw: [0u8; 1] };
        assert(r@ =~= zeros(1));
        r
    }
}

/// Raw self-diagnostic result register. Holds exactly 1 byte.
#[derive(Clone, Copy)]
pub struct SelfDiagnosticResult {
    raw: [u8; 1],
}

impl View for SelfDiagnosticResult {
    type V = Seq<u8>;

    closed spec fn view(&self) -> Seq<u8> {
        self.raw@
    }
}

impl SelfDiagnosticResult {
    /// Wraps the given register bytes.
    pub fn from_raw(raw: [u8; 1]) -> (r: Self)
        ensures
            r@ == raw@,
    {
        SelfDiagnosticResult { raw }
    }

    /// The register bytes.
    pub fn raw(&self) -> (r: [u8; 1])
        ensures
            r@ == self@,
    {
        self.raw
    }
}

impl Default for SelfDiagnosticResult {
    /// All bytes zero.
    fn default() -> (r: Self)
        ensures
            r@ == zeros(1),
    {
        let r = SelfDiagnosticResult { raw: [0u8; 1] };
        assert(r@ =~= zeros(1));
        r
    }
}

/// Raw memory-access-control value to be written to the panel. Holds exactly 1 byte.
#[derive(Clone, Copy)]
pub struct MemoryAccessControl {
    raw: [u8; 1],
}

impl View for MemoryAccessControl {
    type V = Seq<u8>;

    closed spec fn view(&self) -> Seq<u8> {
        self.raw@
    }
}

impl MemoryAccessControl {
    /// Wraps the given register bytes.
    pub fn from_raw(raw: [u8; 1]) -> (r: Self)
        ensures
            r@ == raw@,
    {
        MemoryAccessControl { raw }
    }

    /// The register bytes.
    pub fn raw(&self) -> (r: [u8; 1])
        ensures
            r@ == self@,
    {
        self.raw
    }
}

impl Default for MemoryAccessControl {
    /// All bytes zero.
    fn default() -> (r: Self)
        ensures
            r@ == zeros(1),
    {
        let r = MemoryAccessControl { raw: [0u8; 1] };
        assert(r@ =~= zeros(1));
        r
    }
}

/// Raw control-display register, as written or read back. Holds exactly 1 byte.
#[derive(Clone, Copy)]
pub struct CtrlDisplay {
    raw: [u8; 1],
}

impl View for CtrlDisplay {
    type V = Seq<u8>;

    closed spec fn view(&self) -> Seq<u8> {
        self.raw@
    }
}

impl CtrlDisplay {
    /// Wraps the given register bytes.
    pub fn from_raw(raw: [u8; 1]) -> (r: Self)
        ensures
            r@ == raw@,
    {
        CtrlDisplay { raw }
    }

    /// The register bytes.
    pub fn raw(&self) -> (r: [u8; 1])
        ensures
            r@ == self@,
    {
        self.raw
    }
}

impl Default for CtrlDisplay {
    /// All bytes zero.
    fn default() -> (r: Self)
        ensures
            r@ == zeros(1),
    {
        let r = CtrlDisplay { raw: [0u8; 1] };
        assert(r@ =~= zeros(1));
        r
    }
}

} // verus!
