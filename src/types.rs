use vstd::prelude::*;

verus! {

/// The family of native library versions that the crate is configured for.
///
/// Versions differ in two respects: only the first one defines an explicit
/// "invalid" white-balance mode, and from the fourth one on the mode is set
/// through the second generation of the native API.
#[derive(Clone, Copy, Debug, PartialEq, Eq, Structural)]
pub enum LibVersion {
    V1_0,
    V2_0,
    V3_0,
    V4_0,
    V5_0,
}

/// The native entry point through which an operating mode is set.
#[derive(Clone, Copy, Debug, PartialEq, Eq, Structural)]
pub enum SetModeEntry {
    /// The first generation API, of versions 1.0 to 3.0.
    Uapi,
    /// The second generation API, of versions 4.0 and 5.0.
    Uapi2,
}

/// Whether the native white-balance mode enumeration of `v` has its own
/// "invalid" variant.
pub open spec fn has_invalid_mode(v: LibVersion) -> bool {
    v == LibVersion::V1_0
}

/// The entry point that sets the operating mode under `v`.
pub open spec fn set_mode_entry(v: LibVersion) -> SetModeEntry {
    match v {
        LibVersion::V1_0 | LibVersion::V2_0 | LibVersion::V3_0 => SetModeEntry::Uapi,
        LibVersion::V4_0 | LibVersion::V5_0 => SetModeEntry::Uapi2,
    }
}

/// The wrapped mode that stands for every native value without a wrapped
/// counterpart: `Invalid` where the native header defines it, `Max` elsewhere.
pub open spec fn catch_all(v: LibVersion) -> WbOpMode {
    if has_invalid_mode(v) {
        WbOpMode::Invalid
    } else {
        WbOpMode::Max
    }
}

impl LibVersion {
    /// Whether this version's native white-balance modes include `Invalid`.
    pub fn has_invalid_mode(self) -> (r: bool)
        ensures
            r == has_invalid_mode(self),
    {
        match self {
            LibVersion::V1_0 => true,
            _ => false,
        }
    }

    /// The native entry point that sets the operating mode under this version.
    pub fn set_mode_entry(self) -> (r: SetModeEntry)
        ensures
            r == set_mode_entry(self),
    {
        match self {
            LibVersion::V1_0 | LibVersion::V2_0 | LibVersion::V3_0 => SetModeEntry::Uapi,
            LibVersion::V4_0 | LibVersion::V5_0 => SetModeEntry::Uapi2,
        }
    }

    /// The wrapped mode that unmapped native values translate to.
    pub fn catch_all(self) -> (r: WbOpMode)
        ensures
            r == catch_all(self),
    {
        if self.has_invalid_mode() {
            WbOpMode::Invalid
        } else {
            WbOpMode::Max
        }
    }
}

/// The native operating mode shared by the ISP modules.
#[derive(Clone, Copy, Debug, PartialEq, Eq, Structural)]
pub enum OpMode {
    Auto,
    Manual,
    SemiAuto,
    Inval,
}

/// The native white-balance mode enumeration. `Invalid` exists in the
/// native header of version 1.0 only.
#[derive(Clone, Copy, Debug, PartialEq, Eq, Structural)]
pub enum NativeWbOpMode {
    Invalid,
    Manual,
    Auto,
    Max,
}

/// The wrapped white-balance operating mode. It can represent every native
/// variant of every supported version.
#[derive(Clone, Copy, Debug, PartialEq, Eq, Structural)]
pub enum WbOpMode {
    Invalid,
    Manual,
    Auto,
    Max,
}

/// Whether native value `n` is defined by the header of version `v`.
pub open spec fn native_available(v: LibVersion, n: NativeWbOpMode) -> bool {
    n != NativeWbOpMode::Invalid || has_invalid_mode(v)
}

/// Whether wrapped value `w` has a native counterpart under version `v`.
pub open spec fn wrapped_available(v: LibVersion, w: WbOpMode) -> bool {
    w != WbOpMode::Invalid || has_invalid_mode(v)
}

/// The wrapped mode of a native operating mode under version `v`.
pub open spec fn wb_mode_of_op(v: LibVersion, m: OpMode) -> WbOpMode {
    match m {
        OpMode::Auto => WbOpMode::Auto,
        OpMode::Manual => WbOpMode::Manual,
        OpMode::SemiAuto | OpMode::Inval => catch_all(v),
    }
}

/// The wrapped mode of a native white-balance mode.
pub open spec fn wb_mode_of_native(n: NativeWbOpMode) -> WbOpMode {
    match n {
        NativeWbOpMode::Invalid => WbOpMode::Invalid,
        NativeWbOpMode::Manual => WbOpMode::Manual,
        NativeWbOpMode::Auto => WbOpMode::Auto,
        NativeWbOpMode::Max => WbOpMode::Max,
    }
}

/// The native operating mode of a wrapped mode; both sentinels become
/// `Inval`.
pub open spec fn op_of_wb_mode(w: WbOpMode) -> OpMode {
    match w {
        WbOpMode::Invalid => OpMode::Inval,
        WbOpMode::Manual => OpMode::Manual,
        WbOpMode::Auto => OpMode::Auto,
        WbOpMode::Max => OpMode::Inval,
    }
}

/// The native white-balance mode of a wrapped mode under version `v`;
/// `Invalid`, where the header lacks it, falls back to `Max`.
pub open spec fn native_of_wb_mode(v: LibVersion, w: WbOpMode) -> NativeWbOpMode {
    match w {
        WbOpMode::Invalid => if has_invalid_mode(v) {
            NativeWbOpMode::Invalid
        } else {
            NativeWbOpMode::Max
        },
        WbOpMode::Manual => NativeWbOpMode::Manual,
        WbOpMode::Auto => NativeWbOpMode::Auto,
        WbOpMode::Max => NativeWbOpMode::Max,
    }
}

impl WbOpMode {
    /// Translates a native operating mode; the values without a wrapped
    /// counterpart become the version's catch-all.
    pub fn from_op_mode(v: LibVersion, m: OpMode) -> (r: WbOpMode)
        ensures
            r == wb_mode_of_op(v, m),
            m != OpMode::Auto && m != OpMode::Manual ==> r == catch_all(v) && r != WbOpMode::Auto
                && r != WbOpMode::Manual,
    {
        match m {
            OpMode::Auto => WbOpMode::Auto,
            OpMode::Manual => WbOpMode::Manual,
            OpMode::SemiAuto | OpMode::Inval => v.catch_all(),
        }
    }

    /// Translates a native white-balance mode.
    pub fn from_native(n: NativeWbOpMode) -> (r: WbOpMode)
        ensures
            r == wb_mode_of_native(n),
    {
        match n {
            NativeWbOpMode::Invalid => WbOpMode::Invalid,
            NativeWbOpMode::Manual => WbOpMode::Manual,
            NativeWbOpMode::Auto => WbOpMode::Auto,
            NativeWbOpMode::Max => WbOpMode::Max,
        }
    }

    /// The native operating mode of this mode.
    pub fn to_op_mode(self) -> (r: OpMode)
        ensures
            r == op_of_wb_mode(self),
    {
        match self {
            WbOpMode::Invalid => OpMode::Inval,
            WbOpMode::Manual => OpMode::Manual,
            WbOpMode::Auto => OpMode::Auto,
            WbOpMode::Max => OpMode::Inval,
        }
    }

    /// The native white-balance mode of this mode under version `v`.
    pub fn to_native(self, v: LibVersion) -> (r: NativeWbOpMode)
        ensures
            r == native_of_wb_mode(v, self),
    {
        match self {
            WbOpMode::Invalid => if v.has_invalid_mode() {
                NativeWbOpMode::Invalid
            } else {
                NativeWbOpMode::Max
            },
            WbOpMode::Manual => NativeWbOpMode::Manual,
            WbOpMode::Auto => NativeWbOpMode::Auto,
            WbOpMode::Max => NativeWbOpMode::Max,
        }
    }
}

impl From<NativeWbOpMode> for WbOpMode {
    fn from(n: NativeWbOpMode) -> (r: WbOpMode) {
        WbOpMode::from_native(n)
    }
}

impl vstd::std_specs::convert::FromSpecImpl<NativeWbOpMode> for WbOpMode {
    open spec fn obeys_from_spec() -> bool {
        true
    }

    open spec fn from_spec(n: NativeWbOpMode) -> WbOpMode {
        wb_mode_of_native(n)
    }
}

impl From<WbOpMode> for OpMode {
    fn from(w: WbOpMode) -> (r: OpMode) {
        w.to_op_mode()
    }
}

impl vstd::std_specs::convert::FromSpecImpl<WbOpMode> for OpMode {
    open spec fn obeys_from_spec() -> bool {
        true
    }

    open spec fn from_spec(w: WbOpMode) -> OpMode {
        op_of_wb_mode(w)
    }
}

/// A manual white-balance preset, named after the lighting it suits.
#[derive(Clone, Copy, Debug, PartialEq, Eq, Structural)]
pub enum WbScene {
    Incandescent,
    Fluorescent,
    WarmFluorescent,
    Daylight,
    CloudyDaylight,
    Twilight,
    Shade,
}

impl Default for WbScene {
    /// The first preset, which the native library numbers zero.
    fn default() -> (r: WbScene)
        ensures
            r == WbScene::Incandescent,
    {
        WbScene::Incandescent
    }
}

/// Manual white-balance gains, one multiplier per colour channel (red, green
/// beside red, green beside blue, blue). Each multiplier is held as the bit
/// pattern of the native single-precision value, which passes through this
/// crate unchanged.
#[derive(Clone, Copy, Debug, PartialEq, Eq, Structural)]
pub struct WbGain {
    pub rgain: u32,
    pub grgain: u32,
    pub gbgain: u32,
    pub bgain: u32,
}

impl WbGain {
    /// Gains from the bit patterns of the four channel multipliers.
    pub fn new(rgain: u32, grgain: u32, gbgain: u32, bgain: u32) -> (r: WbGain)
        ensures
            r == (WbGain { rgain, grgain, gbgain, bgain }),
    {
        WbGain { rgain, grgain, gbgain, bgain }
    }
}

impl Default for WbGain {
    /// All four multipliers zero.
    fn default() -> (r: WbGain)
        ensures
            r == (WbGain { rgain: 0, grgain: 0, gbgain: 0, bgain: 0 }),
    {
        WbGain { rgain: 0, grgain: 0, gbgain: 0, bgain: 0 }
    }
}

/// Every native white-balance mode that the header of `v` defines comes back
/// unchanged from a translation to the wrapped mode and back.
pub proof fn lemma_native_wb_mode_round_trip(v: LibVersion, n: NativeWbOpMode)
    requires
        native_available(v, n),
    ensures
        native_of_wb_mode(v, wb_mode_of_native(n)) == n,
{
}

/// Every wrapped mode with a native counterpart under `v` comes back
/// unchanged from a translation to the native white-balance mode and back.
pub proof fn lemma_wrapped_wb_mode_round_trip(v: LibVersion, w: WbOpMode)
    requires
        wrapped_available(v, w),
    ensures
        wb_mode_of_native(native_of_wb_mode(v, w)) == w,
{
}

/// A native operating mode survives a translation to the wrapped mode and
/// back when it is `Auto` or `Manual`; every other native value translates to
/// the version's catch-all, and that comes back as `Inval`.
pub proof fn lemma_op_mode_round_trip(v: LibVersion, m: OpMode)
    ensures
        (m == OpMode::Auto || m == OpMode::Manual) ==> op_of_wb_mode(wb_mode_of_op(v, m)) == m,
        (m == OpMode::SemiAuto || m == OpMode::Inval) ==> wb_mode_of_op(v, m) == catch_all(v)
            && op_of_wb_mode(wb_mode_of_op(v, m)) == OpMode::Inval,
{
}

/// The catch-all of a version is a sentinel that the version defines, and it
/// is never one of the modes `Auto` or `Manual`.
pub proof fn lemma_catch_all_is_sentinel(v: LibVersion)
    ensures
        wrapped_available(v, catch_all(v)),
        catch_all(v) == WbOpMode::Invalid || catch_all(v) == WbOpMode::Max,
        native_of_wb_mode(v, catch_all(v)) == (if has_invalid_mode(v) {
            NativeWbOpMode::Invalid
        } else {
            NativeWbOpMode::Max
        }),
{
}

} // verus!
