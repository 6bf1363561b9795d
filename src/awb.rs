use vstd::prelude::*;

use crate::error::{outcome, XCamError, XCamResult, STATUS_OK};
use crate::types::{set_mode_entry, LibVersion, OpMode, SetModeEntry, WbGain, WbScene};

verus! {

/// The white-balance entry points of the native ISP library, one method per
/// native function. Each returns the native status code; a getter also writes
/// its result through its out parameter.
///
/// Each entry point comes with a predicate that says which replies it may
/// give for the arguments it was handed. By default any reply is possible; an
/// implementation that knows more (a test double that echoes, say) may narrow
/// it. A binding to the vendor library implements this trait by calling the
/// library; a test double implements it with plain values.
pub trait NativeAwb {
    /// Whether a read of the operating mode may report `status` and leave
    /// `mode` in its out parameter.
    open spec fn get_wb_mode_reply(&self, status: i32, mode: OpMode) -> bool {
        true
    }

    /// Whether setting the operating mode to `mode` through `entry` may
    /// report `status`.
    open spec fn set_wb_mode_reply(&self, entry: SetModeEntry, mode: OpMode, status: i32) -> bool {
        true
    }

    /// Whether locking the gains may report `status`.
    open spec fn lock_awb_reply(&self, status: i32) -> bool {
        true
    }

    /// Whether unlocking the gains may report `status`.
    open spec fn unlock_awb_reply(&self, status: i32) -> bool {
        true
    }

    /// Whether a read of the manual scene may report `status` and leave
    /// `scene` in its out parameter.
    open spec fn get_mwb_scene_reply(&self, status: i32, scene: WbScene) -> bool {
        true
    }

    /// Whether setting the manual scene to `scene` may report `status`.
    open spec fn set_mwb_scene_reply(&self, scene: WbScene, status: i32) -> bool {
        true
    }

    /// Whether a read of the manual gains may report `status` and leave
    /// `gain` in its out parameter.
    open spec fn get_mwb_gain_reply(&self, status: i32, gain: WbGain) -> bool {
        true
    }

    /// Whether setting the manual gains to `gain` may report `status`.
    open spec fn set_mwb_gain_reply(&self, gain: WbGain, status: i32) -> bool {
        true
    }

    /// Whether a read of the colour temperature may report `status` and
    /// leave `ct` in its out parameter.
    open spec fn get_mwb_ct_reply(&self, status: i32, ct: u32) -> bool {
        true
    }

    /// Whether setting the colour temperature to `ct` may report `status`.
    open spec fn set_mwb_ct_reply(&self, ct: u32, status: i32) -> bool {
        true
    }

    /// Reads the operating mode.
    fn uapi_get_wb_mode(&self, mode: &mut OpMode) -> (r: i32)
        ensures
            self.get_wb_mode_reply(r, *final(mode)),
    ;

    /// Sets the operating mode through the first generation API.
    fn uapi_set_wb_mode(&self, mode: OpMode) -> (r: i32)
        ensures
            self.set_wb_mode_reply(SetModeEntry::Uapi, mode, r),
    ;

    /// Sets the operating mode through the second generation API.
    fn uapi2_set_wb_mode(&self, mode: OpMode) -> (r: i32)
        ensures
            self.set_wb_mode_reply(SetModeEntry::Uapi2, mode, r),
    ;

    /// Freezes the automatically computed gains.
    fn uapi_lock_awb(&self) -> (r: i32)
        ensures
            self.lock_awb_reply(r),
    ;

    /// Lets the automatically computed gains adapt again.
    fn uapi_unlock_awb(&self) -> (r: i32)
        ensures
            self.unlock_awb_reply(r),
    ;

    /// Reads the manual scene.
    fn uapi_get_mwb_scene(&self, scene: &mut WbScene) -> (r: i32)
        ensures
            self.get_mwb_scene_reply(r, *final(scene)),
    ;

    /// Sets the manual scene.
    fn uapi_set_mwb_scene(&self, scene: WbScene) -> (r: i32)
        ensures
            self.set_mwb_scene_reply(scene, r),
    ;

    /// Reads the manual gains.
    fn uapi_get_mwb_gain(&self, gain: &mut WbGain) -> (r: i32)
        ensures
            self.get_mwb_gain_reply(r, *final(gain)),
    ;

    /// Sets the manual gains.
    fn uapi_set_mwb_gain(&self, gain: &WbGain) -> (r: i32)
        ensures
            self.set_mwb_gain_reply(*gain, r),
    ;

    /// Reads the manual colour temperature, in kelvin.
    fn uapi_get_mwb_ct(&self, ct: &mut u32) -> (r: i32)
        ensures
            self.get_mwb_ct_reply(r, *final(ct)),
    ;

    /// Sets the manual colour temperature, in kelvin.
    fn uapi_set_mwb_ct(&self, ct: u32) -> (r: i32)
        ensures
            self.set_mwb_ct_reply(ct, r),
    ;
}

/// What every outcome of a native call satisfies: an error never carries the
/// success code.
pub open spec fn reported<T>(r: XCamResult<T>) -> bool {
    r is Err ==> r->Err_0.code != STATUS_OK
}

/// Automatic white balance on an ISP context.
pub trait AutoWhiteBalance {
    /// Gets the white-balance operating mode.
    fn get_wb_mode(&self) -> (r: XCamResult<OpMode>)
        ensures
            reported(r),
    ;

    /// Sets the white-balance operating mode.
    fn set_wb_mode(&self, mode: OpMode) -> (r: XCamResult<()>)
        ensures
            reported(r),
    ;

    /// Locks the current white-balance parameters.
    fn lock_awb(&self) -> (r: XCamResult<()>)
        ensures
            reported(r),
    ;

    /// Unlocks locked white-balance parameters.
    fn unlock_awb(&self) -> (r: XCamResult<()>)
        ensures
            reported(r),
    ;

    /// Gets the manual white-balance scene.
    fn get_mwb_scene(&self) -> (r: XCamResult<WbScene>)
        ensures
            reported(r),
    ;

    /// Sets the manual white-balance scene.
    fn set_mwb_scene<T: Into<WbScene>>(&self, scene: T) -> (r: XCamResult<()>)
        ensures
            reported(r),
    ;

    /// Gets the manual white-balance gains.
    fn get_mwb_gain(&self) -> (r: XCamResult<WbGain>)
        ensures
            reported(r),
    ;

    /// Sets the manual white-balance gains.
    fn set_mwb_gain<T: Into<WbGain>>(&self, gain: T) -> (r: XCamResult<()>)
        ensures
            reported(r),
    ;

    /// Gets the manual colour temperature, in kelvin.
    fn get_mwb_ct(&self) -> (r: XCamResult<u32>)
        ensures
            reported(r),
    ;

    /// Sets the manual colour temperature, in kelvin.
    fn set_mwb_ct(&self, ct: u32) -> (r: XCamResult<()>)
        ensures
            reported(r),
    ;
}

/// An open ISP context: the native library behind it, and the library
/// version that decides which native entry points are used.
pub struct Context<N: NativeAwb> {
    native: N,
    version: LibVersion,
}

impl<N: NativeAwb> Context<N> {
    /// A context on `native`, configured for library version `version`.
    pub fn new(native: N, version: LibVersion) -> (r: Context<N>)
        ensures
            r.native() == native,
            r.version() == version,
    {
        Context { native, version }
    }

    /// The native library behind this context.
    pub closed spec fn native(&self) -> N {
        self.native
    }

    /// The library version this context is configured for.
    pub closed spec fn version(&self) -> LibVersion {
        self.version
    }

    /// The native library behind this context.
    pub fn native_lib(&self) -> (r: &N)
        ensures
            *r == self.native(),
    {
        &self.native
    }

    /// The library version this context is configured for.
    pub fn lib_version(&self) -> (r: LibVersion)
        ensures
            r == self.version(),
    {
        self.version
    }
}

impl<N: NativeAwb> AutoWhiteBalance for Context<N> {
    /// The mode is what the native read left in its out parameter, on a
    /// success status; any other status is the error.
    fn get_wb_mode(&self) -> (r: XCamResult<OpMode>)
        ensures
            exists|status: i32, mode: OpMode|
                self.native().get_wb_mode_reply(status, mode) && r == outcome(status, mode),
    {
        let mut mode = OpMode::Inval;
        let status = self.native.uapi_get_wb_mode(&mut mode);
        assert(self.native().get_wb_mode_reply(status, mode));
        XCamError::check_with(status, mode)
    }

    /// Hands `mode`, unchanged, to the entry point of the configured library
    /// version, and translates its status.
    fn set_wb_mode(&self, mode: OpMode) -> (r: XCamResult<()>)
        ensures
            exists|status: i32|
                self.native().set_wb_mode_reply(set_mode_entry(self.version()), mode, status)
                    && r == outcome(status, ()),
    {
        let status = match self.version.set_mode_entry() {
            SetModeEntry::Uapi => self.native.uapi_set_wb_mode(mode),
            SetModeEntry::Uapi2 => self.native.uapi2_set_wb_mode(mode),
        };
        assert(self.native().set_wb_mode_reply(set_mode_entry(self.version()), mode, status));
        XCamError::check(status)
    }

    fn lock_awb(&self) -> (r: XCamResult<()>)
        ensures
            exists|status: i32| self.native().lock_awb_reply(status) && r == outcome(status, ()),
    {
        let status = self.native.uapi_lock_awb();
        assert(self.native().lock_awb_reply(status));
        XCamError::check(status)
    }

    fn unlock_awb(&self) -> (r: XCamResult<()>)
        ensures
            exists|status: i32| self.native().unlock_awb_reply(status) && r == outcome(status, ()),
    {
        let status = self.native.uapi_unlock_awb();
        assert(self.native().unlock_awb_reply(status));
        XCamError::check(status)
    }

    fn get_mwb_scene(&self) -> (r: XCamResult<WbScene>)
        ensures
            exists|status: i32, scene: WbScene|
                self.native().get_mwb_scene_reply(status, scene) && r == outcome(status, scene),
    {
        let mut scene = WbScene::default();
        let status = self.native.uapi_get_mwb_scene(&mut scene);
        assert(self.native().get_mwb_scene_reply(status, scene));
        XCamError::check_with(status, scene)
    }

    /// Hands the converted scene, unchanged, to the native library.
    fn set_mwb_scene<T: Into<WbScene>>(&self, scene: T) -> (r: XCamResult<()>)
        ensures
            exists|native_scene: WbScene, status: i32|
                call_ensures(T::into, (scene,), native_scene)
                    && self.native().set_mwb_scene_reply(native_scene, status)
                    && r == outcome(status, ()),
    {
        let native_scene: WbScene = scene.into();
        let status = self.native.uapi_set_mwb_scene(native_scene);
        assert(self.native().set_mwb_scene_reply(native_scene, status));
        XCamError::check(status)
    }

    fn get_mwb_gain(&self) -> (r: XCamResult<WbGain>)
        ensures
            exists|status: i32, gain: WbGain|
                self.native().get_mwb_gain_reply(status, gain) && r == outcome(status, gain),
    {
        let mut gain = WbGain::default();
        let status = self.native.uapi_get_mwb_gain(&mut gain);
        assert(self.native().get_mwb_gain_reply(status, gain));
        XCamError::check_with(status, gain)
    }

    /// Hands the converted gains, unchanged, to the native library.
    fn set_mwb_gain<T: Into<WbGain>>(&self, gain: T) -> (r: XCamResult<()>)
        ensures
            exists|native_gain: WbGain, status: i32|
                call_ensures(T::into, (gain,), native_gain)
                    && self.native().set_mwb_gain_reply(native_gain, status)
                    && r == outcome(status, ()),
    {
        let native_gain: WbGain = gain.into();
        let status = self.native.uapi_set_mwb_gain(&native_gain);
        assert(self.native().set_mwb_gain_reply(native_gain, status));
        XCamError::check(status)
    }

    fn get_mwb_ct(&self) -> (r: XCamResult<u32>)
        ensures
            exists|status: i32, ct: u32|
                self.native().get_mwb_ct_reply(status, ct) && r == outcome(status, ct),
    {
        let mut ct: u32 = 0;
        let status = self.native.uapi_get_mwb_ct(&mut ct);
        assert(self.native().get_mwb_ct_reply(status, ct));
        XCamError::check_with(status, ct)
    }

    /// Hands `ct`, unchanged, to the native library.
    fn set_mwb_ct(&self, ct: u32) -> (r: XCamResult<()>)
        ensures
            exists|status: i32| self.native().set_mwb_ct_reply(ct, status) && r == outcome(status, ()),
    {
        let status = self.native.uapi_set_mwb_ct(ct);
        assert(self.native().set_mwb_ct_reply(ct, status));
        XCamError::check(status)
    }
}

} // verus!
