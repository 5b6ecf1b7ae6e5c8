use vstd::prelude::*;

verus! {

/// `D3D_FEATURE_LEVEL_12_1`.
pub const FEATURE_LEVEL_12_1: u32 = 0xc100;

/// `D3D_FEATURE_LEVEL_12_0`.
pub const FEATURE_LEVEL_12_0: u32 = 0xc000;

/// `D3D_FEATURE_LEVEL_11_1`.
pub const FEATURE_LEVEL_11_1: u32 = 0xb100;

/// `D3D_FEATURE_LEVEL_11_0`.
pub const FEATURE_LEVEL_11_0: u32 = 0xb000;

/// The result code of a call that succeeded.
pub const S_OK: u32 = 0;

/// The feature levels a device is asked for, highest first.
pub open spec fn feature_level_order() -> Seq<u32> {
    seq![FEATURE_LEVEL_12_1, FEATURE_LEVEL_12_0, FEATURE_LEVEL_11_1, FEATURE_LEVEL_11_0]
}

/// The feature levels a device is asked for, highest first.
pub fn feature_levels() -> (r: Vec<u32>)
    ensures
        r@ == feature_level_order(),
{
    let r: Vec<u32> = vec![FEATURE_LEVEL_12_1, FEATURE_LEVEL_12_0, FEATURE_LEVEL_11_1, FEATURE_LEVEL_11_0];
    assert(r@ =~= feature_level_order());
    r
}

/// The next step in creating a device.
#[derive(Clone, Copy, Debug, PartialEq, Eq, Structural)]
pub enum DeviceStep {
    /// Ask for a device of this feature level.
    Try(u32),
    /// Stop, with this result code.
    Done(u32),
}

/// Decides the next step of device creation, once `attempts` feature levels
/// have been tried and the latest attempt gave `last` (not read before the
/// first attempt). Levels are tried from the highest down; creation stops at
/// the first success, or with the code of the last failure once every level
/// has been tried.
pub fn next_device_step(attempts: usize, last: u32) -> (r: DeviceStep)
    ensures
        attempts == 0 ==> r == DeviceStep::Try(feature_level_order()[0]),
        attempts > 0 && last == S_OK ==> r == DeviceStep::Done(S_OK),
        0 < attempts < feature_level_order().len() && last != S_OK ==> r == DeviceStep::Try(
            feature_level_order()[attempts as int],
        ),
        attempts >= feature_level_order().len() && last != S_OK ==> r == DeviceStep::Done(last),
{
    let levels = feature_levels();
    if attempts > 0 && last == S_OK {
        DeviceStep::Done(S_OK)
    } else if attempts < levels.len() {
        DeviceStep::Try(levels[attempts])
    } else {
        DeviceStep::Done(last)
    }
}

} // verus!
