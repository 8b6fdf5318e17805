//! The boundary to the `windows` crate and to `std::time`. Verus does not read
//! the bodies in this file: each function makes one call, and its contract,
//! where it has one, is taken on trust.

use vstd::prelude::*;
use core::time::Duration;
use windows::Foundation::Metadata::ApiInformation;
use windows::Foundation::TypedEventHandler;
use windows::Graphics::Capture::{
    Direct3D11CaptureFrame, Direct3D11CaptureFramePool, GraphicsCaptureItem,
    GraphicsCaptureSession,
};
use windows::Graphics::DirectX::Direct3D11::IDirect3DDevice;
use windows::Graphics::DirectX::DirectXPixelFormat;
use windows::Graphics::SizeInt32;
use crate::frame::NativeSize;

verus! {

#[verifier::external_type_specification]
#[verifier::external_body]
pub struct ExError(windows::core::Error);

#[verifier::external_type_specification]
#[verifier::external_body]
pub struct ExGraphicsCaptureItem(GraphicsCaptureItem);

#[verifier::external_type_specification]
#[verifier::external_body]
pub struct ExGraphicsCaptureSession(GraphicsCaptureSession);

#[verifier::external_type_specification]
#[verifier::external_body]
pub struct ExDirect3D11CaptureFramePool(Direct3D11CaptureFramePool);

#[verifier::external_type_specification]
#[verifier::external_body]
pub struct ExDirect3D11CaptureFrame(Direct3D11CaptureFrame);

#[verifier::external_type_specification]
#[verifier::external_body]
pub struct ExIDirect3DDevice(IDirect3DDevice);

#[verifier::external_type_specification]
#[verifier::external_body]
pub struct ExIInspectable(windows::core::IInspectable);

/// The `HRESULT` that stands for a Win32 error code, as a plain integer.
///
/// Zero and codes with the top bit set keep their bits. Any other code keeps
/// its low sixteen bits and gets the failure bit and the Win32 facility (7),
/// which is `0x8007_0000` plus the low bits, read as a signed number.
pub open spec fn spec_hresult_from_win32(code: u32) -> int {
    if code == 0 {
        0
    } else if code >= 0x8000_0000 {
        code - 0x1_0000_0000
    } else {
        (code % 0x1_0000) - 0x7FF9_0000
    }
}

/// What a frame pool is made with: the layout of its surfaces, how many it
/// holds, and their size.
#[derive(Debug, Clone, Copy, PartialEq, Eq, Structural)]
pub struct PoolShape {
    pub format: i32,
    pub buffers: i32,
    pub size: NativeSize,
}

/// The `Duration` that `Duration::from_nanos` makes of a number of
/// nanoseconds.
pub uninterp spec fn duration_of_nanos(nanos: u64) -> Duration;

/// The `HRESULT` that an error of the bindings carries: what
/// `windows::core::Error::code` reads from it.
pub uninterp spec fn error_hresult(error: windows::core::Error) -> i32;

/// What was handed to the call that last made the pool behind this handle:
/// `Direct3D11CaptureFramePool::Create`, or the latest
/// `Direct3D11CaptureFramePool::Recreate` through the handle that succeeded.
pub uninterp spec fn pool_shape(pool: Direct3D11CaptureFramePool) -> PoolShape;

/// `Duration::from_nanos`: the span of that many nanoseconds.
#[verifier::external_body]
pub(crate) fn duration_from_nanos(nanos: u64) -> (duration: Duration)
    ensures
        duration == duration_of_nanos(nanos),
{
    Duration::from_nanos(nanos)
}

/// `windows::core::Error::code`: the `HRESULT` an error carries, which is the
/// number named by `error_hresult`. Nothing else is claimed of it.
#[verifier::external_body]
pub(crate) fn error_code(error: &windows::core::Error) -> (code: i32)
    ensures
        code == error_hresult(*error),
{
    error.code().0
}

/// `windows::core::HRESULT::from_win32`: the `HRESULT` for a Win32 error code.
/// The contract restates the two branches of that function, the first of
/// which takes zero and every code with the top bit set.
#[verifier::external_body]
pub(crate) fn hresult_from_win32(code: u32) -> (hresult: i32)
    ensures
        hresult as int == spec_hresult_from_win32(code),
{
    windows::core::HRESULT::from_win32(code).0
}

/// `GraphicsCaptureItem::Size`: the size the source has now.
#[verifier::external_body]
pub(crate) fn item_size(item: &GraphicsCaptureItem) -> (r: Result<
    NativeSize,
    windows::core::Error,
>) {
    match item.Size() {
        Ok(size) => Ok(NativeSize { width: size.Width, height: size.Height }),
        Err(e) => Err(e),
    }
}

/// `GraphicsCaptureItem::Closed` with the handler that `TypedEventHandler::new`
/// makes of `on_closed`. The platform calls it when the source goes away, with
/// whatever sender and arguments it sees fit.
#[verifier::external_body]
pub(crate) fn item_watch_closed<F>(item: &GraphicsCaptureItem, on_closed: F) -> (r: Result<
    (),
    windows::core::Error,
>) where
    F: FnMut(&Option<GraphicsCaptureItem>, &Option<windows::core::IInspectable>) -> Result<
        (),
        windows::core::Error,
    > + Send + 'static,

    requires
        forall|sender: &Option<GraphicsCaptureItem>, args: &Option<windows::core::IInspectable>|
            call_requires(on_closed, (sender, args)),
{
    let handler = TypedEventHandler::<GraphicsCaptureItem, windows::core::IInspectable>::new(
        on_closed,
    );
    match item.Closed(&handler) {
        Ok(_) => Ok(()),
        Err(e) => Err(e),
    }
}

/// `Direct3D11CaptureFramePool::Create`: a pool of `buffers` surfaces of the
/// given layout and size on the device. A pool that comes back was made with
/// exactly these three.
#[verifier::external_body]
pub(crate) fn frame_pool_create(
    device: &IDirect3DDevice,
    format: i32,
    buffers: i32,
    size: NativeSize,
) -> (r: Result<Direct3D11CaptureFramePool, windows::core::Error>)
    requires
        buffers >= 1,
    ensures
        r matches Ok(pool) ==> pool_shape(pool) == (PoolShape { format, buffers, size }),
{
    let size = SizeInt32 { Width: size.width, Height: size.height };
    Direct3D11CaptureFramePool::Create(device, DirectXPixelFormat(format), buffers, size)
}

/// `Direct3D11CaptureFramePool::Recreate`: the same pool with new surfaces of
/// the given layout and size. After success the pool was last made with
/// these three; after a failure it was last made with what it was made with
/// before. The call hands every failure back as an error and does not panic.
#[verifier::external_body]
pub(crate) fn frame_pool_recreate(
    pool: &mut Direct3D11CaptureFramePool,
    device: &IDirect3DDevice,
    format: i32,
    buffers: i32,
    size: NativeSize,
) -> (r: Result<(), windows::core::Error>)
    requires
        buffers >= 1,
    ensures
        r is Ok ==> pool_shape(*final(pool)) == (PoolShape { format, buffers, size }),
        r is Err ==> pool_shape(*final(pool)) == pool_shape(*old(pool)),
    no_unwind
{
    let size = SizeInt32 { Width: size.width, Height: size.height };
    pool.Recreate(device, DirectXPixelFormat(format), buffers, size)
}

/// `Direct3D11CaptureFramePool::FrameArrived` with a handler, made by
/// `TypedEventHandler::new`, that does nothing. The pool delivers only while
/// someone listens.
#[verifier::external_body]
pub(crate) fn frame_pool_listen(pool: &Direct3D11CaptureFramePool) -> (r: Result<
    (),
    windows::core::Error,
>) {
    let handler =
        TypedEventHandler::<Direct3D11CaptureFramePool, windows::core::IInspectable>::new(
            |_, _| Ok(()),
        );
    match pool.FrameArrived(&handler) {
        Ok(_) => Ok(()),
        Err(e) => Err(e),
    }
}

/// `Direct3D11CaptureFramePool::CreateCaptureSession`: a session that will
/// fill the pool from the item.
#[verifier::external_body]
pub(crate) fn frame_pool_create_session(
    pool: &Direct3D11CaptureFramePool,
    item: &GraphicsCaptureItem,
) -> (r: Result<GraphicsCaptureSession, windows::core::Error>) {
    pool.CreateCaptureSession(item)
}

/// `Direct3D11CaptureFramePool::TryGetNextFrame`: the next surface, without
/// waiting. Where none is ready the binding reports an error whose code is
/// not a failure code.
#[verifier::external_body]
pub(crate) fn frame_pool_try_get_next_frame(pool: &Direct3D11CaptureFramePool) -> (r: Result<
    Direct3D11CaptureFrame,
    windows::core::Error,
>) {
    pool.TryGetNextFrame()
}

/// `GraphicsCaptureSession::SetIsCursorCaptureEnabled`.
#[verifier::external_body]
pub(crate) fn session_set_cursor_capture(session: &GraphicsCaptureSession, value: bool) -> (r:
    Result<(), windows::core::Error>) {
    session.SetIsCursorCaptureEnabled(value)
}

/// `GraphicsCaptureSession::SetIsBorderRequired`.
#[verifier::external_body]
pub(crate) fn session_set_border_required(session: &GraphicsCaptureSession, value: bool) -> (r:
    Result<(), windows::core::Error>) {
    session.SetIsBorderRequired(value)
}

/// `GraphicsCaptureSession::StartCapture`.
#[verifier::external_body]
pub(crate) fn session_start_capture(session: &GraphicsCaptureSession) -> (r: Result<
    (),
    windows::core::Error,
>) {
    session.StartCapture()
}

/// `Direct3D11CaptureFrame::ContentSize`: the size of what the surface shows.
#[verifier::external_body]
pub(crate) fn frame_content_size(frame: &Direct3D11CaptureFrame) -> (r: Result<
    NativeSize,
    windows::core::Error,
>) {
    match frame.ContentSize() {
        Ok(size) => Ok(NativeSize { width: size.Width, height: size.Height }),
        Err(e) => Err(e),
    }
}

/// `Direct3D11CaptureFrame::SystemRelativeTime`: when the compositor rendered
/// the frame, in units of 100 nanoseconds.
#[verifier::external_body]
pub(crate) fn frame_system_relative_time(frame: &Direct3D11CaptureFrame) -> (r: Result<
    i64,
    windows::core::Error,
>) {
    match frame.SystemRelativeTime() {
        Ok(time) => Ok(time.Duration),
        Err(e) => Err(e),
    }
}

/// `GraphicsCaptureSession::IsSupported`.
#[verifier::external_body]
pub(crate) fn capture_supported() -> (r: Result<bool, windows::core::Error>) {
    GraphicsCaptureSession::IsSupported()
}

/// `ApiInformation::IsPropertyPresent`, with both names turned into `HSTRING`s
/// by `HSTRING::from`, which takes no string of 4 GiB or more: a name of
/// fewer than 2^30 characters stays below that in any encoding.
#[verifier::external_body]
pub(crate) fn property_present(class_name: &str, property: &str) -> (r: Result<
    bool,
    windows::core::Error,
>)
    requires
        class_name@.len() < 0x4000_0000,
        property@.len() < 0x4000_0000,
{
    ApiInformation::IsPropertyPresent(
        &windows::core::HSTRING::from(class_name),
        &windows::core::HSTRING::from(property),
    )
}

} // verus!
