//! The capture session: set up, started, and pulled from one step at a time.

use vstd::prelude::*;
use windows::Graphics::Capture::{
    Direct3D11CaptureFramePool, GraphicsCaptureItem, GraphicsCaptureSession,
};
use windows::Graphics::DirectX::Direct3D11::IDirect3DDevice;
use crate::error::{ConfigError, WgcError};
use crate::frame::{Frame, FrameSize, NativeSize};
use crate::platform::{
    error_code, frame_content_size, frame_pool_create, frame_pool_create_session,
    frame_pool_listen, frame_pool_recreate, frame_pool_try_get_next_frame, item_size,
    item_watch_closed,
    pool_shape, session_set_border_required, session_set_cursor_capture, session_start_capture,
    PoolShape,
};
use crate::settings::{Capabilities, WgcSettings};
use crate::stream::{SessionPhase, StreamAction, StreamEvent, StreamState, WaitOutcome};

verus! {

/// What a session is to the contracts: its settings, its engine's state,
/// what its frame pool was last made with, the source it captures and the
/// platform's session.
pub struct SessionModel {
    pub settings: WgcSettings,
    pub stream: StreamState,
    pub pool: PoolShape,
    pub item: GraphicsCaptureItem,
    pub session: GraphicsCaptureSession,
}

impl SessionModel {
    /// The frame pool is what the settings and the engine take it for: made
    /// with the settings' layout and queue length, which is at least one, and
    /// with the size that the engine holds as the pool's.
    pub open spec fn coherent(self) -> bool {
        &&& self.settings.frame_queue_length >= 1
        &&& self.pool == (PoolShape {
            format: self.settings.pixel_format.format,
            buffers: self.settings.frame_queue_length,
            size: self.stream.buffer_size,
        })
    }
}

/// What one step of pulling brought.
#[derive(Debug)]
pub enum Step {
    /// A frame for the consumer.
    Deliver(Frame),
    /// Nothing yet; step again at once.
    Retry,
    /// Nothing yet; wait for the platform's next message, report it with
    /// [`Wgc::on_wait`], and go by its answer.
    Wait,
    /// An error for the consumer. Further steps may still be tried.
    Fail(WgcError),
    /// The stream has ended.
    End,
}

impl Step {
    /// The engine's action that a step stands for.
    pub open spec fn action(self) -> StreamAction {
        match self {
            Step::Deliver(_) => StreamAction::Deliver,
            Step::Retry => StreamAction::Dequeue,
            Step::Wait => StreamAction::Wait,
            Step::Fail(e) => StreamAction::Fail(e),
            Step::End => StreamAction::End,
        }
    }
}

/// A capture session bound to one source. It owns the frame pool and is the
/// only one to recreate it.
pub struct Wgc {
    session: GraphicsCaptureSession,
    item: GraphicsCaptureItem,
    frame_pool: Direct3D11CaptureFramePool,
    device: IDirect3DDevice,
    settings: WgcSettings,
    stream: StreamState,
}

impl View for Wgc {
    type V = SessionModel;

    closed spec fn view(&self) -> SessionModel {
        SessionModel {
            settings: self.settings,
            stream: self.stream,
            pool: pool_shape(self.frame_pool),
            item: self.item,
            session: self.session,
        }
    }
}

impl Wgc {
    /// Every session that exists is coherent: none is made otherwise, and no
    /// step leaves one otherwise.
    #[verifier::type_invariant]
    spec fn well_formed(self) -> bool {
        self@.coherent()
    }

    /// Sets up a session on the device for the item: checks the settings,
    /// creates the frame pool at the item's present size, listens to it,
    /// creates the session and applies cursor capture and border where they
    /// are set. The session is left unstarted, so that the caller can do on
    /// [`Wgc::session`] and [`Wgc::item`] what has to be done before frames
    /// flow: apply the two settings for which the bindings have no call
    /// (secondary windows, minimum update interval) and watch for the source
    /// closing.
    ///
    /// Settings that break a rule are refused before the platform is touched.
    /// Settings that break none lead to a session unless the platform fails.
    pub fn new(
        item: GraphicsCaptureItem,
        settings: WgcSettings,
        capabilities: &Capabilities,
        device: IDirect3DDevice,
    ) -> (r: Result<Wgc, WgcError>)
        ensures
            settings.frame_queue_length < 1 ==> (r matches Err(err) && err == WgcError::Config(
                ConfigError::FrameQueueLength,
            )),
            match settings.config_error(*capabilities) {
                Some(e) => r matches Err(err) && err == WgcError::Config(e),
                None => match r {
                    Ok(wgc) => wgc@.settings == settings && wgc@.item == item
                        && wgc@.stream.phase == SessionPhase::Created && wgc@.coherent(),
                    Err(err) => err is Platform,
                },
            },
    {
        match settings.validate(capabilities) {
            Ok(()) => {},
            Err(e) => {
                return Err(e);
            },
        }
        let buffer_size = match item_size(&item) {
            Ok(size) => size,
            Err(e) => {
                return Err(WgcError::from_platform(&e));
            },
        };
        let frame_pool = match frame_pool_create(
            &device,
            settings.pixel_format.format(),
            settings.frame_queue_length,
            buffer_size,
        ) {
            Ok(pool) => pool,
            Err(e) => {
                return Err(WgcError::from_platform(&e));
            },
        };
        match frame_pool_listen(&frame_pool) {
            Ok(()) => {},
            Err(e) => {
                return Err(WgcError::from_platform(&e));
            },
        }
        let session = match frame_pool_create_session(&frame_pool, &item) {
            Ok(session) => session,
            Err(e) => {
                return Err(WgcError::from_platform(&e));
            },
        };
        match settings.capture_cursor {
            Some(value) => match session_set_cursor_capture(&session, value) {
                Ok(()) => {},
                Err(e) => {
                    return Err(WgcError::from_platform(&e));
                },
            },
            None => {},
        }
        match settings.display_border {
            Some(value) => match session_set_border_required(&session, value) {
                Ok(()) => {},
                Err(e) => {
                    return Err(WgcError::from_platform(&e));
                },
            },
            None => {},
        }
        let stream = StreamState::new(buffer_size);
        Ok(Wgc { session, item, frame_pool, device, settings, stream })
    }

    /// Has the platform call `on_closed` when the source goes away, and starts
    /// the capture. From here on the compositor fills the pool.
    ///
    /// `on_closed` has to post the termination signal to this thread's message
    /// channel, so that a wait ends with [`WaitOutcome::Quit`]; it must accept
    /// whatever the platform hands it.
    ///
    /// Only a session that was not started yet calls the platform; starting is
    /// never undone, and starting again changes nothing.
    pub fn start<F>(&mut self, on_closed: F) -> (r: Result<(), WgcError>) where
        F: FnMut(&Option<GraphicsCaptureItem>, &Option<windows::core::IInspectable>) -> Result<
            (),
            windows::core::Error,
        > + Send + 'static,

        requires
            forall|sender: &Option<GraphicsCaptureItem>, args: &Option<windows::core::IInspectable>|
                call_requires(on_closed, (sender, args)),
        ensures
            final(self)@.settings == old(self)@.settings,
            final(self)@.item == old(self)@.item,
            final(self)@.session == old(self)@.session,
            final(self)@.pool == old(self)@.pool,
            final(self)@.coherent(),
            match r {
                Ok(()) => final(self)@.stream == if old(self)@.stream.phase
                    == SessionPhase::Created {
                    old(self)@.stream.step(StreamEvent::Started).0
                } else {
                    old(self)@.stream
                },
                Err(err) => err is Platform && old(self)@.stream.phase == SessionPhase::Created
                    && final(self)@ == old(self)@,
            },
    {
        proof {
            use_type_invariant(&*self);
        }
        match self.stream.phase {
            SessionPhase::Created => {
                match item_watch_closed(&self.item, on_closed) {
                    Ok(()) => {},
                    Err(e) => {
                        return Err(WgcError::from_platform(&e));
                    },
                }
                match session_start_capture(&self.session) {
                    Ok(()) => {
                        let (next, _) = self.stream.advance(StreamEvent::Started);
                        self.stream = next;
                        Ok(())
                    },
                    Err(e) => Err(WgcError::from_platform(&e)),
                }
            },
            _ => Ok(()),
        }
    }

    /// One step of pulling: a stopped stream ends; otherwise one surface is
    /// asked of the pool, without waiting.
    ///
    /// A surface of the pool's size is delivered. A surface of another size is
    /// dropped, the pool is recreated once at that size with the same layout
    /// and depth, and the step says `Retry`. Where no surface is ready the
    /// step says `Wait`. A failure of the platform is reported and leaves the
    /// session as it was. The stream's phase never changes here.
    pub fn try_next(&mut self) -> (step: Step)
        ensures
            final(self)@.settings == old(self)@.settings,
            final(self)@.item == old(self)@.item,
            final(self)@.session == old(self)@.session,
            final(self)@.stream.phase == old(self)@.stream.phase,
            final(self)@.coherent(),
            step is End <==> old(self)@.stream.phase == SessionPhase::Stopped,
            match step {
                Step::Deliver(frame) => {
                    &&& final(self)@ == old(self)@
                    &&& frame@.size == old(self)@.stream.buffer_size
                    &&& frame@.pixel_format == old(self)@.settings.pixel_format
                    &&& frame@.interpolation_mode == old(self)@.settings.frame_interpolation_mode
                },
                Step::Retry => final(self)@.stream.buffer_size != old(self)@.stream.buffer_size,
                Step::Wait => final(self)@ == old(self)@,
                Step::Fail(err) => err is Platform && final(self)@ == old(self)@,
                Step::End => final(self)@ == old(self)@,
            },
    {
        proof {
            use_type_invariant(&*self);
        }
        if self.stream.is_stopped() {
            return Step::End;
        }
        match frame_pool_try_get_next_frame(&self.frame_pool) {
            Err(e) => self.answer(StreamEvent::from_dequeue_error(error_code(&e))),
            Ok(frame) => match frame_content_size(&frame) {
                Err(e) => self.answer(StreamEvent::Failed(error_code(&e))),
                Ok(size) => match self.stream.advance(StreamEvent::Surface(size)).1 {
                    StreamAction::Recreate(target) => match Self::recreate(
                        &mut self.frame_pool,
                        &mut self.stream,
                        &self.device,
                        self.settings.pixel_format.format(),
                        self.settings.frame_queue_length,
                        target,
                    ) {
                        Ok(()) => Step::Retry,
                        Err(e) => self.answer(StreamEvent::Failed(error_code(&e))),
                    },
                    _ => Step::Deliver(
                        Frame::new(
                            frame,
                            size,
                            self.settings.pixel_format,
                            self.settings.frame_interpolation_mode,
                        ),
                    ),
                },
            },
        }
    }

    /// Recreates the pool at `target` and, where that succeeds, has the engine
    /// take note in the same breath, so that pool and engine never disagree.
    fn recreate(
        pool: &mut Direct3D11CaptureFramePool,
        stream: &mut StreamState,
        device: &IDirect3DDevice,
        format: i32,
        buffers: i32,
        target: NativeSize,
    ) -> (r: Result<(), windows::core::Error>)
        requires
            buffers >= 1,
            old(stream).phase != SessionPhase::Stopped,
        ensures
            match r {
                Ok(()) => {
                    &&& pool_shape(*final(pool)) == (PoolShape { format, buffers, size: target })
                    &&& *final(stream) == old(stream).step(StreamEvent::Recreated(target)).0
                },
                Err(_) => {
                    &&& pool_shape(*final(pool)) == pool_shape(*old(pool))
                    &&& *final(stream) == *old(stream)
                },
            },
        no_unwind
    {
        match frame_pool_recreate(pool, device, format, buffers, target) {
            Ok(()) => {
                stream.buffer_size = target;
                Ok(())
            },
            Err(e) => Err(e),
        }
    }

    /// Takes the outcome of a wait that followed `Step::Wait`.
    ///
    /// A dispatched message means step again; it does not promise a frame. The
    /// termination signal stops the stream for good. A failed wait is reported
    /// with the `HRESULT` of its Win32 code.
    pub fn on_wait(&mut self, outcome: WaitOutcome) -> (step: Step)
        ensures
            final(self)@.settings == old(self)@.settings,
            final(self)@.item == old(self)@.item,
            final(self)@.session == old(self)@.session,
            final(self)@.pool == old(self)@.pool,
            final(self)@.coherent(),
            final(self)@.stream == old(self)@.stream.step(outcome.event()).0,
            step.action() == old(self)@.stream.step(outcome.event()).1,
            !(step is Deliver),
            step is End <==> final(self)@.stream.phase == SessionPhase::Stopped,
            old(self)@.stream.phase == SessionPhase::Stopped ==> step is End && final(self)@
                == old(self)@,
    {
        self.answer(outcome.to_event())
    }

    /// Feeds the engine an event that reports no surface, and turns its action
    /// into a step.
    fn answer(&mut self, event: StreamEvent) -> (step: Step)
        requires
            !(event is Surface),
            !(event is Recreated),
        ensures
            final(self)@.settings == old(self)@.settings,
            final(self)@.item == old(self)@.item,
            final(self)@.session == old(self)@.session,
            final(self)@.pool == old(self)@.pool,
            final(self)@.coherent(),
            final(self)@.stream == old(self)@.stream.step(event).0,
            step.action() == old(self)@.stream.step(event).1,
            !(step is Deliver),
    {
        proof {
            use_type_invariant(&*self);
        }
        let (next, action) = self.stream.advance(event);
        self.stream = next;
        match action {
            StreamAction::Wait => Step::Wait,
            StreamAction::Fail(err) => Step::Fail(err),
            StreamAction::End => Step::End,
            _ => Step::Retry,
        }
    }

    /// The settings the session was made with.
    pub fn settings(&self) -> (r: WgcSettings)
        ensures
            r == self@.settings,
    {
        self.settings
    }

    /// Where the session stands.
    pub fn phase(&self) -> (r: SessionPhase)
        ensures
            r == self@.stream.phase,
    {
        self.stream.phase
    }

    /// The size the frame pool holds, with negative numbers taken as zero.
    pub fn buffer_size(&self) -> (r: FrameSize)
        ensures
            r == FrameSize::of_native(self@.stream.buffer_size),
    {
        FrameSize::from_native(self.stream.buffer_size)
    }

    /// The platform's session, for settings that this library does not apply.
    pub fn session(&self) -> (r: &GraphicsCaptureSession)
        ensures
            *r == self@.session,
    {
        &self.session
    }

    /// The source being captured.
    pub fn item(&self) -> (r: &GraphicsCaptureItem)
        ensures
            *r == self@.item,
    {
        &self.item
    }
}

} // verus!
