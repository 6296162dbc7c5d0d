//! Displays, their drivers, and the flush callbacks that the engine calls.

use crate::color::Color;
use crate::draw_buffer::{DispBuf, DrawBuffer, BUF_SIZE};
use crate::functions::{disp_drv_register, get_str_act, CoreError};
use crate::geometry::Area;
use crate::handle::Handle;
use crate::obj::Obj;
use crate::pixels::FlushPixels;
use crate::sync::{locked_display, share, try_lock, Locked, SharedNativeDisplay};
use std::marker::PhantomData;
use vstd::prelude::*;

verus! {

/// Why a display could not be set up or asked.
#[derive(Clone, Copy, Debug, PartialEq, Eq, Structural)]
pub enum DisplayError {
    /// What was asked for does not exist yet.
    NotAvailable,
    /// The display could not be registered: its draw buffer was taken
    /// already, or the engine refused the driver.
    FailedToRegister,
    /// The operation needs a registered display and there is none.
    NotRegistered,
}

impl From<CoreError> for DisplayError {
    /// Whatever the engine could not do, the display that was asked for is
    /// not available.
    fn from(err: CoreError) -> (out: DisplayError) {
        match err {
            CoreError::ResourceNotAvailable => DisplayError::NotAvailable,
            CoreError::OperationFailed => DisplayError::NotAvailable,
        }
    }
}

impl vstd::std_specs::convert::FromSpecImpl<CoreError> for DisplayError {
    open spec fn obeys_from_spec() -> bool {
        true
    }

    open spec fn from_spec(err: CoreError) -> DisplayError {
        DisplayError::NotAvailable
    }
}

/// What became of a flush request. Whatever it is, the engine was told that
/// the flush is complete.
#[derive(Clone, Copy, Debug, PartialEq, Eq, Structural)]
pub enum FlushOutcome {
    /// The pixels were handed to the render target.
    Forwarded,
    /// The render target was locked by someone else; nothing was drawn.
    Skipped,
    /// The buffer does not hold one cell for each cell of the region; nothing
    /// was drawn.
    Malformed,
    /// The driver has no render target; nothing was drawn.
    NoTarget,
}

/// What the engine carries for a driver that owns its render target.
pub struct DisplayUserData<T, C> {
    /// The render target.
    pub display: T,
    /// The colour that the render target draws in.
    pub phantom: PhantomData<C>,
}

/// What the engine carries for a driver that shares its render target.
#[verifier::reject_recursive_types(T)]
pub struct SharedDisplayUserData<T, C> {
    /// The render target, behind its lock.
    pub display: SharedNativeDisplay<T>,
    /// The colour that the render target draws in.
    pub phantom: PhantomData<C>,
}

/// What the engine carries for a driver, and hands back on every flush.
#[verifier::reject_recursive_types(T)]
pub enum UserData<T, C> {
    /// The driver owns the render target; [`disp_flush_trampoline`] serves it.
    Owned(DisplayUserData<T, C>),
    /// The driver shares the render target;
    /// [`shared_disp_flush_trampoline`] serves it.
    Shared(SharedDisplayUserData<T, C>),
}

/// Description of a display for the engine: where it renders to, and what
/// receives the pixels.
#[verifier::reject_recursive_types(T)]
pub struct DisplayDriver<T, C> {
    /// The staging memory that the engine renders into.
    pub buffer: DispBuf,
    /// The render target, and with it the flush callback that serves it.
    pub user_data: UserData<T, C>,
}

impl<T, C> DisplayDriver<T, C> {
    /// The driver that `new` builds for a render target.
    pub open spec fn owning(native_display: T) -> DisplayDriver<T, C> {
        DisplayDriver {
            buffer: DispBuf { size: BUF_SIZE as u32 },
            user_data: UserData::Owned(
                DisplayUserData { display: native_display, phantom: PhantomData },
            ),
        }
    }

    /// The driver that `new_shared` builds for a shared render target.
    pub open spec fn sharing(shared_native_display: SharedNativeDisplay<T>) -> DisplayDriver<T, C> {
        DisplayDriver {
            buffer: DispBuf { size: BUF_SIZE as u32 },
            user_data: UserData::Shared(
                SharedDisplayUserData { display: shared_native_display, phantom: PhantomData },
            ),
        }
    }

    /// A driver that owns `native_display` and renders through `draw_buffer`.
    ///
    /// It fails with `FailedToRegister` exactly when the draw buffer was taken
    /// before. Either way the buffer is taken afterwards.
    pub fn new(draw_buffer: &mut DrawBuffer, native_display: T) -> (result: Result<
        Self,
        DisplayError,
    >)
        ensures
            final(draw_buffer).is_initialized(),
            final(draw_buffer).memory() == old(draw_buffer).memory(),
            old(draw_buffer).is_initialized() ==> result == Err::<Self, DisplayError>(
                DisplayError::FailedToRegister,
            ),
            !old(draw_buffer).is_initialized() ==> result == Ok::<Self, DisplayError>(
                Self::owning(native_display),
            ),
    {
        match draw_buffer.get_ptr() {
            Some(buffer) => Ok(
                DisplayDriver {
                    buffer,
                    user_data: UserData::Owned(
                        DisplayUserData { display: native_display, phantom: PhantomData },
                    ),
                },
            ),
            None => Err(DisplayError::FailedToRegister),
        }
    }

    /// A driver that shares `shared_native_display` with other threads and
    /// renders through `draw_buffer`.
    ///
    /// It fails with `FailedToRegister` exactly when the draw buffer was taken
    /// before. Either way the buffer is taken afterwards.
    pub fn new_shared(
        draw_buffer: &mut DrawBuffer,
        shared_native_display: SharedNativeDisplay<T>,
    ) -> (result: Result<Self, DisplayError>)
        ensures
            final(draw_buffer).is_initialized(),
            final(draw_buffer).memory() == old(draw_buffer).memory(),
            old(draw_buffer).is_initialized() ==> result == Err::<Self, DisplayError>(
                DisplayError::FailedToRegister,
            ),
            !old(draw_buffer).is_initialized() ==> result == Ok::<Self, DisplayError>(
                Self::sharing(shared_native_display),
            ),
    {
        match draw_buffer.get_ptr() {
            Some(buffer) => Ok(
                DisplayDriver {
                    buffer,
                    user_data: UserData::Shared(
                        SharedDisplayUserData { display: shared_native_display, phantom: PhantomData },
                    ),
                },
            ),
            None => Err(DisplayError::FailedToRegister),
        }
    }
}

/// A display that the engine has registered. The engine owns the display;
/// this value only refers to it.
#[derive(Debug, PartialEq, Eq)]
pub struct Display {
    pub(crate) disp: Handle,
}

impl View for Display {
    type V = usize;

    closed spec fn view(&self) -> usize {
        self.disp@
    }
}

impl Display {
    pub(crate) fn from_raw(disp: Handle) -> (display: Display)
        ensures
            display@ == disp@,
    {
        Display { disp }
    }

    /// The display's address, for a call into the engine.
    pub fn as_ptr(&self) -> (ptr: usize)
        ensures
            ptr == self@,
            ptr != 0,
    {
        self.disp.as_ptr()
    }

    /// Builds a driver that owns `native_display` and registers it.
    ///
    /// Where the draw buffer was taken before, the result is
    /// `FailedToRegister` and the engine is not asked. Otherwise `engine` is
    /// called once, with the new driver; the result is the display at the
    /// address it returns, or `FailedToRegister` where that address is null.
    pub fn register<T, C, F>(draw_buffer: &mut DrawBuffer, native_display: T, engine: F) -> (result:
        Result<Self, DisplayError>) where F: FnOnce(DisplayDriver<T, C>) -> usize
        requires
            !old(draw_buffer).is_initialized() ==> call_requires(
                engine,
                (DisplayDriver::<T, C>::owning(native_display),),
            ),
        ensures
            final(draw_buffer).is_initialized(),
            final(draw_buffer).memory() == old(draw_buffer).memory(),
            old(draw_buffer).is_initialized() ==> result == Err::<Self, DisplayError>(
                DisplayError::FailedToRegister,
            ),
            !old(draw_buffer).is_initialized() ==> match result {
                Ok(display) => display@ != 0 && call_ensures(
                    engine,
                    (DisplayDriver::<T, C>::owning(native_display),),
                    display@,
                ),
                Err(err) => err == DisplayError::FailedToRegister && call_ensures(
                    engine,
                    (DisplayDriver::<T, C>::owning(native_display),),
                    0usize,
                ),
            },
    {
        match DisplayDriver::new(draw_buffer, native_display) {
            Ok(display_driver) => match disp_drv_register(display_driver, engine) {
                Ok(display) => Ok(display),
                Err(_) => Err(DisplayError::FailedToRegister),
            },
            Err(err) => Err(err),
        }
    }

    /// Builds a driver that shares `shared_native_display` and registers it.
    ///
    /// Where the draw buffer was taken before, the result is
    /// `FailedToRegister` and the engine is not asked. Otherwise `engine` is
    /// called once, with the new driver; the result is the display at the
    /// address it returns, or `FailedToRegister` where that address is null.
    pub fn register_shared<T, C, F>(
        draw_buffer: &mut DrawBuffer,
        shared_native_display: &SharedNativeDisplay<T>,
        engine: F,
    ) -> (result: Result<Self, DisplayError>) where F: FnOnce(DisplayDriver<T, C>) -> usize
        requires
            !old(draw_buffer).is_initialized() ==> call_requires(
                engine,
                (DisplayDriver::<T, C>::sharing(*shared_native_display),),
            ),
        ensures
            final(draw_buffer).is_initialized(),
            final(draw_buffer).memory() == old(draw_buffer).memory(),
            old(draw_buffer).is_initialized() ==> result == Err::<Self, DisplayError>(
                DisplayError::FailedToRegister,
            ),
            !old(draw_buffer).is_initialized() ==> match result {
                Ok(display) => display@ != 0 && call_ensures(
                    engine,
                    (DisplayDriver::<T, C>::sharing(*shared_native_display),),
                    display@,
                ),
                Err(err) => err == DisplayError::FailedToRegister && call_ensures(
                    engine,
                    (DisplayDriver::<T, C>::sharing(*shared_native_display),),
                    0usize,
                ),
            },
    {
        match DisplayDriver::new_shared(draw_buffer, share(shared_native_display)) {
            Ok(display_driver) => match disp_drv_register(display_driver, engine) {
                Ok(display) => Ok(display),
                Err(_) => Err(DisplayError::FailedToRegister),
            },
            Err(err) => Err(err),
        }
    }

    /// Asks the engine for this display's active screen.
    ///
    /// `engine` is called once, with this display's address. The result is
    /// the screen at the address it returns, or `NotAvailable` where that
    /// address is null.
    pub fn get_str_act<F>(&self, engine: F) -> (result: Result<Obj, DisplayError>) where
        F: FnOnce(usize) -> usize,

        requires
            call_requires(engine, (self@,)),
        ensures
            match result {
                Ok(screen) => screen@ != 0 && call_ensures(engine, (self@,), screen@),
                Err(err) => err == DisplayError::NotAvailable && call_ensures(
                    engine,
                    (self@,),
                    0usize,
                ),
            },
    {
        match get_str_act(Some(self), engine) {
            Ok(screen) => Ok(screen),
            Err(err) => Err(DisplayError::from(err)),
        }
    }
}

/// The display that the engine uses where none is named.
#[derive(Clone, Copy)]
pub struct DefaultDisplay {}

impl DefaultDisplay {
    /// Asks the engine for the active screen of the default display.
    ///
    /// `engine` is called once, with null. The result is the screen at the
    /// address it returns, or `NotAvailable` where that address is null, as
    /// it is while no display is registered.
    pub fn get_scr_act<F>(engine: F) -> (result: Result<Obj, DisplayError>) where
        F: FnOnce(usize) -> usize,

        requires
            call_requires(engine, (0usize,)),
        ensures
            match result {
                Ok(screen) => screen@ != 0 && call_ensures(engine, (0usize,), screen@),
                Err(err) => err == DisplayError::NotAvailable && call_ensures(
                    engine,
                    (0usize,),
                    0usize,
                ),
            },
    {
        match get_str_act(None, engine) {
            Ok(screen) => Ok(screen),
            Err(err) => Err(DisplayError::from(err)),
        }
    }
}

/// `draw` may be given the render target `display` and the pixels of the
/// region `area` with the buffer `cells`.
pub open spec fn may_draw<T, C: From<Color>, D: FnOnce(&mut T, &FlushPixels<'_, C>) -> X, X>(
    draw: D,
    display: T,
    area: Area,
    cells: Seq<u16>,
) -> bool {
    forall|target: &mut T, pixels: &FlushPixels<'_, C>|
        *target == display && pixels.area() == area && pixels.cells() == cells
            ==> #[trigger] call_requires(draw, (target, pixels))
}

/// Hands the pixels of a flush request to a render target.
///
/// Where the buffer holds one cell for each cell of the region, `draw` is
/// called once, with the render target and the pixels of the request, and what
/// it answers is dropped. Otherwise nothing is drawn.
pub fn forward<T, C, D, X>(display: &mut T, area: &Area, color_p: &[u16], draw: D) -> (outcome:
    FlushOutcome) where C: From<Color>, D: FnOnce(&mut T, &FlushPixels<'_, C>) -> X
    requires
        may_draw(draw, *old(display), *area, color_p@),
    ensures
        color_p@.len() == area.size() ==> outcome == FlushOutcome::Forwarded && exists|
            target: &mut T,
            pixels: &FlushPixels<'_, C>,
            answer: X,
        |
            *target == *old(display) && *final(target) == *final(display) && pixels.area()
                == *area && pixels.cells() == color_p@ && #[trigger] call_ensures(
                draw,
                (target, pixels),
                answer,
            ),
        color_p@.len() != area.size() ==> outcome == FlushOutcome::Malformed && *final(display)
            == *old(display),
{
    match FlushPixels::<C>::new(*area, color_p) {
        Some(pixels) => {
            let _ = draw(display, &pixels);
            FlushOutcome::Forwarded
        },
        None => FlushOutcome::Malformed,
    }
}

/// `draw` ran on some render target and was given the pixels of the region
/// `area` with the buffer `cells`.
pub open spec fn drew_shared<T, C: From<Color>, D: FnOnce(&mut T, &FlushPixels<'_, C>) -> X, X>(
    draw: D,
    area: Area,
    cells: Seq<u16>,
) -> bool {
    exists|target: &mut T, pixels: &FlushPixels<'_, C>, answer: X|
        pixels.area() == area && pixels.cells() == cells && #[trigger] call_ensures(
            draw,
            (target, pixels),
            answer,
        )
}

/// `draw` may be given any render target and the pixels of the region `area`
/// with the buffer `cells`.
pub open spec fn may_draw_shared<
    T,
    C: From<Color>,
    D: FnOnce(&mut T, &FlushPixels<'_, C>) -> X,
    X,
>(draw: D, area: Area, cells: Seq<u16>) -> bool {
    forall|target: &mut T, pixels: &FlushPixels<'_, C>|
        pixels.area() == area && pixels.cells() == cells ==> #[trigger] call_requires(
            draw,
            (target, pixels),
        )
}

/// What a flush does once the attempt to lock the shared render target has
/// been made: with the lock it forwards the pixels as [`forward`] does and
/// gives the lock back, without it it skips the request.
pub(crate) fn forward_locked<T, C, D, X>(
    lock: Option<Locked<'_, T>>,
    area: &Area,
    color_p: &[u16],
    draw: D,
) -> (outcome: FlushOutcome) where C: From<Color>, D: FnOnce(&mut T, &FlushPixels<'_, C>) -> X
    requires
        may_draw_shared(draw, *area, color_p@),
    ensures
        outcome == if lock is None {
            FlushOutcome::Skipped
        } else if color_p@.len() == area.size() {
            FlushOutcome::Forwarded
        } else {
            FlushOutcome::Malformed
        },
        outcome == FlushOutcome::Forwarded ==> drew_shared(draw, *area, color_p@),
{
    match lock {
        Some(mut locked) => {
            let display = locked_display(&mut locked);
            forward(display, area, color_p, draw)
        },
        None => FlushOutcome::Skipped,
    }
}

/// The flush callback of a driver that owns its render target.
///
/// The engine calls it once for each region that it has rendered, with the
/// user data of the driver (`None` where the driver carries none), the region
/// and the buffer that holds the region's cells, row after row. The pixels
/// are handed to the render target in one call of `draw`, and then
/// `flush_ready` tells the engine that the flush is complete: once, whatever
/// became of the drawing. Where there is something to draw, the engine is
/// told only after `draw` has answered: until then `flush_ready` need not
/// accept the call.
pub fn disp_flush_trampoline<T, C, D, X, R>(
    user_data: Option<&mut DisplayUserData<T, C>>,
    area: &Area,
    color_p: &[u16],
    draw: D,
    flush_ready: R,
) -> (outcome: FlushOutcome) where
    C: From<Color>,
    D: FnOnce(&mut T, &FlushPixels<'_, C>) -> X,
    R: FnOnce() -> (),

    requires
        user_data matches Some(data) ==> may_draw(draw, data.display, *area, color_p@),
        // `flush_ready` need not accept the call before `draw` has answered
        (user_data is None || color_p@.len() != area.size()) ==> call_requires(flush_ready, ()),
        user_data matches Some(data) ==> (color_p@.len() == area.size() ==> forall|
            target: &mut T,
            pixels: &FlushPixels<'_, C>,
            answer: X,
        |
            *target == data.display && pixels.area() == *area && pixels.cells() == color_p@
                && #[trigger] call_ensures(draw, (target, pixels), answer) ==> call_requires(
                flush_ready,
                (),
            )),
    ensures
        call_ensures(flush_ready, (), ()),
        match user_data {
            None => outcome == FlushOutcome::NoTarget,
            Some(data) => if color_p@.len() == area.size() {
                outcome == FlushOutcome::Forwarded && exists|
                    target: &mut T,
                    pixels: &FlushPixels<'_, C>,
                    answer: X,
                |
                    *target == data.display && *final(target) == final(data).display
                        && pixels.area() == *area && pixels.cells() == color_p@
                        && #[trigger] call_ensures(draw, (target, pixels), answer)
            } else {
                outcome == FlushOutcome::Malformed && *final(data) == *data
            },
        },
{
    let outcome: FlushOutcome = match user_data {
        Some(data) => forward(&mut data.display, area, color_p, draw),
        None => FlushOutcome::NoTarget,
    };
    flush_ready();
    outcome
}

/// The flush callback of a driver that shares its render target.
///
/// It differs from [`disp_flush_trampoline`] in one thing: it draws only if
/// it can lock the render target at once. Where another thread holds the
/// lock, the request is skipped; the callback never waits for the lock.
/// `flush_ready` tells the engine that the flush is complete in either case,
/// once.
pub fn shared_disp_flush_trampoline<T, C, D, X, R>(
    user_data: Option<&SharedDisplayUserData<T, C>>,
    area: &Area,
    color_p: &[u16],
    draw: D,
    flush_ready: R,
) -> (outcome: FlushOutcome) where
    C: From<Color>,
    D: FnOnce(&mut T, &FlushPixels<'_, C>) -> X,
    R: FnOnce() -> (),

    requires
        user_data is Some ==> may_draw_shared(draw, *area, color_p@),
        call_requires(flush_ready, ()),
    ensures
        call_ensures(flush_ready, (), ()),
        user_data is None ==> outcome == FlushOutcome::NoTarget,
        user_data is Some ==> outcome == FlushOutcome::Skipped || outcome == (if color_p@.len()
            == area.size() {
            FlushOutcome::Forwarded
        } else {
            FlushOutcome::Malformed
        }),
        outcome == FlushOutcome::Forwarded ==> drew_shared(draw, *area, color_p@),
{
    let outcome: FlushOutcome = match user_data {
        Some(data) => {
            let lock = try_lock(&*data.display);
            forward_locked(lock, area, color_p, draw)
        },
        None => FlushOutcome::NoTarget,
    };
    flush_ready();
    outcome
}

} // verus!
