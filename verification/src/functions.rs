//! The three questions that the display layer asks the engine, and how it
//! reads the answers.
//!
//! The engine is reached through a function that the caller supplies. Each
//! function here fixes what that function is called with, calls it once, and
//! turns the address it returns into a handle or an error.

use crate::display::{Display, DisplayDriver};
use crate::handle::Handle;
use crate::obj::Obj;
use vstd::prelude::*;

verus! {

/// Why the engine could not give what it was asked for.
#[derive(Clone, Copy, Debug, PartialEq, Eq, Structural)]
pub enum CoreError {
    /// What was asked for does not exist yet.
    ResourceNotAvailable,
    /// The engine refused the operation.
    OperationFailed,
}

/// The address that the engine is asked about: that of the given display, or
/// null for the default display.
pub open spec fn display_ptr(disp: Option<&Display>) -> usize {
    match disp {
        Some(display) => display@,
        None => 0,
    }
}

/// Reads the engine's answer to the registration of a driver:
/// `OperationFailed` for null, with which the engine refuses the driver, and
/// the display at that address otherwise.
pub fn display_from_ptr(disp_ptr: usize) -> (result: Result<Display, CoreError>)
    ensures
        disp_ptr == 0 ==> result == Err::<Display, CoreError>(CoreError::OperationFailed),
        disp_ptr != 0 ==> result is Ok && result->Ok_0@ == disp_ptr,
{
    match Handle::new(disp_ptr) {
        Some(handle) => Ok(Display::from_raw(handle)),
        None => Err(CoreError::OperationFailed),
    }
}

/// Reads the engine's answer to a request for a screen:
/// `ResourceNotAvailable` for null, the screen at that address otherwise.
pub fn screen_from_ptr(scr_ptr: usize) -> (result: Result<Obj, CoreError>)
    ensures
        scr_ptr == 0 ==> result == Err::<Obj, CoreError>(CoreError::ResourceNotAvailable),
        scr_ptr != 0 ==> result is Ok && result->Ok_0@ == scr_ptr,
{
    match Handle::new(scr_ptr) {
        Some(handle) => Ok(Obj::from_raw(handle)),
        None => Err(CoreError::ResourceNotAvailable),
    }
}

/// Hands the driver to the engine's registration call and reads the answer.
///
/// `engine` consumes the driver and returns the address of the display that
/// the engine created for it, or null. It is called exactly once, with
/// `disp_drv`. The result is the display at the address returned, or
/// `OperationFailed` where that address is null.
pub fn disp_drv_register<T, C, F>(disp_drv: DisplayDriver<T, C>, engine: F) -> (result: Result<
    Display,
    CoreError,
>) where F: FnOnce(DisplayDriver<T, C>) -> usize
    requires
        call_requires(engine, (disp_drv,)),
    ensures
        match result {
            Ok(display) => display@ != 0 && call_ensures(engine, (disp_drv,), display@),
            Err(err) => err == CoreError::OperationFailed && call_ensures(
                engine,
                (disp_drv,),
                0usize,
            ),
        },
{
    let disp_ptr: usize = engine(disp_drv);
    display_from_ptr(disp_ptr)
}

/// Reads the engine's answer to a request for its default display:
/// `ResourceNotAvailable` for null, which the engine answers while no display
/// is registered, and the display at that address otherwise.
pub fn default_display_from_ptr(disp_ptr: usize) -> (result: Result<Display, CoreError>)
    ensures
        disp_ptr == 0 ==> result == Err::<Display, CoreError>(CoreError::ResourceNotAvailable),
        disp_ptr != 0 ==> result is Ok && result->Ok_0@ == disp_ptr,
{
    match Handle::new(disp_ptr) {
        Some(handle) => Ok(Display::from_raw(handle)),
        None => Err(CoreError::ResourceNotAvailable),
    }
}

/// Asks the engine for its default display and reads the answer.
///
/// `engine` returns the address of the default display, or null where none
/// is registered. It is called exactly once. The result is the display at the
/// address returned, or `ResourceNotAvailable` where that address is null:
/// the display that was asked for does not exist yet.
pub fn disp_get_default<F>(engine: F) -> (result: Result<Display, CoreError>) where
    F: FnOnce() -> usize,

    requires
        call_requires(engine, ()),
    ensures
        match result {
            Ok(display) => display@ != 0 && call_ensures(engine, (), display@),
            Err(err) => err == CoreError::ResourceNotAvailable && call_ensures(
                engine,
                (),
                0usize,
            ),
        },
{
    let disp_ptr: usize = engine();
    default_display_from_ptr(disp_ptr)
}

/// Asks the engine for the active screen of a display and reads the answer.
///
/// `engine` takes the address of a display, null standing for the default
/// display, and returns the address of that display's active screen, or null
/// where there is none. It is called exactly once, with the address of `disp`
/// or with null where `disp` is `None`. The result is the screen at the
/// address returned, or `ResourceNotAvailable` where that address is null.
pub fn get_str_act<F>(disp: Option<&Display>, engine: F) -> (result: Result<Obj, CoreError>) where
    F: FnOnce(usize) -> usize,

    requires
        call_requires(engine, (display_ptr(disp),)),
    ensures
        match result {
            Ok(screen) => screen@ != 0 && call_ensures(engine, (display_ptr(disp),), screen@),
            Err(err) => err == CoreError::ResourceNotAvailable && call_ensures(
                engine,
                (display_ptr(disp),),
                0usize,
            ),
        },
{
    let disp_ptr: usize = match disp {
        Some(display) => display.as_ptr(),
        None => 0,
    };
    let scr_ptr: usize = engine(disp_ptr);
    screen_from_ptr(scr_ptr)
}

} // verus!
