use embedded_graphics::drawable;
use embedded_graphics::geometry::{Point, Size};
use embedded_graphics::pixelcolor::{PixelColor, Rgb565, Rgb888, RgbColor};
use embedded_graphics::DrawTarget;
use lvgl::color::Color;
use lvgl::display::{
    disp_flush_trampoline, shared_disp_flush_trampoline, DisplayUserData, FlushOutcome,
    SharedDisplayUserData,
};
use lvgl::geometry::{Area, Pixel};
use lvgl::pixels::FlushPixels;
use parking_lot::Mutex;
use std::marker::PhantomData;
use std::sync::Arc;

trait FromNative: PixelColor {
    fn from_native(color: Color) -> Self;
}

impl FromNative for Rgb565 {
    fn from_native(color: Color) -> Self {
        let color = lvgl::color::Rgb565::from(color);
        Rgb565::new(color.r(), color.g(), color.b())
    }
}

impl FromNative for Rgb888 {
    fn from_native(color: Color) -> Self {
        let color = lvgl::color::Rgb888::from(color);
        Rgb888::new(color.r, color.g, color.b)
    }
}

#[derive(Clone, Copy, Debug, PartialEq)]
struct Native<C>(C);

impl<C: FromNative> From<Color> for Native<C> {
    fn from(color: Color) -> Self {
        Native(C::from_native(color))
    }
}

/// A frame buffer of 4 by 3 cells.
struct Frame<C> {
    cells: [[Option<C>; 4]; 3],
    fail_at: Option<Point>,
}

impl<C: PixelColor> Frame<C> {
    fn new() -> Frame<C> {
        Frame { cells: [[None; 4]; 3], fail_at: None }
    }
}

impl<C: PixelColor> DrawTarget<C> for Frame<C> {
    type Error = Point;

    fn draw_pixel(&mut self, item: drawable::Pixel<C>) -> Result<(), Point> {
        let drawable::Pixel(point, color) = item;
        if self.fail_at == Some(point) {
            return Err(point);
        }
        self.cells[point.y as usize][point.x as usize] = Some(color);
        Ok(())
    }

    fn size(&self) -> Size {
        Size::new(4, 3)
    }
}

fn draw<T, C>(display: &mut T, pixels: &FlushPixels<'_, Native<C>>) -> Result<(), T::Error>
where
    T: DrawTarget<C>,
    C: FromNative,
{
    display.draw_iter((0..pixels.len()).map(|i| {
        let Pixel(point, Native(color)) = pixels.get(i);
        drawable::Pixel(Point::new(point.x, point.y), color)
    }))
}

#[test]
fn flush_into_an_rgb565_frame() {
    let mut user_data = DisplayUserData { display: Frame::<Rgb565>::new(), phantom: PhantomData };
    let mut ready = 0;
    let outcome = disp_flush_trampoline(
        Some(&mut user_data),
        &Area::new(1, 1, 2, 2),
        &[0xf800, 0x07e0, 0x001f, 0xffff],
        draw::<Frame<Rgb565>, Rgb565>,
        || ready += 1,
    );
    assert_eq!(outcome, FlushOutcome::Forwarded);
    assert_eq!(ready, 1);
    let cells = user_data.display.cells;
    assert_eq!(cells[1][1], Some(Rgb565::RED));
    assert_eq!(cells[1][2], Some(Rgb565::GREEN));
    assert_eq!(cells[2][1], Some(Rgb565::BLUE));
    assert_eq!(cells[2][2], Some(Rgb565::WHITE));
    let drawn = cells.iter().flatten().filter(|cell| cell.is_some()).count();
    assert_eq!(drawn, 4);
}

#[test]
fn flush_into_an_rgb888_frame() {
    let mut user_data = DisplayUserData { display: Frame::<Rgb888>::new(), phantom: PhantomData };
    let outcome = disp_flush_trampoline(
        Some(&mut user_data),
        &Area::new(0, 2, 3, 2),
        &[0xf800, 0x07e0, 0x001f, 0x0000],
        draw::<Frame<Rgb888>, Rgb888>,
        || (),
    );
    assert_eq!(outcome, FlushOutcome::Forwarded);
    let cells = user_data.display.cells;
    assert_eq!(cells[2][0], Some(Rgb888::new(0xf8, 0, 0)));
    assert_eq!(cells[2][1], Some(Rgb888::new(0, 0xfc, 0)));
    assert_eq!(cells[2][2], Some(Rgb888::new(0, 0, 0xf8)));
    assert_eq!(cells[2][3], Some(Rgb888::BLACK));
}

#[test]
fn a_target_that_fails_halfway_keeps_what_it_drew() {
    let mut frame = Frame::<Rgb565>::new();
    frame.fail_at = Some(Point::new(2, 0));
    let mut user_data = DisplayUserData { display: frame, phantom: PhantomData };
    let mut ready = 0;
    let outcome = disp_flush_trampoline(
        Some(&mut user_data),
        &Area::new(0, 0, 3, 0),
        &[1, 2, 3, 4],
        draw::<Frame<Rgb565>, Rgb565>,
        || ready += 1,
    );
    assert_eq!(outcome, FlushOutcome::Forwarded);
    assert_eq!(ready, 1);
    let cells = user_data.display.cells;
    assert!(cells[0][0].is_some());
    assert!(cells[0][1].is_some());
    assert!(cells[0][2].is_none());
    assert!(cells[0][3].is_none());
}

#[test]
fn shared_flush_into_a_frame() {
    let shared = Arc::new(Mutex::new(Frame::<Rgb565>::new()));
    let user_data = SharedDisplayUserData { display: Arc::clone(&shared), phantom: PhantomData };
    let mut ready = 0;
    {
        let _held = shared.lock();
        let outcome = shared_disp_flush_trampoline(
            Some(&user_data),
            &Area::new(0, 0, 0, 0),
            &[0xffff],
            draw::<Frame<Rgb565>, Rgb565>,
            || ready += 1,
        );
        assert_eq!(outcome, FlushOutcome::Skipped);
    }
    assert_eq!(ready, 1);
    assert_eq!(shared.lock().cells[0][0], None);
    let outcome = shared_disp_flush_trampoline(
        Some(&user_data),
        &Area::new(0, 0, 0, 0),
        &[0xffff],
        draw::<Frame<Rgb565>, Rgb565>,
        || ready += 1,
    );
    assert_eq!(outcome, FlushOutcome::Forwarded);
    assert_eq!(ready, 2);
    assert_eq!(shared.lock().cells[0][0], Some(Rgb565::WHITE));
}
