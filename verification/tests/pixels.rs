use lvgl::color::{Color, Rgb565};
use lvgl::geometry::{Area, Pixel, Point};
use lvgl::pixels::FlushPixels;

fn pixel(x: i32, y: i32, raw: u16) -> Pixel<Rgb565> {
    Pixel(Point::new(x, y), Rgb565::from(Color::from_raw(raw)))
}

#[test]
fn area_counts_its_cells() {
    let area = Area::new(2, 3, 4, 4);
    assert_eq!(area.get_width(), 3);
    assert_eq!(area.get_height(), 2);
    assert_eq!(area.get_size(), 6);
}

#[test]
fn area_of_one_cell() {
    let area = Area::new(7, -7, 7, -7);
    assert_eq!(area.get_width(), 1);
    assert_eq!(area.get_height(), 1);
    assert_eq!(area.get_size(), 1);
}

#[test]
fn area_with_corners_out_of_order_is_empty() {
    let area = Area::new(5, 0, 4, 10);
    assert_eq!(area.get_width(), 0);
    assert_eq!(area.get_height(), 11);
    assert_eq!(area.get_size(), 0);
    let area = Area::new(0, 1, 10, 0);
    assert_eq!(area.get_height(), 0);
    assert_eq!(area.get_size(), 0);
}

#[test]
fn area_over_the_whole_coordinate_range() {
    let area = Area::new(i16::MIN, i16::MIN, i16::MAX, i16::MAX);
    assert_eq!(area.get_width(), 65536);
    assert_eq!(area.get_height(), 65536);
    assert_eq!(area.get_size(), 65536 * 65536);
}

#[test]
fn pixels_need_one_cell_for_each_cell_of_the_region() {
    let area = Area::new(0, 0, 1, 1);
    assert!(FlushPixels::<Rgb565>::new(area, &[1, 2, 3, 4]).is_some());
    assert!(FlushPixels::<Rgb565>::new(area, &[1, 2, 3]).is_none());
    assert!(FlushPixels::<Rgb565>::new(area, &[1, 2, 3, 4, 5]).is_none());
    assert!(FlushPixels::<Rgb565>::new(area, &[]).is_none());
    assert!(FlushPixels::<Rgb565>::new(Area::new(1, 0, 0, 0), &[]).is_some());
}

#[test]
fn pixels_come_row_after_row() {
    let area = Area::new(10, 20, 12, 21);
    let cells = [100, 101, 102, 103, 104, 105];
    let pixels = FlushPixels::<Rgb565>::new(area, &cells).unwrap();
    assert_eq!(pixels.len(), 6);
    assert_eq!(pixels.get_area(), area);
    assert_eq!(
        pixels.to_vec(),
        vec![
            pixel(10, 20, 100),
            pixel(11, 20, 101),
            pixel(12, 20, 102),
            pixel(10, 21, 103),
            pixel(11, 21, 104),
            pixel(12, 21, 105),
        ]
    );
}

#[test]
fn get_agrees_with_to_vec() {
    let area = Area::new(-3, -2, 1, 4);
    let cells: Vec<u16> = (0..35).map(|i| i * 1000).collect();
    let pixels = FlushPixels::<Rgb565>::new(area, &cells).unwrap();
    let all = pixels.to_vec();
    assert_eq!(all.len(), 35);
    for i in 0..pixels.len() {
        assert_eq!(pixels.get(i), all[i]);
    }
    assert_eq!(pixels.get(0), pixel(-3, -2, 0));
    assert_eq!(pixels.get(4), pixel(1, -2, 4000));
    assert_eq!(pixels.get(5), pixel(-3, -1, 5000));
    assert_eq!(pixels.get(34), pixel(1, 4, 34000));
}

#[test]
fn every_cell_is_visited_exactly_once() {
    let area = Area::new(-2, 5, 3, 9);
    let cells = vec![0u16; 30];
    let pixels = FlushPixels::<Rgb565>::new(area, &cells).unwrap().to_vec();
    for y in 5..=9 {
        for x in -2..=3 {
            let count = pixels.iter().filter(|p| p.0 == Point::new(x, y)).count();
            assert_eq!(count, 1);
        }
    }
    assert_eq!(pixels.len(), 30);
}

#[test]
fn a_single_row_and_a_single_column() {
    let row = FlushPixels::<Rgb565>::new(Area::new(0, 3, 2, 3), &[7, 8, 9]).unwrap();
    assert_eq!(row.to_vec(), vec![pixel(0, 3, 7), pixel(1, 3, 8), pixel(2, 3, 9)]);
    let column = FlushPixels::<Rgb565>::new(Area::new(3, 0, 3, 2), &[7, 8, 9]).unwrap();
    assert_eq!(column.to_vec(), vec![pixel(3, 0, 7), pixel(3, 1, 8), pixel(3, 2, 9)]);
}

#[test]
fn an_empty_region_has_no_pixels() {
    let pixels = FlushPixels::<Rgb565>::new(Area::new(4, 4, 3, 4), &[]).unwrap();
    assert_eq!(pixels.len(), 0);
    assert_eq!(pixels.to_vec(), vec![]);
}

#[test]
fn coordinates_at_the_edges_of_the_range() {
    let area = Area::new(i16::MAX - 1, i16::MIN, i16::MAX, i16::MIN + 1);
    let pixels = FlushPixels::<Rgb565>::new(area, &[1, 2, 3, 4]).unwrap();
    assert_eq!(
        pixels.to_vec(),
        vec![
            pixel(32766, -32768, 1),
            pixel(32767, -32768, 2),
            pixel(32766, -32767, 3),
            pixel(32767, -32767, 4),
        ]
    );
}
