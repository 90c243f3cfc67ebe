use rtiaw::Image;

#[test]
fn new_image_has_one_pixel_per_cell() {
    let image: Image<u32> = Image::new(4, 3);
    assert_eq!(image.get_dimensions(), (4, 3));
    assert_eq!(image.get_pixels().len(), 12);
    assert!(image.get_pixels().iter().all(|p| *p == 0));
}

#[test]
fn empty_image_has_no_pixels() {
    let image: Image<u8> = Image::new(0, 5);
    assert_eq!(image.get_dimensions(), (0, 5));
    assert!(image.get_pixels().is_empty());
}

#[test]
fn filled_image_holds_the_fill_value() {
    let image = Image::filled(2, 2, 'x');
    assert_eq!(image.get_pixels(), &['x', 'x', 'x', 'x']);
}

#[test]
fn from_fn_walks_rows_top_left_first() {
    let image = Image::from_fn(3, 2, |x, y| (x, y));
    assert_eq!(image.get_dimensions(), (3, 2));
    assert_eq!(
        image.get_pixels(),
        &[(0, 0), (1, 0), (2, 0), (0, 1), (1, 1), (2, 1)]
    );
}

#[test]
fn coordinates_of_cells() {
    assert_eq!(Image::<u8>::coordinates(0, 5, 4), (0, 0));
    assert_eq!(Image::<u8>::coordinates(7, 5, 4), (2, 1));
    assert_eq!(Image::<u8>::coordinates(19, 5, 4), (4, 3));
}

#[test]
fn pixels_can_be_changed_in_place() {
    let mut image: Image<i32> = Image::new(2, 2);
    image.get_pixels_mut()[3] = -5;
    assert_eq!(image.get_pixels(), &[0, 0, 0, -5]);
    assert_eq!(image.get_dimensions(), (2, 2));
}

#[test]
fn map_applies_to_every_pixel() {
    let image = Image::from_fn(2, 2, |x, y| x + 10 * y);
    let doubled = image.map(|p| *p * 2);
    assert_eq!(doubled.get_dimensions(), (2, 2));
    assert_eq!(doubled.get_pixels(), &[0, 2, 20, 22]);
}
