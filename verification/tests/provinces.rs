use tiger_lib::imperator::provinces::{Adjacency, Coords, ImperatorProvinces, Province, Rgb, RgbImage};
use tiger_lib::report::Report;
use tiger_lib::token::{Loc, Token};

fn loc(line: u32, column: u32) -> Loc {
    Loc::new(7, line, column)
}

fn tok(s: &str, line: u32, column: u32) -> Token {
    Token::new(s, loc(line, column))
}

fn base_provinces(img: RgbImage, from_color: Rgb, to_color: Rgb) -> ImperatorProvinces {
    let mut provinces = ImperatorProvinces::new();
    provinces.set_provinces_png(img);
    provinces.add_province(Province::new(tok("1", 1, 1), 1, from_color, tok("c", 1, 1)));
    provinces.add_province(Province::new(tok("2", 1, 1), 2, to_color, tok("c", 1, 1)));
    provinces
}

fn adjacency(start: Coords, stop: Coords) -> Adjacency {
    Adjacency {
        line: loc(1, 1),
        from: 1,
        to: 2,
        kind: tok("sea", 1, 5),
        through: 1,
        start,
        stop,
        comment: tok("comment", 1, 10),
    }
}

fn adjacency_with_kind(kind: &str, start: Coords, stop: Coords) -> Adjacency {
    Adjacency { kind: tok(kind, 1, 5), ..adjacency(start, stop) }
}

fn msgs_of(adj: &Adjacency, provinces: &ImperatorProvinces) -> Vec<String> {
    let mut reports: Vec<Report> = Vec::new();
    adj.validate(provinces, &mut reports);
    reports.into_iter().map(|r| r.msg).collect()
}

#[test]
fn adjacency_start_out_of_bounds_errors() {
    let img = RgbImage::from_pixel(2, 2, Rgb::new(1, 2, 3));
    let provinces = base_provinces(img, Rgb::new(1, 2, 3), Rgb::new(9, 9, 9));

    let adj = adjacency(Coords { x: 5, y: 0 }, Coords { x: -1, y: -1 });
    let msgs = msgs_of(&adj, &provinces);
    assert!(
        msgs.iter().any(|m| m.contains("start coordinate (5, 0) is out of bounds")),
        "reports were: {msgs:?}"
    );
}

#[test]
fn adjacency_start_wrong_color_errors() {
    let mut img = RgbImage::from_pixel(2, 2, Rgb::new(0, 0, 0));
    img.put_pixel(0, 0, Rgb::new(9, 9, 9));
    let provinces = base_provinces(img, Rgb::new(1, 2, 3), Rgb::new(7, 8, 9));

    let adj = adjacency(Coords { x: 0, y: 0 }, Coords { x: -1, y: -1 });
    let msgs = msgs_of(&adj, &provinces);
    assert!(
        msgs.iter().any(|m| m.contains("start coordinate is in the wrong province color")),
        "reports were: {msgs:?}"
    );
}

#[test]
fn adjacency_stop_wrong_color_errors_when_start_sentinel() {
    let mut img = RgbImage::from_pixel(2, 2, Rgb::new(0, 0, 0));
    img.put_pixel(1, 1, Rgb::new(9, 9, 9));
    let provinces = base_provinces(img, Rgb::new(1, 2, 3), Rgb::new(7, 8, 9));

    let adj = adjacency(Coords { x: -1, y: -1 }, Coords { x: 1, y: 1 });
    let msgs = msgs_of(&adj, &provinces);
    assert!(
        msgs.iter().any(|m| m.contains("stop coordinate is in the wrong province color")),
        "reports were: {msgs:?}"
    );
}

#[test]
fn adjacency_one_endpoint_sentinel_can_still_pass() {
    let mut img = RgbImage::from_pixel(2, 2, Rgb::new(0, 0, 0));
    img.put_pixel(1, 0, Rgb::new(7, 8, 9));
    let provinces = base_provinces(img, Rgb::new(1, 2, 3), Rgb::new(7, 8, 9));

    let adj = adjacency(Coords { x: -1, y: -1 }, Coords { x: 1, y: 0 });
    let msgs = msgs_of(&adj, &provinces);
    assert!(msgs.is_empty(), "reports were: {msgs:?}");
}

#[test]
fn adjacency_kind_invalid_errors_even_if_coords_sentinel() {
    let img = RgbImage::from_pixel(2, 2, Rgb::new(1, 2, 3));
    let provinces = base_provinces(img, Rgb::new(1, 2, 3), Rgb::new(9, 9, 9));

    let adj = adjacency_with_kind("land", Coords { x: -1, y: -1 }, Coords { x: -1, y: -1 });
    let msgs = msgs_of(&adj, &provinces);
    assert!(
        msgs.iter().any(|m| m.contains("adjacency type `land` is invalid")),
        "reports were: {msgs:?}"
    );
}

#[test]
fn adjacency_kind_sea_and_river_large_are_allowed() {
    let mut img = RgbImage::from_pixel(2, 2, Rgb::new(0, 0, 0));
    img.put_pixel(0, 0, Rgb::new(1, 2, 3));
    img.put_pixel(1, 0, Rgb::new(7, 8, 9));
    let provinces = base_provinces(img, Rgb::new(1, 2, 3), Rgb::new(7, 8, 9));

    for kind in ["sea", "river_large"] {
        let adj = adjacency_with_kind(kind, Coords { x: 0, y: 0 }, Coords { x: 1, y: 0 });
        let msgs = msgs_of(&adj, &provinces);
        assert!(msgs.is_empty(), "kind {kind} reports were: {msgs:?}");
    }
}

#[test]
fn stop_color_is_checked_when_the_start_province_is_undefined() {
    let mut provinces = ImperatorProvinces::new();
    provinces.set_provinces_png(RgbImage::from_pixel(2, 2, Rgb::new(0, 0, 0)));
    provinces.add_province(Province::new(tok("2", 1, 1), 2, Rgb::new(7, 8, 9), tok("c", 1, 1)));
    let adj = Adjacency { through: 2, ..adjacency(Coords { x: 0, y: 0 }, Coords { x: 1, y: 1 }) };
    let msgs = msgs_of(&adj, &provinces);
    assert!(msgs.iter().any(|m| m.contains("province id 1 not defined")), "reports were: {msgs:?}");
    assert!(
        msgs.iter().any(|m| m.contains("stop coordinate is in the wrong province color")),
        "reports were: {msgs:?}"
    );
    assert!(!msgs.iter().any(|m| m.contains("start coordinate")), "reports were: {msgs:?}");
}

fn png_bytes(img: image::DynamicImage) -> Vec<u8> {
    let mut out = std::io::Cursor::new(Vec::new());
    img.write_to(&mut out, image::ImageFormat::Png).unwrap();
    out.into_inner()
}

#[test]
fn provinces_image_is_decoded_from_bytes() {
    let mut rgb = image::RgbImage::new(2, 2);
    rgb.put_pixel(1, 0, image::Rgb([7, 8, 9]));
    let bytes = png_bytes(image::DynamicImage::ImageRgb8(rgb));
    let mut provinces = ImperatorProvinces::new();
    let mut reports: Vec<Report> = Vec::new();
    provinces.load_provinces_image(&bytes, "map_data/provinces.png", loc(1, 1), &mut reports);
    assert!(reports.is_empty());
    assert_eq!(provinces.provinces_png_pixel(Coords { x: 1, y: 0 }), Some(Rgb::new(7, 8, 9)));
    assert_eq!(provinces.provinces_png_pixel(Coords { x: 0, y: 1 }), Some(Rgb::new(0, 0, 0)));

    let rgba = image::RgbaImage::new(1, 1);
    let bytes = png_bytes(image::DynamicImage::ImageRgba8(rgba));
    provinces.load_provinces_image(&bytes, "map_data/provinces.png", loc(1, 1), &mut reports);
    let msgs: Vec<String> = reports.iter().map(|r| r.msg.clone()).collect();
    assert_eq!(msgs, vec!["`map_data/provinces.png` has wrong color format `Rgba8`, should be Rgb8"]);

    provinces.load_provinces_image(b"not an image", "map_data/provinces.png", loc(1, 1), &mut reports);
    assert_eq!(reports.len(), 2);
    assert!(reports[1].msg.starts_with("could not read `map_data/provinces.png`: "), "{}", reports[1].msg);
}

#[test]
fn provinces_are_found_by_numeric_id() {
    let img = RgbImage::from_pixel(1, 1, Rgb::new(0, 0, 0));
    let provinces = base_provinces(img, Rgb::new(1, 1, 1), Rgb::new(2, 2, 2));
    assert!(provinces.has_province("1"));
    assert!(provinces.has_province("2"));
    assert!(!provinces.has_province("3"));
    assert!(!provinces.has_province("one"));
}
