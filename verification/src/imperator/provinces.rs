//! The map data of Imperator: province definitions, the provinces image,
//! adjacencies and the impassable province lists of `default.map`.

use std::collections::{HashMap, HashSet};

use vstd::prelude::*;

use crate::report::{
    make_report, report_str, rv, severity_rank, views, ErrorKey, Report, ReportView, Severity,
};
use crate::text::{
    all_digits, decimal, digits_value, is_digit, lemma_digits_nonneg, lower_seq, parse_int, parse_int_spec, push_decimal, push_signed_decimal, push_str,
    signed_decimal, str_chars, trim_char, trim_char_chars, trim_ws, trim_ws_chars,
};
use crate::block::{
    expect_assignment_reports, expect_block_reports, item_assignment, item_loose_block,
    last_field_value, loose_values, Block, BlockItem, BV,
};
use crate::files::fileset::FileEntry;
use crate::pathname::{compare_paths, file_name, lemma_path_order_zero, path_from_str, path_of};
use crate::token::{Loc, Token};

verus! {

broadcast use vstd::std_specs::hash::group_hash_axioms;

/// A province id, as used in `definition.csv`.
pub type ProvId = u32;

/// A color of the provinces image.
#[derive(Clone, Copy, Debug, PartialEq, Eq, Structural)]
pub struct Rgb {
    pub r: u8,
    pub g: u8,
    pub b: u8,
}

impl Rgb {
    /// The color with the given red, green and blue values.
    pub fn new(r: u8, g: u8, b: u8) -> (c: Rgb)
        ensures
            c == (Rgb { r, g, b }),
    {
        Rgb { r, g, b }
    }
}

/// A number that identifies a color.
pub open spec fn color_key(c: Rgb) -> u32 {
    ((c.r as int) * 65536 + (c.g as int) * 256 + (c.b as int)) as u32
}

/// Two colors with the same [`color_key`] are the same color.
pub proof fn lemma_color_key_injective(a: Rgb, b: Rgb)
    ensures
        color_key(a) == color_key(b) <==> a == b,
{
}

/// Computes [`color_key`].
pub fn rgb_key(c: Rgb) -> (k: u32)
    ensures
        k == color_key(c),
{
    (c.r as u32) * 65536 + (c.g as u32) * 256 + (c.b as u32)
}

/// The text `r, g, b` of a color.
pub open spec fn rgb_text(c: Rgb) -> Seq<char> {
    decimal(c.r as nat) + ", "@ + decimal(c.g as nat) + ", "@ + decimal(c.b as nat)
}

/// Appends [`rgb_text`] to `out`.
pub fn push_rgb(out: &mut Vec<char>, c: Rgb)
    ensures
        final(out)@ == old(out)@ + rgb_text(c),
{
    push_decimal(out, c.r as u64);
    push_str(out, ", ");
    push_decimal(out, c.g as u64);
    push_str(out, ", ");
    push_decimal(out, c.b as u64);
    assert(final(out)@ =~= old(out)@ + rgb_text(c));
}

proof fn lemma_index_in_bounds(x: int, y: int, w: int, h: int)
    requires
        0 <= x < w,
        0 <= y < h,
    ensures
        0 <= y * w + x < w * h,
{
    assert(0 <= y * w) by (nonlinear_arith)
        requires
            0 <= y,
            0 <= w,
    ;
    assert(y * w + x < w * h) by (nonlinear_arith)
        requires
            0 <= x < w,
            0 <= y < h,
    ;
}

/// An image of 8-bit RGB pixels, addressed by `x, y` from the top-left
/// corner.
pub struct RgbImage {
    width: u32,
    height: u32,
    pixels: Vec<Rgb>,
}

impl RgbImage {
    /// The pixel vector holds exactly `width * height` pixels.
    pub closed spec fn wf(&self) -> bool {
        &&& self.pixels@.len() == (self.width as int) * (self.height as int)
    }

    /// The width in pixels.
    pub closed spec fn spec_width(&self) -> u32 {
        self.width
    }

    /// The height in pixels.
    pub closed spec fn spec_height(&self) -> u32 {
        self.height
    }

    /// The pixel at `x, y`; meaningful inside the image.
    pub closed spec fn spec_pixel(&self, x: int, y: int) -> Rgb {
        self.pixels@[y * (self.width as int) + x]
    }

    /// An image of the given size with every pixel `c`.
    pub fn from_pixel(width: u32, height: u32, c: Rgb) -> (img: RgbImage)
        requires
            (width as int) * (height as int) <= usize::MAX,
        ensures
            img.wf(),
            img.spec_width() == width,
            img.spec_height() == height,
            forall|x: int, y: int|
                0 <= x < width && 0 <= y < height ==> #[trigger] img.spec_pixel(x, y) == c,
    {
        let n = (width as u64 * height as u64) as usize;
        let mut pixels: Vec<Rgb> = Vec::new();
        let mut i: usize = 0;
        while i < n
            invariant
                i <= n,
                n == (width as int) * (height as int),
                pixels@.len() == i,
                forall|j: int| 0 <= j < i ==> #[trigger] pixels@[j] == c,
            decreases n - i,
        {
            pixels.push(c);
            i = i + 1;
        }
        let img = RgbImage { width, height, pixels };
        assert forall|x: int, y: int| 0 <= x < width && 0 <= y < height implies #[trigger] img.spec_pixel(
            x,
            y,
        ) == c by {
            lemma_index_in_bounds(x, y, width as int, height as int);
        }
        img
    }

    /// An image of the given size holding `pixels`, row by row.
    pub fn from_pixels(width: u32, height: u32, pixels: Vec<Rgb>) -> (img: RgbImage)
        requires
            pixels@.len() == (width as int) * (height as int),
        ensures
            img.wf(),
            img.spec_width() == width,
            img.spec_height() == height,
            img.spec_pixels() == pixels@,
    {
        RgbImage { width, height, pixels }
    }

    /// The width in pixels.
    pub fn width(&self) -> (w: u32)
        ensures
            w == self.spec_width(),
    {
        self.width
    }

    /// The height in pixels.
    pub fn height(&self) -> (h: u32)
        ensures
            h == self.spec_height(),
    {
        self.height
    }

    /// Sets the pixel at `x, y`.
    pub fn put_pixel(&mut self, x: u32, y: u32, c: Rgb)
        requires
            old(self).wf(),
            x < old(self).spec_width(),
            y < old(self).spec_height(),
        ensures
            final(self).wf(),
            final(self).spec_width() == old(self).spec_width(),
            final(self).spec_height() == old(self).spec_height(),
            forall|i: int, j: int|
                0 <= i < old(self).spec_width() && 0 <= j < old(self).spec_height()
                    ==> #[trigger] final(self).spec_pixel(i, j) == (if i == x && j == y {
                    c
                } else {
                    old(self).spec_pixel(i, j)
                }),
    {
        proof {
            lemma_index_in_bounds(x as int, y as int, self.width as int, self.height as int);
        }
        let n = self.pixels.len();
        assert((y as int) * (self.width as int) + x < n);
        let idx = (y as u64 * self.width as u64 + x as u64) as usize;
        let ghost w = self.width as int;
        let ghost h = self.height as int;
        let ghost before = self.pixels@;
        self.pixels.set(idx, c);
        assert forall|i: int, j: int| 0 <= i < w && 0 <= j < h implies #[trigger] self.pixels@[j * w
            + i] == (if i == x && j == y {
            c
        } else {
            before[j * w + i]
        }) by {
            lemma_index_in_bounds(i, j, w, h);
            if !(i == x && j == y) {
                lemma_distinct_index(i, j, x as int, y as int, w);
            }
        }
    }

    /// The pixel at `x, y`.
    pub fn get_pixel(&self, x: u32, y: u32) -> (c: Rgb)
        requires
            self.wf(),
            x < self.spec_width(),
            y < self.spec_height(),
        ensures
            c == self.spec_pixel(x as int, y as int),
    {
        proof {
            lemma_index_in_bounds(x as int, y as int, self.width as int, self.height as int);
        }
        let n = self.pixels.len();
        assert((y as int) * (self.width as int) + x < n);
        let idx = (y as u64 * self.width as u64 + x as u64) as usize;
        self.pixels[idx]
    }

    /// All pixels, row by row.
    pub closed spec fn spec_pixels(&self) -> Seq<Rgb> {
        self.pixels@
    }

    /// All pixels, row by row: the pixel at `x, y` stands at `y * width + x`.
    pub fn pixels(&self) -> (v: &Vec<Rgb>)
        requires
            self.wf(),
        ensures
            v@ == self.spec_pixels(),
            v@.len() == (self.spec_width() as int) * (self.spec_height() as int),
            forall|x: int, y: int|
                0 <= x < self.spec_width() && 0 <= y < self.spec_height() ==> v@[y
                    * self.spec_width() + x] == #[trigger] self.spec_pixel(x, y),
    {
        &self.pixels
    }
}

proof fn lemma_distinct_index(i: int, j: int, x: int, y: int, w: int)
    requires
        0 <= i < w,
        0 <= x < w,
        0 <= j,
        0 <= y,
        !(i == x && j == y),
    ensures
        j * w + i != y * w + x,
{
    if j == y {
    } else if j < y {
        assert(j * w + i < y * w + x) by (nonlinear_arith)
            requires
                j < y,
                0 <= i < w,
                0 <= x,
        ;
    } else {
        assert(y * w + x < j * w + i) by (nonlinear_arith)
            requires
                y < j,
                0 <= x < w,
                0 <= i,
        ;
    }
}

/// A map coordinate; `-1, -1` stands for "none".
#[derive(Clone, Copy, Debug)]
pub struct Coords {
    pub x: i32,
    pub y: i32,
}

impl Coords {
    /// Whether these are the coordinates `-1, -1` that stand for none.
    pub fn is_sentinel(self) -> (r: bool)
        ensures
            r == (self.x == -1 && self.y == -1),
    {
        self.x == -1 && self.y == -1
    }
}

/// The report for a field of a CSV line that does not parse as a number of
/// the range `lo..=hi`, if it does not.
pub open spec fn verify_reports(v: Token, msg: Seq<char>, lo: int, hi: int) -> Seq<ReportView> {
    if parse_int_spec(v.s@, lo, hi) is None {
        seq![rv(ErrorKey::ParseError, Severity::Error, msg, v.loc)]
    } else {
        Seq::empty()
    }
}

/// Parses the token `v` as a number of the range `lo..=hi`, reporting
/// `msg` at the token when it does not parse.
pub fn verify(v: &Token, msg: &str, lo: i64, hi: i64, reports: &mut Vec<Report>) -> (r: Option<i64>)
    requires
        -0x1_0000_0000_0000 <= lo <= 0 <= hi <= 0x1_0000_0000_0000,
    ensures
        match r {
            Some(n) => parse_int_spec(v.s@, lo as int, hi as int) == Some(n as int),
            None => parse_int_spec(v.s@, lo as int, hi as int) is None,
        },
        views(final(reports)@) == views(old(reports)@) + verify_reports(
            *v,
            msg@,
            lo as int,
            hi as int,
        ),
{
    let cs = v.chars();
    let r = parse_int(cs.as_slice(), lo, hi);
    if r.is_none() {
        reports.push(report_str(ErrorKey::ParseError, Severity::Error, msg, v.loc));
    }
    proof {
        let ext = if r.is_none() {
            seq![rv(ErrorKey::ParseError, Severity::Error, msg@, v.loc)]
        } else {
            Seq::empty()
        };
        assert(views(final(reports)@) =~= views(old(reports)@) + ext);
    }
    r
}

/// A line of `adjacencies.csv`: a crossing between two provinces.
#[derive(Clone, Debug)]
pub struct Adjacency {
    pub line: Loc,
    pub from: ProvId,
    pub to: ProvId,
    /// Adjacency kind, should be `sea` or `river_large`.
    pub kind: Token,
    pub through: ProvId,
    /// Map coordinates within the provinces image, or `-1, -1`.
    pub start: Coords,
    pub stop: Coords,
    pub comment: Token,
}

/// The value of field `i` of a CSV line as a number in `lo..=hi`.
pub open spec fn csv_num(csv: Seq<Token>, i: int, lo: int, hi: int) -> Option<int> {
    parse_int_spec(csv[i].s@, lo, hi)
}

/// The smallest and largest `i32`.
pub open spec fn i32_lo() -> int {
    -0x8000_0000
}

pub open spec fn i32_hi() -> int {
    0x7fff_ffff
}

/// The reports of [`Adjacency::parse`].
pub open spec fn adjacency_parse_reports(csv: Seq<Token>) -> Seq<ReportView> {
    if csv.len() == 0 {
        Seq::empty()
    } else if csv.len() != 9 {
        seq![
            rv(
                ErrorKey::ParseError,
                Severity::Error,
                "wrong number of fields for this line, expected 9"@,
                csv[0].loc,
            ),
        ]
    } else {
        verify_reports(csv[0], "expected province id"@, 0, u32::MAX as int) + verify_reports(
            csv[1],
            "expected province id"@,
            0,
            u32::MAX as int,
        ) + verify_reports(csv[3], "expected province id"@, 0, u32::MAX as int) + verify_reports(
            csv[4],
            "expected x coordinate"@,
            i32_lo(),
            i32_hi(),
        ) + verify_reports(csv[5], "expected y coordinate"@, i32_lo(), i32_hi())
            + verify_reports(csv[6], "expected x coordinate"@, i32_lo(), i32_hi())
            + verify_reports(csv[7], "expected y coordinate"@, i32_lo(), i32_hi())
    }
}

/// Whether [`Adjacency::parse`] gives an adjacency: there are 9 fields and
/// the ids and coordinates all parse.
pub open spec fn adjacency_parses(csv: Seq<Token>) -> bool {
    &&& csv.len() == 9
    &&& csv_num(csv, 0, 0, u32::MAX as int) is Some
    &&& csv_num(csv, 1, 0, u32::MAX as int) is Some
    &&& csv_num(csv, 3, 0, u32::MAX as int) is Some
    &&& csv_num(csv, 4, i32_lo(), i32_hi()) is Some
    &&& csv_num(csv, 5, i32_lo(), i32_hi()) is Some
    &&& csv_num(csv, 6, i32_lo(), i32_hi()) is Some
    &&& csv_num(csv, 7, i32_lo(), i32_hi()) is Some
}

/// The adjacency that a CSV line describes, when it parses.
pub open spec fn adjacency_of(csv: Seq<Token>) -> Adjacency {
    Adjacency {
        line: csv[0].loc,
        from: csv_num(csv, 0, 0, u32::MAX as int)->0 as u32,
        to: csv_num(csv, 1, 0, u32::MAX as int)->0 as u32,
        kind: csv[2],
        through: csv_num(csv, 3, 0, u32::MAX as int)->0 as u32,
        start: Coords {
            x: csv_num(csv, 4, i32_lo(), i32_hi())->0 as i32,
            y: csv_num(csv, 5, i32_lo(), i32_hi())->0 as i32,
        },
        stop: Coords {
            x: csv_num(csv, 6, i32_lo(), i32_hi())->0 as i32,
            y: csv_num(csv, 7, i32_lo(), i32_hi())->0 as i32,
        },
        comment: csv[8],
    }
}

impl Adjacency {
    /// Parses a line of `adjacencies.csv`: from, to, kind, through, start x,
    /// start y, stop x, stop y, comment. Every field that should be a number
    /// and is not is reported.
    #[verifier::rlimit(100)]
    #[verifier::spinoff_prover]
    pub fn parse(csv: &[Token], reports: &mut Vec<Report>) -> (r: Option<Adjacency>)
        ensures
            views(final(reports)@) == views(old(reports)@) + adjacency_parse_reports(csv@),
            match r {
                Some(a) => adjacency_parses(csv@) && a == adjacency_of(csv@),
                None => !adjacency_parses(csv@),
            },
    {
        if csv.len() == 0 {
            assert(views(final(reports)@) =~= views(old(reports)@) + adjacency_parse_reports(csv@));
            return None;
        }
        let line = csv[0].loc;
        if csv.len() != 9 {
            reports.push(
                report_str(
                    ErrorKey::ParseError,
                    Severity::Error,
                    "wrong number of fields for this line, expected 9",
                    csv[0].loc,
                ),
            );
            assert(views(final(reports)@) =~= views(old(reports)@) + adjacency_parse_reports(csv@));
            return None;
        }
        let ghost r0 = views(reports@);
        let from = verify(&csv[0], "expected province id", 0, 0xffff_ffff, reports);
        let to = verify(&csv[1], "expected province id", 0, 0xffff_ffff, reports);
        let through = verify(&csv[3], "expected province id", 0, 0xffff_ffff, reports);
        let start_x = verify(&csv[4], "expected x coordinate", -0x8000_0000, 0x7fff_ffff, reports);
        let start_y = verify(&csv[5], "expected y coordinate", -0x8000_0000, 0x7fff_ffff, reports);
        let stop_x = verify(&csv[6], "expected x coordinate", -0x8000_0000, 0x7fff_ffff, reports);
        let stop_y = verify(&csv[7], "expected y coordinate", -0x8000_0000, 0x7fff_ffff, reports);
        assert(views(reports@) =~= r0 + adjacency_parse_reports(csv@));
        match (from, to, through, start_x, start_y, stop_x, stop_y) {
            (Some(from), Some(to), Some(through), Some(sx), Some(sy), Some(ex), Some(ey)) => {
                Some(
                    Adjacency {
                        line,
                        from: from as u32,
                        to: to as u32,
                        kind: csv[2].dup(),
                        through: through as u32,
                        start: Coords { x: sx as i32, y: sy as i32 },
                        stop: Coords { x: ex as i32, y: ey as i32 },
                        comment: csv[8].dup(),
                    },
                )
            },
            _ => None,
        }
    }
}

/// A line of `definition.csv`: a province id and its color in the
/// provinces image.
#[derive(Clone, Debug)]
pub struct Province {
    pub key: Token,
    pub id: ProvId,
    pub color: Rgb,
    pub comment: Token,
}

/// The reports of [`Province::parse`]: parsing stops at the first field that
/// fails.
pub open spec fn province_parse_reports(csv: Seq<Token>) -> Seq<ReportView> {
    if csv.len() == 0 {
        Seq::empty()
    } else if csv.len() < 5 {
        seq![
            rv(
                ErrorKey::ParseError,
                Severity::Error,
                "too few fields for this line, expected 5"@,
                csv[0].loc,
            ),
        ]
    } else if csv_num(csv, 0, 0, u32::MAX as int) is None {
        verify_reports(csv[0], "expected province id"@, 0, u32::MAX as int)
    } else if csv_num(csv, 1, 0, 255) is None {
        verify_reports(csv[1], "expected red value"@, 0, 255)
    } else if csv_num(csv, 2, 0, 255) is None {
        verify_reports(csv[2], "expected green value"@, 0, 255)
    } else {
        verify_reports(csv[3], "expected blue value"@, 0, 255)
    }
}

/// Whether [`Province::parse`] gives a province.
pub open spec fn province_parses(csv: Seq<Token>) -> bool {
    &&& csv.len() >= 5
    &&& csv_num(csv, 0, 0, u32::MAX as int) is Some
    &&& csv_num(csv, 1, 0, 255) is Some
    &&& csv_num(csv, 2, 0, 255) is Some
    &&& csv_num(csv, 3, 0, 255) is Some
}

/// The province that a CSV line describes, when it parses.
pub open spec fn province_of(csv: Seq<Token>) -> Province {
    Province {
        key: csv[0],
        id: csv_num(csv, 0, 0, u32::MAX as int)->0 as u32,
        color: Rgb {
            r: csv_num(csv, 1, 0, 255)->0 as u8,
            g: csv_num(csv, 2, 0, 255)->0 as u8,
            b: csv_num(csv, 3, 0, 255)->0 as u8,
        },
        comment: csv[4],
    }
}

impl Province {
    /// A province with the given fields.
    pub fn new(key: Token, id: ProvId, color: Rgb, comment: Token) -> (p: Province)
        ensures
            p == (Province { key, id, color, comment }),
    {
        Province { key, id, color, comment }
    }

    /// Parses a line of `definition.csv`: id, red, green, blue, comment.
    pub fn parse(csv: &[Token], reports: &mut Vec<Report>) -> (r: Option<Province>)
        ensures
            views(final(reports)@) == views(old(reports)@) + province_parse_reports(csv@),
            match r {
                Some(p) => province_parses(csv@) && p == province_of(csv@),
                None => !province_parses(csv@),
            },
    {
        if csv.len() == 0 {
            assert(views(final(reports)@) =~= views(old(reports)@) + province_parse_reports(csv@));
            return None;
        }
        if csv.len() < 5 {
            reports.push(
                report_str(
                    ErrorKey::ParseError,
                    Severity::Error,
                    "too few fields for this line, expected 5",
                    csv[0].loc,
                ),
            );
            assert(views(final(reports)@) =~= views(old(reports)@) + province_parse_reports(csv@));
            return None;
        }
        let id = match verify(&csv[0], "expected province id", 0, 0xffff_ffff, reports) {
            Some(v) => v,
            None => {
                return None;
            },
        };
        let r = match verify(&csv[1], "expected red value", 0, 255, reports) {
            Some(v) => v,
            None => {
                return None;
            },
        };
        let g = match verify(&csv[2], "expected green value", 0, 255, reports) {
            Some(v) => v,
            None => {
                return None;
            },
        };
        let b = match verify(&csv[3], "expected blue value", 0, 255, reports) {
            Some(v) => v,
            None => {
                return None;
            },
        };
        assert(views(final(reports)@) =~= views(old(reports)@) + province_parse_reports(csv@));
        let color = Rgb { r: r as u8, g: g as u8, b: b as u8 };
        Some(Province { key: csv[0].dup(), id: id as u32, color, comment: csv[4].dup() })
    }
}

/// The severity of a report about a missing province.
pub open spec fn province_severity() -> Severity {
    Severity::Error
}

/// The province data of a map: the colors of the provinces image, the
/// image itself, the provinces of `definition.csv`, the adjacencies, and the
/// impassable and water provinces of `default.map`.
pub struct ImperatorProvinces {
    /// The distinct colors of the provinces image, in the order first seen.
    colors: Vec<Rgb>,
    /// The keys of `colors`, for lookup.
    color_set: HashSet<u32>,
    /// Kept for adjacency coordinate validation.
    provinces_png: Option<RgbImage>,
    /// Provinces defined in `definition.csv`, by id.
    provinces: HashMap<u32, Province>,
    /// Where `definition.csv` was read from, for reports about it.
    definition_csv: Option<Loc>,
    adjacencies: Vec<Adjacency>,
    impassable: HashSet<u32>,
    sea_or_river: HashSet<u32>,
    /// The map file names of `default.map`, once it was read.
    default_map_files: Option<MapFileNames>,
    /// The map data files met before `default.map`, to be read after it.
    pending_map_files: Vec<FileEntry>,
}

/// The reports about adjacency provinces that are not defined.
pub open spec fn missing_prov_reports(prov: u32, provs: Map<u32, Province>, line: Loc) -> Seq<
    ReportView,
> {
    if provs.contains_key(prov) {
        Seq::empty()
    } else {
        seq![
            rv(
                ErrorKey::Crash,
                Severity::Fatal,
                "province id "@ + decimal(prov as nat) + " not defined in definitions.csv"@,
                line,
            ),
        ]
    }
}

/// The report about an adjacency kind other than `sea` or `river_large`
/// (compared in ASCII lowercase).
pub open spec fn kind_reports(kind: Token) -> Seq<ReportView> {
    if lower_seq(kind.s@) != "sea"@ && lower_seq(kind.s@) != "river_large"@ {
        seq![
            rv(
                ErrorKey::Validation,
                Severity::Error,
                "adjacency type `"@ + kind.s@ + "` is invalid; expected `sea` or `river_large`"@,
                kind.loc,
            ),
        ]
    } else {
        Seq::empty()
    }
}

/// Whether the coordinates are `-1, -1`.
pub open spec fn sentinel(c: Coords) -> bool {
    c.x == -1 && c.y == -1
}

/// Whether the coordinates lie inside the image.
pub open spec fn in_image(c: Coords, img: RgbImage) -> bool {
    0 <= c.x < img.spec_width() && 0 <= c.y < img.spec_height()
}

/// The report about coordinates outside the image.
pub open spec fn bounds_reports(label: Seq<char>, c: Coords, img: RgbImage, comment: Token) -> Seq<
    ReportView,
> {
    if sentinel(c) || in_image(c, img) {
        Seq::empty()
    } else {
        seq![
            rv(
                ErrorKey::Validation,
                Severity::Error,
                label + " coordinate ("@ + signed_decimal(c.x as int) + ", "@ + signed_decimal(
                    c.y as int,
                ) + ") is out of bounds (image size "@ + decimal(img.spec_width() as nat) + "x"@
                    + decimal(img.spec_height() as nat) + ")"@,
                comment.loc,
            ),
        ]
    }
}

/// The report about coordinates inside the image whose pixel is not the
/// expected province color.
pub open spec fn color_reports(
    label: Seq<char>,
    c: Coords,
    expected: Rgb,
    img: RgbImage,
    comment: Token,
) -> Seq<ReportView> {
    if in_image(c, img) && img.spec_pixel(c.x as int, c.y as int) != expected {
        seq![
            rv(
                ErrorKey::Validation,
                Severity::Error,
                label + " coordinate is in the wrong province color: expected ("@ + rgb_text(
                    expected,
                ) + "), got ("@ + rgb_text(img.spec_pixel(c.x as int, c.y as int)) + ")"@,
                comment.loc,
            ),
        ]
    } else {
        Seq::empty()
    }
}

/// The reports about the coordinates of an adjacency, given the provinces
/// image: coordinates outside the image, then coordinates in the wrong
/// province color. The color of each end is checked when its province is
/// defined.
pub open spec fn adjacency_image_reports(
    adj: Adjacency,
    provs: Map<u32, Province>,
    img: RgbImage,
) -> Seq<ReportView> {
    let b = bounds_reports("start"@, adj.start, img, adj.comment) + bounds_reports(
        "stop"@,
        adj.stop,
        img,
        adj.comment,
    );
    let c = if !sentinel(adj.start) && provs.contains_key(adj.from) {
        b + color_reports("start"@, adj.start, provs[adj.from].color, img, adj.comment)
    } else {
        b
    };
    if !sentinel(adj.stop) && provs.contains_key(adj.to) {
        c + color_reports("stop"@, adj.stop, provs[adj.to].color, img, adj.comment)
    } else {
        c
    }
}

/// All reports about one adjacency, in the order they are made: undefined
/// provinces, a wrong kind, and, unless both ends are `-1, -1` or there is
/// no provinces image, the reports of [`adjacency_image_reports`].
pub open spec fn adjacency_reports(
    adj: Adjacency,
    provs: Map<u32, Province>,
    png: Option<RgbImage>,
) -> Seq<ReportView> {
    let a = missing_prov_reports(adj.from, provs, adj.line) + missing_prov_reports(
        adj.to,
        provs,
        adj.line,
    ) + missing_prov_reports(adj.through, provs, adj.line) + kind_reports(adj.kind);
    if sentinel(adj.start) && sentinel(adj.stop) {
        a
    } else {
        match png {
            None => a,
            Some(img) => a + adjacency_image_reports(adj, provs, img),
        }
    }
}

/// The reports about all adjacencies, in order.
pub open spec fn all_adjacency_reports(
    adjs: Seq<Adjacency>,
    provs: Map<u32, Province>,
    png: Option<RgbImage>,
) -> Seq<ReportView>
    decreases adjs.len(),
{
    if adjs.len() == 0 {
        Seq::empty()
    } else {
        all_adjacency_reports(adjs.drop_last(), provs, png) + adjacency_reports(
            adjs.last(),
            provs,
            png,
        )
    }
}

impl ImperatorProvinces {
    /// The provinces by id.
    pub closed spec fn spec_provinces(&self) -> Map<u32, Province> {
        self.provinces@
    }

    /// The provinces image, if it was read.
    pub closed spec fn spec_png(&self) -> Option<RgbImage> {
        self.provinces_png
    }

    /// The distinct colors of the provinces image, in the order first seen.
    pub closed spec fn spec_colors(&self) -> Seq<Rgb> {
        self.colors@
    }

    /// The adjacencies read so far.
    pub closed spec fn spec_adjacencies(&self) -> Seq<Adjacency> {
        self.adjacencies@
    }

    /// The impassable provinces.
    pub closed spec fn spec_impassable(&self) -> Set<u32> {
        self.impassable@
    }

    /// The sea and river provinces.
    pub closed spec fn spec_sea_or_river(&self) -> Set<u32> {
        self.sea_or_river@
    }

    /// The map file names, once known.
    pub closed spec fn spec_map_files(&self) -> Option<Seq<Option<Seq<char>>>> {
        match self.default_map_files {
            Some(m) => Some(map_names_view(m)),
            None => None,
        }
    }

    /// The map data files waiting for the map file names.
    pub closed spec fn spec_pending(&self) -> Seq<FileEntry> {
        self.pending_map_files@
    }

    /// Where `definition.csv` was read from.
    pub closed spec fn spec_definition_csv(&self) -> Option<Loc> {
        self.definition_csv
    }

    /// The image is well formed, and the color lookup set holds the keys of
    /// exactly the distinct colors.
    pub closed spec fn wf(&self) -> bool {
        &&& (self.provinces_png matches Some(img) ==> img.wf())
        &&& self.colors@.no_duplicates()
        &&& forall|c: Rgb| #[trigger] self.color_set@.contains(color_key(c)) <==> self.colors@.contains(c)
    }

    /// No map data yet.
    pub fn new() -> (r: ImperatorProvinces)
        ensures
            r.wf(),
            r.spec_provinces() == Map::<u32, Province>::empty(),
            r.spec_png() is None,
            r.spec_colors().len() == 0,
            r.spec_adjacencies().len() == 0,
            r.spec_impassable() == Set::<u32>::empty(),
            r.spec_sea_or_river() == Set::<u32>::empty(),
            r.spec_definition_csv() is None,
            r.spec_map_files() is None,
            r.spec_pending() == Seq::<FileEntry>::empty(),
    {
        let r = ImperatorProvinces {
            colors: Vec::new(),
            color_set: HashSet::new(),
            provinces_png: None,
            provinces: HashMap::new(),
            definition_csv: None,
            adjacencies: Vec::new(),
            impassable: HashSet::new(),
            sea_or_river: HashSet::new(),
            default_map_files: None,
            pending_map_files: Vec::new(),
        };
        r
    }

    /// Stores the provinces image for adjacency checks.
    pub fn set_provinces_png(&mut self, img: RgbImage)
        requires
            old(self).wf(),
            img.wf(),
        ensures
            final(self).wf(),
            final(self).spec_png() == Some(img),
            final(self).spec_provinces() == old(self).spec_provinces(),
            final(self).spec_colors() == old(self).spec_colors(),
            final(self).spec_adjacencies() == old(self).spec_adjacencies(),
            final(self).spec_impassable() == old(self).spec_impassable(),
            final(self).spec_sea_or_river() == old(self).spec_sea_or_river(),
            final(self).spec_definition_csv() == old(self).spec_definition_csv(),
            final(self).spec_map_files() == old(self).spec_map_files(),
            final(self).spec_pending() == old(self).spec_pending(),
    {
        self.provinces_png = Some(img);
    }

    /// Stores a province under its id, replacing any province of that id.
    pub fn add_province(&mut self, p: Province)
        requires
            old(self).wf(),
        ensures
            final(self).wf(),
            final(self).spec_provinces() == old(self).spec_provinces().insert(p.id, p),
            final(self).spec_png() == old(self).spec_png(),
            final(self).spec_colors() == old(self).spec_colors(),
            final(self).spec_adjacencies() == old(self).spec_adjacencies(),
            final(self).spec_impassable() == old(self).spec_impassable(),
            final(self).spec_sea_or_river() == old(self).spec_sea_or_river(),
            final(self).spec_definition_csv() == old(self).spec_definition_csv(),
            final(self).spec_map_files() == old(self).spec_map_files(),
            final(self).spec_pending() == old(self).spec_pending(),
    {
        self.provinces.insert(p.id, p);
    }

    /// The color of a defined province.
    pub fn province_color(&self, provid: ProvId) -> (r: Option<Rgb>)
        ensures
            r == (if self.spec_provinces().contains_key(provid) {
                Some(self.spec_provinces()[provid].color)
            } else {
                None
            }),
    {
        match self.provinces.get(&provid) {
            Some(p) => Some(p.color),
            None => None,
        }
    }

    /// The pixel of the provinces image at the coordinates, when there is an
    /// image and the coordinates lie inside it.
    pub fn provinces_png_pixel(&self, coords: Coords) -> (r: Option<Rgb>)
        requires
            self.wf(),
        ensures
            r == (match self.spec_png() {
                Some(img) => if in_image(coords, img) {
                    Some(img.spec_pixel(coords.x as int, coords.y as int))
                } else {
                    None
                },
                None => None,
            }),
    {
        match &self.provinces_png {
            None => None,
            Some(img) => {
                if coords.x < 0 || coords.y < 0 {
                    return None;
                }
                let x = coords.x as u32;
                let y = coords.y as u32;
                if x >= img.width() || y >= img.height() {
                    return None;
                }
                Some(img.get_pixel(x, y))
            },
        }
    }

    /// Whether `key` is the id of a defined province.
    pub fn province_exists(&self, key: &str) -> (r: bool)
        ensures
            r == (match parse_int_spec(key@, 0, u32::MAX as int) {
                Some(n) => self.spec_provinces().contains_key(n as u32),
                None => false,
            }),
    {
        let cs = str_chars(key);
        match parse_int(cs.as_slice(), 0, 0xffff_ffff) {
            Some(n) => self.provinces.contains_key(&(n as u32)),
            None => false,
        }
    }

    /// Whether `key` is the id of a defined province.
    pub fn has_province(&self, key: &str) -> (r: bool)
        ensures
            r == match parse_int_spec(key@, 0, u32::MAX as int) {
                Some(n) => self.spec_provinces().contains_key(n as u32),
                None => false,
            },
    {
        let cs = str_chars(key);
        match parse_int(cs.as_slice(), 0, 0xffff_ffff) {
            Some(n) => self.provinces.contains_key(&(n as u32)),
            None => false,
        }
    }

    /// The report when `key`, used at `item`, is not the id of a defined
    /// province; a key that is not a number is reported with a severity of
    /// at most `max_sev`.
    pub fn verify_exists_implied(&self, key: &str, item: &Token, max_sev: Severity) -> (r: Vec<
        Report,
    >)
        ensures
            views(r@) == (match parse_int_spec(key@, 0, u32::MAX as int) {
                Some(n) => if self.spec_provinces().contains_key(n as u32) {
                    Seq::empty()
                } else {
                    seq![
                        rv(
                            ErrorKey::MissingItem,
                            province_severity(),
                            "province "@ + decimal(n as nat)
                                + " not defined in map_data/definition.csv"@,
                            item.loc,
                        ),
                    ]
                },
                None => seq![
                    rv(
                        ErrorKey::Validation,
                        if severity_rank(province_severity()) <= severity_rank(max_sev) {
                            province_severity()
                        } else {
                            max_sev
                        },
                        "province id should be numeric"@,
                        item.loc,
                    ),
                ],
            }),
    {
        let mut r: Vec<Report> = Vec::new();
        let cs = str_chars(key);
        match parse_int(cs.as_slice(), 0, 0xffff_ffff) {
            Some(n) => {
                if !self.provinces.contains_key(&(n as u32)) {
                    let mut m: Vec<char> = Vec::new();
                    push_str(&mut m, "province ");
                    push_decimal(&mut m, n as u64);
                    push_str(&mut m, " not defined in map_data/definition.csv");
                    r.push(make_report(ErrorKey::MissingItem, Severity::Error, m.as_slice(), item.loc));
                }
            },
            None => {
                let sev = Severity::Error.at_most(max_sev);
                r.push(report_str(ErrorKey::Validation, sev, "province id should be numeric", item.loc));
            },
        }
        assert(views(r@) =~= (match parse_int_spec(key@, 0, u32::MAX as int) {
            Some(n) => if self.spec_provinces().contains_key(n as u32) {
                Seq::empty()
            } else {
                seq![
                    rv(
                        ErrorKey::MissingItem,
                        province_severity(),
                        "province "@ + decimal(n as nat) + " not defined in map_data/definition.csv"@,
                        item.loc,
                    ),
                ]
            },
            None => seq![
                rv(
                    ErrorKey::Validation,
                    if severity_rank(province_severity()) <= severity_rank(max_sev) {
                        province_severity()
                    } else {
                        max_sev
                    },
                    "province id should be numeric"@,
                    item.loc,
                ),
            ],
        }));
        r
    }

    /// Reads one line of `definition.csv`: a duplicate id is reported, and
    /// the later line wins.
    pub fn parse_definition(&mut self, csv: &[Token], reports: &mut Vec<Report>)
        requires
            old(self).wf(),
        ensures
            final(self).wf(),
            views(final(reports)@) == views(old(reports)@) + province_parse_reports(csv@) + (
            if province_parses(csv@) && old(self).spec_provinces().contains_key(
                province_of(csv@).id,
            ) {
                seq![
                    rv(
                        ErrorKey::DuplicateItem,
                        Severity::Error,
                        "duplicate entry for this province id"@,
                        province_of(csv@).comment.loc,
                    ),
                ]
            } else {
                Seq::empty()
            }),
            final(self).spec_provinces() == if province_parses(csv@) {
                old(self).spec_provinces().insert(province_of(csv@).id, province_of(csv@))
            } else {
                old(self).spec_provinces()
            },
            final(self).spec_png() == old(self).spec_png(),
            final(self).spec_colors() == old(self).spec_colors(),
            final(self).spec_adjacencies() == old(self).spec_adjacencies(),
            final(self).spec_impassable() == old(self).spec_impassable(),
            final(self).spec_sea_or_river() == old(self).spec_sea_or_river(),
            final(self).spec_definition_csv() == old(self).spec_definition_csv(),
            final(self).spec_map_files() == old(self).spec_map_files(),
            final(self).spec_pending() == old(self).spec_pending(),
    {
        let ghost r0 = views(reports@);
        if let Some(province) = Province::parse(csv, reports) {
            let ghost r1 = views(reports@);
            if self.provinces.contains_key(&province.id) {
                reports.push(
                    report_str(
                        ErrorKey::DuplicateItem,
                        Severity::Error,
                        "duplicate entry for this province id",
                        province.comment.loc,
                    ),
                );
            }
            assert(views(reports@) =~= r1 + (if old(self).spec_provinces().contains_key(
                province_of(csv@).id,
            ) {
                seq![
                    rv(
                        ErrorKey::DuplicateItem,
                        Severity::Error,
                        "duplicate entry for this province id"@,
                        province_of(csv@).comment.loc,
                    ),
                ]
            } else {
                Seq::empty()
            }));
            self.provinces.insert(province.id, province);
        } else {
            assert(views(reports@) =~= views(reports@) + Seq::<ReportView>::empty());
        }
    }

    /// Checks every adjacency against the provinces and the provinces image.
    pub fn validate(&self) -> (r: Vec<Report>)
        requires
            self.wf(),
        ensures
            views(r@) == all_adjacency_reports(
                self.spec_adjacencies(),
                self.spec_provinces(),
                self.spec_png(),
            ),
    {
        let mut r: Vec<Report> = Vec::new();
        let mut i: usize = 0;
        while i < self.adjacencies.len()
            invariant
                self.wf(),
                i <= self.adjacencies@.len(),
                views(r@) == all_adjacency_reports(
                    self.adjacencies@.take(i as int),
                    self.spec_provinces(),
                    self.spec_png(),
                ),
            decreases self.adjacencies@.len() - i,
        {
            assert(self.adjacencies@.take(i + 1).drop_last() =~= self.adjacencies@.take(i as int));
            self.adjacencies[i].validate(self, &mut r);
            i = i + 1;
        }
        assert(self.adjacencies@.take(self.adjacencies@.len() as int) =~= self.adjacencies@);
        r
    }
}

/// Appends the out-of-bounds report for `c`, if there is one.
fn check_bounds(label: &str, c: Coords, img: &RgbImage, comment: &Token, reports: &mut Vec<Report>)
    requires
        img.wf(),
    ensures
        views(final(reports)@) == views(old(reports)@) + bounds_reports(label@, c, *img, *comment),
{
    let w = img.width();
    let h = img.height();
    if c.is_sentinel() {
        assert(views(final(reports)@) =~= views(old(reports)@) + bounds_reports(label@, c, *img, *comment));
        return;
    }
    if c.x < 0 || c.y < 0 || c.x as u32 >= w || c.y as u32 >= h {
        let mut m: Vec<char> = Vec::new();
        push_str(&mut m, label);
        push_str(&mut m, " coordinate (");
        push_signed_decimal(&mut m, c.x as i64);
        push_str(&mut m, ", ");
        push_signed_decimal(&mut m, c.y as i64);
        push_str(&mut m, ") is out of bounds (image size ");
        push_decimal(&mut m, w as u64);
        push_str(&mut m, "x");
        push_decimal(&mut m, h as u64);
        push_str(&mut m, ")");
        reports.push(make_report(ErrorKey::Validation, Severity::Error, m.as_slice(), comment.loc));
    }
    assert(views(final(reports)@) =~= views(old(reports)@) + bounds_reports(label@, c, *img, *comment));
}

/// Appends the wrong-color report for `c`, if there is one.
fn check_color(
    label: &str,
    c: Coords,
    expected: Rgb,
    img: &RgbImage,
    comment: &Token,
    reports: &mut Vec<Report>,
)
    requires
        img.wf(),
    ensures
        views(final(reports)@) == views(old(reports)@) + color_reports(
            label@,
            c,
            expected,
            *img,
            *comment,
        ),
{
    if c.x >= 0 && c.y >= 0 && (c.x as u32) < img.width() && (c.y as u32) < img.height() {
        let actual = img.get_pixel(c.x as u32, c.y as u32);
        if actual != expected {
            let mut m: Vec<char> = Vec::new();
            push_str(&mut m, label);
            push_str(&mut m, " coordinate is in the wrong province color: expected (");
            push_rgb(&mut m, expected);
            push_str(&mut m, "), got (");
            push_rgb(&mut m, actual);
            push_str(&mut m, ")");
            reports.push(make_report(ErrorKey::Validation, Severity::Error, m.as_slice(), comment.loc));
        }
    }
    assert(views(final(reports)@) =~= views(old(reports)@) + color_reports(
        label@,
        c,
        expected,
        *img,
        *comment,
    ));
}

/// Appends the report for an undefined province, if it is undefined.
fn check_province_defined(
    prov: ProvId,
    provinces: &ImperatorProvinces,
    line: Loc,
    reports: &mut Vec<Report>,
)
    ensures
        views(final(reports)@) == views(old(reports)@) + missing_prov_reports(
            prov,
            provinces.spec_provinces(),
            line,
        ),
{
    if provinces.province_color(prov).is_none() {
        let mut m: Vec<char> = Vec::new();
        push_str(&mut m, "province id ");
        push_decimal(&mut m, prov as u64);
        push_str(&mut m, " not defined in definitions.csv");
        reports.push(make_report(ErrorKey::Crash, Severity::Fatal, m.as_slice(), line));
    }
    assert(views(final(reports)@) =~= views(old(reports)@) + missing_prov_reports(
        prov,
        provinces.spec_provinces(),
        line,
    ));
}

impl Adjacency {
    /// Checks the adjacency: its provinces must be defined, its kind must be
    /// `sea` or `river_large`, and its start and stop coordinates, unless
    /// they are `-1, -1`, must lie inside the provinces image on a pixel of
    /// the color of the province they belong to.
    #[verifier::rlimit(60)]
    pub fn validate(&self, provinces: &ImperatorProvinces, reports: &mut Vec<Report>)
        requires
            provinces.wf(),
        ensures
            views(final(reports)@) == views(old(reports)@) + adjacency_reports(
                *self,
                provinces.spec_provinces(),
                provinces.spec_png(),
            ),
    {
        let ghost r0 = views(reports@);
        check_province_defined(self.from, provinces, self.line, reports);
        check_province_defined(self.to, provinces, self.line, reports);
        check_province_defined(self.through, provinces, self.line, reports);
        if !self.kind.lowercase_is("sea") && !self.kind.lowercase_is("river_large") {
            let mut m: Vec<char> = Vec::new();
            push_str(&mut m, "adjacency type `");
            let k = self.kind.chars();
            crate::text::push_chars(&mut m, k.as_slice());
            push_str(&mut m, "` is invalid; expected `sea` or `river_large`");
            reports.push(make_report(ErrorKey::Validation, Severity::Error, m.as_slice(), self.kind.loc));
        }
        let ghost a = r0 + missing_prov_reports(self.from, provinces.spec_provinces(), self.line)
            + missing_prov_reports(self.to, provinces.spec_provinces(), self.line)
            + missing_prov_reports(self.through, provinces.spec_provinces(), self.line) + kind_reports(
            self.kind,
        );
        assert(views(reports@) =~= a);
        if self.start.is_sentinel() && self.stop.is_sentinel() {
            return;
        }
        let img = match &provinces.provinces_png {
            Some(img) => img,
            None => {
                return;
            },
        };
        self.validate_coords(provinces, img, reports);
        assert(views(reports@) =~= a + adjacency_image_reports(*self, provinces.spec_provinces(), *img));
    }

    /// Appends the reports of [`adjacency_image_reports`].
    #[verifier::rlimit(60)]
    fn validate_coords(&self, provinces: &ImperatorProvinces, img: &RgbImage, reports: &mut Vec<Report>)
        requires
            provinces.wf(),
            img.wf(),
        ensures
            views(final(reports)@) == views(old(reports)@) + adjacency_image_reports(
                *self,
                provinces.spec_provinces(),
                *img,
            ),
    {
        let ghost r0 = views(reports@);
        check_bounds("start", self.start, img, &self.comment, reports);
        check_bounds("stop", self.stop, img, &self.comment, reports);
        let ghost b = r0 + bounds_reports("start"@, self.start, *img, self.comment) + bounds_reports(
            "stop"@,
            self.stop,
            *img,
            self.comment,
        );
        assert(views(reports@) =~= b);
        if !self.start.is_sentinel() {
            if let Some(expected_start) = provinces.province_color(self.from) {
                check_color("start", self.start, expected_start, img, &self.comment, reports);
            }
        }
        let ghost c = views(reports@);
        if !self.stop.is_sentinel() {
            if let Some(expected_stop) = provinces.province_color(self.to) {
                check_color("stop", self.stop, expected_stop, img, &self.comment, reports);
            }
        }
        assert(views(reports@) =~= r0 + adjacency_image_reports(*self, provinces.spec_provinces(), *img));
    }
}

/// The colors after adding the distinct colors of `pixels` that are new, in
/// the order they are first seen.
pub open spec fn add_colors(colors: Seq<Rgb>, pixels: Seq<Rgb>) -> Seq<Rgb>
    decreases pixels.len(),
{
    if pixels.len() == 0 {
        colors
    } else {
        let c = add_colors(colors, pixels.drop_last());
        if c.contains(pixels.last()) {
            c
        } else {
            c.push(pixels.last())
        }
    }
}

/// A decoded provinces image: 8-bit RGB, or another color format, named.
pub enum DecodedImage {
    Rgb8(RgbImage),
    Other(String),
}

/// The provinces after reading the lines of `definition.csv` in order.
pub open spec fn definitions_fold(provs: Map<u32, Province>, rows: Seq<Vec<Token>>) -> Map<
    u32,
    Province,
>
    decreases rows.len(),
{
    if rows.len() == 0 {
        provs
    } else {
        let p = definitions_fold(provs, rows.drop_last());
        let row = rows.last()@;
        if province_parses(row) {
            p.insert(province_of(row).id, province_of(row))
        } else {
            p
        }
    }
}

/// The reports of reading the lines of `definition.csv` in order.
pub open spec fn definitions_fold_reports(provs: Map<u32, Province>, rows: Seq<Vec<Token>>) -> Seq<
    ReportView,
>
    decreases rows.len(),
{
    if rows.len() == 0 {
        Seq::empty()
    } else {
        let p = definitions_fold(provs, rows.drop_last());
        let row = rows.last()@;
        definitions_fold_reports(provs, rows.drop_last()) + province_parse_reports(row) + (
        if province_parses(row) && p.contains_key(province_of(row).id) {
            seq![
                rv(
                    ErrorKey::DuplicateItem,
                    Severity::Error,
                    "duplicate entry for this province id"@,
                    province_of(row).comment.loc,
                ),
            ]
        } else {
            Seq::empty()
        })
    }
}

/// The state of reading the lines of `adjacencies.csv`: whether the
/// terminating `-1` line was seen, whether reading stopped, the adjacencies
/// read, and the reports.
pub struct AdjacencyScan {
    pub seen_terminator: bool,
    pub stopped: bool,
    pub added: Seq<Adjacency>,
    pub reports: Seq<ReportView>,
}

/// Reads the lines of `adjacencies.csv` in order: a line starting with
/// `-1` is the terminator; a line after it is reported and ends reading;
/// other lines are parsed as adjacencies.
pub open spec fn adjacency_scan(rows: Seq<Vec<Token>>) -> AdjacencyScan
    decreases rows.len(),
{
    if rows.len() == 0 {
        AdjacencyScan {
            seen_terminator: false,
            stopped: false,
            added: Seq::empty(),
            reports: Seq::empty(),
        }
    } else {
        let st = adjacency_scan(rows.drop_last());
        let row = rows.last()@;
        if st.stopped {
            st
        } else if row[0].s@ == "-1"@ {
            AdjacencyScan { seen_terminator: true, ..st }
        } else if st.seen_terminator {
            AdjacencyScan {
                stopped: true,
                reports: st.reports.push(
                    rv(
                        ErrorKey::ParseError,
                        Severity::Warning,
                        "the line with all `-1;` should be the last line in the file"@,
                        row[0].loc,
                    ),
                ),
                ..st
            }
        } else {
            AdjacencyScan {
                added: if adjacency_parses(row) {
                    st.added.push(adjacency_of(row))
                } else {
                    st.added
                },
                reports: st.reports + adjacency_parse_reports(row),
                ..st
            }
        }
    }
}

impl ImperatorProvinces {
    /// Reads the lines of `definition.csv`, which was read from `entry`.
    pub fn handle_definitions_content(
        &mut self,
        entry: Loc,
        rows: &[Vec<Token>],
        reports: &mut Vec<Report>,
    )
        requires
            old(self).wf(),
        ensures
            final(self).wf(),
            final(self).spec_definition_csv() == Some(entry),
            final(self).spec_provinces() == definitions_fold(old(self).spec_provinces(), rows@),
            views(final(reports)@) == views(old(reports)@) + definitions_fold_reports(
                old(self).spec_provinces(),
                rows@,
            ),
            final(self).spec_png() == old(self).spec_png(),
            final(self).spec_colors() == old(self).spec_colors(),
            final(self).spec_adjacencies() == old(self).spec_adjacencies(),
            final(self).spec_impassable() == old(self).spec_impassable(),
            final(self).spec_sea_or_river() == old(self).spec_sea_or_river(),
            final(self).spec_map_files() == old(self).spec_map_files(),
            final(self).spec_pending() == old(self).spec_pending(),
    {
        self.definition_csv = Some(entry);
        let ghost p0 = self.spec_provinces();
        let ghost r0 = views(reports@);
        let mut i: usize = 0;
        while i < rows.len()
            invariant
                self.wf(),
                i <= rows@.len(),
                self.spec_provinces() == definitions_fold(p0, rows@.take(i as int)),
                views(reports@) == r0 + definitions_fold_reports(p0, rows@.take(i as int)),
                self.spec_definition_csv() == Some(entry),
                self.spec_png() == old(self).spec_png(),
                self.spec_colors() == old(self).spec_colors(),
                self.spec_adjacencies() == old(self).spec_adjacencies(),
                self.spec_impassable() == old(self).spec_impassable(),
                self.spec_sea_or_river() == old(self).spec_sea_or_river(),
                self.spec_map_files() == old(self).spec_map_files(),
                self.spec_pending() == old(self).spec_pending(),
            decreases rows@.len() - i,
        {
            assert(rows@.take(i + 1).drop_last() =~= rows@.take(i as int));
            assert(rows@.take(i + 1).last() == rows@[i as int]);
            self.parse_definition(rows[i].as_slice(), reports);
            i = i + 1;
            assert(views(reports@) =~= r0 + definitions_fold_reports(p0, rows@.take(i as int)));
        }
        assert(rows@.take(rows@.len() as int) =~= rows@);
    }

    /// Reads the lines of `adjacencies.csv`, which was read from `entry`;
    /// the file must end with a line starting with `-1`.
    pub fn handle_adjacencies_content(
        &mut self,
        entry: Loc,
        rows: &[Vec<Token>],
        reports: &mut Vec<Report>,
    )
        requires
            old(self).wf(),
            forall|i: int| 0 <= i < rows@.len() ==> (#[trigger] rows@[i])@.len() > 0,
        ensures
            final(self).wf(),
            final(self).spec_adjacencies() == old(self).spec_adjacencies() + adjacency_scan(
                rows@,
            ).added,
            views(final(reports)@) == views(old(reports)@) + adjacency_scan(rows@).reports + (
            if adjacency_scan(rows@).seen_terminator {
                Seq::empty()
            } else {
                seq![
                    rv(
                        ErrorKey::ParseError,
                        Severity::Error,
                        "CK3 needs a line with all `-1;` at the end of this file"@,
                        entry,
                    ),
                ]
            }),
            final(self).spec_provinces() == old(self).spec_provinces(),
            final(self).spec_png() == old(self).spec_png(),
            final(self).spec_colors() == old(self).spec_colors(),
            final(self).spec_impassable() == old(self).spec_impassable(),
            final(self).spec_sea_or_river() == old(self).spec_sea_or_river(),
            final(self).spec_definition_csv() == old(self).spec_definition_csv(),
            final(self).spec_map_files() == old(self).spec_map_files(),
            final(self).spec_pending() == old(self).spec_pending(),
    {
        let ghost a0 = self.spec_adjacencies();
        let ghost r0 = views(reports@);
        let mut seen_terminator = false;
        let mut stopped = false;
        let mut i: usize = 0;
        while i < rows.len() && !stopped
            invariant
                self.wf(),
                i <= rows@.len(),
                forall|j: int| 0 <= j < rows@.len() ==> (#[trigger] rows@[j])@.len() > 0,
                stopped == adjacency_scan(rows@.take(i as int)).stopped,
                seen_terminator == adjacency_scan(rows@.take(i as int)).seen_terminator,
                self.spec_adjacencies() == a0 + adjacency_scan(rows@.take(i as int)).added,
                views(reports@) == r0 + adjacency_scan(rows@.take(i as int)).reports,
                self.spec_provinces() == old(self).spec_provinces(),
                self.spec_png() == old(self).spec_png(),
                self.spec_colors() == old(self).spec_colors(),
                self.spec_impassable() == old(self).spec_impassable(),
                self.spec_sea_or_river() == old(self).spec_sea_or_river(),
                self.spec_definition_csv() == old(self).spec_definition_csv(),
                self.spec_map_files() == old(self).spec_map_files(),
                self.spec_pending() == old(self).spec_pending(),
            decreases rows@.len() - i,
        {
            let ghost pre = rows@.take(i as int);
            assert(rows@.take(i + 1).drop_last() =~= pre);
            assert(rows@.take(i + 1).last() == rows@[i as int]);
            let row = &rows[i];
            assert(row@.len() > 0);
            if row[0].is("-1") {
                seen_terminator = true;
            } else if seen_terminator {
                reports.push(
                    report_str(
                        ErrorKey::ParseError,
                        Severity::Warning,
                        "the line with all `-1;` should be the last line in the file",
                        row[0].loc,
                    ),
                );
                stopped = true;
                assert(views(reports@) =~= (r0 + adjacency_scan(pre).reports).push(
                    rv(
                        ErrorKey::ParseError,
                        Severity::Warning,
                        "the line with all `-1;` should be the last line in the file"@,
                        row@[0].loc,
                    ),
                ));
            } else {
                if let Some(adj) = Adjacency::parse(row.as_slice(), reports) {
                    self.adjacencies.push(adj);
                }
                assert(views(reports@) =~= r0 + adjacency_scan(pre).reports + adjacency_parse_reports(
                    row@,
                ));
            }
            i = i + 1;
            assert(self.spec_adjacencies() =~= a0 + adjacency_scan(rows@.take(i as int)).added);
            assert(views(reports@) =~= r0 + adjacency_scan(rows@.take(i as int)).reports);
        }
        proof {
            if stopped {
                lemma_scan_stays_stopped(rows@, i as int);
            } else {
                assert(rows@.take(rows@.len() as int) =~= rows@);
            }
        }
        if !seen_terminator {
            reports.push(
                report_str(
                    ErrorKey::ParseError,
                    Severity::Error,
                    "CK3 needs a line with all `-1;` at the end of this file",
                    entry,
                ),
            );
        }
        assert(views(reports@) =~= r0 + adjacency_scan(rows@).reports + (
        if adjacency_scan(rows@).seen_terminator {
            Seq::empty()
        } else {
            seq![
                rv(
                    ErrorKey::ParseError,
                    Severity::Error,
                    "CK3 needs a line with all `-1;` at the end of this file"@,
                    entry,
                ),
            ]
        }));
    }

    /// Takes in the decoded provinces image, which was read from `entry`
    /// under the name `path`: an 8-bit RGB image is kept and its colors are
    /// collected; another color format is reported.
    pub fn handle_provinces_image(
        &mut self,
        img: DecodedImage,
        path: &str,
        entry: Loc,
        reports: &mut Vec<Report>,
    )
        requires
            old(self).wf(),
            img matches DecodedImage::Rgb8(i) ==> i.wf(),
        ensures
            final(self).wf(),
            match img {
                DecodedImage::Rgb8(i) => {
                    &&& final(self).spec_png() == Some(i)
                    &&& final(self).spec_colors() == add_colors(
                        old(self).spec_colors(),
                        i.spec_pixels(),
                    )
                    &&& views(final(reports)@) == views(old(reports)@)
                },
                DecodedImage::Other(format) => {
                    &&& final(self).spec_png() == old(self).spec_png()
                    &&& final(self).spec_colors() == old(self).spec_colors()
                    &&& views(final(reports)@) == views(old(reports)@).push(
                        rv(
                            ErrorKey::ImageFormat,
                            Severity::Error,
                            "`"@ + path@ + "` has wrong color format `"@ + format@
                                + "`, should be Rgb8"@,
                            entry,
                        ),
                    )
                },
            },
            final(self).spec_provinces() == old(self).spec_provinces(),
            final(self).spec_adjacencies() == old(self).spec_adjacencies(),
            final(self).spec_impassable() == old(self).spec_impassable(),
            final(self).spec_sea_or_river() == old(self).spec_sea_or_river(),
            final(self).spec_definition_csv() == old(self).spec_definition_csv(),
            final(self).spec_map_files() == old(self).spec_map_files(),
            final(self).spec_pending() == old(self).spec_pending(),
    {
        match img {
            DecodedImage::Rgb8(i) => {
                let ghost c0 = self.colors@;
                let pixels = i.pixels();
                let mut k: usize = 0;
                while k < pixels.len()
                    invariant
                        k <= pixels@.len(),
                        self.wf(),
                        self.colors@ == add_colors(c0, pixels@.take(k as int)),
                        self.provinces_png == old(self).provinces_png,
                        self.spec_provinces() == old(self).spec_provinces(),
                        self.spec_adjacencies() == old(self).spec_adjacencies(),
                        self.spec_impassable() == old(self).spec_impassable(),
                        self.spec_sea_or_river() == old(self).spec_sea_or_river(),
                        self.spec_definition_csv() == old(self).spec_definition_csv(),
                        self.spec_map_files() == old(self).spec_map_files(),
                        self.spec_pending() == old(self).spec_pending(),
                    decreases pixels@.len() - k,
                {
                    let p = pixels[k];
                    assert(pixels@.take(k + 1).drop_last() =~= pixels@.take(k as int));
                    assert(pixels@.take(k + 1).last() == p);
                    let key = rgb_key(p);
                    if !self.color_set.contains(&key) {
                        let ghost old_set = self.color_set@;
                        let ghost old_colors = self.colors@;
                        proof {
                            assert(!old_set.contains(color_key(p)));
                            assert(!old_colors.contains(p));
                        }
                        self.color_set.insert(key);
                        self.colors.push(p);
                        proof {
                            assert(self.colors@ == old_colors.push(p));
                            assert forall|c: Rgb| #[trigger] self.color_set@.contains(color_key(c))
                                <==> self.colors@.contains(c) by {
                                lemma_color_key_injective(c, p);
                                assert(old_set.contains(color_key(c)) <==> old_colors.contains(c));
                                if c == p {
                                    assert(self.colors@[old_colors.len() as int] == p);
                                }
                                if old_colors.contains(c) {
                                    let j = choose|j: int| #![auto] 0 <= j < old_colors.len() && old_colors[j] == c;
                                    assert(self.colors@[j] == c);
                                }
                                if self.colors@.contains(c) && c != p {
                                    let j = choose|j: int| #![auto] 0 <= j < self.colors@.len() && self.colors@[j] == c;
                                    assert(j < old_colors.len());
                                    assert(old_colors[j] == c);
                                }
                            }
                            assert(self.colors@.no_duplicates()) by {
                                assert forall|a: int, b: int|
                                    0 <= a < self.colors@.len() && 0 <= b < self.colors@.len() && a != b
                                        implies self.colors@[a] != self.colors@[b] by {
                                    if a < old_colors.len() && b < old_colors.len() {
                                    } else if a < old_colors.len() {
                                        assert(old_colors.contains(self.colors@[a]));
                                    } else if b < old_colors.len() {
                                        assert(old_colors.contains(self.colors@[b]));
                                    }
                                }
                            }
                        }
                    }
                    k = k + 1;
                }
                assert(pixels@.take(pixels@.len() as int) =~= pixels@);
                self.provinces_png = Some(i);
            },
            DecodedImage::Other(format) => {
                let mut m: Vec<char> = Vec::new();
                push_str(&mut m, "`");
                push_str(&mut m, path);
                push_str(&mut m, "` has wrong color format `");
                push_str(&mut m, format.as_str());
                push_str(&mut m, "`, should be Rgb8");
                reports.push(make_report(ErrorKey::ImageFormat, Severity::Error, m.as_slice(), entry));
            },
        }
    }
}

/// Once reading `adjacencies.csv` stopped, further lines change nothing.
proof fn lemma_scan_stays_stopped(rows: Seq<Vec<Token>>, k: int)
    requires
        0 <= k <= rows.len(),
        adjacency_scan(rows.take(k)).stopped,
    ensures
        adjacency_scan(rows) == adjacency_scan(rows.take(k)),
    decreases rows.len() - k,
{
    if k < rows.len() {
        assert(rows.take(k + 1).drop_last() =~= rows.take(k));
        lemma_scan_stays_stopped(rows, k + 1);
    } else {
        assert(rows.take(k) =~= rows);
    }
}

/// What the next item of `default.map` is expected to be: the block of a
/// `RANGE` or `LIST` of the named kind, or a new assignment.
#[derive(Debug)]
pub enum Expecting {
    Range(Token),
    List(Token),
    Nothing,
}

/// Whether `key` names a list of impassable provinces.
pub open spec fn impassable_key(key: Token) -> bool {
    let k = lower_seq(key.s@);
    k == "sea_zones"@ || k == "river_provinces"@ || k == "impassable_terrain"@ || k
        == "uninhabitable"@ || k == "wasteland"@ || k == "lakes"@
}

/// Whether `key` names one of the map files of `default.map`.
pub open spec fn map_key(key: Token) -> bool {
    let k = lower_seq(key.s@);
    k == "definitions"@ || k == "provinces"@ || k == "positions"@ || k == "rivers"@ || k
        == "topology"@ || k == "adjacencies"@ || k == "areas"@ || k == "regions"@ || k == "ports"@
        || k == "climate"@
}

/// Whether the provinces of `key` are also water provinces.
pub open spec fn water_key(key: Token) -> bool {
    key.s@ == "sea_zones"@ || key.s@ == "river_provinces"@
}

/// The ids `from..=to`.
pub open spec fn range_set(from: int, to: int) -> Set<u32> {
    Set::new(|p: u32| from <= p <= to)
}

/// The ids of a `LIST`, read up to the first item that is not an id, and
/// that item.
pub open spec fn list_scan(vals: Seq<Token>) -> (Set<u32>, Option<Token>)
    decreases vals.len(),
{
    if vals.len() == 0 {
        (Set::empty(), None)
    } else {
        let (s, bad) = list_scan(vals.drop_last());
        if bad is Some {
            (s, bad)
        } else {
            match parse_int_spec(vals.last().s@, 0, u32::MAX as int) {
                Some(n) => (s.insert(n as u32), None),
                None => (s, Some(vals.last())),
            }
        }
    }
}

/// The state of reading `default.map` for impassable provinces.
pub struct ImpassableScan {
    pub expecting: Expecting,
    pub impassable: Set<u32>,
    pub sea_or_river: Set<u32>,
    pub reports: Seq<ReportView>,
}

/// The report for an unexpected key of `default.map`.
pub open spec fn unexpected_key_report(key: Token) -> ReportView {
    rv(ErrorKey::UnknownField, Severity::Warning, "unexpected key `"@ + key.s@ + "`"@, key.loc)
}

/// Reads one item of `default.map`.
pub open spec fn impassable_step(st: ImpassableScan, item: BlockItem) -> ImpassableScan {
    match st.expecting {
        Expecting::Nothing => {
            let reps = st.reports + expect_assignment_reports(item);
            match item_assignment(item) {
                None => ImpassableScan { reports: reps, ..st },
                Some((key, token)) => if impassable_key(key) {
                    ImpassableScan {
                        expecting: if token.s@ == "LIST"@ {
                            Expecting::List(key)
                        } else if token.s@ == "RANGE"@ {
                            Expecting::Range(key)
                        } else {
                            Expecting::Nothing
                        },
                        reports: reps,
                        ..st
                    }
                } else if !map_key(key) {
                    ImpassableScan { reports: reps.push(unexpected_key_report(key)), ..st }
                } else {
                    ImpassableScan { reports: reps, ..st }
                },
            }
        },
        Expecting::Range(key) => {
            let reps = st.reports + expect_block_reports(item);
            match item_loose_block(item) {
                None => ImpassableScan { expecting: Expecting::Nothing, reports: reps, ..st },
                Some(b) => {
                    let vals = loose_values(b.v@);
                    if vals.len() != 2 || parse_int_spec(vals[0].s@, 0, u32::MAX as int) is None
                        || parse_int_spec(vals[1].s@, 0, u32::MAX as int) is None {
                        ImpassableScan {
                            expecting: Expecting::Nothing,
                            reports: reps.push(
                                rv(ErrorKey::Validation, Severity::Error, "invalid RANGE"@, b.loc),
                            ),
                            ..st
                        }
                    } else {
                        let r = range_set(
                            parse_int_spec(vals[0].s@, 0, u32::MAX as int)->0,
                            parse_int_spec(vals[1].s@, 0, u32::MAX as int)->0,
                        );
                        ImpassableScan {
                            expecting: Expecting::Nothing,
                            impassable: st.impassable.union(r),
                            sea_or_river: if water_key(key) {
                                st.sea_or_river.union(r)
                            } else {
                                st.sea_or_river
                            },
                            reports: reps,
                        }
                    }
                },
            }
        },
        Expecting::List(key) => {
            let reps = st.reports + expect_block_reports(item);
            match item_loose_block(item) {
                None => ImpassableScan { expecting: Expecting::Nothing, reports: reps, ..st },
                Some(b) => {
                    let (ids, bad) = list_scan(loose_values(b.v@));
                    ImpassableScan {
                        expecting: Expecting::Nothing,
                        impassable: st.impassable.union(ids),
                        sea_or_river: if water_key(key) {
                            st.sea_or_river.union(ids)
                        } else {
                            st.sea_or_river
                        },
                        reports: match bad {
                            Some(t) => reps.push(
                                rv(ErrorKey::Validation, Severity::Error, "invalid LIST item"@, t.loc),
                            ),
                            None => reps,
                        },
                    }
                },
            }
        },
    }
}

/// Reads the items of `default.map` in order.
pub open spec fn impassable_scan(st: ImpassableScan, items: Seq<BlockItem>) -> ImpassableScan
    decreases items.len(),
{
    if items.len() == 0 {
        st
    } else {
        impassable_step(impassable_scan(st, items.drop_last()), items.last())
    }
}

/// Whether the key names one of the map files of `default.map`, in ASCII
/// lowercase.
pub fn is_map_key(key: &Token) -> (r: bool)
    ensures
        r == map_key(*key),
{
    key.lowercase_is("definitions") || key.lowercase_is("provinces") || key.lowercase_is(
        "positions",
    ) || key.lowercase_is("rivers") || key.lowercase_is("topology") || key.lowercase_is(
        "adjacencies",
    ) || key.lowercase_is("areas") || key.lowercase_is("regions") || key.lowercase_is("ports")
        || key.lowercase_is("climate")
}

fn insert_range(set: &mut HashSet<u32>, from: u32, to: u32)
    ensures
        final(set)@ == old(set)@.union(range_set(from as int, to as int)),
{
    if from > to {
        assert(set@ =~= old(set)@.union(range_set(from as int, to as int)));
        return;
    }
    let mut p: u64 = from as u64;
    while p <= to as u64
        invariant
            from <= p <= to as u64 + 1,
            set@ == old(set)@.union(range_set(from as int, p - 1)),
        decreases to as u64 + 1 - p,
    {
        set.insert(p as u32);
        p = p + 1;
        assert(set@ =~= old(set)@.union(range_set(from as int, p - 1)));
    }
    assert(set@ =~= old(set)@.union(range_set(from as int, to as int)));
}

fn insert_all(set: &mut HashSet<u32>, ids: &Vec<u32>)
    ensures
        final(set)@ == old(set)@.union(ids@.to_set()),
{
    let mut i: usize = 0;
    while i < ids.len()
        invariant
            i <= ids@.len(),
            set@ == old(set)@.union(ids@.take(i as int).to_set()),
        decreases ids@.len() - i,
    {
        let ghost prev = ids@.take(i as int);
        let ghost cur = ids@.take(i + 1);
        let ghost x0 = ids@[i as int];
        set.insert(ids[i]);
        assert(set@ =~= old(set)@.union(cur.to_set())) by {
            assert forall|x: u32| cur.to_set().contains(x) <==> prev.to_set().contains(x) || x == x0 by {
                if cur.to_set().contains(x) {
                    let j = choose|j: int| #![auto] 0 <= j < cur.len() && cur[j] == x;
                    if j < prev.len() {
                        assert(prev[j] == x);
                    }
                }
                if prev.to_set().contains(x) {
                    let j = choose|j: int| #![auto] 0 <= j < prev.len() && prev[j] == x;
                    assert(cur[j] == x);
                }
                if x == x0 {
                    assert(cur[prev.len() as int] == x);
                }
            }
        }
        i = i + 1;
    }
    assert(ids@.take(ids@.len() as int) =~= ids@);
}

/// Reads the ids of a `LIST` up to the first item that is not an id.
fn scan_list(vals: &Vec<&Token>) -> (r: (Vec<u32>, Option<Loc>))
    ensures
        r.0@.to_set() == list_scan(vals@.map_values(|t: &Token| *t)).0,
        r.1 == (match list_scan(vals@.map_values(|t: &Token| *t)).1 {
            Some(t) => Some(t.loc),
            None => None,
        }),
{
    let ghost tv = vals@.map_values(|t: &Token| *t);
    let mut ids: Vec<u32> = Vec::new();
    let mut i: usize = 0;
    while i < vals.len()
        invariant
            i <= vals@.len(),
            tv == vals@.map_values(|t: &Token| *t),
            ids@.to_set() == list_scan(tv.take(i as int)).0,
            list_scan(tv.take(i as int)).1 is None,
        decreases vals@.len() - i,
    {
        assert(tv.take(i + 1).drop_last() =~= tv.take(i as int));
        let cs = vals[i].chars();
        match parse_int(cs.as_slice(), 0, 0xffff_ffff) {
            Some(n) => {
                let ghost before = ids@;
                ids.push(n as u32);
                proof {
                    before.lemma_push_to_set_commute(n as u32);
                }
                assert(ids@ == before.push(n as u32));
            },
            None => {
                proof {
                    lemma_list_scan_stays_bad(tv, i + 1);
                }
                return (ids, Some(vals[i].loc));
            },
        }
        i = i + 1;
    }
    assert(tv.take(vals@.len() as int) =~= tv);
    (ids, None)
}

proof fn lemma_list_scan_stays_bad(vals: Seq<Token>, k: int)
    requires
        0 <= k <= vals.len(),
        list_scan(vals.take(k)).1 is Some,
    ensures
        list_scan(vals) == list_scan(vals.take(k)),
    decreases vals.len() - k,
{
    if k < vals.len() {
        assert(vals.take(k + 1).drop_last() =~= vals.take(k));
        lemma_list_scan_stays_bad(vals, k + 1);
    } else {
        assert(vals.take(k) =~= vals);
    }
}

impl ImperatorProvinces {
    /// Reads the `RANGE` and `LIST` entries of `default.map` that name
    /// impassable provinces; the other keys must be map file names.
    pub fn load_impassable(&mut self, block: &Block, reports: &mut Vec<Report>)
        requires
            old(self).wf(),
        ensures
            final(self).wf(),
            ({
                let end = impassable_scan(
                    ImpassableScan {
                        expecting: Expecting::Nothing,
                        impassable: old(self).spec_impassable(),
                        sea_or_river: old(self).spec_sea_or_river(),
                        reports: views(old(reports)@),
                    },
                    block.v@,
                );
                &&& final(self).spec_impassable() == end.impassable
                &&& final(self).spec_sea_or_river() == end.sea_or_river
                &&& views(final(reports)@) == end.reports
            }),
            final(self).spec_provinces() == old(self).spec_provinces(),
            final(self).spec_png() == old(self).spec_png(),
            final(self).spec_colors() == old(self).spec_colors(),
            final(self).spec_adjacencies() == old(self).spec_adjacencies(),
            final(self).spec_definition_csv() == old(self).spec_definition_csv(),
            final(self).spec_map_files() == old(self).spec_map_files(),
            final(self).spec_pending() == old(self).spec_pending(),
    {
        let ghost st0 = ImpassableScan {
            expecting: Expecting::Nothing,
            impassable: old(self).spec_impassable(),
            sea_or_river: old(self).spec_sea_or_river(),
            reports: views(old(reports)@),
        };
        let mut expecting = Expecting::Nothing;
        let mut i: usize = 0;
        while i < block.v.len()
            invariant
                self.wf(),
                i <= block.v@.len(),
                ({
                    let st = impassable_scan(st0, block.v@.take(i as int));
                    &&& st.expecting == expecting
                    &&& self.spec_impassable() == st.impassable
                    &&& self.spec_sea_or_river() == st.sea_or_river
                    &&& views(reports@) == st.reports
                }),
                self.spec_provinces() == old(self).spec_provinces(),
                self.spec_png() == old(self).spec_png(),
                self.spec_colors() == old(self).spec_colors(),
                self.spec_adjacencies() == old(self).spec_adjacencies(),
                self.spec_definition_csv() == old(self).spec_definition_csv(),
                self.spec_map_files() == old(self).spec_map_files(),
                self.spec_pending() == old(self).spec_pending(),
            decreases block.v@.len() - i,
        {
            assert(block.v@.take(i + 1).drop_last() =~= block.v@.take(i as int));
            assert(block.v@.take(i + 1).last() == block.v@[i as int]);
            expecting = self.impassable_item(expecting, &block.v[i], reports);
            i = i + 1;
        }
        assert(block.v@.take(block.v@.len() as int) =~= block.v@);
    }

    /// Reads one item of `default.map`, given what was expected.
    #[verifier::rlimit(80)]
    fn impassable_item(&mut self, expecting: Expecting, item: &BlockItem, reports: &mut Vec<Report>) -> (r:
        Expecting)
        requires
            old(self).wf(),
        ensures
            final(self).wf(),
            ({
                let st = impassable_step(
                    ImpassableScan {
                        expecting,
                        impassable: old(self).spec_impassable(),
                        sea_or_river: old(self).spec_sea_or_river(),
                        reports: views(old(reports)@),
                    },
                    *item,
                );
                &&& st.expecting == r
                &&& final(self).spec_impassable() == st.impassable
                &&& final(self).spec_sea_or_river() == st.sea_or_river
                &&& views(final(reports)@) == st.reports
            }),
            final(self).spec_provinces() == old(self).spec_provinces(),
            final(self).spec_png() == old(self).spec_png(),
            final(self).spec_colors() == old(self).spec_colors(),
            final(self).spec_adjacencies() == old(self).spec_adjacencies(),
            final(self).spec_definition_csv() == old(self).spec_definition_csv(),
            final(self).spec_map_files() == old(self).spec_map_files(),
            final(self).spec_pending() == old(self).spec_pending(),
    {
        let ghost r0 = views(reports@);
        match expecting {
            Expecting::Nothing => {
                match item.expect_assignment(reports) {
                    None => Expecting::Nothing,
                    Some((key, token)) => {
                        if key.lowercase_is("sea_zones") || key.lowercase_is("river_provinces")
                            || key.lowercase_is("impassable_terrain") || key.lowercase_is(
                            "uninhabitable",
                        ) || key.lowercase_is("wasteland") || key.lowercase_is("lakes") {
                            if token.is("LIST") {
                                Expecting::List(key.dup())
                            } else if token.is("RANGE") {
                                Expecting::Range(key.dup())
                            } else {
                                Expecting::Nothing
                            }
                        } else {
                            if !is_map_key(key) {
                                let mut m: Vec<char> = Vec::new();
                                push_str(&mut m, "unexpected key `");
                                let k = key.chars();
                                crate::text::push_chars(&mut m, k.as_slice());
                                push_str(&mut m, "`");
                                reports.push(
                                    make_report(
                                        ErrorKey::UnknownField,
                                        Severity::Warning,
                                        m.as_slice(),
                                        key.loc,
                                    ),
                                );
                            }
                            Expecting::Nothing
                        }
                    },
                }
            },
            Expecting::Range(key) => {
                if let Some(block) = item.expect_block(reports) {
                    let vals = block.iter_values();
                    let ghost tv = loose_values(block.v@);
                    assert(vals@.len() == tv.len());
                    if vals.len() != 2 {
                        reports.push(
                            report_str(ErrorKey::Validation, Severity::Error, "invalid RANGE", block.loc),
                        );
                        return Expecting::Nothing;
                    }
                    assert(*vals@[0] == tv[0]);
                    assert(*vals@[1] == tv[1]);
                    let c0 = vals[0].chars();
                    let c1 = vals[1].chars();
                    let from = parse_int(c0.as_slice(), 0, 0xffff_ffff);
                    let to = parse_int(c1.as_slice(), 0, 0xffff_ffff);
                    match (from, to) {
                        (Some(from), Some(to)) => {
                            insert_range(&mut self.impassable, from as u32, to as u32);
                            if key.is("sea_zones") || key.is("river_provinces") {
                                insert_range(&mut self.sea_or_river, from as u32, to as u32);
                            }
                        },
                        _ => {
                            reports.push(
                                report_str(
                                    ErrorKey::Validation,
                                    Severity::Error,
                                    "invalid RANGE",
                                    block.loc,
                                ),
                            );
                        },
                    }
                }
                Expecting::Nothing
            },
            Expecting::List(key) => {
                if let Some(block) = item.expect_block(reports) {
                    let vals = block.iter_values();
                    assert(vals@.map_values(|t: &Token| *t) =~= loose_values(block.v@));
                    let (ids, bad) = scan_list(&vals);
                    insert_all(&mut self.impassable, &ids);
                    if key.is("sea_zones") || key.is("river_provinces") {
                        insert_all(&mut self.sea_or_river, &ids);
                    }
                    if let Some(loc) = bad {
                        reports.push(
                            report_str(ErrorKey::Validation, Severity::Error, "invalid LIST item", loc),
                        );
                    }
                }
                Expecting::Nothing
            },
        }
    }
}

/// The state of checking that province ids run without gaps from 1: the
/// first id seen for each color, the reports, and whether a gap ended the
/// checks.
pub struct SequenceCheck {
    pub seen: Map<u32, u32>,
    pub reports: Seq<ReportView>,
    pub stopped: bool,
}

/// Checks the ids `1..n` in order: each must be defined, and its color must
/// not be the color of an earlier id.
pub open spec fn sequence_scan(provs: Map<u32, Province>, def: Loc, n: int) -> SequenceCheck
    decreases n,
{
    if n <= 1 {
        SequenceCheck { seen: Map::empty(), reports: Seq::empty(), stopped: false }
    } else {
        let st = sequence_scan(provs, def, n - 1);
        let i = (n - 1) as u32;
        if st.stopped {
            st
        } else if provs.contains_key(i) {
            let p = provs[i];
            let k = color_key(p.color);
            if st.seen.contains_key(k) {
                SequenceCheck {
                    reports: st.reports.push(
                        rv(
                            ErrorKey::Colors,
                            Severity::Warning,
                            "color was already used for id "@ + decimal(st.seen[k] as nat),
                            p.comment.loc,
                        ),
                    ),
                    ..st
                }
            } else {
                SequenceCheck { seen: st.seen.insert(k, i), ..st }
            }
        } else {
            SequenceCheck {
                reports: st.reports.push(
                    rv(
                        ErrorKey::Validation,
                        Severity::Error,
                        "province ids must be sequential, but "@ + decimal(i as nat) + " is missing"@,
                        def,
                    ),
                ),
                stopped: true,
                ..st
            }
        }
    }
}

/// The reports for image colors that no province has.
pub open spec fn missing_color_reports(colors: Seq<Rgb>, seen: Map<u32, u32>, def: Loc) -> Seq<
    ReportView,
>
    decreases colors.len(),
{
    if colors.len() == 0 {
        Seq::empty()
    } else {
        let rest = missing_color_reports(colors.drop_last(), seen, def);
        if seen.contains_key(color_key(colors.last())) {
            rest
        } else {
            rest.push(
                rv(
                    ErrorKey::Colors,
                    Severity::Untidy,
                    "definitions.csv lacks entry for color ("@ + rgb_text(colors.last()) + ")"@,
                    def,
                ),
            )
        }
    }
}

/// The reports of the final checks of the province definitions.
pub open spec fn definition_check_reports(provs: Map<u32, Province>, colors: Seq<Rgb>, def: Loc) -> Seq<
    ReportView,
> {
    let st = sequence_scan(provs, def, provs.dom().len() as int);
    if st.stopped {
        st.reports
    } else {
        st.reports + missing_color_reports(colors, st.seen, def)
    }
}

impl ImperatorProvinces {
    /// The final checks once all map files were read: province ids must run
    /// from 1 without gaps, colors must not repeat, and every color of the
    /// provinces image must belong to a province. Nothing is checked when
    /// `definition.csv` was never read.
    pub fn finalize_checks(&self) -> (r: Vec<Report>)
        requires
            self.wf(),
            self.spec_provinces().dom().len() <= u32::MAX,
        ensures
            views(r@) == match self.spec_definition_csv() {
                None => Seq::empty(),
                Some(def) => definition_check_reports(
                    self.spec_provinces(),
                    self.spec_colors(),
                    def,
                ),
            },
    {
        let mut r: Vec<Report> = Vec::new();
        let def = match self.definition_csv {
            Some(def) => def,
            None => {
                return r;
            },
        };
        let n = self.provinces.len() as u32;
        let ghost provs = self.spec_provinces();
        assert(n == provs.dom().len());
        let mut seen: HashMap<u32, u32> = HashMap::new();
        let mut i: u32 = 1;
        while i < n
            invariant
                1 <= i <= n || n == 0,
                n == provs.dom().len(),
                self.spec_definition_csv() == Some(def),
                provs == self.spec_provinces(),
                seen@ == sequence_scan(provs, def, i as int).seen,
                views(r@) == sequence_scan(provs, def, i as int).reports,
                !sequence_scan(provs, def, i as int).stopped,
            decreases n - i,
        {
            match self.provinces.get(&i) {
                Some(p) => {
                    let k = rgb_key(p.color);
                    match seen.get(&k) {
                        Some(first) => {
                            let mut m: Vec<char> = Vec::new();
                            push_str(&mut m, "color was already used for id ");
                            push_decimal(&mut m, *first as u64);
                            r.push(make_report(ErrorKey::Colors, Severity::Warning, m.as_slice(), p.comment.loc));
                        },
                        None => {
                            seen.insert(k, i);
                        },
                    }
                },
                None => {
                    let mut m: Vec<char> = Vec::new();
                    push_str(&mut m, "province ids must be sequential, but ");
                    push_decimal(&mut m, i as u64);
                    push_str(&mut m, " is missing");
                    r.push(make_report(ErrorKey::Validation, Severity::Error, m.as_slice(), def));
                    assert(views(r@) =~= sequence_scan(provs, def, i + 1).reports);
                    proof {
                        lemma_sequence_stays_stopped(provs, def, i + 1, n as int);
                        assert(sequence_scan(provs, def, provs.dom().len() as int) == sequence_scan(
                            provs,
                            def,
                            i + 1,
                        ));
                    }
                    return r;
                },
            }
            i = i + 1;
            assert(views(r@) =~= sequence_scan(provs, def, i as int).reports);
        }
        proof {
            if n == 0 {
                assert(sequence_scan(provs, def, 0) == sequence_scan(provs, def, 1));
            }
        }
        let ghost seen_map = seen@;
        let ghost r1 = views(r@);
        let mut j: usize = 0;
        while j < self.colors.len()
            invariant
                j <= self.colors@.len(),
                seen@ == seen_map,
                views(r@) == r1 + missing_color_reports(self.colors@.take(j as int), seen_map, def),
            decreases self.colors@.len() - j,
        {
            assert(self.colors@.take(j + 1).drop_last() =~= self.colors@.take(j as int));
            assert(self.colors@.take(j + 1).last() == self.colors@[j as int]);
            let c = self.colors[j];
            let ghost rest = missing_color_reports(self.colors@.take(j as int), seen_map, def);
            let ghost r2 = views(r@);
            if !seen.contains_key(&rgb_key(c)) {
                let mut m: Vec<char> = Vec::new();
                push_str(&mut m, "definitions.csv lacks entry for color (");
                push_rgb(&mut m, c);
                push_str(&mut m, ")");
                r.push(make_report(ErrorKey::Colors, Severity::Untidy, m.as_slice(), def));
                assert(views(r@) =~= r2.push(
                    rv(
                        ErrorKey::Colors,
                        Severity::Untidy,
                        "definitions.csv lacks entry for color ("@ + rgb_text(c) + ")"@,
                        def,
                    ),
                ));
            }
            j = j + 1;
            assert(views(r@) =~= r1 + missing_color_reports(self.colors@.take(j as int), seen_map, def));
        }
        assert(self.colors@.take(self.colors@.len() as int) =~= self.colors@);
        r
    }
}

proof fn lemma_sequence_stays_stopped(provs: Map<u32, Province>, def: Loc, k: int, n: int)
    requires
        1 <= k,
        sequence_scan(provs, def, k).stopped,
    ensures
        k <= n ==> sequence_scan(provs, def, n) == sequence_scan(provs, def, k),
    decreases n - k,
{
    if k < n {
        lemma_sequence_stays_stopped(provs, def, k, n - 1);
    }
}

/// The file names of the map data, as `default.map` gives them.
#[derive(Debug)]
pub struct MapFileNames {
    pub definitions: Option<String>,
    pub provinces: Option<String>,
    pub positions: Option<String>,
    pub rivers: Option<String>,
    pub topology: Option<String>,
    pub adjacencies: Option<String>,
    pub areas: Option<String>,
    pub regions: Option<String>,
    pub ports: Option<String>,
    pub climate: Option<String>,
}

/// The text of an optional string.
pub open spec fn opt_text(o: Option<String>) -> Option<Seq<char>> {
    match o {
        Some(s) => Some(s@),
        None => None,
    }
}

/// The names of `m`, in the order of the fields.
pub open spec fn map_names_view(m: MapFileNames) -> Seq<Option<Seq<char>>> {
    seq![
        opt_text(m.definitions),
        opt_text(m.provinces),
        opt_text(m.positions),
        opt_text(m.rivers),
        opt_text(m.topology),
        opt_text(m.adjacencies),
        opt_text(m.areas),
        opt_text(m.regions),
        opt_text(m.ports),
        opt_text(m.climate),
    ]
}

/// The file name given by a value of `default.map`: without surrounding
/// quotes, and nothing if that leaves it empty.
pub open spec fn map_filename_of(t: Option<Token>) -> Option<Seq<char>> {
    match t {
        Some(v) => if trim_char(v.s@, '"').len() > 0 {
            Some(trim_char(v.s@, '"'))
        } else {
            None
        },
        None => None,
    }
}

/// The map file names given by the block of `default.map`.
pub open spec fn names_of_default_map(block: Block) -> Seq<Option<Seq<char>>> {
    seq![
        map_filename_of(last_field_value(block.v@, "definitions"@)),
        map_filename_of(last_field_value(block.v@, "provinces"@)),
        map_filename_of(last_field_value(block.v@, "positions"@)),
        map_filename_of(last_field_value(block.v@, "rivers"@)),
        map_filename_of(last_field_value(block.v@, "topology"@)),
        map_filename_of(last_field_value(block.v@, "adjacencies"@)),
        map_filename_of(last_field_value(block.v@, "areas"@)),
        map_filename_of(last_field_value(block.v@, "regions"@)),
        map_filename_of(last_field_value(block.v@, "ports"@)),
        map_filename_of(last_field_value(block.v@, "climate"@)),
    ]
}

/// The map file names of the base game, used when no `default.map` is read.
pub open spec fn default_map_names() -> Seq<Option<Seq<char>>> {
    seq![
        Some("definition.csv"@),
        Some("provinces.png"@),
        Some("positions.txt"@),
        Some("rivers.png"@),
        Some("heightmap.heightmap"@),
        Some("adjacencies.csv"@),
        Some("areas.txt"@),
        Some("regions.txt"@),
        Some("ports.csv"@),
        Some("climate.txt"@),
    ]
}

/// Whether `entry` is the file named `expected`: by its whole path, or by
/// its file name. A name that is empty once trimmed matches nothing.
pub open spec fn entry_matches(entry: FileEntry, expected: Option<Seq<char>>) -> bool {
    match expected {
        None => false,
        Some(e) => {
            let t = trim_ws(e);
            t.len() > 0 && (path_of(t) == entry.spec_path() || (file_name(path_of(t)) is Some
                && file_name(path_of(t)) == file_name(entry.spec_path())))
        },
    }
}

/// The file name given by a value of `default.map`.
pub fn map_filename(token: Option<&Token>) -> (r: Option<String>)
    ensures
        opt_text(r) == map_filename_of(
            match token {
                Some(t) => Some(*t),
                None => None,
            },
        ),
{
    match token {
        Some(t) => {
            let cs = str_chars(t.s.as_str());
            let v = trim_char_chars(cs.as_slice(), '"');
            if v.len() > 0 {
                Some(crate::text::string_from_chars(v.as_slice()))
            } else {
                None
            }
        },
        None => None,
    }
}

impl MapFileNames {
    /// The map file names given by the block of `default.map`.
    pub fn from_default_map(block: &Block) -> (r: MapFileNames)
        ensures
            map_names_view(r) == names_of_default_map(*block),
    {
        let r = MapFileNames {
            definitions: map_filename(block.get_field_value("definitions")),
            provinces: map_filename(block.get_field_value("provinces")),
            positions: map_filename(block.get_field_value("positions")),
            rivers: map_filename(block.get_field_value("rivers")),
            topology: map_filename(block.get_field_value("topology")),
            adjacencies: map_filename(block.get_field_value("adjacencies")),
            areas: map_filename(block.get_field_value("areas")),
            regions: map_filename(block.get_field_value("regions")),
            ports: map_filename(block.get_field_value("ports")),
            climate: map_filename(block.get_field_value("climate")),
        };
        assert(map_names_view(r) =~= names_of_default_map(*block));
        r
    }

    /// The map file names of the base game.
    pub fn defaults() -> (r: MapFileNames)
        ensures
            map_names_view(r) == default_map_names(),
    {
        let r = MapFileNames {
            definitions: Some(String::from_str("definition.csv")),
            provinces: Some(String::from_str("provinces.png")),
            positions: Some(String::from_str("positions.txt")),
            rivers: Some(String::from_str("rivers.png")),
            topology: Some(String::from_str("heightmap.heightmap")),
            adjacencies: Some(String::from_str("adjacencies.csv")),
            areas: Some(String::from_str("areas.txt")),
            regions: Some(String::from_str("regions.txt")),
            ports: Some(String::from_str("ports.csv")),
            climate: Some(String::from_str("climate.txt")),
        };
        assert(map_names_view(r) =~= default_map_names());
        r
    }

    /// Whether `entry` is the file named `expected`.
    pub fn matches_entry(entry: &FileEntry, expected: Option<&String>) -> (r: bool)
        requires
            file_name(entry.spec_path()) is Some,
        ensures
            r == entry_matches(
                *entry,
                match expected {
                    Some(e) => Some(e@),
                    None => None,
                },
            ),
    {
        let expected = match expected {
            Some(e) => e,
            None => return false,
        };
        let cs = str_chars(expected.as_str());
        let t = trim_ws_chars(cs.as_slice());
        if t.len() == 0 {
            return false;
        }
        let p = path_from_str(crate::text::string_from_chars(t.as_slice()).as_str());
        proof {
            lemma_path_order_zero(crate::pathname::comps_view(p@), entry.spec_path());
        }
        if compare_paths(&p, entry.path()) == 0 {
            return true;
        }
        let n = p.len();
        if n == 0 {
            return false;
        }
        let last = &p[n - 1];
        assert(crate::pathname::comps_view(p@).last() == last@);
        if last.len() == 2 && last[0] == '.' && last[1] == '.' {
            assert(last@ =~= seq!['.', '.']);
            return false;
        }
        assert(last@ != seq!['.', '.']);
        let name = entry.filename();
        crate::text::chars_eq(last.as_slice(), name.as_slice())
    }
}

/// What a file of `map_data/` holds once loaded: the block of `default.map`,
/// or nothing yet, for a file whose role depends on `default.map`.
#[derive(Debug)]
pub enum FileContent {
    DefaultMap(Block),
    Deferred,
}

/// The role of a map data file.
#[derive(Clone, Copy, Debug, PartialEq, Eq, Structural)]
pub enum MapRole {
    Adjacencies,
    Definitions,
    Provinces,
}

/// The role of `entry` given the map file names `names`: the adjacencies,
/// the definitions or the provinces image, tried in that order.
pub open spec fn map_role(entry: FileEntry, names: Option<Seq<Option<Seq<char>>>>) -> Option<MapRole> {
    match names {
        None => None,
        Some(m) => if entry_matches(entry, m[5]) {
            Some(MapRole::Adjacencies)
        } else if entry_matches(entry, m[0]) {
            Some(MapRole::Definitions)
        } else if entry_matches(entry, m[1]) {
            Some(MapRole::Provinces)
        } else {
            None
        },
    }
}

impl ImperatorProvinces {
    /// Whether a file of `map_data/` is read at all, and as what: only the
    /// files directly in it are; `default.map` is read as script, the others
    /// later, once their role is known.
    pub fn map_file_kind(entry: &FileEntry) -> (r: Option<bool>)
        ensures
            r == (if entry.spec_path().len() == 2 {
                Some(entry.spec_path()[1] == "default.map"@)
            } else {
                None
            }),
    {
        let p = entry.path();
        if p.len() == 2 {
            let name = str_chars("default.map");
            Some(crate::text::chars_eq(p[1].as_slice(), name.as_slice()))
        } else {
            None
        }
    }

    /// The role of `entry` among the map data files, once the map file names
    /// are known.
    pub fn map_file_role(&self, entry: &FileEntry) -> (r: Option<MapRole>)
        requires
            file_name(entry.spec_path()) is Some,
        ensures
            r == map_role(*entry, self.spec_map_files()),
    {
        match &self.default_map_files {
            None => None,
            Some(m) => {
                if MapFileNames::matches_entry(entry, m.adjacencies.as_ref()) {
                    Some(MapRole::Adjacencies)
                } else if MapFileNames::matches_entry(entry, m.definitions.as_ref()) {
                    Some(MapRole::Definitions)
                } else if MapFileNames::matches_entry(entry, m.provinces.as_ref()) {
                    Some(MapRole::Provinces)
                } else {
                    None
                }
            },
        }
    }

    /// Takes in a loaded file of `map_data/`. The block of `default.map`
    /// gives the map file names and the impassable provinces; the files met
    /// before it are returned, to be read now. Another file is returned to be
    /// read now if the names are known, and else kept until they are.
    pub fn handle_file(&mut self, entry: FileEntry, content: FileContent, reports: &mut Vec<Report>) -> (r:
        Vec<FileEntry>)
        requires
            old(self).wf(),
        ensures
            final(self).wf(),
            final(self).spec_provinces() == old(self).spec_provinces(),
            final(self).spec_png() == old(self).spec_png(),
            final(self).spec_colors() == old(self).spec_colors(),
            final(self).spec_adjacencies() == old(self).spec_adjacencies(),
            final(self).spec_definition_csv() == old(self).spec_definition_csv(),
            match content {
                FileContent::DefaultMap(block) => {
                    let end = impassable_scan(
                        ImpassableScan {
                            expecting: Expecting::Nothing,
                            impassable: old(self).spec_impassable(),
                            sea_or_river: old(self).spec_sea_or_river(),
                            reports: views(old(reports)@),
                        },
                        block.v@,
                    );
                    &&& final(self).spec_map_files() == Some(names_of_default_map(block))
                    &&& final(self).spec_impassable() == end.impassable
                    &&& final(self).spec_sea_or_river() == end.sea_or_river
                    &&& views(final(reports)@) == end.reports
                    &&& r@ == old(self).spec_pending()
                    &&& final(self).spec_pending() == Seq::<FileEntry>::empty()
                },
                FileContent::Deferred => {
                    &&& final(self).spec_map_files() == old(self).spec_map_files()
                    &&& final(self).spec_impassable() == old(self).spec_impassable()
                    &&& final(self).spec_sea_or_river() == old(self).spec_sea_or_river()
                    &&& final(reports)@ == old(reports)@
                    &&& if old(self).spec_map_files() is Some {
                        r@ == seq![entry] && final(self).spec_pending() == old(self).spec_pending()
                    } else {
                        r@ == Seq::<FileEntry>::empty() && final(self).spec_pending() == old(
                            self,
                        ).spec_pending().push(entry)
                    }
                },
            },
    {
        match content {
            FileContent::DefaultMap(block) => {
                let names = MapFileNames::from_default_map(&block);
                self.load_impassable(&block, reports);
                self.default_map_files = Some(names);
                let mut pending: Vec<FileEntry> = Vec::new();
                std::mem::swap(&mut pending, &mut self.pending_map_files);
                pending
            },
            FileContent::Deferred => {
                if self.default_map_files.is_some() {
                    let mut r: Vec<FileEntry> = Vec::new();
                    r.push(entry);
                    assert(r@ =~= seq![entry]);
                    r
                } else {
                    self.pending_map_files.push(entry);
                    Vec::new()
                }
            },
        }
    }

    /// Once all files of `map_data/` were met: without a `default.map`, the
    /// map file names of the base game are taken, and the files met so far
    /// are returned, to be read now.
    pub fn finalize_map_files(&mut self) -> (r: Vec<FileEntry>)
        requires
            old(self).wf(),
        ensures
            final(self).wf(),
            final(self).spec_provinces() == old(self).spec_provinces(),
            final(self).spec_png() == old(self).spec_png(),
            final(self).spec_colors() == old(self).spec_colors(),
            final(self).spec_adjacencies() == old(self).spec_adjacencies(),
            final(self).spec_definition_csv() == old(self).spec_definition_csv(),
            final(self).spec_impassable() == old(self).spec_impassable(),
            final(self).spec_sea_or_river() == old(self).spec_sea_or_river(),
            old(self).spec_map_files() is None ==> final(self).spec_map_files() == Some(default_map_names())
                && r@ == old(self).spec_pending() && final(self).spec_pending() == Seq::<FileEntry>::empty(),
            old(self).spec_map_files() is Some ==> final(self).spec_map_files() == old(self).spec_map_files()
                && r@ == Seq::<FileEntry>::empty() && final(self).spec_pending() == old(self).spec_pending(),
    {
        if self.default_map_files.is_none() {
            self.default_map_files = Some(MapFileNames::defaults());
            let mut pending: Vec<FileEntry> = Vec::new();
                std::mem::swap(&mut pending, &mut self.pending_map_files);
            pending
        } else {
            Vec::new()
        }
    }
}


/// What the `image` crate's decoder makes of some bytes: the width, height,
/// pixels (for an 8-bit RGB image, row by row; none otherwise) and color
/// type of the image, or the text of the decoder's error.
pub uninterp spec fn image_decoding(bytes: Seq<u8>) -> Result<(u32, u32, Seq<(u8, u8, u8)>, Seq<char>), Seq<char>>;

/// Decodes an image from its bytes.
/// Wraps `image::load_from_memory`, which guesses the format from the bytes
/// and decodes them; the outcome is named [`image_decoding`]. The color
/// type is written as its `Debug` form, and only an `ImageRgb8` image, whose
/// color type is `Rgb8`, hands out its pixels: one per point, so width times
/// height of them. What the decoder accepts is left unstated.
#[verifier::external_body]
pub fn decode_image_bytes(bytes: &[u8]) -> (r: Result<(u32, u32, Vec<(u8, u8, u8)>, String), String>)
    ensures
        match r {
            Ok((w, h, px, ct)) => {
                &&& image_decoding(bytes@) == Ok::<(u32, u32, Seq<(u8, u8, u8)>, Seq<char>), Seq<char>>(
                    (w, h, px@, ct@),
                )
                &&& ct@ == "Rgb8"@ ==> px@.len() == (w as int) * (h as int)
            },
            Err(e) => image_decoding(bytes@) == Err::<(u32, u32, Seq<(u8, u8, u8)>, Seq<char>), Seq<char>>(e@),
        },
{
    match image::load_from_memory(bytes) {
        Ok(img) => {
            let px = match &img {
                image::DynamicImage::ImageRgb8(b) => b.pixels().map(|p| (p[0], p[1], p[2])).collect(),
                _ => Vec::new(),
            };
            Ok((img.width(), img.height(), px, format!("{:?}", img.color())))
        },
        Err(e) => Err(format!("{e:#}")),
    }
}

/// The color of a decoded pixel.
pub open spec fn rgb_of(p: (u8, u8, u8)) -> Rgb {
    Rgb { r: p.0, g: p.1, b: p.2 }
}

/// The colors of decoded pixels.
pub open spec fn rgbs_of(px: Seq<(u8, u8, u8)>) -> Seq<Rgb> {
    px.map_values(|p: (u8, u8, u8)| rgb_of(p))
}

/// The report that the file at `path`, read at `entry`, could not be
/// decoded, with the decoder's error text `e`.
pub open spec fn image_read_report(path: Seq<char>, e: Seq<char>, entry: Loc) -> ReportView {
    rv(ErrorKey::ReadError, Severity::Error, "could not read `"@ + path + "`: "@ + e, entry)
}

/// The colors of decoded pixels, as a vector.
fn rgb_vec(px: &Vec<(u8, u8, u8)>) -> (r: Vec<Rgb>)
    ensures
        r@ == rgbs_of(px@),
{
    let mut r: Vec<Rgb> = Vec::new();
    let mut i: usize = 0;
    while i < px.len()
        invariant
            i <= px@.len(),
            r@ == rgbs_of(px@.take(i as int)),
        decreases px@.len() - i,
    {
        let p = px[i];
        r.push(Rgb { r: p.0, g: p.1, b: p.2 });
        assert(rgbs_of(px@.take(i + 1)) =~= rgbs_of(px@.take(i as int)).push(rgb_of(px@[i as int])));
        i = i + 1;
    }
    assert(px@.take(px@.len() as int) =~= px@);
    r
}

impl ImperatorProvinces {
    /// Decodes the provinces image from the bytes of the file at `path`,
    /// read at `entry`, and takes it in as [`Self::handle_provinces_image`]
    /// does; bytes that do not decode are reported.
    pub fn load_provinces_image(&mut self, bytes: &[u8], path: &str, entry: Loc, reports: &mut Vec<Report>)
        requires
            old(self).wf(),
        ensures
            final(self).wf(),
            match image_decoding(bytes@) {
                Err(e) => {
                    &&& final(self).spec_png() == old(self).spec_png()
                    &&& final(self).spec_colors() == old(self).spec_colors()
                    &&& views(final(reports)@) == views(old(reports)@).push(image_read_report(path@, e, entry))
                },
                Ok((w, h, px, ct)) => if ct == "Rgb8"@ {
                    &&& final(self).spec_png() matches Some(i) && i.spec_width() == w && i.spec_height() == h
                        && i.spec_pixels() == rgbs_of(px)
                    &&& final(self).spec_colors() == add_colors(old(self).spec_colors(), rgbs_of(px))
                    &&& views(final(reports)@) == views(old(reports)@)
                } else {
                    &&& final(self).spec_png() == old(self).spec_png()
                    &&& final(self).spec_colors() == old(self).spec_colors()
                    &&& views(final(reports)@) == views(old(reports)@).push(
                        rv(
                            ErrorKey::ImageFormat,
                            Severity::Error,
                            "`"@ + path@ + "` has wrong color format `"@ + ct + "`, should be Rgb8"@,
                            entry,
                        ),
                    )
                },
            },
            final(self).spec_provinces() == old(self).spec_provinces(),
            final(self).spec_adjacencies() == old(self).spec_adjacencies(),
            final(self).spec_impassable() == old(self).spec_impassable(),
            final(self).spec_sea_or_river() == old(self).spec_sea_or_river(),
            final(self).spec_definition_csv() == old(self).spec_definition_csv(),
            final(self).spec_map_files() == old(self).spec_map_files(),
            final(self).spec_pending() == old(self).spec_pending(),
    {
        match decode_image_bytes(bytes) {
            Err(e) => {
                let mut m: Vec<char> = Vec::new();
                push_str(&mut m, "could not read `");
                push_str(&mut m, path);
                push_str(&mut m, "`: ");
                push_str(&mut m, e.as_str());
                let rep = make_report(ErrorKey::ReadError, Severity::Error, m.as_slice(), entry);
                let ghost before = reports@;
                reports.push(rep);
                assert(views(reports@) =~= views(before).push(rep@));
            },
            Ok((w, h, px, ct)) => {
                let rgb8 = crate::text::str_eq(ct.as_str(), "Rgb8");
                if rgb8 {
                    let pixels = rgb_vec(&px);
                    let img = RgbImage::from_pixels(w, h, pixels);
                    self.handle_provinces_image(DecodedImage::Rgb8(img), path, entry, reports);
                } else {
                    self.handle_provinces_image(DecodedImage::Other(ct), path, entry, reports);
                }
            },
        }
    }
}


/// A line of `definition.csv` whose first four fields are plain decimal
/// numbers (an id, then red, green and blue values up to 255) parses, and the
/// province has that id, red from the second field, green from the third and
/// blue from the fourth.
pub proof fn law_definition_line_fields(csv: Seq<Token>)
    requires
        csv.len() >= 5,
        forall|i: int|
            0 <= i < 4 ==> (#[trigger] csv[i]).s@.len() > 0 && all_digits(csv[i].s@),
        digits_value(csv[0].s@) <= u32::MAX,
        digits_value(csv[1].s@) <= 255,
        digits_value(csv[2].s@) <= 255,
        digits_value(csv[3].s@) <= 255,
    ensures
        province_parses(csv),
        province_of(csv).id == digits_value(csv[0].s@),
        province_of(csv).color.r == digits_value(csv[1].s@),
        province_of(csv).color.g == digits_value(csv[2].s@),
        province_of(csv).color.b == digits_value(csv[3].s@),
        province_of(csv).key == csv[0],
        province_of(csv).comment == csv[4],
{
    assert(is_digit(csv[0].s@[0]) && is_digit(csv[1].s@[0]) && is_digit(csv[2].s@[0]) && is_digit(csv[3].s@[0]));
    lemma_digits_nonneg(csv[0].s@);
    lemma_digits_nonneg(csv[1].s@);
    lemma_digits_nonneg(csv[2].s@);
    lemma_digits_nonneg(csv[3].s@);
}

/// Checking an adjacency reports each of its `from`, `to` and `through`
/// provinces that is not defined, with a fatal report at the adjacency's
/// line; and when all three are defined, it makes no such report.
pub proof fn law_adjacency_reports_undefined_provinces(
    adj: Adjacency,
    provs: Map<u32, Province>,
    png: Option<RgbImage>,
    p: u32,
)
    requires
        p == adj.from || p == adj.to || p == adj.through,
    ensures
        !provs.contains_key(p) ==> adjacency_reports(adj, provs, png).contains(
            rv(
                ErrorKey::Crash,
                Severity::Fatal,
                "province id "@ + decimal(p as nat) + " not defined in definitions.csv"@,
                adj.line,
            ),
        ),
        (provs.contains_key(adj.from) && provs.contains_key(adj.to) && provs.contains_key(adj.through))
            ==> forall|i: int|
            0 <= i < adjacency_reports(adj, provs, png).len() ==> (#[trigger] adjacency_reports(
                adj,
                provs,
                png,
            )[i]).key != ErrorKey::Crash,
{
    let r = rv(
        ErrorKey::Crash,
        Severity::Fatal,
        "province id "@ + decimal(p as nat) + " not defined in definitions.csv"@,
        adj.line,
    );
    let mf = missing_prov_reports(adj.from, provs, adj.line);
    let mt = missing_prov_reports(adj.to, provs, adj.line);
    let mh = missing_prov_reports(adj.through, provs, adj.line);
    let a = mf + mt + mh + kind_reports(adj.kind);
    let all = adjacency_reports(adj, provs, png);
    assert(all.len() >= a.len());
    assert(forall|i: int| 0 <= i < a.len() ==> all[i] == a[i]);
    if !provs.contains_key(p) {
        let ix = if p == adj.from {
            0int
        } else if p == adj.to {
            mf.len() as int
        } else {
            (mf.len() + mt.len()) as int
        };
        assert(a[ix] == r);
        assert(all[ix] == r);
    }
    if provs.contains_key(adj.from) && provs.contains_key(adj.to) && provs.contains_key(adj.through) {
        assert(a =~= kind_reports(adj.kind));
        match png {
            Some(img) => {
                if !(sentinel(adj.start) && sentinel(adj.stop)) {
                    let im = adjacency_image_reports(adj, provs, img);
                    assert forall|i: int| 0 <= i < im.len() implies (#[trigger] im[i]).key != ErrorKey::Crash by {
                    }
                }
            },
            None => {},
        }
    }
}

/// Reading `key = RANGE { a b }` for a key of impassable provinces marks
/// every id from `a` to `b`, both included, as impassable, and as water when
/// the key is `sea_zones` or `river_provinces`; no other id is added.
pub proof fn law_range_marks_every_id(
    st: ImpassableScan,
    key: Token,
    word: Token,
    b: Block,
    lo: Token,
    hi: Token,
    a_val: int,
    b_val: int,
)
    requires
        st.expecting == Expecting::Nothing,
        impassable_key(key),
        word.s@ == "RANGE"@,
        loose_values(b.v@) == seq![lo, hi],
        parse_int_spec(lo.s@, 0, u32::MAX as int) == Some(a_val),
        parse_int_spec(hi.s@, 0, u32::MAX as int) == Some(b_val),
    ensures
        ({
            let end = impassable_scan(
                st,
                seq![BlockItem::Field(key, BV::Value(word)), BlockItem::Value(BV::Block(b))],
            );
            &&& forall|p: u32| a_val <= p <= b_val ==> end.impassable.contains(p)
            &&& forall|p: u32| a_val <= p <= b_val && water_key(key) ==> end.sea_or_river.contains(p)
            &&& forall|p: u32|
                end.impassable.contains(p) ==> st.impassable.contains(p) || a_val <= p <= b_val
        }),
{
    let items = seq![BlockItem::Field(key, BV::Value(word)), BlockItem::Value(BV::Block(b))];
    let one = items.drop_last();
    assert(one =~= seq![BlockItem::Field(key, BV::Value(word))]);
    assert(one.drop_last() =~= Seq::<BlockItem>::empty());
    assert(impassable_scan(st, one.drop_last()) == st);
    assert(one.last() == items[0]);
    reveal_strlit("RANGE");
    reveal_strlit("LIST");
    assert(item_assignment(items[0]) == Some((key, word)));
    assert("RANGE"@.len() == 5 && "LIST"@.len() == 4);
    assert(word.s@ != "LIST"@);
    let s1 = impassable_step(st, items[0]);
    assert(impassable_scan(st, one) == s1);
    assert(s1.expecting == Expecting::Range(key));
    assert(item_loose_block(items.last()) == Some(b));
}

/// The state of the id checks after the ids `1..k`, when all of them are
/// defined: nothing stopped the checks, every color of those ids was seen,
/// and each seen color is held with the first id that has it.
proof fn lemma_sequence_first_ids(provs: Map<u32, Province>, def: Loc, k: int)
    requires
        1 <= k,
        forall|m: u32| 1 <= m < k ==> #[trigger] provs.contains_key(m),
        k <= u32::MAX + 1,
    ensures
        !sequence_scan(provs, def, k).stopped,
        forall|m: u32|
            1 <= m < k ==> sequence_scan(provs, def, k).seen.contains_key(
                color_key(#[trigger] provs[m].color),
            ),
        forall|c: u32|
            #[trigger] sequence_scan(provs, def, k).seen.contains_key(c) ==> {
                let f = sequence_scan(provs, def, k).seen[c];
                &&& 1 <= f < k
                &&& color_key(provs[f].color) == c
                &&& forall|m: u32| 1 <= m < f ==> color_key(#[trigger] provs[m].color) != c
            },
    decreases k,
{
    if k > 1 {
        lemma_sequence_first_ids(provs, def, k - 1);
        let st = sequence_scan(provs, def, k - 1);
        let i = (k - 1) as u32;
        assert(provs.contains_key(i));
        let now = sequence_scan(provs, def, k);
        assert forall|m: u32| 1 <= m < k implies now.seen.contains_key(color_key(#[trigger] provs[m].color)) by {
            if m < k - 1 {
                assert(st.seen.contains_key(color_key(provs[m].color)));
            }
        }
        assert forall|c: u32| #[trigger] now.seen.contains_key(c) implies ({
            let f = now.seen[c];
            &&& 1 <= f < k
            &&& color_key(provs[f].color) == c
            &&& forall|m: u32| 1 <= m < f ==> color_key(#[trigger] provs[m].color) != c
        }) by {
            if !st.seen.contains_key(c) {
                assert(c == color_key(provs[i].color));
                assert forall|m: u32| 1 <= m < i implies color_key(#[trigger] provs[m].color) != c by {
                    assert(st.seen.contains_key(color_key(provs[m].color)));
                }
            }
        }
    }
}

/// The reports of the id checks only grow as more ids are checked.
proof fn lemma_sequence_reports_grow(provs: Map<u32, Province>, def: Loc, k: int, n: int)
    requires
        k <= n,
    ensures
        sequence_scan(provs, def, k).reports.len() <= sequence_scan(provs, def, n).reports.len(),
        forall|i: int|
            0 <= i < sequence_scan(provs, def, k).reports.len() ==> #[trigger] sequence_scan(
                provs,
                def,
                n,
            ).reports[i] == sequence_scan(provs, def, k).reports[i],
    decreases n - k,
{
    if k < n {
        lemma_sequence_reports_grow(provs, def, k, n - 1);
    }
}

/// When the ids `1..=j` are all defined and `i < j` is the first id with the
/// color of `j`, the final checks report at `j`'s comment that the color was
/// already used for `i`.
pub proof fn law_repeated_color_reported(provs: Map<u32, Province>, colors: Seq<Rgb>, def: Loc, i: u32, j: u32)
    requires
        1 <= i < j,
        j < provs.dom().len(),
        forall|m: u32| 1 <= m <= j ==> #[trigger] provs.contains_key(m),
        provs[i].color == provs[j].color,
        forall|m: u32| 1 <= m < i ==> (#[trigger] provs[m]).color != provs[i].color,
    ensures
        definition_check_reports(provs, colors, def).contains(
            rv(
                ErrorKey::Colors,
                Severity::Warning,
                "color was already used for id "@ + decimal(i as nat),
                provs[j].comment.loc,
            ),
        ),
{
    lemma_sequence_first_ids(provs, def, j as int);
    let st = sequence_scan(provs, def, j as int);
    let c = color_key(provs[j].color);
    assert(st.seen.contains_key(color_key(provs[i].color)));
    let f = st.seen[c];
    lemma_color_key_injective(provs[f].color, provs[i].color);
    if f > i {
        assert(color_key(provs[i].color) != c);
    }
    if f < i {
        lemma_color_key_injective(provs[f].color, provs[j].color);
    }
    assert(f == i);
    let next = sequence_scan(provs, def, j + 1);
    let rep = rv(
        ErrorKey::Colors,
        Severity::Warning,
        "color was already used for id "@ + decimal(i as nat),
        provs[j].comment.loc,
    );
    assert(next.reports == st.reports.push(rep));
    let n = provs.dom().len() as int;
    lemma_sequence_reports_grow(provs, def, j + 1, n);
    let ix = st.reports.len() as int;
    assert(next.reports[ix] == rep);
    let fin = sequence_scan(provs, def, n);
    assert(fin.reports[ix] == rep);
    let all = definition_check_reports(provs, colors, def);
    assert(all[ix] == rep);
}


/// Every id of a `LIST` whose items all are ids is read, and no item is
/// reported as bad.
proof fn lemma_list_scan_all(vals: Seq<Token>)
    requires
        forall|i: int| 0 <= i < vals.len() ==> (parse_int_spec(#[trigger] vals[i].s@, 0, u32::MAX as int) is Some),
    ensures
        list_scan(vals).1 is None,
        forall|i: int|
            0 <= i < vals.len() ==> list_scan(vals).0.contains(
                parse_int_spec(#[trigger] vals[i].s@, 0, u32::MAX as int)->0 as u32,
            ),
        forall|p: u32|
            list_scan(vals).0.contains(p) ==> exists|i: int|
                0 <= i < vals.len() && parse_int_spec(#[trigger] vals[i].s@, 0, u32::MAX as int) == Some(
                    p as int,
                ),
    decreases vals.len(),
{
    if vals.len() > 0 {
        let rest = vals.drop_last();
        assert forall|i: int| 0 <= i < rest.len() implies (parse_int_spec(#[trigger] rest[i].s@, 0, u32::MAX as int) is Some) by {
            assert(rest[i] == vals[i]);
        }
        lemma_list_scan_all(rest);
        assert forall|i: int| 0 <= i < vals.len() implies list_scan(vals).0.contains(
            parse_int_spec(#[trigger] vals[i].s@, 0, u32::MAX as int)->0 as u32,
        ) by {
            if i < vals.len() - 1 {
                assert(rest[i] == vals[i]);
            }
        }
        assert forall|p: u32| list_scan(vals).0.contains(p) implies exists|i: int|
            0 <= i < vals.len() && parse_int_spec(#[trigger] vals[i].s@, 0, u32::MAX as int) == Some(p as int) by {
            if list_scan(rest).0.contains(p) {
                let i = choose|i: int|
                    0 <= i < rest.len() && parse_int_spec(#[trigger] rest[i].s@, 0, u32::MAX as int) == Some(p as int);
                assert(rest[i] == vals[i]);
            } else {
                let j = vals.len() - 1;
                assert(parse_int_spec(vals[j].s@, 0, u32::MAX as int) == Some(p as int));
            }
        }
    }
}

/// Reading `key = LIST { ... }` for a key of impassable provinces, where
/// every item is an id, marks exactly those ids as impassable (and as water
/// for `sea_zones` and `river_provinces`), and reports nothing about the
/// list.
pub proof fn law_list_marks_every_id(st: ImpassableScan, key: Token, word: Token, b: Block)
    requires
        st.expecting == Expecting::Nothing,
        impassable_key(key),
        word.s@ == "LIST"@,
        forall|i: int|
            0 <= i < loose_values(b.v@).len() ==> (parse_int_spec(
                #[trigger] loose_values(b.v@)[i].s@,
                0,
                u32::MAX as int,
            ) is Some),
    ensures
        ({
            let vals = loose_values(b.v@);
            let end = impassable_scan(
                st,
                seq![BlockItem::Field(key, BV::Value(word)), BlockItem::Value(BV::Block(b))],
            );
            &&& forall|i: int|
                0 <= i < vals.len() ==> end.impassable.contains(
                    parse_int_spec(#[trigger] vals[i].s@, 0, u32::MAX as int)->0 as u32,
                )
            &&& forall|i: int|
                0 <= i < vals.len() && water_key(key) ==> end.sea_or_river.contains(
                    parse_int_spec(#[trigger] vals[i].s@, 0, u32::MAX as int)->0 as u32,
                )
            &&& forall|p: u32|
                end.impassable.contains(p) ==> st.impassable.contains(p) || exists|i: int|
                    0 <= i < vals.len() && parse_int_spec(#[trigger] vals[i].s@, 0, u32::MAX as int)
                        == Some(p as int)
        }),
{
    let items = seq![BlockItem::Field(key, BV::Value(word)), BlockItem::Value(BV::Block(b))];
    let one = items.drop_last();
    assert(one =~= seq![BlockItem::Field(key, BV::Value(word))]);
    assert(one.drop_last() =~= Seq::<BlockItem>::empty());
    assert(impassable_scan(st, one.drop_last()) == st);
    assert(one.last() == items[0]);
    reveal_strlit("LIST");
    assert(item_assignment(items[0]) == Some((key, word)));
    let s1 = impassable_step(st, items[0]);
    assert(impassable_scan(st, one) == s1);
    assert(s1.expecting == Expecting::List(key));
    assert(item_loose_block(items.last()) == Some(b));
    lemma_list_scan_all(loose_values(b.v@));
}

/// When the ids below `m` are defined and `m` is not (with `m` below the
/// number of provinces), the final checks report that the ids must be
/// sequential and `m` is missing.
pub proof fn law_missing_id_reported(provs: Map<u32, Province>, colors: Seq<Rgb>, def: Loc, m: u32)
    requires
        1 <= m < provs.dom().len(),
        !provs.contains_key(m),
        forall|k: u32| 1 <= k < m ==> #[trigger] provs.contains_key(k),
    ensures
        definition_check_reports(provs, colors, def).contains(
            rv(
                ErrorKey::Validation,
                Severity::Error,
                "province ids must be sequential, but "@ + decimal(m as nat) + " is missing"@,
                def,
            ),
        ),
{
    lemma_sequence_first_ids(provs, def, m as int);
    let st = sequence_scan(provs, def, m as int);
    let rep = rv(
        ErrorKey::Validation,
        Severity::Error,
        "province ids must be sequential, but "@ + decimal(m as nat) + " is missing"@,
        def,
    );
    let next = sequence_scan(provs, def, m + 1);
    assert(next.reports == st.reports.push(rep));
    let n = provs.dom().len() as int;
    lemma_sequence_reports_grow(provs, def, m + 1, n);
    let ix = st.reports.len() as int;
    assert(next.reports[ix] == rep);
    let fin = sequence_scan(provs, def, n);
    assert(fin.reports[ix] == rep);
    let all = definition_check_reports(provs, colors, def);
    assert(all[ix] == rep);
}

/// The reports about image colors list each color that is not seen.
proof fn lemma_missing_colors_listed(colors: Seq<Rgb>, seen: Map<u32, u32>, def: Loc, j: int)
    requires
        0 <= j < colors.len(),
        !seen.contains_key(color_key(colors[j])),
    ensures
        missing_color_reports(colors, seen, def).contains(
            rv(
                ErrorKey::Colors,
                Severity::Untidy,
                "definitions.csv lacks entry for color ("@ + rgb_text(colors[j]) + ")"@,
                def,
            ),
        ),
    decreases colors.len(),
{
    if j < colors.len() - 1 {
        lemma_missing_colors_listed(colors.drop_last(), seen, def, j);
        let rest = missing_color_reports(colors.drop_last(), seen, def);
        let x = choose|x: int| 0 <= x < rest.len() && rest[x] == rv(
            ErrorKey::Colors,
            Severity::Untidy,
            "definitions.csv lacks entry for color ("@ + rgb_text(colors.drop_last()[j]) + ")"@,
            def,
        );
        let all = missing_color_reports(colors, seen, def);
        assert(all[x] == rest[x]);
    } else {
        let all = missing_color_reports(colors, seen, def);
        assert(all[all.len() - 1] == rv(
            ErrorKey::Colors,
            Severity::Untidy,
            "definitions.csv lacks entry for color ("@ + rgb_text(colors[j]) + ")"@,
            def,
        ));
    }
}

/// When the ids from 1 up to the number of provinces are all defined, every
/// color of the provinces image that none of them has is reported as lacking
/// an entry in `definition.csv`.
pub proof fn law_missing_color_reported(provs: Map<u32, Province>, colors: Seq<Rgb>, def: Loc, j: int)
    requires
        1 <= provs.dom().len() <= u32::MAX,
        forall|k: u32| 1 <= k < provs.dom().len() ==> #[trigger] provs.contains_key(k),
        0 <= j < colors.len(),
        forall|k: u32| 1 <= k < provs.dom().len() ==> (#[trigger] provs[k]).color != colors[j],
    ensures
        definition_check_reports(provs, colors, def).contains(
            rv(
                ErrorKey::Colors,
                Severity::Untidy,
                "definitions.csv lacks entry for color ("@ + rgb_text(colors[j]) + ")"@,
                def,
            ),
        ),
{
    let n = provs.dom().len() as int;
    lemma_sequence_first_ids(provs, def, n);
    let st = sequence_scan(provs, def, n);
    let c = color_key(colors[j]);
    if st.seen.contains_key(c) {
        let f = st.seen[c];
        lemma_color_key_injective(provs[f].color, colors[j]);
        assert(provs[f].color != colors[j]);
    }
    lemma_missing_colors_listed(colors, st.seen, def, j);
    let mc = missing_color_reports(colors, st.seen, def);
    let x = choose|x: int| 0 <= x < mc.len() && mc[x] == rv(
        ErrorKey::Colors,
        Severity::Untidy,
        "definitions.csv lacks entry for color ("@ + rgb_text(colors[j]) + ")"@,
        def,
    );
    let all = definition_check_reports(provs, colors, def);
    assert(all[st.reports.len() + x] == mc[x]);
}

} // verus!
