//! Where things go on the screen: the minimum size, the bordered frame,
//! its three bands (hints, tempo and beats, status) and the tempo block
//! centred in the middle band. The row layout is ratatui's.

use vstd::prelude::*;
use ratatui::layout::{Constraint, Direction, Layout, Rect};
use ratatui::widgets::{Block, Borders};

verus! {

/// The narrowest terminal that is drawn on.
pub const MIN_WIDTH: u16 = 40;

/// The shortest terminal that is drawn on.
pub const MIN_HEIGHT: u16 = 12;

/// The title on the frame's top border.
pub const TITLE: &'static str = " TUI Metronome ";

/// A rectangle of terminal cells.
#[derive(Clone, Copy, Debug, PartialEq, Eq, Structural)]
pub struct Area {
    pub x: u16,
    pub y: u16,
    pub width: u16,
    pub height: u16,
}

/// How tall one row of a vertical layout is to be.
#[derive(Clone, Copy, Debug, PartialEq, Eq, Structural)]
pub enum Row {
    /// Exactly this many lines.
    Length(u16),
    /// At least this many lines.
    Min(u16),
}

/// `a + b`, or `u16::MAX` when that does not fit.
pub open spec fn sat_add(a: u16, b: u16) -> u16 {
    if a + b <= u16::MAX { (a + b) as u16 } else { u16::MAX }
}

/// `a - b`, or 0 when `b` is larger.
pub open spec fn sat_sub(a: u16, b: u16) -> u16 {
    if a >= b { (a - b) as u16 } else { 0 }
}

/// `r` lies within the lines of `a`: it starts no higher and ends no
/// lower (the bottom taken with saturation, as ratatui does).
pub open spec fn within_rows(r: Area, a: Area) -> bool {
    &&& a.y <= r.y
    &&& r.y + r.height <= sat_add(a.y, a.height)
}

/// The inside of a frame with a border on every side and a title on top:
/// one cell in from each edge (never past the far edge), two cells
/// narrower and two lower (never below zero).
pub open spec fn spec_bordered_inner(a: Area) -> Area {
    let x1 = sat_add(a.x, 1);
    let right = sat_add(a.x, a.width);
    let y1 = sat_add(a.y, 1);
    let bottom = sat_add(a.y, a.height);
    Area {
        x: if x1 <= right { x1 } else { right },
        y: if y1 <= bottom { y1 } else { bottom },
        width: sat_sub(a.width, 2),
        height: sat_sub(a.height, 2),
    }
}

/// `ratatui::widgets::Block::inner`, for the frame the screen is drawn in:
/// `Block::default().title(TITLE).borders(Borders::ALL)`. Its source
/// (ratatui 0.29) moves in by one cell from each bordered side with
/// saturating arithmetic, clamped to the right and bottom edges; the title
/// on the top border takes no further line and there is no padding; that
/// is what the contract states.
#[verifier::external_body]
fn bordered_inner(area: Area) -> (r: Area)
    ensures
        r == spec_bordered_inner(area),
{
    let rect = Rect { x: area.x, y: area.y, width: area.width, height: area.height };
    let inner = Block::default().title(TITLE).borders(Borders::ALL).inner(rect);
    Area { x: inner.x, y: inner.y, width: inner.width, height: inner.height }
}

/// `ratatui::layout::Rect::new`: the width and height are cut so that the
/// rectangle ends within `u16` (its source, ratatui 0.29, does exactly this).
pub open spec fn spec_rect_new(x: u16, y: u16, width: u16, height: u16) -> Area {
    Area {
        x,
        y,
        width: if width > u16::MAX - x { (u16::MAX - x) as u16 } else { width },
        height: if height > u16::MAX - y { (u16::MAX - y) as u16 } else { height },
    }
}

/// `ratatui::layout::Rect::new`; the contract restates its source.
#[verifier::external_body]
fn rect_new(x: u16, y: u16, width: u16, height: u16) -> (r: Area)
    ensures
        r == spec_rect_new(x, y, width, height),
{
    let rect = Rect::new(x, y, width, height);
    Area { x: rect.x, y: rect.y, width: rect.width, height: rect.height }
}

/// `ratatui::layout::Layout::split` on a vertical layout with the given
/// rows (no margin, no spacing, the default flex, `Flex::Start`). Its
/// source (ratatui 0.29, layout/layout.rs) gives one rectangle per row,
/// each spanning the area's full width (`x` and `width` of the area), and
/// bounds every row end by required solver constraints to lie between the
/// area's top and bottom, so each row lies within the area's lines. The
/// gaps between rows are held at zero with strength `REQUIRED / 10`
/// (about 100.1 million), more than a line of any `Length` or `Min` row
/// can weigh (at most `STRONG * 100` plus the weak grow terms, about
/// 100.0 million), so the rows come out in order and do not overlap.
/// Just where the rows start and how tall they are comes out of the
/// cassowary solver, whose internal hash maps are seeded per process; the
/// contract states nothing more of it.
#[verifier::external_body]
fn split_rows(area: Area, rows: &[Row]) -> (r: Vec<Area>)
    ensures
        r@.len() == rows@.len(),
        forall|i: int|
            0 <= i < r@.len() ==> #[trigger] r@[i].x == area.x && r@[i].width == area.width
                && within_rows(r@[i], area),
        forall|i: int, j: int|
            0 <= i < j < r@.len() ==> #[trigger] r@[i].y + r@[i].height <= #[trigger] r@[j].y,
{
    let constraints = rows.iter().map(|row| match row {
        Row::Length(n) => Constraint::Length(*n),
        Row::Min(n) => Constraint::Min(*n),
    });
    let rect = Rect { x: area.x, y: area.y, width: area.width, height: area.height };
    let rects = Layout::default().direction(Direction::Vertical).constraints(constraints).split(rect);
    rects.iter().map(|r| Area { x: r.x, y: r.y, width: r.width, height: r.height }).collect()
}

/// Whether a terminal of this size is drawn on at all.
pub fn frame_fits(width: u16, height: u16) -> (r: bool)
    ensures
        r == (width >= MIN_WIDTH && height >= MIN_HEIGHT),
{
    !(width < MIN_WIDTH || height < MIN_HEIGHT)
}

/// The tempo block inside the middle band: 8 lines tall (2 fewer when the
/// band is lower than that), centred vertically.
pub open spec fn spec_bpm_band(mid: Area) -> Area {
    let h: u16 = if mid.height >= 8 { 8 } else { sat_sub(mid.height, 2) };
    let top = sat_add(mid.y, ((mid.height - h) / 2) as u16);
    spec_rect_new(mid.x, top, mid.width, h)
}

/// The tempo block inside the middle band.
pub fn bpm_band(mid: Area) -> (r: Area)
    ensures
        r == spec_bpm_band(mid),
        within_rows(r, mid),
{
    let h: u16 = if mid.height >= 8 { 8 } else { mid.height.saturating_sub(2) };
    let top = mid.y.saturating_add((mid.height - h) / 2);
    rect_new(mid.x, top, mid.width, h)
}

/// Where each part of the screen goes.
#[derive(Clone, Copy, Debug, PartialEq, Eq, Structural)]
pub struct Regions {
    /// The inside of the frame.
    pub inner: Area,
    /// The key hints, on top.
    pub hint: Area,
    /// The tempo and time signature.
    pub bpm: Area,
    /// The beat dots, below the tempo.
    pub beats: Area,
    /// The status bar, at the bottom.
    pub status: Area,
}

/// The regions from the frame's inside, its three rows (hints, middle,
/// status) and the two rows of the tempo block (tempo, beat dots).
pub open spec fn spec_regions_from(inner: Area, rows: Seq<Area>, bpm_rows: Seq<Area>) -> Regions {
    Regions { inner, hint: rows[0], bpm: bpm_rows[0], beats: bpm_rows[1], status: rows[2] }
}

/// Assigns the rows of the layout to the parts of the screen.
pub fn regions_from(inner: Area, rows: &[Area], bpm_rows: &[Area]) -> (r: Regions)
    requires
        rows@.len() == 3,
        bpm_rows@.len() == 2,
    ensures
        r == spec_regions_from(inner, rows@, bpm_rows@),
{
    Regions { inner, hint: rows[0], bpm: bpm_rows[0], beats: bpm_rows[1], status: rows[2] }
}

/// The screen: too small to draw on, or laid out.
#[derive(Clone, Copy, Debug, PartialEq, Eq, Structural)]
pub enum Screen {
    TooSmall,
    Laid(Regions),
}

/// The rows the frame's inside is split into: the hints (2 lines), the
/// middle (at least 1 line) and the status bar (3 lines).
pub open spec fn spec_frame_rows() -> Seq<Row> {
    seq![Row::Length(2), Row::Min(1), Row::Length(3)]
}

/// The rows the frame's inside is split into.
pub fn frame_rows() -> (r: Vec<Row>)
    ensures
        r@ == spec_frame_rows(),
{
    vec![Row::Length(2), Row::Min(1), Row::Length(3)]
}

/// The rows the tempo block is split into: the tempo (4 lines) and the
/// beat dots (2 lines).
pub open spec fn spec_tempo_rows() -> Seq<Row> {
    seq![Row::Length(4), Row::Length(2)]
}

/// The rows the tempo block is split into.
pub fn tempo_rows() -> (r: Vec<Row>)
    ensures
        r@ == spec_tempo_rows(),
{
    vec![Row::Length(4), Row::Length(2)]
}

/// `rows` are `n` rows of `area` as a vertical split gives them: each
/// spans the area's columns and lies within its lines, and each ends
/// before the next begins.
pub open spec fn split_of(area: Area, rows: Seq<Area>, n: nat) -> bool {
    &&& rows.len() == n
    &&& forall|i: int|
        0 <= i < rows.len() ==> #[trigger] rows[i].x == area.x && rows[i].width == area.width
            && within_rows(rows[i], area)
    &&& forall|i: int, j: int|
        0 <= i < j < rows.len() ==> #[trigger] rows[i].y + rows[i].height <= #[trigger] rows[j].y
}

/// Lays out a terminal of size `area`. The frame's inside is split into
/// the `frame_rows`; the tempo block (`bpm_band`) of the middle one is
/// split into the `tempo_rows`. Where exactly the rows fall is the layout
/// solver's; what holds of every outcome is stated.
pub fn screen_layout(area: Area) -> (s: Screen)
    ensures
        !(area.width >= MIN_WIDTH && area.height >= MIN_HEIGHT) <==> s == Screen::TooSmall,
        s matches Screen::Laid(r) ==> {
            &&& exists|rows: Seq<Area>, bpm_rows: Seq<Area>|
                #![trigger spec_regions_from(spec_bordered_inner(area), rows, bpm_rows)]
                {
                    &&& split_of(spec_bordered_inner(area), rows, 3)
                    &&& split_of(spec_bpm_band(rows[1]), bpm_rows, 2)
                    &&& r == spec_regions_from(spec_bordered_inner(area), rows, bpm_rows)
                }
            &&& r.inner == spec_bordered_inner(area)
            &&& r.hint.x == r.inner.x && r.hint.width == r.inner.width
            &&& r.status.x == r.inner.x && r.status.width == r.inner.width
            &&& r.bpm.x == r.inner.x && r.bpm.width == spec_rect_new(r.inner.x, 0, r.inner.width, 0).width
            &&& r.beats.x == r.bpm.x && r.beats.width == r.bpm.width
            &&& within_rows(r.hint, r.inner)
            &&& within_rows(r.bpm, r.inner)
            &&& within_rows(r.beats, r.inner)
            &&& within_rows(r.status, r.inner)
            &&& r.hint.y + r.hint.height <= r.bpm.y
            &&& r.bpm.y + r.bpm.height <= r.beats.y
            &&& r.beats.y + r.beats.height <= r.status.y
        },
{
    if !frame_fits(area.width, area.height) {
        return Screen::TooSmall;
    }
    let inner = bordered_inner(area);
    let rows = frame_rows();
    let chunks = split_rows(inner, rows.as_slice());
    let band = bpm_band(chunks[1]);
    let bpm_rows = tempo_rows();
    let bpm_chunks = split_rows(band, bpm_rows.as_slice());
    assert(chunks@[0].x == inner.x && chunks@[1].x == inner.x && chunks@[2].x == inner.x);
    assert(bpm_chunks@[0].x == band.x && bpm_chunks@[1].x == band.x);
    assert(chunks@[0].y + chunks@[0].height <= chunks@[1].y);
    assert(chunks@[1].y + chunks@[1].height <= chunks@[2].y);
    assert(bpm_chunks@[0].y + bpm_chunks@[0].height <= bpm_chunks@[1].y);
    assert(within_rows(bpm_chunks@[0], band) && within_rows(bpm_chunks@[1], band));
    assert(within_rows(chunks@[1], inner));
    let r = regions_from(inner, chunks.as_slice(), bpm_chunks.as_slice());
    assert(split_of(inner, chunks@, 3));
    assert(split_of(spec_bpm_band(chunks@[1]), bpm_chunks@, 2));
    assert(r == spec_regions_from(spec_bordered_inner(area), chunks@, bpm_chunks@));
    Screen::Laid(r)
}

} // verus!
