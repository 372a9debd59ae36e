use vstd::prelude::*;

verus! {

/// An axis-aligned rectangle in integer screen units; `min` is the top-left
/// corner and `max` the bottom-right one.
#[derive(Debug, Clone, Copy, PartialEq, Eq, Structural)]
pub struct Rect {
    pub min_x: i32,
    pub min_y: i32,
    pub max_x: i32,
    pub max_y: i32,
}

/// Which extent a split divides: `Horizontal` cuts the width (left | right),
/// `Vertical` cuts the height (top / bottom).
#[derive(Debug, Clone, Copy, PartialEq, Eq, Structural)]
pub enum SplitDirection {
    Horizontal,
    Vertical,
}

/// How a split position is read: as an offset from the rectangle's origin, or
/// as a fraction of the rectangle's extent.
#[derive(Debug, Clone, Copy, PartialEq, Eq, Structural)]
pub enum SplitMode {
    Exact,
    Proportional,
}

/// Where a split of the interval `[lo, hi]` at position `num / den` falls,
/// rounded down to a whole unit.
pub open spec fn cut_point(lo: int, hi: int, mode: SplitMode, num: int, den: int) -> int {
    match mode {
        SplitMode::Exact => lo + num / den,
        SplitMode::Proportional => lo + (hi - lo) * num / den,
    }
}

/// Whether position `num / den` lies inside an interval of length `extent`.
pub open spec fn position_ok(extent: int, mode: SplitMode, num: int, den: int) -> bool {
    &&& den > 0
    &&& num >= 0
    &&& match mode {
        SplitMode::Exact => num / den <= extent,
        SplitMode::Proportional => num <= den,
    }
}

/// The rectangle spanning from `a`'s top-left corner to `b`'s bottom-right one.
pub open spec fn hull(a: Rect, b: Rect) -> Rect {
    Rect { min_x: a.min_x, min_y: a.min_y, max_x: b.max_x, max_y: b.max_y }
}

impl Rect {
    pub open spec fn wf(self) -> bool {
        self.min_x <= self.max_x && self.min_y <= self.max_y
    }

    pub open spec fn extent(self, direction: SplitDirection) -> int {
        match direction {
            SplitDirection::Horizontal => self.max_x - self.min_x,
            SplitDirection::Vertical => self.max_y - self.min_y,
        }
    }

    /// The point `(x, y)` lies in the rectangle, its right and bottom edges
    /// excluded.
    pub open spec fn contains(self, x: int, y: int) -> bool {
        self.min_x <= x < self.max_x && self.min_y <= y < self.max_y
    }

    /// `a` and `b` cover exactly this rectangle and share no point.
    pub open spec fn tiled_by(self, a: Rect, b: Rect) -> bool {
        &&& a.wf()
        &&& b.wf()
        &&& forall|x: int, y: int|
            #[trigger] self.contains(x, y) <==> (a.contains(x, y) || b.contains(x, y))
        &&& forall|x: int, y: int| !(#[trigger] a.contains(x, y) && #[trigger] b.contains(x, y))
    }

    pub open spec fn split_ok(self, direction: SplitDirection, mode: SplitMode, num: int, den: int) -> bool {
        self.wf() && position_ok(self.extent(direction), mode, num, den)
    }

    /// The two parts of a split: the one at the origin side first.
    pub open spec fn split_parts(self, direction: SplitDirection, mode: SplitMode, num: int, den: int) -> (Rect, Rect) {
        match direction {
            SplitDirection::Vertical => {
                let c = cut_point(self.min_y as int, self.max_y as int, mode, num, den) as i32;
                (Rect { max_y: c, ..self }, Rect { min_y: c, ..self })
            },
            SplitDirection::Horizontal => {
                let c = cut_point(self.min_x as int, self.max_x as int, mode, num, den) as i32;
                (Rect { max_x: c, ..self }, Rect { min_x: c, ..self })
            },
        }
    }

    /// Splits the rectangle in two along `direction` at position `num / den`.
    pub fn split(&self, direction: SplitDirection, mode: SplitMode, num: u32, den: u32) -> (r: (Rect, Rect))
        requires
            self.split_ok(direction, mode, num as int, den as int),
        ensures
            r == self.split_parts(direction, mode, num as int, den as int),
            r.0.wf(),
            r.1.wf(),
    {
        match direction {
            SplitDirection::Vertical => {
                let c = cut(self.min_y, self.max_y, mode, num, den);
                (
                    Rect { min_x: self.min_x, min_y: self.min_y, max_x: self.max_x, max_y: c },
                    Rect { min_x: self.min_x, min_y: c, max_x: self.max_x, max_y: self.max_y },
                )
            },
            SplitDirection::Horizontal => {
                let c = cut(self.min_x, self.max_x, mode, num, den);
                (
                    Rect { min_x: self.min_x, min_y: self.min_y, max_x: c, max_y: self.max_y },
                    Rect { min_x: c, min_y: self.min_y, max_x: self.max_x, max_y: self.max_y },
                )
            },
        }
    }

    /// Splits into a top and a bottom part.
    pub fn split_v(&self, mode: SplitMode, num: u32, den: u32) -> (r: (Rect, Rect))
        requires
            self.split_ok(SplitDirection::Vertical, mode, num as int, den as int),
        ensures
            r == self.split_parts(SplitDirection::Vertical, mode, num as int, den as int),
            r.0.wf(),
            r.1.wf(),
    {
        self.split(SplitDirection::Vertical, mode, num, den)
    }

    /// Splits into a left and a right part.
    pub fn split_h(&self, mode: SplitMode, num: u32, den: u32) -> (r: (Rect, Rect))
        requires
            self.split_ok(SplitDirection::Horizontal, mode, num as int, den as int),
        ensures
            r == self.split_parts(SplitDirection::Horizontal, mode, num as int, den as int),
            r.0.wf(),
            r.1.wf(),
    {
        self.split(SplitDirection::Horizontal, mode, num, den)
    }
}

proof fn lemma_fraction_within(extent: int, num: int, den: int)
    requires
        0 <= extent,
        0 <= num <= den,
        0 < den,
    ensures
        0 <= extent * num / den <= extent,
{
    assert(0 <= extent * num <= extent * den) by (nonlinear_arith)
        requires
            0 <= extent,
            0 <= num <= den,
    ;
    vstd::arithmetic::div_mod::lemma_div_is_ordered(extent * num, extent * den, den);
    vstd::arithmetic::div_mod::lemma_div_by_multiple(extent, den);
    vstd::arithmetic::div_mod::lemma_div_pos_is_pos(extent * num, den);
}

/// The split point of `[lo, hi]` at `num / den`.
fn cut(lo: i32, hi: i32, mode: SplitMode, num: u32, den: u32) -> (c: i32)
    requires
        lo <= hi,
        position_ok(hi - lo, mode, num as int, den as int),
    ensures
        c == cut_point(lo as int, hi as int, mode, num as int, den as int),
        lo <= c <= hi,
{
    let extent: u64 = (hi as i64 - lo as i64) as u64;
    let offset: u64 = match mode {
        SplitMode::Exact => num as u64 / den as u64,
        SplitMode::Proportional => {
            proof {
                lemma_fraction_within(extent as int, num as int, den as int);
                assert(extent * num <= extent * den) by (nonlinear_arith)
                    requires
                        num <= den,
                ;
                assert(extent * den <= 0xffff_ffff * 0xffff_ffffu64) by (nonlinear_arith)
                    requires
                        extent <= 0xffff_ffff,
                        den <= 0xffff_ffff,
                ;
            }
            extent * (num as u64) / (den as u64)
        },
    };
    (lo as i64 + offset as i64) as i32
}

/// Regions of the bottom panel.
#[derive(Debug, Clone, Copy, PartialEq, Eq, Structural)]
pub struct TimeGrid {
    pub full: Rect,
    pub time: Rect,
    pub fight_info_heading: Rect,
    pub fight_info_sub_heading: Rect,
    pub logo: Rect,
}

/// Regions of one competitor's panel.
#[derive(Debug, Clone, Copy, PartialEq, Eq, Structural)]
pub struct CompetitorGrid {
    pub full: Rect,
    pub main: Rect,
    pub left: Rect,
    pub right: Rect,
    pub comp: Rect,
    pub flag: Rect,
    pub name: Rect,
    pub team: Rect,
    pub points: Rect,
    pub advantages: Rect,
    pub penalties: Rect,
}

/// The whole scoreboard: two competitor panels above the time panel.
#[derive(Debug, Clone, Copy, PartialEq, Eq, Structural)]
pub struct MatchGrid {
    pub full: Rect,
    pub competitor_one: CompetitorGrid,
    pub competitor_two: CompetitorGrid,
    pub time: TimeGrid,
}

/// Left five sixths hold the clock (first third) and the fight information
/// (heading above sub-heading); the right sixth holds the logo.
pub open spec fn time_grid_of(rect: Rect) -> TimeGrid {
    let (left, logo) = rect.split_parts(SplitDirection::Horizontal, SplitMode::Proportional, 5, 6);
    let (time, fight_info) = left.split_parts(SplitDirection::Horizontal, SplitMode::Proportional, 1, 3);
    let (heading, sub_heading) = fight_info.split_parts(SplitDirection::Vertical, SplitMode::Proportional, 1, 2);
    TimeGrid {
        full: rect,
        time,
        fight_info_heading: heading,
        fight_info_sub_heading: sub_heading,
        logo,
    }
}

/// The right sixth holds the points; of the rest, the last eleventh holds
/// advantages above penalties, and the remainder holds flag and name (top two
/// thirds, the flag in the first eighth) above the team.
pub open spec fn competitor_grid_of(rect: Rect) -> CompetitorGrid {
    let (main, points) = rect.split_parts(SplitDirection::Horizontal, SplitMode::Proportional, 5, 6);
    let (left, right) = main.split_parts(SplitDirection::Horizontal, SplitMode::Proportional, 10, 11);
    let (comp, team) = left.split_parts(SplitDirection::Vertical, SplitMode::Proportional, 2, 3);
    let (flag, name) = comp.split_parts(SplitDirection::Horizontal, SplitMode::Proportional, 1, 8);
    let (advantages, penalties) = right.split_parts(SplitDirection::Vertical, SplitMode::Proportional, 1, 2);
    CompetitorGrid { full: rect, main, left, right, comp, flag, name, team, points, advantages, penalties }
}

/// The top three quarters hold the two competitor panels, one above the
/// other; the bottom quarter holds the time panel.
pub open spec fn match_grid_of(rect: Rect) -> MatchGrid {
    let (top, bottom) = rect.split_parts(SplitDirection::Vertical, SplitMode::Proportional, 3, 4);
    let (one, two) = top.split_parts(SplitDirection::Vertical, SplitMode::Proportional, 1, 2);
    MatchGrid {
        full: rect,
        competitor_one: competitor_grid_of(one),
        competitor_two: competitor_grid_of(two),
        time: time_grid_of(bottom),
    }
}

/// Every split of the scoreboard layout is computed from `rect` alone.
pub fn calc_grids(rect: Rect) -> (g: MatchGrid)
    requires
        rect.wf(),
    ensures
        g == match_grid_of(rect),
{
    let (top, bottom) = rect.split_v(SplitMode::Proportional, 3, 4);
    let (top, middle) = top.split_v(SplitMode::Proportional, 1, 2);

    let competitor_one = calc_competitor_grid(top);
    let competitor_two = calc_competitor_grid(middle);

    let time = calc_time_grid(bottom);

    MatchGrid { full: rect, competitor_one, competitor_two, time }
}

fn calc_time_grid(rect: Rect) -> (g: TimeGrid)
    requires
        rect.wf(),
    ensures
        g == time_grid_of(rect),
{
    let (left, logo) = rect.split_h(SplitMode::Proportional, 5, 6);
    let (time, fight_info) = left.split_h(SplitMode::Proportional, 1, 3);
    let (fight_info_heading, fight_info_sub_heading) = fight_info.split_v(SplitMode::Proportional, 1, 2);

    TimeGrid { full: rect, time, fight_info_heading, fight_info_sub_heading, logo }
}

fn calc_competitor_grid(rect: Rect) -> (g: CompetitorGrid)
    requires
        rect.wf(),
    ensures
        g == competitor_grid_of(rect),
{
    let (main, points) = rect.split_h(SplitMode::Proportional, 5, 6);
    let (left, right) = main.split_h(SplitMode::Proportional, 10, 11);
    let (comp, team) = left.split_v(SplitMode::Proportional, 2, 3);
    let (flag, name) = comp.split_h(SplitMode::Proportional, 1, 8);
    let (advantages, penalties) = right.split_v(SplitMode::Proportional, 1, 2);

    CompetitorGrid { full: rect, main, left, right, comp, flag, name, team, points, advantages, penalties }
}

/// Each split of a competitor panel tiles the region it divides.
pub open spec fn competitor_grid_tiles(g: CompetitorGrid) -> bool {
    &&& g.full.tiled_by(g.main, g.points)
    &&& g.main.tiled_by(g.left, g.right)
    &&& g.left.tiled_by(g.comp, g.team)
    &&& g.comp.tiled_by(g.flag, g.name)
    &&& g.right.tiled_by(g.advantages, g.penalties)
}

/// Each split of the time panel tiles the region it divides; the regions that
/// the panel does not keep are rebuilt as hulls of their parts.
pub open spec fn time_grid_tiles(g: TimeGrid) -> bool {
    let fight_info = hull(g.fight_info_heading, g.fight_info_sub_heading);
    let left = hull(g.time, fight_info);
    &&& g.full.tiled_by(left, g.logo)
    &&& left.tiled_by(g.time, fight_info)
    &&& fight_info.tiled_by(g.fight_info_heading, g.fight_info_sub_heading)
}

/// The two parts of a split inside the rectangle tile it.
pub proof fn lemma_split_tiles(rect: Rect, direction: SplitDirection, mode: SplitMode, num: int, den: int)
    requires
        rect.split_ok(direction, mode, num, den),
    ensures
        rect.tiled_by(rect.split_parts(direction, mode, num, den).0, rect.split_parts(direction, mode, num, den).1),
{
    let lo = if direction == SplitDirection::Horizontal { rect.min_x as int } else { rect.min_y as int };
    let hi = if direction == SplitDirection::Horizontal { rect.max_x as int } else { rect.max_y as int };
    if mode == SplitMode::Proportional {
        lemma_fraction_within(hi - lo, num, den);
    } else {
        vstd::arithmetic::div_mod::lemma_div_pos_is_pos(num, den);
    }
    assert(lo <= cut_point(lo, hi, mode, num, den) <= hi);
}

proof fn lemma_competitor_grid_tiles(rect: Rect)
    requires
        rect.wf(),
    ensures
        competitor_grid_tiles(competitor_grid_of(rect)),
{
    let g = competitor_grid_of(rect);
    lemma_split_tiles(rect, SplitDirection::Horizontal, SplitMode::Proportional, 5, 6);
    lemma_split_tiles(g.main, SplitDirection::Horizontal, SplitMode::Proportional, 10, 11);
    lemma_split_tiles(g.left, SplitDirection::Vertical, SplitMode::Proportional, 2, 3);
    lemma_split_tiles(g.comp, SplitDirection::Horizontal, SplitMode::Proportional, 1, 8);
    lemma_split_tiles(g.right, SplitDirection::Vertical, SplitMode::Proportional, 1, 2);
}

proof fn lemma_time_grid_tiles(rect: Rect)
    requires
        rect.wf(),
    ensures
        time_grid_tiles(time_grid_of(rect)),
{
    let (left, logo) = rect.split_parts(SplitDirection::Horizontal, SplitMode::Proportional, 5, 6);
    let (time, fight_info) = left.split_parts(SplitDirection::Horizontal, SplitMode::Proportional, 1, 3);
    lemma_split_tiles(rect, SplitDirection::Horizontal, SplitMode::Proportional, 5, 6);
    lemma_split_tiles(left, SplitDirection::Horizontal, SplitMode::Proportional, 1, 3);
    lemma_split_tiles(fight_info, SplitDirection::Vertical, SplitMode::Proportional, 1, 2);
}

/// The layout is a function of the viewport alone, and every split in it tiles
/// its parent: the parts cover the parent and do not overlap.
pub proof fn lemma_layout_tiles(a: Rect, b: Rect)
    requires
        a.wf(),
    ensures
        a == b ==> match_grid_of(a) == match_grid_of(b),
        ({
            let g = match_grid_of(a);
            let top = hull(g.competitor_one.full, g.competitor_two.full);
            &&& a.tiled_by(top, g.time.full)
            &&& top.tiled_by(g.competitor_one.full, g.competitor_two.full)
            &&& competitor_grid_tiles(g.competitor_one)
            &&& competitor_grid_tiles(g.competitor_two)
            &&& time_grid_tiles(g.time)
        }),
{
    let (top, bottom) = a.split_parts(SplitDirection::Vertical, SplitMode::Proportional, 3, 4);
    let (one, two) = top.split_parts(SplitDirection::Vertical, SplitMode::Proportional, 1, 2);
    lemma_split_tiles(a, SplitDirection::Vertical, SplitMode::Proportional, 3, 4);
    lemma_split_tiles(top, SplitDirection::Vertical, SplitMode::Proportional, 1, 2);
    lemma_competitor_grid_tiles(one);
    lemma_competitor_grid_tiles(two);
    lemma_time_grid_tiles(bottom);
}

} // verus!
