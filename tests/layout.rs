use bjj_scoreboard::grid::{calc_grids, Rect, SplitDirection, SplitMode};

fn rect(min_x: i32, min_y: i32, max_x: i32, max_y: i32) -> Rect {
    Rect { min_x, min_y, max_x, max_y }
}

#[test]
fn logo_takes_the_bottom_right_corner() {
    let g = calc_grids(rect(0, 0, 500, 300));
    assert_eq!(g.time.logo, rect(416, 225, 500, 300));
    assert_eq!(g.time.full, rect(0, 225, 500, 300));
    assert_eq!(g.time.time, rect(0, 225, 138, 300));
    assert_eq!(g.time.fight_info_heading, rect(138, 225, 416, 262));
    assert_eq!(g.time.fight_info_sub_heading, rect(138, 262, 416, 300));
}

#[test]
fn competitor_panels_split_as_designed() {
    let g = calc_grids(rect(0, 0, 500, 300));
    let one = g.competitor_one;
    assert_eq!(one.full, rect(0, 0, 500, 112));
    assert_eq!(one.main, rect(0, 0, 416, 112));
    assert_eq!(one.points, rect(416, 0, 500, 112));
    assert_eq!(one.left, rect(0, 0, 378, 112));
    assert_eq!(one.right, rect(378, 0, 416, 112));
    assert_eq!(one.comp, rect(0, 0, 378, 74));
    assert_eq!(one.team, rect(0, 74, 378, 112));
    assert_eq!(one.flag, rect(0, 0, 47, 74));
    assert_eq!(one.name, rect(47, 0, 378, 74));
    assert_eq!(one.advantages, rect(378, 0, 416, 56));
    assert_eq!(one.penalties, rect(378, 56, 416, 112));
    let two = g.competitor_two;
    assert_eq!(two.full, rect(0, 112, 500, 225));
    assert_eq!(two.comp, rect(0, 112, 378, 187));
    assert_eq!(two.team, rect(0, 187, 378, 225));
    assert_eq!(two.advantages, rect(378, 112, 416, 168));
    assert_eq!(two.penalties, rect(378, 168, 416, 225));
}

#[test]
fn layout_is_the_same_on_every_call() {
    let viewport = rect(-20, 10, 1900, 1090);
    let a = calc_grids(viewport);
    let b = calc_grids(viewport);
    assert_eq!(a, b);
    assert_eq!(a.full, viewport);
}

#[test]
fn layout_parts_share_their_edges() {
    let g = calc_grids(rect(3, 7, 1283, 727));
    assert_eq!(g.competitor_one.full.max_y, g.competitor_two.full.min_y);
    assert_eq!(g.competitor_two.full.max_y, g.time.full.min_y);
    assert_eq!(g.time.full.max_y, 727);
    let c = g.competitor_two;
    assert_eq!(c.main.max_x, c.points.min_x);
    assert_eq!(c.points.max_x, 1283);
    assert_eq!(c.flag.max_x, c.name.min_x);
    assert_eq!(c.comp.max_y, c.team.min_y);
    assert_eq!(c.advantages.max_y, c.penalties.min_y);
    assert_eq!(c.penalties.max_y, c.full.max_y);
}

#[test]
fn empty_viewport_gives_empty_regions() {
    let g = calc_grids(rect(5, 5, 5, 5));
    assert_eq!(g.time.logo, rect(5, 5, 5, 5));
    assert_eq!(g.competitor_one.flag, rect(5, 5, 5, 5));
}

#[test]
fn split_exact_and_proportional() {
    let r = rect(10, 20, 110, 70);
    assert_eq!(
        r.split(SplitDirection::Horizontal, SplitMode::Exact, 30, 1),
        (rect(10, 20, 40, 70), rect(40, 20, 110, 70))
    );
    assert_eq!(
        r.split(SplitDirection::Vertical, SplitMode::Exact, 5, 2),
        (rect(10, 20, 110, 22), rect(10, 22, 110, 70))
    );
    assert_eq!(
        r.split_h(SplitMode::Proportional, 1, 4),
        (rect(10, 20, 35, 70), rect(35, 20, 110, 70))
    );
    assert_eq!(
        r.split_v(SplitMode::Proportional, 1, 1),
        (rect(10, 20, 110, 70), rect(10, 70, 110, 70))
    );
}

#[test]
fn split_of_the_widest_rectangle() {
    let r = rect(i32::MIN, 0, i32::MAX, 1);
    let (a, b) = r.split_h(SplitMode::Proportional, u32::MAX - 1, u32::MAX);
    assert_eq!(a.max_x, b.min_x);
    assert_eq!(b.max_x, i32::MAX);
    assert_eq!(a.max_x, i32::MAX - 1);
}
