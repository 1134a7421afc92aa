//! Places on the screen.

use vstd::prelude::*;

verus! {

/// A rectangle of cells.
#[derive(Clone, Copy, Debug, PartialEq, Eq, Structural)]
pub struct Rect {
    pub x: u16,
    pub y: u16,
    pub width: u16,
    pub height: u16,
}

/// The sum of two numbers, or the largest number.
pub open spec fn plus(a: u16, b: u16) -> u16 {
    if a + b > u16::MAX {
        u16::MAX
    } else {
        (a + b) as u16
    }
}

/// The difference of two numbers, or zero.
pub open spec fn minus(a: u16, b: u16) -> u16 {
    if a < b {
        0
    } else {
        (a - b) as u16
    }
}

/// The smaller of two numbers.
pub open spec fn least(a: u16, b: u16) -> u16 {
    if a < b {
        a
    } else {
        b
    }
}

/// The sum of two numbers, or the largest number.
pub fn sum(a: u16, b: u16) -> (result: u16)
    ensures
        result == plus(a, b),
{
    if b > u16::MAX - a {
        u16::MAX
    } else {
        a + b
    }
}

/// The difference of two numbers, or zero.
pub fn difference(a: u16, b: u16) -> (result: u16)
    ensures
        result == minus(a, b),
{
    if a < b {
        0
    } else {
        a - b
    }
}

/// The smaller of two numbers.
pub fn smaller(a: u16, b: u16) -> (result: u16)
    ensures
        result == least(a, b),
{
    if a < b {
        a
    } else {
        b
    }
}

/// A rectangle that is cut off where its coordinates would become too large.
pub open spec fn rect(x: u16, y: u16, width: u16, height: u16) -> Rect {
    Rect {
        x,
        y,
        width: least(width, (u16::MAX - x) as u16),
        height: least(height, (u16::MAX - y) as u16),
    }
}

impl Rect {
    /// A rectangle that is cut off where its coordinates would become too large.
    pub fn new(x: u16, y: u16, width: u16, height: u16) -> (result: Rect)
        ensures
            result == rect(x, y, width, height),
    {
        Rect {
            x,
            y,
            width: smaller(width, u16::MAX - x),
            height: smaller(height, u16::MAX - y),
        }
    }

    /// A rectangle of no cells.
    pub open spec fn zero() -> Rect {
        Rect { x: 0, y: 0, width: 0, height: 0 }
    }

    /// A rectangle of no cells.
    pub fn empty() -> (result: Rect)
        ensures
            result == Rect::zero(),
    {
        Rect { x: 0, y: 0, width: 0, height: 0 }
    }

    /// The first column to the right of the rectangle.
    pub open spec fn end_x(self) -> u16 {
        plus(self.x, self.width)
    }

    /// The first row below the rectangle.
    pub open spec fn end_y(self) -> u16 {
        plus(self.y, self.height)
    }

    /// The first column to the right of the rectangle.
    pub fn right(&self) -> (column: u16)
        ensures
            column == self.end_x(),
    {
        sum(self.x, self.width)
    }

    /// Whether a point lies in the rectangle.
    pub open spec fn holds(self, point: (u16, u16)) -> bool {
        self.x <= point.0 < self.end_x() && self.y <= point.1 < self.end_y()
    }

    /// Whether a point lies in the rectangle.
    pub fn contains(&self, point: (u16, u16)) -> (inside: bool)
        ensures
            inside == self.holds(point),
    {
        self.x <= point.0 && point.0 < sum(self.x, self.width) && self.y <= point.1 && point.1
            < sum(self.y, self.height)
    }

    /// The rectangle without the cells at its edges; one of no cells where nothing is left.
    pub open spec fn inside(self) -> Rect {
        if self.width < 2 || self.height < 2 {
            Rect::zero()
        } else {
            Rect {
                x: plus(self.x, 1),
                y: plus(self.y, 1),
                width: (self.width - 2) as u16,
                height: (self.height - 2) as u16,
            }
        }
    }

    /// The rectangle without the cells at its edges.
    pub fn inner(&self) -> (result: Rect)
        ensures
            result == self.inside(),
    {
        if self.width < 2 || self.height < 2 {
            Rect::empty()
        } else {
            Rect {
                x: sum(self.x, 1),
                y: sum(self.y, 1),
                width: self.width - 2,
                height: self.height - 2,
            }
        }
    }

    /// Whether the rectangle holds no cell.
    pub open spec fn bare(self) -> bool {
        self.width == 0 || self.height == 0
    }
}

impl Default for Rect {
    fn default() -> (result: Rect)
        ensures
            result == Rect::zero(),
    {
        Rect::empty()
    }
}

/// How much of a direction a part of the screen asks for.
#[derive(Clone, Copy, Debug, PartialEq, Eq, Structural)]
pub enum Constraint {
    Length(u16),
    Min(u16),
    Percentage(u16),
}

/// What a constraint asks for, in cells or in percent.
pub open spec fn amount(constraint: Constraint) -> nat {
    match constraint {
        Constraint::Length(n) => n as nat,
        Constraint::Min(n) => n as nat,
        Constraint::Percentage(n) => n as nat,
    }
}

/// What constraints ask for together.
pub open spec fn total(constraints: Seq<Constraint>) -> nat
    decreases constraints.len(),
{
    if constraints.len() == 0 {
        0
    } else {
        total(constraints.drop_last()) + amount(constraints.last())
    }
}

/// How many constraints ask for at least a number of cells.
pub open spec fn growing(constraints: Seq<Constraint>) -> nat
    decreases constraints.len(),
{
    if constraints.len() == 0 {
        0
    } else {
        growing(constraints.drop_last()) + if constraints.last() is Min {
            1nat
        } else {
            0nat
        }
    }
}

/// Whether all constraints are percentages, of no more than all there is.
pub open spec fn shares(constraints: Seq<Constraint>) -> bool {
    &&& forall|i: int| 0 <= i < constraints.len() ==> (#[trigger] constraints[i]) is Percentage
    &&& total(constraints) <= 100
}

/// Whether no constraint is a percentage, one of them can grow, and all of them fit.
pub open spec fn fits(constraints: Seq<Constraint>, size: u16) -> bool {
    &&& forall|i: int| 0 <= i < constraints.len() ==> !((#[trigger] constraints[i]) is Percentage)
    &&& forall|i: int|
        0 <= i < constraints.len() && (#[trigger] constraints[i]) is Min ==> amount(constraints[i])
            <= i16::MAX
    &&& growing(constraints) == 1
    &&& total(constraints) <= size
}

/// Where the part with a number starts, where the constraints can all be met: the parts stand one
/// behind the other, and the one that can grow gets what is left. Percentages are rounded to the
/// nearest cell.
pub open spec fn edge(constraints: Seq<Constraint>, size: u16, at: int) -> int {
    let before = constraints.take(at);
    if shares(constraints) {
        (total(before) * size + 50) / 100
    } else {
        total(before) + growing(before) * (size - total(constraints))
    }
}

/// A part of a rectangle, between two edges.
pub open spec fn part(downwards: bool, area: Rect, from: int, to: int) -> Rect {
    if downwards {
        Rect {
            x: area.x,
            y: (area.y + from) as u16,
            width: area.width,
            height: (to - from) as u16,
        }
    } else {
        Rect {
            x: (area.x + from) as u16,
            y: area.y,
            width: (to - from) as u16,
            height: area.height,
        }
    }
}

/// Whether a rectangle ends on the screen.
pub open spec fn ends(area: Rect) -> bool {
    area.x + area.width <= u16::MAX && area.y + area.height <= u16::MAX
}

/// The cells of a rectangle in a direction.
pub open spec fn extent_of(downwards: bool, area: Rect) -> u16 {
    if downwards {
        area.height
    } else {
        area.width
    }
}

/// Whether each part is as wide, or as high, as what is split.
pub open spec fn across(downwards: bool, area: Rect, parts: Seq<Rect>) -> bool {
    forall|i: int|
        0 <= i < parts.len() ==> if downwards {
            (#[trigger] parts[i]).x == area.x && parts[i].width == area.width
        } else {
            parts[i].y == area.y && parts[i].height == area.height
        }
}

/// Whether constraints that can all be met are met.
pub open spec fn met(
    downwards: bool,
    constraints: Seq<Constraint>,
    area: Rect,
    parts: Seq<Rect>,
) -> bool {
    let size = extent_of(downwards, area);
    ends(area) && (shares(constraints) || fits(constraints, size)) ==> forall|i: int|
        0 <= i < parts.len() ==> #[trigger] parts[i] == part(
            downwards,
            area,
            edge(constraints, size, i),
            edge(constraints, size, i + 1),
        )
}

/// Where a rectangle starts in a direction.
pub open spec fn start_of(downwards: bool, area: Rect) -> u16 {
    if downwards {
        area.y
    } else {
        area.x
    }
}

/// Whether each part stays between the edges of what is split.
pub open spec fn within(downwards: bool, area: Rect, parts: Seq<Rect>) -> bool {
    forall|i: int|
        0 <= i < parts.len() ==> start_of(downwards, area) <= start_of(
            downwards,
            #[trigger] parts[i],
        ) && start_of(downwards, parts[i]) + extent_of(downwards, parts[i]) <= plus(
            start_of(downwards, area),
            extent_of(downwards, area),
        )
}

/// Whether no constraint is a percentage, one of up to three can grow, and they do not all fit.
pub open spec fn presses(constraints: Seq<Constraint>, size: u16) -> bool {
    &&& constraints.len() <= 3
    &&& forall|i: int| 0 <= i < constraints.len() ==> !((#[trigger] constraints[i]) is Percentage)
    &&& forall|i: int|
        0 <= i < constraints.len() && (#[trigger] constraints[i]) is Min ==> amount(constraints[i])
            <= i16::MAX
    &&& growing(constraints) == 1
    &&& total(constraints) > size
}

/// Whether the parts stand one behind the other, from the one edge of what is split to the other.
pub open spec fn stacked(downwards: bool, area: Rect, parts: Seq<Rect>) -> bool {
    &&& start_of(downwards, parts[0]) == start_of(downwards, area)
    &&& forall|i: int, j: int|
        #![trigger parts[i], parts[j]]
        0 <= i < parts.len() && j == i + 1 && j < parts.len() ==> start_of(downwards, parts[j])
            == start_of(downwards, parts[i]) + extent_of(downwards, parts[i])
    &&& start_of(downwards, parts.last()) + extent_of(downwards, parts.last()) == start_of(
        downwards,
        area,
    ) + extent_of(downwards, area)
}

/// Whether, where there is no room for all, the part that can grow gets what it asks for as far as
/// there is room at all, and no other one gets more than it asks for.
pub open spec fn squeezed(
    downwards: bool,
    constraints: Seq<Constraint>,
    area: Rect,
    parts: Seq<Rect>,
) -> bool {
    let size = extent_of(downwards, area);
    ends(area) && presses(constraints, size) ==> {
        &&& stacked(downwards, area, parts)
        &&& forall|i: int|
            0 <= i < parts.len() ==> if constraints[i] is Min {
                extent_of(downwards, #[trigger] parts[i]) == if amount(constraints[i]) < size {
                    amount(constraints[i])
                } else {
                    size as nat
                }
            } else {
                extent_of(downwards, parts[i]) <= amount(constraints[i])
            }
    }
}

/// `Layout::split` of `ratatui`, downwards or to the right: one rectangle for each constraint, each
/// as wide, or as high, as what is split, and between its edges. Where the constraints can all be
/// met, they are. Where up to three of them cannot, the parts still fill what is split without gaps,
/// and the strongest constraint goes first, which is the one on the part that can grow. How the
/// others, which are equally strong, share what it leaves is up to the solver, and is not said here.
#[verifier::external_body]
fn split(downwards: bool, constraints: Vec<Constraint>, area: Rect) -> (parts: Vec<Rect>)
    ensures
        parts@.len() == constraints@.len(),
        across(downwards, area, parts@),
        within(downwards, area, parts@),
        met(downwards, constraints@, area, parts@),
        squeezed(downwards, constraints@, area, parts@),
{
    let wanted = constraints.iter().map(|constraint| match constraint {
        Constraint::Length(n) => ratatui::layout::Constraint::Length(*n),
        Constraint::Min(n) => ratatui::layout::Constraint::Min(*n),
        Constraint::Percentage(n) => ratatui::layout::Constraint::Percentage(*n),
    });
    let layout = match downwards {
        true => ratatui::layout::Layout::vertical(wanted),
        false => ratatui::layout::Layout::horizontal(wanted),
    };
    let parts = layout.split(ratatui::layout::Rect { x: area.x, y: area.y, width: area.width, height: area.height });
    parts.iter().map(|part| Rect { x: part.x, y: part.y, width: part.width, height: part.height }).collect()
}

/// Below this width there is no room for the spine beside the pane.
pub const COMPACT_WIDTH: u16 = 80;

/// The width of the spine beside the pane: a good quarter of the screen, between 24 and 44 columns,
/// and never so much that fewer than 20 are left.
pub open spec fn spine_width(width: u16) -> u16 {
    let quarter = width * 27 / 100;
    let wanted = if quarter < 24 {
        24
    } else if quarter > 44 {
        44
    } else {
        quarter
    };
    least(wanted as u16, minus(width, 20))
}

/// The width of the spine beside the pane.
pub fn sidebar_width(width: u16) -> (result: u16)
    ensures
        result == spine_width(width),
{
    let quarter: u32 = width as u32 * 27 / 100;
    let wanted: u16 = if quarter < 24 {
        24
    } else if quarter > 44 {
        44
    } else {
        quarter as u16
    };
    smaller(wanted, difference(width, 20))
}

/// What the body of the screen is split by: on a narrow screen either the spine or the pane gets
/// all of it.
pub open spec fn body_constraints(width: u16, nav_focused: bool) -> Seq<Constraint> {
    if width < COMPACT_WIDTH {
        if nav_focused {
            seq![Constraint::Min(0), Constraint::Length(0)]
        } else {
            seq![Constraint::Length(0), Constraint::Min(0)]
        }
    } else {
        seq![Constraint::Length(spine_width(width)), Constraint::Min(20)]
    }
}

/// What the body of the screen is split by.
pub fn body_split(width: u16, nav_focused: bool) -> (constraints: Vec<Constraint>)
    ensures
        constraints@ == body_constraints(width, nav_focused),
{
    let mut constraints: Vec<Constraint> = Vec::new();
    if width < COMPACT_WIDTH {
        if nav_focused {
            constraints.push(Constraint::Min(0));
            constraints.push(Constraint::Length(0));
        } else {
            constraints.push(Constraint::Length(0));
            constraints.push(Constraint::Min(0));
        }
    } else {
        constraints.push(Constraint::Length(sidebar_width(width)));
        constraints.push(Constraint::Min(20));
    }
    assert(constraints@ =~= body_constraints(width, nav_focused));
    constraints
}

/// The parts of the screen.
#[derive(Clone, Copy, Debug, PartialEq, Eq, Structural)]
pub struct ScreenLayout {
    pub screen: Rect,
    pub header: Rect,
    pub status: Rect,
    pub sidebar: Rect,
    pub pane: Rect,
    pub picker: Rect,
    pub confirmation: Rect,
    pub help: Rect,
    pub export_popup: Rect,
    pub message_popup: Rect,
    pub followup_popup: Rect,
}

/// How many rows of a screen the body gets: eight, as far as there is room, and all that the header
/// and the status lines do not need.
pub open spec fn body_rows(height: u16) -> u16 {
    if height >= 13 {
        (height - 5) as u16
    } else {
        least(8, height)
    }
}

/// Whether the header can have so many rows of a screen: three where there is room for everything.
/// Where there is not, it and the status lines share what the body leaves, and neither gets more than
/// it needs.
pub open spec fn header_fits(height: u16, header: u16) -> bool {
    &&& header <= 3
    &&& header + body_rows(height) <= height <= header + body_rows(height) + 2
}

/// The body of a screen, below a header of some rows.
pub open spec fn body_of(area: Rect, header: u16) -> Rect {
    Rect {
        x: area.x,
        y: (area.y + header) as u16,
        width: area.width,
        height: body_rows(area.height),
    }
}

/// The status lines of a screen, below a header of some rows and the body.
pub open spec fn status_of(area: Rect, header: u16) -> Rect {
    Rect {
        x: area.x,
        y: (area.y + header + body_rows(area.height)) as u16,
        width: area.width,
        height: (area.height - header - body_rows(area.height)) as u16,
    }
}

/// How many columns of the body the spine gets.
pub open spec fn spine_share(width: u16, nav_focused: bool) -> u16 {
    if width < COMPACT_WIDTH {
        if nav_focused {
            width
        } else {
            0
        }
    } else {
        spine_width(width)
    }
}

/// The spine on a screen.
pub open spec fn spine_of(area: Rect, header: u16, nav_focused: bool) -> Rect {
    let body = body_of(area, header);
    Rect { width: spine_share(body.width, nav_focused), ..body }
}

/// The pane on a screen.
pub open spec fn pane_of(area: Rect, header: u16, nav_focused: bool) -> Rect {
    let body = body_of(area, header);
    let spine = spine_share(body.width, nav_focused);
    Rect { x: (body.x + spine) as u16, width: (body.width - spine) as u16, ..body }
}

/// A share of a length in percent, rounded to the nearest cell.
pub open spec fn percent(share: int, length: u16) -> int {
    (share * length + 50) / 100
}

/// A rectangle of the given size, in percent, in the middle of another.
pub open spec fn middle_of(width: u16, height: u16, area: Rect) -> Rect {
    let above = (100 - height) / 2;
    let beside = (100 - width) / 2;
    Rect {
        x: (area.x + percent(beside, area.width)) as u16,
        y: (area.y + percent(above, area.height)) as u16,
        width: (percent(beside + width, area.width) - percent(beside, area.width)) as u16,
        height: (percent(above + height, area.height) - percent(above, area.height)) as u16,
    }
}

/// The parts of a screen whose header gets some rows.
pub open spec fn parts_of(area: Rect, header: u16, nav_focused: bool) -> ScreenLayout {
    let pane = pane_of(area, header, nav_focused);
    ScreenLayout {
        screen: area,
        header: Rect { height: header, ..area },
        status: status_of(area, header),
        sidebar: spine_of(area, header, nav_focused),
        pane,
        picker: middle_of(70, 55, area),
        confirmation: middle_of(58, 25, area),
        help: middle_of(58, 55, area),
        export_popup: middle_of(70, 35, pane),
        message_popup: middle_of(70, 25, pane),
        followup_popup: middle_of(78, 55, pane),
    }
}

proof fn lemma_two(first: Constraint, second: Constraint)
    ensures
        ({
            let both = seq![first, second];
            &&& both.take(0) =~= seq![]
            &&& both.take(1) =~= seq![first]
            &&& both.take(2) =~= both
            &&& both.drop_last() =~= seq![first]
            &&& total(seq![]) == 0
            &&& total(seq![first]) == amount(first)
            &&& total(both) == amount(first) + amount(second)
            &&& growing(seq![]) == 0
            &&& growing(seq![first]) == if first is Min {
                1nat
            } else {
                0nat
            }
            &&& growing(both) == growing(seq![first]) + if second is Min {
                1nat
            } else {
                0nat
            }
        }),
{
    let both = seq![first, second];
    assert(both.drop_last() =~= seq![first]);
    assert(seq![first].drop_last() =~= Seq::<Constraint>::empty());
    assert(both.take(1) =~= seq![first]);
    assert(both.take(0) =~= Seq::<Constraint>::empty());
    reveal_with_fuel(total, 3);
    reveal_with_fuel(growing, 3);
}

proof fn lemma_three(first: Constraint, second: Constraint, third: Constraint)
    ensures
        ({
            let all = seq![first, second, third];
            &&& all.take(0) =~= seq![]
            &&& all.take(1) =~= seq![first]
            &&& all.take(2) =~= seq![first, second]
            &&& all.take(3) =~= all
            &&& total(all) == amount(first) + amount(second) + amount(third)
            &&& growing(all) == growing(seq![first, second]) + if third is Min {
                1nat
            } else {
                0nat
            }
        }),
{
    let all = seq![first, second, third];
    lemma_two(first, second);
    assert(all.drop_last() =~= seq![first, second]);
    assert(all.take(2) =~= seq![first, second]);
    assert(all.take(1) =~= seq![first]);
    assert(all.take(0) =~= Seq::<Constraint>::empty());
    reveal_with_fuel(total, 2);
    reveal_with_fuel(growing, 2);
}

/// The header, the body and the status lines of the screen.
fn outer_areas(area: Rect) -> (areas: Vec<Rect>)
    ensures
        areas@.len() == 3,
        across(true, area, areas@),
        within(true, area, areas@),
        ends(area) ==> {
            let header = areas@[0].height;
            &&& header_fits(area.height, header)
            &&& areas@[0] == (Rect { height: header, ..area })
            &&& areas@[1] == body_of(area, header)
            &&& areas@[2] == status_of(area, header)
        },
{
    let mut constraints: Vec<Constraint> = Vec::new();
    constraints.push(Constraint::Length(3));
    constraints.push(Constraint::Min(8));
    constraints.push(Constraint::Length(2));
    let ghost wanted = constraints@;
    proof {
        let all = seq![Constraint::Length(3), Constraint::Min(8), Constraint::Length(2)];
        assert(wanted =~= all);
        lemma_two(Constraint::Length(3), Constraint::Min(8));
        lemma_three(Constraint::Length(3), Constraint::Min(8), Constraint::Length(2));
        assert(!(wanted[0] is Percentage));
    }
    let areas = split(true, constraints, area);
    proof {
        if ends(area) && area.height >= 13 {
            assert(fits(wanted, area.height));
            assert(areas@[0] == part(
                true,
                area,
                edge(wanted, area.height, 0),
                edge(wanted, area.height, 1),
            ));
            assert(areas@[1] == part(
                true,
                area,
                edge(wanted, area.height, 1),
                edge(wanted, area.height, 2),
            ));
            assert(areas@[2] == part(
                true,
                area,
                edge(wanted, area.height, 2),
                edge(wanted, area.height, 3),
            ));
        } else if ends(area) {
            assert(presses(wanted, area.height));
            assert(stacked(true, area, areas@));
            assert(areas@[0].x == area.x && areas@[1].x == area.x && areas@[2].x == area.x);
        }
    }
    areas
}

fn split_body(body: Rect, nav_focused: bool) -> (areas: Vec<Rect>)
    ensures
        areas@.len() == 2,
        across(false, body, areas@),
        ends(body) ==> {
            let spine = spine_share(body.width, nav_focused);
            &&& areas@[0] == (Rect { width: spine, ..body })
            &&& areas@[1] == (Rect {
                x: (body.x + spine) as u16,
                width: (body.width - spine) as u16,
                ..body
            })
        },
{
    let constraints = body_split(body.width, nav_focused);
    let ghost wanted = constraints@;
    proof {
        lemma_two(wanted[0], wanted[1]);
        assert(wanted =~= seq![wanted[0], wanted[1]]);
        assert(!(wanted[0] is Percentage));
        assert(fits(wanted, body.width));
    }
    let areas = split(false, constraints, body);
    proof {
        if ends(body) {
            let spine = spine_share(body.width, nav_focused);
            assert(edge(wanted, body.width, 0) == 0);
            assert(edge(wanted, body.width, 1) == spine);
            assert(edge(wanted, body.width, 2) == body.width);
            assert(areas@[0] == part(
                false,
                body,
                edge(wanted, body.width, 0),
                edge(wanted, body.width, 1),
            ));
            assert(areas@[1] == part(
                false,
                body,
                edge(wanted, body.width, 1),
                edge(wanted, body.width, 2),
            ));
        }
    }
    areas
}

/// Whether a screen is split into a spine and a pane as it should be.
pub open spec fn body_laid_out(areas: Seq<Rect>, area: Rect, nav_focused: bool) -> bool {
    &&& areas.len() == 2
    &&& areas[0].y == areas[1].y
    &&& areas[0].height == areas[1].height
    &&& ends(area) ==> {
        let header = (areas[0].y - area.y) as u16;
        &&& area.y <= areas[0].y
        &&& header_fits(area.height, header)
        &&& areas[0] == spine_of(area, header, nav_focused)
        &&& areas[1] == pane_of(area, header, nav_focused)
    }
}

/// The spine and the pane.
pub fn body_areas(area: Rect, nav_focused: bool) -> (areas: Vec<Rect>)
    ensures
        body_laid_out(areas@, area, nav_focused),
{
    let outer = outer_areas(area);
    let areas = split_body(outer[1], nav_focused);
    assert(areas@[0].y == outer@[1].y && areas@[1].y == outer@[1].y);
    areas
}

/// The middle part of three, of which the outer two share what the middle one does not get.
fn middle_part(downwards: bool, share: u16, area: Rect) -> (middle: Rect)
    requires
        share <= 100,
    ensures
        ends(area) ==> middle == part(
            downwards,
            area,
            percent(((100 - share) / 2) as int, extent_of(downwards, area)),
            percent((100 - share) / 2 + share, extent_of(downwards, area)),
        ),
{
    let outer: u16 = (100 - share) / 2;
    let mut constraints: Vec<Constraint> = Vec::new();
    constraints.push(Constraint::Percentage(outer));
    constraints.push(Constraint::Percentage(share));
    constraints.push(Constraint::Percentage(outer));
    let ghost wanted = constraints@;
    proof {
        let first = Constraint::Percentage(outer);
        let second = Constraint::Percentage(share);
        assert(wanted =~= seq![first, second, first]);
        lemma_two(first, second);
        lemma_three(first, second, first);
        assert(shares(wanted));
    }
    let parts = split(downwards, constraints, area);
    proof {
        if ends(area) {
            assert(parts@[1] == part(
                downwards,
                area,
                edge(wanted, extent_of(downwards, area), 1),
                edge(wanted, extent_of(downwards, area), 2),
            ));
        }
    }
    parts[1]
}

proof fn lemma_percent(share: int, length: u16)
    requires
        0 <= share <= 100,
    ensures
        0 <= percent(share, length) <= length,
{
    assert(0 <= share * length <= 100 * length) by (nonlinear_arith)
        requires
            0 <= share <= 100,
            0 <= length,
    ;
}

/// A rectangle of the given size, in percent, in the middle of another.
pub fn centered(width: u16, height: u16, area: Rect) -> (result: Rect)
    requires
        width <= 100,
        height <= 100,
    ensures
        ends(area) ==> result == middle_of(width, height, area),
{
    let rows = middle_part(true, height, area);
    proof {
        let above = ((100 - height) / 2) as int;
        lemma_percent(above, area.height);
        lemma_percent(above + height, area.height);
        assert(above * area.height <= (above + height) * area.height) by (nonlinear_arith)
            requires
                0 <= height,
                0 <= area.height,
        ;
    }
    middle_part(false, width, rows)
}

/// Whether a screen is split as it should be. On a screen of fewer than 13 rows the header and the
/// status lines share what the body leaves; all else is settled by how many rows the header gets.
pub open spec fn laid_out(layout: ScreenLayout, area: Rect, nav_focused: bool) -> bool {
    &&& layout.screen == area
    &&& layout.header.x == area.x && layout.header.width == area.width
    &&& layout.status.x == area.x && layout.status.width == area.width
    &&& layout.sidebar.y == layout.pane.y && layout.sidebar.height == layout.pane.height
    &&& ends(area) ==> header_fits(area.height, layout.header.height) && layout == parts_of(
        area,
        layout.header.height,
        nav_focused,
    )
}

/// Splits the screen into its parts.
pub fn screen_layout(area: Rect, nav_focused: bool) -> (layout: ScreenLayout)
    ensures
        laid_out(layout, area, nav_focused),
{
    let outer = outer_areas(area);
    let body = split_body(outer[1], nav_focused);
    let pane = body[1];
    let layout = ScreenLayout {
        screen: area,
        header: outer[0],
        status: outer[2],
        sidebar: body[0],
        pane,
        picker: centered(70, 55, area),
        confirmation: centered(58, 25, area),
        help: centered(58, 55, area),
        export_popup: centered(70, 35, pane),
        message_popup: centered(70, 25, pane),
        followup_popup: centered(78, 55, pane),
    };
    assert(outer@[0].x == area.x && outer@[2].x == area.x);
    assert(body@[0].y == outer@[1].y && body@[1].y == outer@[1].y);
    layout
}

/// The pane without its border and its line of tabs.
pub open spec fn below_tabs(pane: Rect) -> Rect {
    let inner = pane.inside();
    rect(inner.x, plus(inner.y, 1), inner.width, minus(inner.height, 1))
}

/// The pane without its border and its line of tabs.
pub fn pane_contents(pane: Rect) -> (area: Rect)
    ensures
        area == below_tabs(pane),
{
    let inner = pane.inner();
    Rect::new(inner.x, sum(inner.y, 1), inner.width, difference(inner.height, 1))
}

/// Whether the pane can start out in an area of a screen.
pub open spec fn starts_out(pane: Rect, area: Rect) -> bool {
    ends(area) ==> exists|header: u16| #[trigger]
        header_fits(area.height, header) && pane == below_tabs(pane_of(area, header, false))
}

/// Where the pane starts out on a screen.
pub fn initial_pane_area(area: Rect) -> (pane: Rect)
    ensures
        starts_out(pane, area),
{
    let areas = body_areas(area, false);
    assert(ends(area) ==> header_fits(area.height, (areas@[0].y - area.y) as u16));
    pane_contents(areas[1])
}

} // verus!
