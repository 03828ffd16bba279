//! The screen regions of the tabs, for telling which tab a mouse click hit.

use vstd::prelude::*;
use crate::geometry::{Pos2, Rect};
use crate::text::is_text;

verus! {

/// The region that a tab was last painted in.
struct Region {
    rect: Rect,
    name: String,
}

/// A tab's region as the registry's model holds it.
#[verifier::ext_equal]
pub struct RegionView {
    pub rect: Rect,
    pub name: Seq<char>,
}

impl View for Region {
    type V = RegionView;

    closed spec fn view(&self) -> RegionView {
        RegionView { rect: self.rect, name: self.name@ }
    }
}

impl DeepView for Region {
    type V = RegionView;

    closed spec fn deep_view(&self) -> RegionView {
        self@
    }
}

/// Where the first region named `name` stands at or after `from`; the
/// number of regions where there is none.
pub open spec fn named_at(regions: Seq<RegionView>, name: Seq<char>, from: int) -> int
    decreases regions.len() - from,
{
    if from < 0 || from >= regions.len() {
        regions.len() as int
    } else if regions[from].name == name {
        from
    } else {
        named_at(regions, name, from + 1)
    }
}

/// Where the first region that holds `pos` stands at or after `from`; the
/// number of regions where there is none.
pub open spec fn covering_at(regions: Seq<RegionView>, pos: Pos2, from: int) -> int
    decreases regions.len() - from,
{
    if from < 0 || from >= regions.len() {
        regions.len() as int
    } else if regions[from].rect.covers(pos) {
        from
    } else {
        covering_at(regions, pos, from + 1)
    }
}

/// Where the first region that is exactly `rect` stands at or after `from`;
/// the number of regions where there is none.
pub open spec fn placed_at(regions: Seq<RegionView>, rect: Rect, from: int) -> int
    decreases regions.len() - from,
{
    if from < 0 || from >= regions.len() {
        regions.len() as int
    } else if regions[from].rect == rect {
        from
    } else {
        placed_at(regions, rect, from + 1)
    }
}

/// The regions after the tab `name` was painted in `rect`: its region is
/// moved there if it had one, and added at the end if it had none.
pub open spec fn painted(regions: Seq<RegionView>, name: Seq<char>, rect: Rect) -> Seq<
    RegionView,
> {
    let at = named_at(regions, name, 0);
    if at < regions.len() {
        regions.update(at, RegionView { rect, name })
    } else {
        regions.push(RegionView { rect, name })
    }
}

/// The name of the region at `at`, if there is one.
pub open spec fn name_at(regions: Seq<RegionView>, at: int) -> Option<Seq<char>> {
    if 0 <= at < regions.len() {
        Some(regions[at].name)
    } else {
        None
    }
}

/// `named_at` finds the first region of that name, and none stands before
/// it.
pub proof fn lemma_named_at(regions: Seq<RegionView>, name: Seq<char>, from: int)
    requires
        0 <= from <= regions.len(),
    ensures
        from <= named_at(regions, name, from) <= regions.len(),
        named_at(regions, name, from) < regions.len() ==> regions[named_at(
            regions,
            name,
            from,
        )].name == name,
        forall|at: int|
            from <= at < named_at(regions, name, from) ==> (#[trigger] regions[at]).name != name,
    decreases regions.len() - from,
{
    if from < regions.len() && regions[from].name != name {
        lemma_named_at(regions, name, from + 1);
    }
}

/// `covering_at` finds the first region that holds the point, and none
/// before it does.
pub proof fn lemma_covering_at(regions: Seq<RegionView>, pos: Pos2, from: int)
    requires
        0 <= from <= regions.len(),
    ensures
        from <= covering_at(regions, pos, from) <= regions.len(),
        covering_at(regions, pos, from) < regions.len() ==> regions[covering_at(
            regions,
            pos,
            from,
        )].rect.covers(pos),
        forall|at: int|
            from <= at < covering_at(regions, pos, from) ==> !(#[trigger] regions[at]).rect.covers(
                pos,
            ),
    decreases regions.len() - from,
{
    if from < regions.len() && !regions[from].rect.covers(pos) {
        lemma_covering_at(regions, pos, from + 1);
    }
}

/// `placed_at` finds the first region that is exactly the rectangle, and
/// none before it is.
pub proof fn lemma_placed_at(regions: Seq<RegionView>, rect: Rect, from: int)
    requires
        0 <= from <= regions.len(),
    ensures
        from <= placed_at(regions, rect, from) <= regions.len(),
        placed_at(regions, rect, from) < regions.len() ==> regions[placed_at(
            regions,
            rect,
            from,
        )].rect == rect,
        forall|at: int|
            from <= at < placed_at(regions, rect, from) ==> (#[trigger] regions[at]).rect != rect,
    decreases regions.len() - from,
{
    if from < regions.len() && regions[from].rect != rect {
        lemma_placed_at(regions, rect, from + 1);
    }
}

/// Painting a tab a second time moves its region and adds none: the tab
/// is still found where it was, now with the new rectangle.
pub proof fn lemma_repaint_moves(
    regions: Seq<RegionView>,
    name: Seq<char>,
    first: Rect,
    second: Rect,
)
    ensures
        ({
            let once = painted(regions, name, first);
            let twice = painted(once, name, second);
            &&& twice.len() == once.len()
            &&& named_at(twice, name, 0) == named_at(once, name, 0)
            &&& named_at(once, name, 0) < once.len()
            &&& twice[named_at(twice, name, 0)] == (RegionView { rect: second, name })
        }),
{
    let once = painted(regions, name, first);
    let at = named_at(regions, name, 0);
    lemma_named_at(regions, name, 0);
    lemma_named_at(once, name, 0);
    let found = named_at(once, name, 0);
    assert(once[at].name == name);
    assert(found == at);
    let twice = painted(once, name, second);
    lemma_named_at(twice, name, 0);
    let again = named_at(twice, name, 0);
    assert(twice[at].name == name);
    assert(again == at);
}

/// The region of a tab that was painted from `start` and ended `dx` cells
/// to the right and `dy` cells below.
pub fn painted_rect(start: Pos2, dx: u16, dy: u16) -> (rect: Rect)
    requires
        start.x + dx <= u16::MAX,
        start.y + dy <= u16::MAX,
    ensures
        rect.min == start,
        rect.max.x == start.x + dx,
        rect.max.y == start.y + dy,
        rect.covers(start),
{
    Rect { min: start, max: Pos2 { x: start.x + dx, y: start.y + dy } }
}

/// The registry of the tabs' screen regions.
pub struct TabRegions {
    map: Vec<Region>,
}

impl View for TabRegions {
    type V = Seq<RegionView>;

    closed spec fn view(&self) -> Seq<RegionView> {
        self.map.deep_view()
    }
}

impl Default for TabRegions {
    fn default() -> (regions: TabRegions)
        ensures
            regions@ == Seq::<RegionView>::empty(),
    {
        TabRegions::new()
    }
}

impl TabRegions {
    /// A registry that holds no region.
    pub fn new() -> (regions: TabRegions)
        ensures
            regions@ == Seq::<RegionView>::empty(),
    {
        let regions = TabRegions { map: Vec::new() };
        regions
    }

    /// Records that the tab `name` was painted in `rect`.
    pub fn insert(&mut self, name: &str, rect: Rect)
        ensures
            final(self)@ == painted(old(self)@, name@, rect),
    {
        let n = self.map.len();
        let mut at: usize = 0;
        while at < n && !is_text(&self.map[at].name, name)
            invariant
                n == self.map.len(),
                at <= n,
                *self == *old(self),
                named_at(self@, name@, 0) == named_at(self@, name@, at as int),
            decreases n - at,
        {
            at += 1;
        }
        proof {
            lemma_named_at(self@, name@, at as int);
        }
        let region = Region { rect, name: name.to_owned() };
        if at < n {
            self.map.set(at, region);
        } else {
            self.map.push(region);
        }
    }

    /// Every region with its tab's name, in the order in which the tabs
    /// were first painted.
    pub fn get_all(&self) -> (all: Vec<(Rect, String)>)
        ensures
            all.len() == self@.len(),
            forall|at: int|
                0 <= at < all.len() ==> all[at].0 == self@[at].rect && all[at].1@
                    == self@[at].name,
    {
        let n = self.map.len();
        let mut all: Vec<(Rect, String)> = Vec::new();
        let mut at: usize = 0;
        while at < n
            invariant
                n == self.map.len(),
                at <= n,
                all.len() == at,
                forall|i: int|
                    0 <= i < at ==> all[i].0 == self@[i].rect && all[i].1@ == self@[i].name,
            decreases n - at,
        {
            all.push((self.map[at].rect, self.map[at].name.clone()));
            at += 1;
        }
        all
    }

    /// The name of the first tab whose region holds `pos`.
    pub fn containing_point(&self, pos: Pos2) -> (name: Option<String>)
        ensures
            name.deep_view() == name_at(self@, covering_at(self@, pos, 0)),
    {
        let n = self.map.len();
        let mut at: usize = 0;
        while at < n && !self.map[at].rect.contains(pos)
            invariant
                n == self.map.len(),
                at <= n,
                covering_at(self@, pos, 0) == covering_at(self@, pos, at as int),
            decreases n - at,
        {
            at += 1;
        }
        proof {
            lemma_covering_at(self@, pos, at as int);
        }
        if at < n {
            Some(self.map[at].name.clone())
        } else {
            None
        }
    }

    /// The name of the first tab whose region is exactly `rect`.
    pub fn get(&self, rect: Rect) -> (name: Option<String>)
        ensures
            name.deep_view() == name_at(self@, placed_at(self@, rect, 0)),
    {
        let n = self.map.len();
        let mut at: usize = 0;
        while at < n && !(self.map[at].rect == rect)
            invariant
                n == self.map.len(),
                at <= n,
                placed_at(self@, rect, 0) == placed_at(self@, rect, at as int),
            decreases n - at,
        {
            at += 1;
        }
        proof {
            lemma_placed_at(self@, rect, at as int);
        }
        if at < n {
            Some(self.map[at].name.clone())
        } else {
            None
        }
    }
}

} // verus!
