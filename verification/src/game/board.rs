use vstd::prelude::*;

use crate::game::Tile;
use crate::template::{BoardTemplate, FieldTemplate, HomeTemplate, Position};

verus! {

/// A per-field inventory of the four resources.
#[derive(Debug, PartialEq, Eq, Structural, Hash, Clone, Copy)]
pub struct ResourceField {
    pub wood: u32,
    pub metal: u32,
    pub oil: u32,
    pub food: u32,
}

/// `u32` addition saturating at the type's cap.
pub open spec fn sat_add_u32(a: int, b: int) -> int {
    if a + b > u32::MAX { u32::MAX as int } else { a + b }
}

/// `u32` multiplication saturating at the type's cap.
pub open spec fn sat_mul_u32(a: int, b: int) -> int {
    if a * b > u32::MAX { u32::MAX as int } else { a * b }
}

impl ResourceField {
    pub open spec fn spec_empty() -> ResourceField {
        ResourceField { wood: 0, metal: 0, oil: 0, food: 0 }
    }

    /// Sum of the four counts, saturating at the `u32` cap.
    pub open spec fn spec_total(self) -> int {
        sat_add_u32(
            sat_add_u32(sat_add_u32(self.wood as int, self.metal as int), self.oil as int),
            self.food as int,
        )
    }

    /// Componentwise addition, each component saturating at the `u32` cap.
    pub open spec fn spec_add(self, rhs: ResourceField) -> ResourceField {
        ResourceField {
            wood: sat_add_u32(self.wood as int, rhs.wood as int) as u32,
            metal: sat_add_u32(self.metal as int, rhs.metal as int) as u32,
            oil: sat_add_u32(self.oil as int, rhs.oil as int) as u32,
            food: sat_add_u32(self.food as int, rhs.food as int) as u32,
        }
    }

    /// Componentwise subtraction; `None` when any component would go
    /// negative.
    pub open spec fn spec_checked_sub(self, rhs: ResourceField) -> Option<ResourceField> {
        if self.wood >= rhs.wood && self.metal >= rhs.metal && self.oil >= rhs.oil
            && self.food >= rhs.food {
            Some(
                ResourceField {
                    wood: (self.wood - rhs.wood) as u32,
                    metal: (self.metal - rhs.metal) as u32,
                    oil: (self.oil - rhs.oil) as u32,
                    food: (self.food - rhs.food) as u32,
                },
            )
        } else {
            None
        }
    }

    /// Componentwise greater-or-equal.
    pub open spec fn spec_ge(self, rhs: ResourceField) -> bool {
        &&& self.wood >= rhs.wood
        &&& self.metal >= rhs.metal
        &&& self.oil >= rhs.oil
        &&& self.food >= rhs.food
    }

    pub open spec fn spec_get(self, resource: crate::game::Resource) -> u32 {
        match resource {
            crate::game::Resource::Wood => self.wood,
            crate::game::Resource::Metal => self.metal,
            crate::game::Resource::Oil => self.oil,
            crate::game::Resource::Food => self.food,
        }
    }

    pub fn empty() -> (r: ResourceField)
        ensures
            r == ResourceField::spec_empty(),
    {
        ResourceField { wood: 0, metal: 0, oil: 0, food: 0 }
    }

    pub fn total(&self) -> (r: u32)
        ensures
            r == self.spec_total(),
    {
        self.wood.saturating_add(self.metal).saturating_add(self.oil).saturating_add(self.food)
    }

    pub fn add(self, rhs: ResourceField) -> (r: ResourceField)
        ensures
            r == self.spec_add(rhs),
    {
        ResourceField {
            wood: self.wood.saturating_add(rhs.wood),
            metal: self.metal.saturating_add(rhs.metal),
            oil: self.oil.saturating_add(rhs.oil),
            food: self.food.saturating_add(rhs.food),
        }
    }

    pub fn checked_sub(self, rhs: ResourceField) -> (r: Option<ResourceField>)
        ensures
            r == self.spec_checked_sub(rhs),
    {
        if self.wood >= rhs.wood && self.metal >= rhs.metal && self.oil >= rhs.oil
            && self.food >= rhs.food {
            Some(
                ResourceField {
                    wood: self.wood - rhs.wood,
                    metal: self.metal - rhs.metal,
                    oil: self.oil - rhs.oil,
                    food: self.food - rhs.food,
                },
            )
        } else {
            None
        }
    }

    pub fn ge(&self, rhs: &ResourceField) -> (r: bool)
        ensures
            r == self.spec_ge(*rhs),
    {
        self.wood >= rhs.wood && self.metal >= rhs.metal && self.oil >= rhs.oil
            && self.food >= rhs.food
    }

    /// Does the inventory hold at least `amount` of `resource`?
    pub fn has(&self, resource: &crate::game::Resource, amount: u32) -> (r: bool)
        ensures
            r == (self.spec_get(*resource) >= amount),
    {
        let held = match resource {
            crate::game::Resource::Wood => self.wood,
            crate::game::Resource::Metal => self.metal,
            crate::game::Resource::Oil => self.oil,
            crate::game::Resource::Food => self.food,
        };
        held >= amount
    }
}

/// A board cell: terrain, flags, its coordinate, and its inventory.
#[derive(Debug, PartialEq, Eq, Structural, Hash, Clone, Copy)]
pub struct Field {
    pub encounter_token: bool,
    pub tunnelable: bool,
    pub tile: Tile,
    pub position: Position,
    pub resources: ResourceField,
}

/// The fixed set of fields, held in an arena and addressed by index, plus
/// the registered river pairs (unordered, stored as index pairs).
#[derive(Debug, Clone)]
pub struct Board {
    pub fields: Vec<Field>,
    pub rivers: Vec<(usize, usize)>,
}

/// The index of the first field at `p`, scanning from the front.
pub open spec fn spec_find_position(s: Seq<Field>, p: Position) -> Option<int>
    decreases s.len(),
{
    if s.len() == 0 {
        None
    } else if s[0].position == p {
        Some(0int)
    } else {
        match spec_find_position(s.drop_first(), p) {
            Some(i) => Some(i + 1),
            None => None,
        }
    }
}

pub proof fn lemma_find_position(s: Seq<Field>, p: Position)
    ensures
        match spec_find_position(s, p) {
            Some(i) => 0 <= i < s.len() && s[i as int].position == p && (forall|k: int|
                0 <= k < i ==> s[k].position != p),
            None => forall|k: int| 0 <= k < s.len() ==> s[k].position != p,
        },
    decreases s.len(),
{
    if s.len() > 0 && s[0].position != p {
        let rest = s.drop_first();
        lemma_find_position(rest, p);
        assert(forall|k: int| 1 <= k < s.len() ==> s[k] == rest[k - 1]);
        match spec_find_position(rest, p) {
            Some(i) => {
                assert(s[i + 1].position == p);
                assert forall|k: int| 0 <= k < i + 1 implies s[k].position != p by {
                    if k >= 1 {
                        assert(s[k] == rest[k - 1]);
                    }
                }
            }
            None => {
                assert forall|k: int| 0 <= k < s.len() implies s[k].position != p by {
                    if k >= 1 {
                        assert(s[k] == rest[k - 1]);
                    }
                }
            }
        }
    }
}

/// The board field a field template turns into.
pub open spec fn spec_field_of(f: FieldTemplate) -> Field {
    Field {
        encounter_token: f.explorer_token,
        tunnelable: f.tunnelable,
        tile: f.tile,
        position: f.position,
        resources: ResourceField::spec_empty(),
    }
}

/// The board field a home template turns into.
pub open spec fn spec_home_field_of(h: HomeTemplate) -> Field {
    Field {
        encounter_token: false,
        tunnelable: false,
        tile: Tile::Home,
        position: h.position,
        resources: ResourceField::spec_empty(),
    }
}

/// All fields of a board built from `t`: the ordinary fields in template
/// order, then one home field per starting location.
pub open spec fn spec_board_fields(t: BoardTemplate) -> Seq<Field> {
    t.fields@.map(|i: int, f: FieldTemplate| spec_field_of(f)) + t.starting_locations@.map(
        |i: int, h: HomeTemplate| spec_home_field_of(h),
    )
}

/// Every position a template defines, in definition order.
pub open spec fn spec_template_positions(t: BoardTemplate) -> Seq<Position> {
    spec_board_fields(t).map(|i: int, f: Field| f.position)
}

pub open spec fn positions_unique(s: Seq<Position>) -> bool {
    forall|i: int, j: int| 0 <= i < j < s.len() ==> s[i] != s[j]
}

/// The river index pairs of a board with `fields`, from the template
/// pairs: a pair is kept exactly when both positions resolve to fields.
pub open spec fn spec_rivers(fields: Seq<Field>, pairs: Seq<(Position, Position)>) -> Seq<
    (usize, usize),
>
    decreases pairs.len(),
{
    if pairs.len() == 0 {
        Seq::empty()
    } else {
        let rest = spec_rivers(fields, pairs.drop_last());
        let last = pairs.last();
        match (spec_find_position(fields, last.0), spec_find_position(fields, last.1)) {
            (Some(a), Some(b)) => rest.push((a as usize, b as usize)),
            _ => rest,
        }
    }
}

impl Board {
    /// Shape invariant: field positions are pairwise distinct and every
    /// river endpoint is a valid field index.
    pub open spec fn wf(self) -> bool {
        &&& positions_unique(self.fields@.map(|i: int, f: Field| f.position))
        &&& forall|k: int|
            0 <= k < self.rivers@.len() ==> self.rivers@[k].0 < self.fields@.len()
                && self.rivers@[k].1 < self.fields@.len()
    }

    pub open spec fn spec_get_field(self, position: Position) -> Option<int> {
        spec_find_position(self.fields@, position)
    }

    /// Is the unordered pair registered as a river crossing?
    pub open spec fn spec_is_river(self, from: usize, to: usize) -> bool {
        exists|k: int|
            0 <= k < self.rivers@.len() && (self.rivers@[k] == (from, to) || self.rivers@[k] == (
            to,
            from,
            ))
    }

    /// Builds the board from a template. Returns `None` exactly when the
    /// template defines the same position twice.
    pub fn from_template(template: &BoardTemplate) -> (r: Option<Board>)
        ensures
            r is Some <==> positions_unique(spec_template_positions(*template)),
            r matches Some(b) ==> {
                &&& b.fields@ == spec_board_fields(*template)
                &&& b.rivers@ == spec_rivers(spec_board_fields(*template), template.rivers@)
                &&& b.wf()
            },
    {
        let ghost all = spec_board_fields(*template);
        let ghost nf = template.fields@.len() as int;
        let mut fields: Vec<Field> = Vec::new();
        let mut i: usize = 0;
        while i < template.fields.len()
            invariant
                0 <= i <= template.fields@.len(),
                all == spec_board_fields(*template),
                nf == template.fields@.len() as int,
                fields@ == all.take(i as int),
                positions_unique(fields@.map(|k: int, f: Field| f.position)),
            decreases template.fields@.len() - i,
        {
            let ft = template.fields[i];
            if find_position(&fields, &ft.position).is_some() {
                proof {
                    lemma_find_position(fields@, ft.position);
                    let j = spec_find_position(fields@, ft.position)->Some_0;
                    assert(spec_template_positions(*template)[j as int] == ft.position);
                    assert(spec_template_positions(*template)[i as int] == ft.position);
                    assert(!positions_unique(spec_template_positions(*template)));
                }
                return None;
            }
            proof {
                lemma_find_position(fields@, ft.position);
                assert(all.take(i as int).push(spec_field_of(ft)) =~= all.take(i + 1));
            }
            let ghost before = fields@;
            fields.push(
                Field {
                    encounter_token: ft.explorer_token,
                    tunnelable: ft.tunnelable,
                    tile: ft.tile,
                    position: ft.position,
                    resources: ResourceField { wood: 0, metal: 0, oil: 0, food: 0 },
                },
            );
            proof {
                assert(fields@.map(|k: int, f: Field| f.position) =~= before.map(
                    |k: int, f: Field| f.position,
                ).push(ft.position));
            }
            i = i + 1;
        }
        let mut j: usize = 0;
        while j < template.starting_locations.len()
            invariant
                0 <= j <= template.starting_locations@.len(),
                all == spec_board_fields(*template),
                nf == template.fields@.len() as int,
                fields@ == all.take(nf + j as int),
                positions_unique(fields@.map(|k: int, f: Field| f.position)),
            decreases template.starting_locations@.len() - j,
        {
            let home = template.starting_locations[j];
            if find_position(&fields, &home.position).is_some() {
                proof {
                    lemma_find_position(fields@, home.position);
                    let k = spec_find_position(fields@, home.position)->Some_0;
                    assert(spec_template_positions(*template)[k as int] == home.position);
                    assert(spec_template_positions(*template)[nf + j as int] == home.position);
                    assert(!positions_unique(spec_template_positions(*template)));
                }
                return None;
            }
            proof {
                lemma_find_position(fields@, home.position);
                assert(all.take(nf + j as int).push(spec_home_field_of(home)) =~= all.take(
                    nf + j + 1,
                ));
            }
            let ghost before = fields@;
            fields.push(
                Field {
                    encounter_token: false,
                    tunnelable: false,
                    tile: Tile::Home,
                    position: home.position,
                    resources: ResourceField { wood: 0, metal: 0, oil: 0, food: 0 },
                },
            );
            proof {
                assert(fields@.map(|k: int, f: Field| f.position) =~= before.map(
                    |k: int, f: Field| f.position,
                ).push(home.position));
            }
            j = j + 1;
        }
        proof {
            assert(fields@ =~= all);
        }

        let mut rivers: Vec<(usize, usize)> = Vec::new();
        let mut k: usize = 0;
        while k < template.rivers.len()
            invariant
                0 <= k <= template.rivers@.len(),
                all == spec_board_fields(*template),
                fields@ == all,
                rivers@ == spec_rivers(fields@, template.rivers@.take(k as int)),
                forall|m: int|
                    0 <= m < rivers@.len() ==> rivers@[m].0 < fields@.len() && rivers@[m].1
                        < fields@.len(),
            decreases template.rivers@.len() - k,
        {
            let (p1, p2) = template.rivers[k];
            proof {
                assert(template.rivers@.take(k + 1).drop_last() =~= template.rivers@.take(
                    k as int,
                ));
                assert(template.rivers@.take(k + 1).last() == (p1, p2));
                lemma_find_position(fields@, p1);
                lemma_find_position(fields@, p2);
            }
            let f1 = find_position(&fields, &p1);
            let f2 = find_position(&fields, &p2);
            match (f1, f2) {
                (Some(a), Some(b)) => {
                    rivers.push((a, b));
                }
                _ => {}
            }
            k = k + 1;
        }
        proof {
            assert(template.rivers@.take(template.rivers@.len() as int) =~= template.rivers@);
        }
        Some(Board { fields, rivers })
    }

    /// Looks a field up by position.
    pub fn get_field(&self, position: &Position) -> (r: Option<usize>)
        ensures
            match r {
                Some(i) => self.spec_get_field(*position) == Some(i as int),
                None => self.spec_get_field(*position) is None,
            },
            r matches Some(i) ==> i < self.fields@.len() && self.fields@[i as int].position
                == *position,
            r is None ==> forall|k: int|
                0 <= k < self.fields@.len() ==> self.fields@[k].position != *position,
    {
        proof {
            lemma_find_position(self.fields@, *position);
        }
        find_position(&self.fields, position)
    }

    /// Is there a registered river between the two fields, in either
    /// order?
    pub fn is_river(&self, from: usize, to: usize) -> (r: bool)
        ensures
            r == self.spec_is_river(from, to),
    {
        let mut k: usize = 0;
        while k < self.rivers.len()
            invariant
                0 <= k <= self.rivers@.len(),
                forall|m: int|
                    0 <= m < k ==> !(self.rivers@[m] == (from, to) || self.rivers@[m] == (
                    to,
                    from,
                    )),
            decreases self.rivers@.len() - k,
        {
            let (a, b) = self.rivers[k];
            if (a == from && b == to) || (a == to && b == from) {
                return true;
            }
            k = k + 1;
        }
        false
    }
}

/// The registered river relation is symmetric.
pub proof fn lemma_is_river_symmetric(board: Board, from: usize, to: usize)
    ensures
        board.spec_is_river(from, to) == board.spec_is_river(to, from),
{
    if board.spec_is_river(from, to) {
        let k = choose|k: int|
            0 <= k < board.rivers@.len() && (board.rivers@[k] == (from, to) || board.rivers@[k]
                == (to, from));
        assert(board.rivers@[k] == (to, from) || board.rivers@[k] == (from, to));
    }
    if board.spec_is_river(to, from) {
        let k = choose|k: int|
            0 <= k < board.rivers@.len() && (board.rivers@[k] == (to, from) || board.rivers@[k]
                == (from, to));
        assert(board.rivers@[k] == (from, to) || board.rivers@[k] == (to, from));
    }
}

/// First index among `fields` holding the given position.
fn find_position(fields: &Vec<Field>, position: &Position) -> (r: Option<usize>)
    ensures
        match r {
            Some(i) => spec_find_position(fields@, *position) == Some(i as int),
            None => spec_find_position(fields@, *position) is None,
        },
{
    let ghost s = fields@;
    let mut i: usize = 0;
    while i < fields.len()
        invariant
            0 <= i <= s.len(),
            s == fields@,
            forall|k: int| 0 <= k < i ==> s[k].position != *position,
        decreases s.len() - i,
    {
        if fields[i].position == *position {
            proof {
                lemma_find_position_at(s, *position, i as int);
            }
            return Some(i);
        }
        i = i + 1;
    }
    proof {
        lemma_find_position(s, *position);
        if spec_find_position(s, *position) is Some {
            let j = spec_find_position(s, *position)->Some_0;
            assert(s[j as int].position == *position);
        }
    }
    None
}

/// If `s[i]` is the first match for `p`, the scan finds exactly `i`.
proof fn lemma_find_position_at(s: Seq<Field>, p: Position, i: int)
    requires
        0 <= i < s.len(),
        s[i].position == p,
        forall|k: int| 0 <= k < i ==> s[k].position != p,
    ensures
        spec_find_position(s, p) == Some(i),
    decreases i,
{
    if i > 0 {
        lemma_find_position_at(s.drop_first(), p, i - 1);
    }
}

} // verus!
