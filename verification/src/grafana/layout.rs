//! Deterministic layout: query reference IDs, panel IDs, and the
//! 24-column flow layout.
use vstd::prelude::*;

use crate::panel::{GridPos, Panel};

verus! {

/// The number of grid columns.
pub const COLUMNS: u16 = 24u16;

// ---------------------------------------------------------------------------
// Query reference IDs: A, B, …, Z, AA, AB, …
// ---------------------------------------------------------------------------

/// The letter `A + n`.
pub open spec fn letter(n: nat) -> char {
    ((65 + n) as u8) as char
}

/// The reference ID assigned to the `index`-th generated query: bijective
/// base-26 over the letters `A`–`Z`.
pub open spec fn ref_name(index: nat) -> Seq<char>
    decreases index,
{
    if index < 26 {
        seq![letter(index)]
    } else {
        ref_name((index / 26 - 1) as nat).push(letter(index % 26))
    }
}

proof fn lemma_letter_injective(a: nat, b: nat)
    requires
        a < 26,
        b < 26,
        letter(a) == letter(b),
    ensures
        a == b,
{
    let ca = (65 + a) as u8;
    let cb = (65 + b) as u8;
    assert(ca == 65 + a);
    assert(cb == 65 + b);
    assert((ca as char) as u32 == ca as u32);
    assert((cb as char) as u32 == cb as u32);
}

proof fn lemma_ref_name_len(index: nat)
    ensures
        ref_name(index).len() >= 1,
        index < 26 <==> ref_name(index).len() == 1,
    decreases index,
{
    if index >= 26 {
        lemma_ref_name_len((index / 26 - 1) as nat);
    }
}

/// Distinct indices get distinct reference IDs.
pub proof fn lemma_ref_name_injective(a: nat, b: nat)
    ensures
        ref_name(a) == ref_name(b) ==> a == b,
    decreases a,
{
    if ref_name(a) == ref_name(b) {
        lemma_ref_name_len(a);
        lemma_ref_name_len(b);
        let la = ref_name(a);
        if a < 26 && b < 26 {
            assert(la[0] == letter(a));
            assert(ref_name(b)[0] == letter(b));
            lemma_letter_injective(a, b);
        } else if a >= 26 && b >= 26 {
            let pa = ref_name((a / 26 - 1) as nat);
            let pb = ref_name((b / 26 - 1) as nat);
            assert(la.last() == letter(a % 26));
            assert(ref_name(b).last() == letter(b % 26));
            lemma_letter_injective(a % 26, b % 26);
            assert(la.drop_last() =~= pa);
            assert(ref_name(b).drop_last() =~= pb);
            lemma_ref_name_injective((a / 26 - 1) as nat, (b / 26 - 1) as nat);
        }
    }
}

/// Whether `c` is one of the letters `A`–`Z`.
pub open spec fn is_ref_letter(c: char) -> bool {
    65 <= (c as u32) <= 90
}

/// A non-empty string over the letters `A`–`Z`.
pub open spec fn is_ref_text(s: Seq<char>) -> bool {
    s.len() >= 1 && forall|i: int| 0 <= i < s.len() ==> is_ref_letter(#[trigger] s[i])
}

/// The position of a letter in the alphabet, `A` being 0.
pub open spec fn letter_index(c: char) -> nat {
    (c as u32 - 65) as nat
}

/// The index whose reference ID is `s`, reading `s` as a bijective
/// base-26 numeral.
pub open spec fn ref_index(s: Seq<char>) -> nat
    decreases s.len(),
{
    if s.len() <= 1 {
        letter_index(s[0])
    } else {
        (ref_index(s.drop_last()) + 1) * 26 + letter_index(s.last())
    }
}

/// Shortlex order: a shorter string comes first, and strings of one length
/// compare letter by letter from the left.
pub open spec fn shortlex_less(a: Seq<char>, b: Seq<char>) -> bool
    decreases a.len(),
{
    if a.len() != b.len() {
        a.len() < b.len()
    } else if a.len() == 0 {
        false
    } else {
        shortlex_less(a.drop_last(), b.drop_last()) || (a.drop_last() == b.drop_last() && (
        a.last() as u32) < (b.last() as u32))
    }
}

proof fn lemma_letter_value(n: nat)
    requires
        n < 26,
    ensures
        letter(n) as u32 == 65 + n,
        is_ref_letter(letter(n)),
        letter_index(letter(n)) == n,
{
    let c = (65 + n) as u8;
    assert(c == 65 + n);
    assert((c as char) as u32 == c as u32);
}

/// Every reference ID is a non-empty string over `A`–`Z`.
pub proof fn lemma_ref_name_is_text(index: nat)
    ensures
        is_ref_text(ref_name(index)),
    decreases index,
{
    lemma_ref_name_len(index);
    if index < 26 {
        lemma_letter_value(index);
        assert(ref_name(index)[0] == letter(index));
    } else {
        let p = (index / 26 - 1) as nat;
        lemma_ref_name_is_text(p);
        lemma_letter_value(index % 26);
        let s = ref_name(index);
        assert forall|i: int| 0 <= i < s.len() implies is_ref_letter(#[trigger] s[i]) by {
            if i < s.len() - 1 {
                assert(s[i] == ref_name(p)[i]);
            }
        }
    }
}

/// Reference IDs reach every non-empty string over `A`–`Z`: the string `s`
/// is the reference ID of index `ref_index(s)`.
pub proof fn lemma_ref_name_onto(s: Seq<char>)
    requires
        is_ref_text(s),
    ensures
        ref_name(ref_index(s)) == s,
    decreases s.len(),
{
    let c = letter_index(s.last());
    assert(s[s.len() - 1] == s.last());
    assert(is_ref_letter(s.last()));
    assert(c < 26);
    lemma_letter_value(c);
    assert(letter(c) as u32 == s.last() as u32);
    vstd::utf8::char_u32_cast(letter(c), s.last() as u32);
    vstd::utf8::char_u32_cast(s.last(), s.last() as u32);
    assert(letter(c) == s.last());
    if s.len() == 1 {
        assert(s.last() == s[0]);
        assert(ref_name(ref_index(s)) =~= s);
    } else {
        let prefix = s.drop_last();
        assert forall|i: int| 0 <= i < prefix.len() implies is_ref_letter(#[trigger] prefix[i]) by {
            assert(prefix[i] == s[i]);
        }
        lemma_ref_name_onto(prefix);
        let p = ref_index(prefix);
        let k = ref_index(s);
        assert(k == (p + 1) * 26 + c);
        assert(k / 26 == p + 1 && k % 26 == c) by {
            vstd::arithmetic::div_mod::lemma_fundamental_div_mod_converse(
                k as int,
                26,
                (p + 1) as int,
                c as int,
            );
        }
        assert(ref_name(k) =~= prefix.push(letter(c)));
        assert(prefix.push(s.last()) =~= s);
    }
}

proof fn lemma_ref_name_len_monotone(i: nat, j: nat)
    requires
        i <= j,
    ensures
        ref_name(i).len() <= ref_name(j).len(),
    decreases j,
{
    lemma_ref_name_len(i);
    lemma_ref_name_len(j);
    if i >= 26 {
        assert(i / 26 <= j / 26) by {
            vstd::arithmetic::div_mod::lemma_div_is_ordered(i as int, j as int, 26);
        }
        lemma_ref_name_len_monotone((i / 26 - 1) as nat, (j / 26 - 1) as nat);
    }
}

/// Reference IDs increase in shortlex order: a later index has a longer
/// ID, or one of the same length that is alphabetically later.
pub proof fn lemma_ref_name_shortlex(i: nat, j: nat)
    requires
        i < j,
    ensures
        shortlex_less(ref_name(i), ref_name(j)),
    decreases j,
{
    lemma_ref_name_len(i);
    lemma_ref_name_len(j);
    lemma_ref_name_len_monotone(i, j);
    let a = ref_name(i);
    let b = ref_name(j);
    if a.len() == b.len() {
        if j < 26 {
            lemma_letter_value(i);
            lemma_letter_value(j);
            assert(a.drop_last() =~= b.drop_last());
        } else {
            assert(i >= 26);
            let pi = (i / 26 - 1) as nat;
            let pj = (j / 26 - 1) as nat;
            assert(i / 26 <= j / 26) by {
                vstd::arithmetic::div_mod::lemma_div_is_ordered(i as int, j as int, 26);
            }
            assert(a.drop_last() =~= ref_name(pi));
            assert(b.drop_last() =~= ref_name(pj));
            if pi < pj {
                lemma_ref_name_shortlex(pi, pj);
            } else {
                assert(i % 26 < j % 26) by {
                    vstd::arithmetic::div_mod::lemma_fundamental_div_mod(i as int, 26);
                    vstd::arithmetic::div_mod::lemma_fundamental_div_mod(j as int, 26);
                }
                lemma_letter_value(i % 26);
                lemma_letter_value(j % 26);
            }
        }
    }
}

fn letter_char(n: u64) -> (c: char)
    requires
        n < 26,
    ensures
        c == letter(n as nat),
{
    let code: u8 = 65u8 + (n as u8);
    let c = code as char;
    assert(c as u32 == 65 + n);
    c
}

/// The reference ID of the `index`-th generated query.
pub fn reference_id(index: u64) -> (name: String)
    ensures
        name@ == ref_name(index as nat),
    decreases index,
{
    if index < 26 {
        let mut name = String::new();
        crate::text::push_char(&mut name, letter_char(index));
        assert(name@ =~= seq![letter(index as nat)]);
        name
    } else {
        let mut name = reference_id(index / 26 - 1);
        crate::text::push_char(&mut name, letter_char(index % 26));
        name
    }
}

// ---------------------------------------------------------------------------
// Panel IDs
// ---------------------------------------------------------------------------

/// The IDs of a list, as integers.
pub open spec fn id_ints(ids: Seq<u32>) -> Seq<int> {
    ids.map_values(|id: u32| id as int)
}

/// The set of IDs of a list, as integers.
pub open spec fn id_set(ids: Seq<u32>) -> Set<int> {
    id_ints(ids).to_set()
}

/// Hands out panel IDs: explicit ones as given, the rest counting up from
/// 1, skipping every ID already reserved or handed out.
pub struct IdAllocator {
    pub used: Vec<u32>,
    pub next: u32,
}

impl IdAllocator {
    /// Every ID below `next` is taken, and `next` leaves room to count up.
    pub open spec fn well_formed(self) -> bool {
        &&& 1 <= self.next
        &&& forall|i: int| 1 <= i < self.next ==> #[trigger] id_set(self.used@).contains(i)
        &&& self.used@.len() < 0xFFFF_FFFFusize
    }

    /// An allocator with `reserved` taken in advance.
    pub fn new(reserved: Vec<u32>) -> (a: Self)
        requires
            reserved@.len() < 0xFFFF_FFFFusize,
        ensures
            a.well_formed(),
            a.used@ == reserved@,
            a.next == 1,
    {
        IdAllocator { used: reserved, next: 1 }
    }

    fn contains(&self, id: u32) -> (b: bool)
        ensures
            b == id_set(self.used@).contains(id as int),
    {
        let mut i: usize = 0;
        while i < self.used.len()
            invariant
                i <= self.used@.len(),
                forall|j: int| 0 <= j < i ==> self.used@[j] != id,
            decreases self.used@.len() - i,
        {
            if self.used[i] == id {
                assert(id_ints(self.used@)[i as int] == id as int);
                return true;
            }
            i += 1;
        }
        proof {
            if id_set(self.used@).contains(id as int) {
                let k = choose|k: int|
                    0 <= k < self.used@.len() && #[trigger] id_ints(self.used@)[k] == id as int;
                assert(self.used@[k] == id);
            }
        }
        false
    }

    proof fn lemma_next_bounded(self)
        requires
            self.well_formed(),
        ensures
            self.next <= self.used@.len() + 1,
    {
        let below = Seq::new((self.next - 1) as nat, |i: int| i + 1);
        let ints = id_ints(self.used@);
        assert forall|i: int, j: int| 0 <= i < below.len() && 0 <= j < below.len() && i != j
            implies below[i] != below[j] by {}
        assert(below.no_duplicates());
        below.unique_seq_to_set();
        vstd::seq_lib::seq_to_set_is_finite(ints);
        assert(below.to_set().subset_of(ints.to_set())) by {
            assert forall|v: int| below.to_set().contains(v) implies ints.to_set().contains(v) by {
                let k = choose|k: int| 0 <= k < below.len() && below[k] == v;
                assert(1 <= v < self.next);
                assert(id_set(self.used@).contains(v));
            }
        }
        ints.lemma_cardinality_of_set();
        vstd::set_lib::lemma_len_subset(below.to_set(), ints.to_set());
    }

    /// The ID for a panel: `explicit` when given, else the lowest free ID
    /// from `next` on, which becomes taken.
    pub fn panel_id(&mut self, explicit: Option<u32>) -> (id: u32)
        requires
            old(self).well_formed(),
            explicit is None ==> old(self).used@.len() + 1 < 0xFFFF_FFFFusize,
        ensures
            final(self).well_formed(),
            match explicit {
                Some(e) => id == e && *final(self) == *old(self),
                None => {
                    &&& !id_set(old(self).used@).contains(id as int)
                    &&& old(self).next <= id
                    &&& forall|i: int| old(self).next <= i < id ==> #[trigger] id_set(
                        old(self).used@,
                    ).contains(i)
                    &&& final(self).used@ == old(self).used@.push(id)
                    &&& final(self).next == id + 1
                },
            },
    {
        if let Some(explicit) = explicit {
            return explicit;
        }
        proof {
            self.lemma_next_bounded();
        }
        let ghost start = self.next;
        while self.contains(self.next)
            invariant
                self.well_formed(),
                self.used@ == old(self).used@,
                self.used@.len() + 1 < 0xFFFF_FFFFusize,
                start <= self.next,
                forall|i: int| start <= i < self.next ==> #[trigger] id_set(self.used@).contains(i),
            decreases self.used@.len() + 1 - self.next,
        {
            proof {
                self.lemma_next_bounded();
            }
            self.next = self.next + 1;
            proof {
                self.lemma_next_bounded();
            }
        }
        proof {
            self.lemma_next_bounded();
        }
        let id = self.next;
        let ghost before = self.used@;
        self.used.push(id);
        proof {
            assert forall|i: int| 1 <= i < id + 1 implies #[trigger] id_set(self.used@).contains(i) by {
                let ints = id_ints(self.used@);
                if i == id {
                    assert(ints[before.len() as int] == id as int);
                } else {
                    assert(id_set(before).contains(i));
                    let k = choose|k: int| 0 <= k < before.len() && #[trigger] id_ints(before)[k] == i;
                    assert(ints[k] == i);
                }
            }
        }
        self.next = id + 1;
        id
    }
}

// ---------------------------------------------------------------------------
// Flow layout
// ---------------------------------------------------------------------------

/// `a + b`, saturating at `u16::MAX`.
pub open spec fn sat(a: int) -> u16 {
    if a > 0xFFFF {
        0xFFFFu16
    } else {
        a as u16
    }
}

pub open spec fn max16(a: u16, b: u16) -> u16 {
    if a >= b {
        a
    } else {
        b
    }
}

pub fn sat_add(a: u16, b: u16) -> (c: u16)
    ensures
        c == sat(a + b),
{
    a.saturating_add(b)
}

pub fn max_u16(a: u16, b: u16) -> (c: u16)
    ensures
        c == max16(a, b),
{
    if a >= b {
        a
    } else {
        b
    }
}

/// Places panels left to right on 24-column lines, wrapping before a panel
/// would pass column 24 and starting each new line below the tallest panel
/// of the previous one.
#[derive(Clone, Copy)]
pub struct FlowLayout {
    pub x: u16,
    pub y: u16,
    pub line_height: u16,
    pub max_bottom: u16,
}

impl FlowLayout {
    pub open spec fn start(y: u16) -> FlowLayout {
        FlowLayout { x: 0, y, line_height: 0, max_bottom: y }
    }

    /// The layout after placing one panel, and the panel's position: an
    /// explicit position as given, with following panels starting below
    /// it; otherwise the next free slot on the current line, or the start
    /// of a new line when the panel would pass column 24.
    pub open spec fn placed(self, explicit: Option<GridPos>, width: u16, height: u16) -> (
        FlowLayout,
        GridPos,
    ) {
        match explicit {
            Some(e) => {
                let bottom = max16(self.max_bottom, sat(e.y + e.height));
                (FlowLayout { x: 0, y: bottom, line_height: 0, max_bottom: bottom }, e)
            },
            None => {
                let wrap = self.x > 0 && sat(self.x + width) > COLUMNS;
                let x0 = if wrap {
                    0u16
                } else {
                    self.x
                };
                let y0 = if wrap {
                    sat(self.y + self.line_height)
                } else {
                    self.y
                };
                let lh0 = if wrap {
                    0u16
                } else {
                    self.line_height
                };
                let grid = GridPos { x: x0, y: y0, width, height };
                let x1 = sat(x0 + width);
                let lh1 = max16(lh0, height);
                let mb1 = max16(self.max_bottom, sat(y0 + lh1));
                if x1 == COLUMNS {
                    (FlowLayout { x: 0, y: sat(y0 + lh1), line_height: 0, max_bottom: mb1 }, grid)
                } else {
                    (FlowLayout { x: x1, y: y0, line_height: lh1, max_bottom: mb1 }, grid)
                }
            },
        }
    }

    /// The lowest row any placed panel reaches.
    pub open spec fn spec_bottom(self) -> u16 {
        max16(self.max_bottom, sat(self.y + self.line_height))
    }

    pub fn new(y: u16) -> (f: Self)
        ensures
            f == FlowLayout::start(y),
    {
        FlowLayout { x: 0, y, line_height: 0, max_bottom: y }
    }

    /// Places one panel.
    pub fn place(&mut self, panel: &Panel) -> (grid: GridPos)
        ensures
            (*final(self), grid) == old(self).placed(panel.grid_pos, panel.width, panel.height),
    {
        if let Some(explicit) = panel.grid_pos {
            self.max_bottom = max_u16(self.max_bottom, sat_add(explicit.y, explicit.height));
            self.y = self.max_bottom;
            self.x = 0;
            self.line_height = 0;
            return explicit;
        }
        if self.x > 0 && sat_add(self.x, panel.width) > COLUMNS {
            self.y = sat_add(self.y, self.line_height);
            self.x = 0;
            self.line_height = 0;
        }
        let grid = GridPos::new(self.x, self.y, panel.width, panel.height);
        self.x = sat_add(self.x, panel.width);
        self.line_height = max_u16(self.line_height, panel.height);
        self.max_bottom = max_u16(self.max_bottom, sat_add(self.y, self.line_height));
        if self.x == COLUMNS {
            self.y = sat_add(self.y, self.line_height);
            self.x = 0;
            self.line_height = 0;
        }
        grid
    }

    /// The lowest row any placed panel reaches.
    pub fn bottom(&self) -> (b: u16)
        ensures
            b == self.spec_bottom(),
    {
        max_u16(self.max_bottom, sat_add(self.y, self.line_height))
    }
}

/// Whether the layout has recorded its lowest row: the current line reaches
/// no lower than `max_bottom`.
pub open spec fn bottom_recorded(f: FlowLayout) -> bool {
    sat(f.y + f.line_height) <= f.max_bottom
}

/// A fresh layout has recorded its lowest row.
pub proof fn lemma_start_recorded(y: u16)
    ensures
        bottom_recorded(FlowLayout::start(y)),
{
}

/// Placing a panel, explicitly or automatically, keeps the lowest row
/// recorded, never moves the layout's bottom up, and leaves it at or below
/// the placed panel.
pub proof fn lemma_placed_bottom(f: FlowLayout, explicit: Option<GridPos>, width: u16, height: u16)
    requires
        bottom_recorded(f),
    ensures
        bottom_recorded(f.placed(explicit, width, height).0),
        f.placed(explicit, width, height).0.spec_bottom() >= f.spec_bottom(),
        f.placed(explicit, width, height).0.spec_bottom() >= sat(
            f.placed(explicit, width, height).1.y + f.placed(explicit, width, height).1.height,
        ),
{
}

/// After a panel with an explicit position, the next automatically placed
/// panel starts at column 0, at or below both the explicit panel and the
/// bottom of everything placed before it, so it overlaps none of them.
pub proof fn lemma_flow_after_explicit(
    f: FlowLayout,
    e: GridPos,
    explicit_width: u16,
    explicit_height: u16,
    width: u16,
    height: u16,
)
    requires
        bottom_recorded(f),
    ensures
        ({
            let (f1, g1) = f.placed(Some(e), explicit_width, explicit_height);
            let (f2, g2) = f1.placed(None, width, height);
            &&& g1 == e
            &&& g2.x == 0
            &&& g2.y >= f.spec_bottom()
            &&& g2.y >= sat(e.y + e.height)
        }),
{
}

/// The layout after automatically placing panels of the given sizes, and
/// their positions.
pub open spec fn flow(start: FlowLayout, sizes: Seq<(u16, u16)>) -> (FlowLayout, Seq<GridPos>)
    decreases sizes.len(),
{
    if sizes.len() == 0 {
        (start, Seq::empty())
    } else {
        let (before, grids) = flow(start, sizes.drop_last());
        let (after, grid) = before.placed(None, sizes.last().0, sizes.last().1);
        (after, grids.push(grid))
    }
}

/// The sum of the heights.
pub open spec fn total_height(sizes: Seq<(u16, u16)>) -> int
    decreases sizes.len(),
{
    if sizes.len() == 0 {
        0
    } else {
        total_height(sizes.drop_last()) + sizes.last().1
    }
}

/// Two grid rectangles share no cell.
pub open spec fn disjoint(a: GridPos, b: GridPos) -> bool {
    a.x + a.width <= b.x || b.x + b.width <= a.x || a.y + a.height <= b.y || b.y + b.height <= a.y
}

/// Every size is a valid panel width.
pub open spec fn widths_valid(sizes: Seq<(u16, u16)>) -> bool {
    forall|i: int| 0 <= i < sizes.len() ==> 1 <= (#[trigger] sizes[i]).0 <= COLUMNS
}

/// What holds after every step of an automatic flow: the cursor stays
/// inside the grid, each placed panel lies wholly above the current line
/// or to the left of the cursor on it, and no two placed panels overlap.
pub open spec fn flow_invariant(start: FlowLayout, sizes: Seq<(u16, u16)>) -> bool {
    let (state, grids) = flow(start, sizes);
    &&& state.x < COLUMNS
    &&& state.y + state.line_height <= start.y + total_height(sizes)
    &&& grids.len() == sizes.len()
    &&& forall|i: int|
        0 <= i < grids.len() ==> {
            let g = #[trigger] grids[i];
            &&& g.x + g.width <= COLUMNS
            &&& g.width == sizes[i].0 && g.height == sizes[i].1
            &&& (g.y + g.height <= state.y || (g.y == state.y && g.x + g.width <= state.x
                && g.height <= state.line_height))
        }
    &&& forall|i: int, j: int|
        0 <= i < j < grids.len() ==> disjoint(#[trigger] grids[i], #[trigger] grids[j])
}

proof fn lemma_flow_step(start: FlowLayout, sizes: Seq<(u16, u16)>)
    requires
        start.x == 0,
        start.line_height == 0,
        sizes.len() > 0,
        widths_valid(sizes),
        start.y + total_height(sizes) <= 0xFFFF,
        flow_invariant(start, sizes.drop_last()),
    ensures
        flow_invariant(start, sizes),
{
    let prefix = sizes.drop_last();
    let (before, grids) = flow(start, prefix);
    let (w, h) = sizes.last();
    assert(sizes[sizes.len() - 1] == sizes.last());
    assert(1 <= w <= COLUMNS);
    let (after, grid) = before.placed(None, w, h);
    let all = grids.push(grid);
    assert(flow(start, sizes) == (after, all));
    assert(total_height(sizes) == total_height(prefix) + h);
    let wrap = before.x > 0 && before.x + w > COLUMNS;
    assert forall|i: int| 0 <= i < all.len() implies {
        let g = #[trigger] all[i];
        &&& g.x + g.width <= COLUMNS
        &&& g.width == sizes[i].0 && g.height == sizes[i].1
        &&& (g.y + g.height <= after.y || (g.y == after.y && g.x + g.width <= after.x && g.height
            <= after.line_height))
    } by {
        if i < grids.len() {
            assert(all[i] == grids[i]);
            assert(prefix[i] == sizes[i]);
        }
    }
    assert forall|i: int, j: int| 0 <= i < j < all.len() implies disjoint(
        #[trigger] all[i],
        #[trigger] all[j],
    ) by {
        if j < grids.len() {
            assert(all[i] == grids[i] && all[j] == grids[j]);
        } else {
            assert(all[i] == grids[i]);
            assert(all[j] == grid);
        }
    }
}

/// Automatically placed panels of valid widths stay inside the 24 columns
/// and never overlap, as long as the rows they fill fit in the grid's
/// range.
pub proof fn lemma_flow_invariant(start_y: u16, sizes: Seq<(u16, u16)>)
    requires
        widths_valid(sizes),
        start_y + total_height(sizes) <= 0xFFFF,
    ensures
        flow_invariant(FlowLayout::start(start_y), sizes),
    decreases sizes.len(),
{
    let start = FlowLayout::start(start_y);
    if sizes.len() > 0 {
        let prefix = sizes.drop_last();
        assert(widths_valid(prefix)) by {
            assert forall|i: int| 0 <= i < prefix.len() implies 1 <= (#[trigger] prefix[i]).0
                <= COLUMNS by {
                assert(prefix[i] == sizes[i]);
            }
        }
        assert(total_height(prefix) <= total_height(sizes)) by {
            assert(sizes.last().1 >= 0);
        }
        lemma_flow_invariant(start_y, prefix);
        lemma_flow_step(start, sizes);
    }
}

/// Automatically placed panels of valid widths never overlap and stay
/// within the 24 columns.
pub proof fn lemma_flow_no_overlap(start_y: u16, sizes: Seq<(u16, u16)>)
    requires
        widths_valid(sizes),
        start_y + total_height(sizes) <= 0xFFFF,
    ensures
        forall|i: int|
            0 <= i < sizes.len() ==> (#[trigger] flow(FlowLayout::start(start_y), sizes).1[i]).x
                + flow(FlowLayout::start(start_y), sizes).1[i].width <= COLUMNS,
        forall|i: int, j: int|
            0 <= i < j < sizes.len() ==> disjoint(
                #[trigger] flow(FlowLayout::start(start_y), sizes).1[i],
                #[trigger] flow(FlowLayout::start(start_y), sizes).1[j],
            ),
{
    lemma_flow_invariant(start_y, sizes);
}


/// Every size is a valid panel height.
pub open spec fn heights_valid(sizes: Seq<(u16, u16)>) -> bool {
    forall|i: int| 0 <= i < sizes.len() ==> 1 <= (#[trigger] sizes[i]).1
}

/// Among the first `n` grids, those whose top row is `top` reach down to
/// `bottom` at most, and one of them reaches it: `bottom` is the lowest row
/// of the line that starts at `top`.
pub open spec fn line_bottom(grids: Seq<GridPos>, n: int, top: int, bottom: int) -> bool {
    &&& forall|k: int|
        0 <= k < n && (#[trigger] grids[k]).y == top ==> grids[k].y + grids[k].height <= bottom
    &&& exists|k: int|
        0 <= k < n && (#[trigger] grids[k]).y == top && grids[k].y + grids[k].height == bottom
}

/// How the `j`-th automatically placed panel follows the one before it:
/// on the same line, right after it; or, when it would pass column 24, at
/// column 0 of a new line whose top is the bottom of the previous line.
pub open spec fn follows(grids: Seq<GridPos>, j: int) -> bool {
    let p = grids[j - 1];
    let g = grids[j];
    ||| (g.y == p.y && g.x == p.x + p.width)
    ||| (g.x == 0 && p.x + p.width + g.width > COLUMNS && line_bottom(
        grids,
        j,
        p.y as int,
        g.y as int,
    ))
}

/// What an automatic flow promises: each panel keeps its size and stays
/// within the 24 columns, the first starts at column 0 of the start row,
/// each later one follows the one before it, and the layout's bottom lies
/// at or below every panel.
pub open spec fn flow_law(start_y: u16, sizes: Seq<(u16, u16)>) -> bool {
    let (state, grids) = flow(FlowLayout::start(start_y), sizes);
    &&& grids.len() == sizes.len()
    &&& forall|i: int|
        0 <= i < grids.len() ==> {
            let g = #[trigger] grids[i];
            &&& g.width == sizes[i].0 && g.height == sizes[i].1
            &&& g.x + g.width <= COLUMNS
            &&& g.y + g.height <= state.spec_bottom()
        }
    &&& grids.len() > 0 ==> grids[0].x == 0 && grids[0].y == start_y
    &&& forall|j: int| 1 <= j < grids.len() ==> #[trigger] follows(grids, j)
}

/// The state of the current line after a flow of at least one panel: the
/// cursor sits right after the last panel, or at column 0 below a line the
/// last panel filled to column 24; the line of the last panel reaches
/// down to the row the next line starts at; no panel starts below it; and
/// every panel after the first follows the one before it.
spec fn flow_lines(start: FlowLayout, sizes: Seq<(u16, u16)>) -> bool {
    let (s, grids) = flow(start, sizes);
    let n = grids.len() as int;
    let l = grids[n - 1];
    let bottom = if s.x > 0 {
        s.y + s.line_height
    } else {
        s.y as int
    };
    &&& s.x > 0 ==> s.y == l.y && s.x == l.x + l.width
    &&& s.x == 0 ==> l.x + l.width == COLUMNS && s.line_height == 0
    &&& line_bottom(grids, n, l.y as int, bottom)
    &&& forall|k: int| 0 <= k < n ==> (#[trigger] grids[k]).y <= l.y
    &&& forall|j: int| 1 <= j < n ==> #[trigger] follows(grids, j)
}

proof fn lemma_follows_push(grids: Seq<GridPos>, g: GridPos, j: int)
    requires
        1 <= j < grids.len(),
        follows(grids, j),
    ensures
        follows(grids.push(g), j),
{
    let b = grids.push(g);
    assert(b[j] == grids[j] && b[j - 1] == grids[j - 1]);
    let p = grids[j - 1];
    let q = grids[j];
    if !(q.y == p.y && q.x == p.x + p.width) {
        assert forall|k: int| 0 <= k < j && (#[trigger] b[k]).y == p.y implies b[k].y + b[k].height
            <= q.y by {
            assert(b[k] == grids[k]);
        }
        let k = choose|k: int|
            0 <= k < j && (#[trigger] grids[k]).y == p.y && grids[k].y + grids[k].height == q.y;
        assert(b[k] == grids[k]);
    }
}

#[verifier::rlimit(50)]
proof fn lemma_flow_lines_step(start: FlowLayout, sizes: Seq<(u16, u16)>)
    requires
        start.x == 0,
        start.line_height == 0,
        sizes.len() > 1,
        widths_valid(sizes),
        heights_valid(sizes),
        start.y + total_height(sizes) <= 0xFFFF,
        flow_invariant(start, sizes.drop_last()),
        flow_invariant(start, sizes),
        flow_lines(start, sizes.drop_last()),
    ensures
        flow_lines(start, sizes),
{
    let prefix = sizes.drop_last();
    let (s, grids) = flow(start, prefix);
    let (w, h) = sizes.last();
    assert(sizes[sizes.len() - 1] == sizes.last());
    assert(1 <= w <= COLUMNS && 1 <= h);
    let (after, g) = s.placed(None, w, h);
    let all = grids.push(g);
    assert(flow(start, sizes) == (after, all));
    assert(total_height(sizes) == total_height(prefix) + h);
    let m = grids.len() as int;
    let l = grids[m - 1];
    let bottom = if s.x > 0 {
        s.y + s.line_height
    } else {
        s.y as int
    };
    assert(all[m] == g);
    assert forall|k: int| 0 <= k < m implies all[k] == grids[k] by {}
    let wrap = s.x == 0 || s.x + w > COLUMNS;
    // The line the last panel of the prefix sits on ends above where a new
    // line would start.
    let kw = choose|k: int|
        0 <= k < m && (#[trigger] grids[k]).y == l.y && grids[k].y + grids[k].height == bottom;
    assert(prefix[kw] == sizes[kw]);
    assert(grids[kw].height >= 1);
    assert(l.y < bottom);
    if wrap {
        assert(g.x == 0 && g.y == bottom);
        assert forall|k: int| 0 <= k <= m implies (#[trigger] all[k]).y <= g.y by {}
        assert forall|k: int| 0 <= k <= m && (#[trigger] all[k]).y == g.y implies k == m by {}
        assert(line_bottom(all, m, l.y as int, g.y as int)) by {
            assert forall|k: int| 0 <= k < m && (#[trigger] all[k]).y == l.y implies all[k].y
                + all[k].height <= g.y by {
                assert(all[k] == grids[k]);
            }
            assert(all[kw] == grids[kw]);
        }
        assert(follows(all, m));
        let b2 = if after.x > 0 {
            after.y + after.line_height
        } else {
            after.y as int
        };
        assert(b2 == g.y + h);
        assert(line_bottom(all, m + 1, g.y as int, b2)) by {
            assert forall|k: int| 0 <= k < m + 1 && (#[trigger] all[k]).y == g.y implies all[k].y
                + all[k].height <= b2 by {}
            assert(all[m].y == g.y && all[m].y + all[m].height == b2);
        }
    } else {
        assert(g.x == s.x && g.y == s.y && s.y == l.y && s.x == l.x + l.width);
        assert(follows(all, m));
        assert forall|k: int| 0 <= k <= m implies (#[trigger] all[k]).y <= g.y by {}
        let lh1 = max16(s.line_height, h);
        let b2 = if after.x > 0 {
            after.y + after.line_height
        } else {
            after.y as int
        };
        assert(b2 == s.y + lh1);
        assert(line_bottom(all, m + 1, g.y as int, b2)) by {
            assert forall|k: int| 0 <= k < m + 1 && (#[trigger] all[k]).y == g.y implies all[k].y
                + all[k].height <= b2 by {
                if k < m {
                    assert(all[k] == grids[k]);
                }
            }
            if h >= s.line_height {
                assert(all[m].y == g.y && all[m].y + all[m].height == b2);
            } else {
                assert(all[kw] == grids[kw]);
                assert(all[kw].y == g.y && all[kw].y + all[kw].height == b2);
            }
        }
    }
    assert forall|j: int| 1 <= j < m + 1 implies #[trigger] follows(all, j) by {
        if j < m {
            lemma_follows_push(grids, g, j);
        }
    }
}

proof fn lemma_flow_lines(start_y: u16, sizes: Seq<(u16, u16)>)
    requires
        sizes.len() > 0,
        widths_valid(sizes),
        heights_valid(sizes),
        start_y + total_height(sizes) <= 0xFFFF,
    ensures
        flow_lines(FlowLayout::start(start_y), sizes),
        flow(FlowLayout::start(start_y), sizes).1[0].x == 0,
        flow(FlowLayout::start(start_y), sizes).1[0].y == start_y,
    decreases sizes.len(),
{
    let start = FlowLayout::start(start_y);
    let prefix = sizes.drop_last();
    assert(widths_valid(prefix)) by {
        assert forall|i: int| 0 <= i < prefix.len() implies 1 <= (#[trigger] prefix[i]).0 <= COLUMNS by {
            assert(prefix[i] == sizes[i]);
        }
    }
    assert(heights_valid(prefix)) by {
        assert forall|i: int| 0 <= i < prefix.len() implies 1 <= (#[trigger] prefix[i]).1 by {
            assert(prefix[i] == sizes[i]);
        }
    }
    assert(total_height(prefix) <= total_height(sizes));
    lemma_flow_invariant(start_y, prefix);
    lemma_flow_invariant(start_y, sizes);
    if sizes.len() == 1 {
        assert(prefix.len() == 0);
        assert(sizes[0] == sizes.last());
        let (w, h) = sizes.last();
        assert(1 <= w <= COLUMNS && 1 <= h);
        let (after, g) = start.placed(None, w, h);
        let all = seq![g];
        assert(flow(start, sizes) == (after, Seq::<GridPos>::empty().push(g)));
        assert(Seq::<GridPos>::empty().push(g) =~= all);
        assert(all[0] == g);
        assert(line_bottom(all, 1, g.y as int, start_y + h)) by {
            assert(all[0].y == g.y && all[0].y + all[0].height == start_y + h);
        }
    } else {
        lemma_flow_lines(start_y, prefix);
        lemma_flow_lines_step(start, sizes);
        let grids = flow(start, prefix).1;
        assert(flow(start, sizes).1[0] == grids[0]);
    }
}

/// The flow layout's placement law: given panels of valid widths and
/// heights whose rows fit in the grid's range, each panel keeps its size
/// and stays within the 24 columns, the first starts at column 0 of the
/// start row, each later one sits right after the one before it on the same
/// line or, when it would pass column 24, at column 0 of a new line starting
/// at the bottom of the previous line, and the layout's bottom lies at or
/// below every placed panel.
pub proof fn lemma_flow_law(start_y: u16, sizes: Seq<(u16, u16)>)
    requires
        widths_valid(sizes),
        heights_valid(sizes),
        start_y + total_height(sizes) <= 0xFFFF,
    ensures
        flow_law(start_y, sizes),
{
    let start = FlowLayout::start(start_y);
    lemma_flow_invariant(start_y, sizes);
    let (state, grids) = flow(start, sizes);
    assert forall|i: int| 0 <= i < grids.len() implies (#[trigger] grids[i]).y + grids[i].height
        <= state.spec_bottom() by {
        assert(state.y + state.line_height <= 0xFFFF);
    }
    if sizes.len() > 0 {
        lemma_flow_lines(start_y, sizes);
    }
}

} // verus!
