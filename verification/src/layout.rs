//! Where the keys lie on the touchpad.
//!
//! A layout is a list of rows, each a horizontal band of the pad, and each row a
//! list of items, each a stretch of that band with something attached to it. A
//! point of the pad resolves to what is attached to the first item that holds it.

use vstd::prelude::*;
use crate::keys::Key;

verus! {

/// One stretch of a row, `left_x <= x <= right_x`, and what is attached to it.
pub struct RowItem<T> {
    left_x: usize,
    right_x: usize,
    item: T,
}

/// One band of the pad, `min_y <= y <= max_y`, with its items from first to last.
pub struct Row<T> {
    items: Vec<RowItem<T>>,
    max_y: usize,
    min_y: usize,
}

/// The rows of a pad, from first to last.
pub struct Layout<T> {
    rows: Vec<Row<T>>,
}

/// What a [`RowItem`] stands for.
pub struct Region<T> {
    pub left_x: int,
    pub right_x: int,
    pub item: T,
}

/// What a [`Row`] stands for.
pub struct Band<T> {
    pub min_y: int,
    pub max_y: int,
    pub regions: Seq<Region<T>>,
}

impl<T> View for RowItem<T> {
    type V = Region<T>;

    closed spec fn view(&self) -> Region<T> {
        Region { left_x: self.left_x as int, right_x: self.right_x as int, item: self.item }
    }
}

impl<T> View for Row<T> {
    type V = Band<T>;

    closed spec fn view(&self) -> Band<T> {
        Band {
            min_y: self.min_y as int,
            max_y: self.max_y as int,
            regions: self.items@.map_values(|it: RowItem<T>| it@),
        }
    }
}

impl<T> View for Layout<T> {
    type V = Seq<Band<T>>;

    closed spec fn view(&self) -> Seq<Band<T>> {
        self.rows@.map_values(|row: Row<T>| row@)
    }
}

/// Region `j` of band `i` exists and holds the point `(x, y)`.
pub open spec fn hit<T>(bands: Seq<Band<T>>, i: int, j: int, x: int, y: int) -> bool {
    &&& 0 <= i < bands.len()
    &&& 0 <= j < bands[i].regions.len()
    &&& bands[i].min_y <= y <= bands[i].max_y
    &&& bands[i].regions[j].left_x <= x <= bands[i].regions[j].right_x
}

/// Region `(a, b)` comes before region `(i, j)`: an earlier band, or the same
/// band and an earlier place in it.
pub open spec fn earlier(a: int, b: int, i: int, j: int) -> bool {
    a < i || (a == i && b < j)
}

/// Region `(i, j)` holds the point and no region before it does.
pub open spec fn first_hit<T>(bands: Seq<Band<T>>, i: int, j: int, x: int, y: int) -> bool {
    &&& hit(bands, i, j, x, y)
    &&& forall|a: int, b: int| earlier(a, b, i, j) ==> !#[trigger] hit(bands, a, b, x, y)
}

/// What the point `(x, y)` resolves to: the item of the first region that holds
/// it, or nothing where no region does.
pub open spec fn resolve<T>(bands: Seq<Band<T>>, x: int, y: int) -> Option<T> {
    if exists|i: int, j: int| hit(bands, i, j, x, y) {
        let (i, j) = choose|i: int, j: int| first_hit(bands, i, j, x, y);
        Some(bands[i].regions[j].item)
    } else {
        None
    }
}

/// No point of the pad lies in two regions.
pub open spec fn disjoint<T>(bands: Seq<Band<T>>) -> bool {
    forall|i: int, j: int, a: int, b: int, x: int, y: int|
        #[trigger] hit(bands, i, j, x, y) && #[trigger] hit(bands, a, b, x, y) ==> i == a && j
            == b
}

/// Among the regions that hold a point, one is the first.
pub proof fn lemma_first_hit_exists<T>(bands: Seq<Band<T>>, i: int, j: int, x: int, y: int)
    requires
        hit(bands, i, j, x, y),
    ensures
        exists|a: int, b: int| first_hit(bands, a, b, x, y),
    decreases i, j,
{
    if exists|a: int, b: int| earlier(a, b, i, j) && hit(bands, a, b, x, y) {
        let (a, b) = choose|a: int, b: int| earlier(a, b, i, j) && hit(bands, a, b, x, y);
        lemma_first_hit_exists(bands, a, b, x, y);
    } else {
        assert(first_hit(bands, i, j, x, y));
    }
}

/// A point resolves to the item of the first region that holds it.
pub proof fn lemma_resolve_first<T>(bands: Seq<Band<T>>, i: int, j: int, x: int, y: int)
    requires
        first_hit(bands, i, j, x, y),
    ensures
        resolve(bands, x, y) == Some(bands[i].regions[j].item),
{
}

/// A point resolves to something exactly where some region holds it, and what
/// it resolves to is then the item of a region that holds it, the first such.
pub proof fn lemma_resolve_some<T>(bands: Seq<Band<T>>, x: int, y: int)
    ensures
        resolve(bands, x, y) is Some <==> exists|i: int, j: int| hit(bands, i, j, x, y),
        resolve(bands, x, y) is Some ==> exists|i: int, j: int|
            first_hit(bands, i, j, x, y) && resolve(bands, x, y) == Some(
                bands[i].regions[j].item,
            ),
{
    if exists|i: int, j: int| hit(bands, i, j, x, y) {
        let (i, j) = choose|i: int, j: int| hit(bands, i, j, x, y);
        lemma_first_hit_exists(bands, i, j, x, y);
    }
}

/// Where no two regions share a point, every point of a region resolves to
/// that region's item; a point outside every region resolves to nothing.
pub proof fn lemma_resolve_in_region<T>(bands: Seq<Band<T>>, i: int, j: int, x: int, y: int)
    requires
        disjoint(bands),
    ensures
        hit(bands, i, j, x, y) ==> resolve(bands, x, y) == Some(bands[i].regions[j].item),
        (forall|a: int, b: int| !hit(bands, a, b, x, y)) ==> resolve(bands, x, y) is None,
{
    if hit(bands, i, j, x, y) {
        lemma_resolve_first(bands, i, j, x, y);
    }
}

impl<T> RowItem<T> {
    /// The stretch from `left_x` to `right_x`, both included, with `item`.
    pub fn new(left_x: usize, right_x: usize, item: T) -> (it: Self)
        ensures
            it@ == (Region { left_x: left_x as int, right_x: right_x as int, item }),
    {
        RowItem { left_x, right_x, item }
    }
}

impl<T> Row<T> {
    /// The band from `min_y` to `max_y`, both included, with `items`.
    pub fn new(min_y: usize, max_y: usize, items: Vec<RowItem<T>>) -> (row: Self)
        ensures
            row@ == (Band {
                min_y: min_y as int,
                max_y: max_y as int,
                regions: items@.map_values(|it: RowItem<T>| it@),
            }),
    {
        Row { items, max_y, min_y }
    }
}

impl<T> Layout<T> {
    /// The layout made of `rows`.
    pub fn new(rows: Vec<Row<T>>) -> (layout: Self)
        ensures
            layout@ == rows@.map_values(|row: Row<T>| row@),
    {
        Layout { rows }
    }
}

impl<T: Clone> Layout<T> {
    /// What lies at `(x, y)`: a clone of the item that the point resolves to.
    pub fn get_item(&self, x: usize, y: usize) -> (found: Option<T>)
        ensures
            match (resolve(self@, x as int, y as int), found) {
                (Some(item), Some(k)) => cloned(item, k),
                (None, None) => true,
                _ => false,
            },
    {
        let mut i: usize = 0;
        while i < self.rows.len()
            invariant
                i <= self.rows.len(),
                forall|a: int, b: int| a < i ==> !#[trigger] hit(self@, a, b, x as int, y as int),
            decreases self.rows.len() - i,
        {
            let row = &self.rows[i];
            if row.min_y <= y && y <= row.max_y {
                let mut j: usize = 0;
                while j < row.items.len()
                    invariant
                        i < self.rows.len(),
                        row == &self.rows[i as int],
                        row.min_y <= y <= row.max_y,
                        j <= row.items.len(),
                        forall|a: int, b: int|
                            earlier(a, b, i as int, j as int) ==> !#[trigger] hit(
                                self@,
                                a,
                                b,
                                x as int,
                                y as int,
                            ),
                    decreases row.items.len() - j,
                {
                    let item = &row.items[j];
                    if item.left_x <= x && x <= item.right_x {
                        proof {
                            lemma_resolve_first(self@, i as int, j as int, x as int, y as int);
                        }
                        return Some(item.item.clone());
                    }
                    j += 1;
                }
            }
            i += 1;
        }
        None
    }
}

/// The gap between one key of the keypad and the next one in its row.
pub const KEY_MARGIN_X: usize = 50;

/// The gap between one row of the keypad and the next.
pub const ROW_MARGIN_Y: usize = 100;

/// A region of the keypad.
pub open spec fn key_region(left_x: int, right_x: int, key: Key) -> Region<Key> {
    Region { left_x, right_x, item: key }
}

/// A row of the keypad with five keys, one in each column of the pad.
pub open spec fn five_keys(min_y: int, max_y: int, a: Key, b: Key, c: Key, d: Key, e: Key) -> Band<
    Key,
> {
    Band {
        min_y,
        max_y,
        regions: seq![
            key_region(330, 860, a),
            key_region(910, 1600, b),
            key_region(1650, 2260, c),
            key_region(2310, 3030, d),
            key_region(3080, 3750, e),
        ],
    }
}

/// The keypad: four rows of keys, each 480 units high and 100 apart. The last
/// row has no key in the first column, and its zero reaches over the gap.
pub open spec fn numpad_bands() -> Seq<Band<Key>> {
    seq![
        five_keys(200, 680, Key::Num7, Key::Num8, Key::Num9, Key::Slash, Key::NumLock),
        five_keys(780, 1260, Key::Num4, Key::Num5, Key::Num6, Key::KpAsterisk, Key::Backspace),
        five_keys(1360, 1840, Key::Num1, Key::Num2, Key::Num3, Key::Minus, Key::Enter),
        Band {
            min_y: 1940,
            max_y: 2420,
            regions: seq![
                key_region(860, 1600, Key::Num0),
                key_region(1650, 2260, Key::Dot),
                key_region(2310, 3030, Key::KpPlus),
                key_region(3080, 3750, Key::Enter),
            ],
        },
    ]
}

/// No two keys of the keypad share a point.
pub proof fn lemma_numpad_disjoint()
    ensures
        disjoint(numpad_bands()),
{
}

/// Every key has its place on the keypad.
pub proof fn lemma_every_key_has_a_region(key: Key)
    ensures
        exists|i: int, j: int|
            0 <= i < numpad_bands().len() && 0 <= j < numpad_bands()[i].regions.len()
                && #[trigger] numpad_bands()[i].regions[j].item == key,
{
    let bands = numpad_bands();
    let (i, j): (int, int) = match key {
        Key::Num7 => (0, 0),
        Key::Num8 => (0, 1),
        Key::Num9 => (0, 2),
        Key::Slash => (0, 3),
        Key::NumLock => (0, 4),
        Key::Num4 => (1, 0),
        Key::Num5 => (1, 1),
        Key::Num6 => (1, 2),
        Key::KpAsterisk => (1, 3),
        Key::Backspace => (1, 4),
        Key::Num1 => (2, 0),
        Key::Num2 => (2, 1),
        Key::Num3 => (2, 2),
        Key::Minus => (2, 3),
        Key::Enter => (2, 4),
        Key::Num0 => (3, 0),
        Key::Dot => (3, 1),
        Key::KpPlus => (3, 2),
    };
    assert(bands[i].regions[j].item == key);
}

/// Adds the key that follows the last one of `vec`: it starts one gap after
/// that one and ends at `right_x`.
fn insert_next_key(vec: &mut Vec<RowItem<Key>>, right_x: usize, key: Key)
    requires
        old(vec).len() > 0,
        old(vec)[old(vec).len() - 1].right_x + KEY_MARGIN_X <= usize::MAX,
    ensures
        final(vec)@ == old(vec)@.push(
            RowItem {
                left_x: (old(vec)[old(vec).len() - 1].right_x + KEY_MARGIN_X) as usize,
                right_x,
                item: key,
            },
        ),
{
    let left_x = vec[vec.len() - 1].right_x + KEY_MARGIN_X;
    vec.push(RowItem { left_x, right_x, item: key });
}

/// Adds the row that follows the last one of `vec`: as high as that one, and
/// one gap below it.
fn insert_next_row(vec: &mut Vec<Row<Key>>, items: Vec<RowItem<Key>>)
    requires
        old(vec).len() > 0,
        old(vec)[old(vec).len() - 1].min_y <= old(vec)[old(vec).len() - 1].max_y,
        2 * old(vec)[old(vec).len() - 1].max_y + ROW_MARGIN_Y <= usize::MAX,
    ensures
        final(vec)@ == old(vec)@.push(
            Row {
                items,
                max_y: (2 * old(vec)[old(vec).len() - 1].max_y + ROW_MARGIN_Y - old(vec)[old(
                    vec,
                ).len() - 1].min_y) as usize,
                min_y: (old(vec)[old(vec).len() - 1].max_y + ROW_MARGIN_Y) as usize,
            },
        ),
{
    let last_max = vec[vec.len() - 1].max_y;
    let last_min = vec[vec.len() - 1].min_y;
    vec.push(
        Row {
            items,
            max_y: last_max + ROW_MARGIN_Y + last_max - last_min,
            min_y: last_max + ROW_MARGIN_Y,
        },
    );
}

/// The layout of the keypad.
pub fn default_numpad_layout() -> (layout: Layout<Key>)
    ensures
        layout@ == numpad_bands(),
{
    let mut rows: Vec<Row<Key>> = Vec::new();
    let mut items: Vec<RowItem<Key>> = Vec::new();
    items.push(RowItem { left_x: 330, right_x: 860, item: Key::Num7 });
    insert_next_key(&mut items, 1600, Key::Num8);
    insert_next_key(&mut items, 2260, Key::Num9);
    insert_next_key(&mut items, 3030, Key::Slash);
    insert_next_key(&mut items, 3750, Key::NumLock);
    let first_row = Row { items, min_y: 200, max_y: 680 };
    assert(first_row@.regions =~= numpad_bands()[0].regions);
    rows.push(first_row);

    let mut items: Vec<RowItem<Key>> = Vec::new();
    items.push(RowItem { left_x: 330, right_x: 860, item: Key::Num4 });
    insert_next_key(&mut items, 1600, Key::Num5);
    insert_next_key(&mut items, 2260, Key::Num6);
    insert_next_key(&mut items, 3030, Key::KpAsterisk);
    insert_next_key(&mut items, 3750, Key::Backspace);
    insert_next_row(&mut rows, items);
    assert(rows@[1]@.regions =~= numpad_bands()[1].regions);

    let mut items: Vec<RowItem<Key>> = Vec::new();
    items.push(RowItem { left_x: 330, right_x: 860, item: Key::Num1 });
    insert_next_key(&mut items, 1600, Key::Num2);
    insert_next_key(&mut items, 2260, Key::Num3);
    insert_next_key(&mut items, 3030, Key::Minus);
    insert_next_key(&mut items, 3750, Key::Enter);
    insert_next_row(&mut rows, items);
    assert(rows@[2]@.regions =~= numpad_bands()[2].regions);

    let mut items: Vec<RowItem<Key>> = Vec::new();
    items.push(RowItem { left_x: 860, right_x: 1600, item: Key::Num0 });
    insert_next_key(&mut items, 2260, Key::Dot);
    insert_next_key(&mut items, 3030, Key::KpPlus);
    insert_next_key(&mut items, 3750, Key::Enter);
    insert_next_row(&mut rows, items);
    assert(rows@[3]@.regions =~= numpad_bands()[3].regions);

    let layout = Layout { rows };
    layout
}

} // verus!
