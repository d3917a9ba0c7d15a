use vstd::prelude::*;

use crate::item::ItemKind;

verus! {

/// One stack of items of a single kind.
#[derive(Copy, Clone, PartialEq, Eq, Structural, Debug)]
pub struct ItemEntry {
    pub kind: ItemKind,
    pub amount: u32,
}

impl Default for ItemEntry {
    fn default() -> (r: Self)
        ensures
            r == (ItemEntry { kind: ItemKind::Medkit, amount: 0 }),
    {
        ItemEntry { kind: ItemKind::Medkit, amount: 0 }
    }
}

impl ItemEntry {
    pub fn kind(&self) -> (r: ItemKind)
        ensures
            r == self.kind,
    {
        self.kind
    }

    pub fn amount(&self) -> (r: u32)
        ensures
            r == self.amount,
    {
        self.amount
    }
}

/// Some entry of `s` holds items of `kind`.
pub open spec fn has_kind(s: Seq<ItemEntry>, kind: ItemKind) -> bool {
    exists|i: int| 0 <= i < s.len() && s[i].kind == kind
}

/// The position of the entry of `kind` in `s` (meaningful when `has_kind(s, kind)`).
pub open spec fn index_of(s: Seq<ItemEntry>, kind: ItemKind) -> int {
    choose|i: int| 0 <= i < s.len() && s[i].kind == kind
}

/// How many items of `kind` the entries `s` hold.
pub open spec fn count_of(s: Seq<ItemEntry>, kind: ItemKind) -> nat {
    if has_kind(s, kind) {
        s[index_of(s, kind)].amount as nat
    } else {
        0
    }
}

/// No kind occurs twice and no entry is empty.
pub open spec fn well_formed_items(s: Seq<ItemEntry>) -> bool {
    &&& forall|i: int, j: int| 0 <= i < s.len() && 0 <= j < s.len() && i != j
        ==> s[i].kind != s[j].kind
    &&& forall|i: int| 0 <= i < s.len() ==> s[i].amount > 0
}

/// The entries after adding `count` items of `kind`.
pub open spec fn spec_add_item(s: Seq<ItemEntry>, kind: ItemKind, count: u32) -> Seq<ItemEntry> {
    if has_kind(s, kind) {
        s.update(index_of(s, kind), ItemEntry { kind, amount: (count_of(s, kind) + count) as u32 })
    } else {
        s.push(ItemEntry { kind, amount: count })
    }
}

/// The entries after trying to take exactly `amount` items of `kind`, and how many were taken.
pub open spec fn spec_extract_items(s: Seq<ItemEntry>, kind: ItemKind, amount: u32) -> (Seq<ItemEntry>, u32) {
    let i = index_of(s, kind);
    if has_kind(s, kind) && s[i].amount >= amount {
        if s[i].amount == amount {
            (s.remove(i), amount)
        } else {
            (s.update(i, ItemEntry { kind, amount: (s[i].amount - amount) as u32 }), amount)
        }
    } else {
        (s, 0)
    }
}

/// In a well-formed list, the entry of a kind is the only one with that kind.
pub proof fn lemma_index_of_unique(s: Seq<ItemEntry>, kind: ItemKind, i: int)
    requires
        well_formed_items(s),
        0 <= i < s.len(),
        s[i].kind == kind,
    ensures
        has_kind(s, kind),
        index_of(s, kind) == i,
        count_of(s, kind) == s[i].amount,
{
}

/// The items an actor carries, one entry per kind, in the order they were first added.
pub struct Inventory {
    items: Vec<ItemEntry>,
}

impl View for Inventory {
    type V = Seq<ItemEntry>;

    closed spec fn view(&self) -> Seq<ItemEntry> {
        self.items@
    }
}

impl Clone for Inventory {
    fn clone(&self) -> (r: Self)
        ensures
            r@ == self@,
    {
        proof {
            use_type_invariant(self);
        }
        let items = self.items.clone();
        proof {
            assert(items@ =~= self.items@);
        }
        Inventory { items }
    }
}

impl Default for Inventory {
    fn default() -> (r: Self)
        ensures
            r@ == Seq::<ItemEntry>::empty(),
    {
        Inventory { items: Vec::new() }
    }
}

impl Inventory {
    #[verifier::type_invariant]
    spec fn inv(self) -> bool {
        well_formed_items(self.items@)
    }

    /// Every inventory is well formed.
    pub fn is_well_formed(&self) -> (r: bool)
        ensures
            r,
            well_formed_items(self@),
    {
        proof {
            use_type_invariant(self);
        }
        true
    }

    pub fn new() -> (r: Self)
        ensures
            r@ == Seq::<ItemEntry>::empty(),
    {
        Inventory { items: Vec::new() }
    }

    fn entry_index(&self, item: ItemKind) -> (r: Option<usize>)
        ensures
            r is Some <==> has_kind(self@, item),
            r matches Some(i) ==> i == index_of(self@, item) && i < self@.len(),
    {
        proof {
            use_type_invariant(self);
        }
        let mut i: usize = 0;
        while i < self.items.len()
            invariant
                i <= self.items@.len(),
                well_formed_items(self.items@),
                forall|j: int| 0 <= j < i ==> self.items@[j].kind != item,
            decreases self.items@.len() - i,
        {
            if self.items[i].kind == item {
                proof {
                    lemma_index_of_unique(self.items@, item, i as int);
                }
                return Some(i);
            }
            i = i + 1;
        }
        None
    }

    /// Adds `count` items of a kind, to its entry if there is one, else as a new last entry.
    pub fn add_item(&mut self, item: ItemKind, count: u32)
        requires
            count != 0,
            count_of(old(self)@, item) + count <= u32::MAX,
        ensures
            final(self)@ == spec_add_item(old(self)@, item, count),
            well_formed_items(final(self)@),
    {
        proof {
            use_type_invariant(&*self);
        }
        let found = self.entry_index(item);
        let mut items: Vec<ItemEntry> = Vec::new();
        std::mem::swap(&mut items, &mut self.items);
        match found {
            Some(i) => {
                let amount = items[i].amount + count;
                items.set(i, ItemEntry { kind: item, amount });
            },
            None => {
                items.push(ItemEntry { kind: item, amount: count });
            },
        }
        self.items = items;
    }
}

impl Inventory {
    /// Takes exactly `amount` items of a kind, or nothing when there are fewer.
    /// Returns how many items were taken; an entry that becomes empty is removed.
    pub fn try_extract_exact_items(&mut self, item: ItemKind, amount: u32) -> (r: u32)
        ensures
            (final(self)@, r) == spec_extract_items(old(self)@, item, amount),
            well_formed_items(final(self)@),
    {
        proof {
            use_type_invariant(&*self);
        }
        let ghost s = self.items@;
        if let Some(position) = self.entry_index(item) {
            if self.items[position].amount >= amount {
                let left = self.items[position].amount - amount;
                let mut items: Vec<ItemEntry> = Vec::new();
                std::mem::swap(&mut items, &mut self.items);
                if left == 0 {
                    items.remove(position);
                    proof {
                        assert forall|a: int, b: int|
                            0 <= a < items@.len() && 0 <= b < items@.len() && a != b
                            implies items@[a].kind != items@[b].kind by {
                            let a0 = if a < position { a } else { a + 1 };
                            let b0 = if b < position { b } else { b + 1 };
                            assert(items@[a] == s[a0]);
                            assert(items@[b] == s[b0]);
                        }
                        assert forall|a: int| 0 <= a < items@.len() implies items@[a].amount > 0 by {
                            let a0 = if a < position { a } else { a + 1 };
                            assert(items@[a] == s[a0]);
                        }
                    }
                } else {
                    items.set(position, ItemEntry { kind: item, amount: left });
                }
                self.items = items;
                return amount;
            }
        }
        0
    }

    /// The entries, in order.
    pub fn items(&self) -> (r: &[ItemEntry])
        ensures
            r@ == self@,
            well_formed_items(r@),
    {
        proof {
            use_type_invariant(self);
        }
        self.items.as_slice()
    }

    /// How many items of a kind the inventory holds (0 when it holds none).
    pub fn item_count(&self, item: ItemKind) -> (r: u32)
        ensures
            r == count_of(self@, item),
    {
        match self.entry(item) {
            Some(entry) => entry.amount,
            None => 0,
        }
    }

    /// The entry of a kind, if the inventory holds that kind.
    pub fn entry(&self, item: ItemKind) -> (r: Option<&ItemEntry>)
        ensures
            r is Some <==> has_kind(self@, item),
            r matches Some(e) ==> *e == self@[index_of(self@, item)] && e.kind == item,
    {
        match self.entry_index(item) {
            Some(i) => Some(&self.items[i]),
            None => None,
        }
    }
}

/// Adding items keeps the entries well formed, raises the count of that kind by the
/// number added and leaves every other kind's count as it was.
pub proof fn lemma_add_item_counts(s: Seq<ItemEntry>, kind: ItemKind, count: u32, other: ItemKind)
    requires
        well_formed_items(s),
        count != 0,
        count_of(s, kind) + count <= u32::MAX,
    ensures
        well_formed_items(spec_add_item(s, kind, count)),
        count_of(spec_add_item(s, kind, count), kind) == count_of(s, kind) + count,
        other != kind ==> count_of(spec_add_item(s, kind, count), other) == count_of(s, other),
{
    let t = spec_add_item(s, kind, count);
    if has_kind(s, kind) {
        let i = index_of(s, kind);
        lemma_index_of_unique(t, kind, i);
        if other != kind && has_kind(s, other) {
            let j = index_of(s, other);
            lemma_index_of_unique(t, other, j);
        }
        if other != kind && has_kind(t, other) {
            let j = index_of(t, other);
            assert(s[j].kind == other);
        }
    } else {
        let i = s.len() as int;
        lemma_index_of_unique(t, kind, i);
        if other != kind && has_kind(s, other) {
            let j = index_of(s, other);
            lemma_index_of_unique(t, other, j);
        }
        if other != kind && has_kind(t, other) {
            let j = index_of(t, other);
            assert(s[j].kind == other);
        }
    }
}

/// Taking items succeeds exactly when the inventory holds at least as many; it then
/// lowers that kind's count by the number taken and leaves other kinds alone, and on
/// failure nothing changes.
pub proof fn lemma_extract_items_counts(s: Seq<ItemEntry>, kind: ItemKind, amount: u32, other: ItemKind)
    requires
        well_formed_items(s),
    ensures
        ({
            let (t, taken) = spec_extract_items(s, kind, amount);
            &&& well_formed_items(t)
            &&& (taken == amount <==> count_of(s, kind) >= amount)
            &&& (count_of(s, kind) < amount ==> taken == 0 && t == s)
            &&& count_of(t, kind) == count_of(s, kind) - taken
            &&& (other != kind ==> count_of(t, other) == count_of(s, other))
        }),
{
    let (t, taken) = spec_extract_items(s, kind, amount);
    if has_kind(s, kind) && s[index_of(s, kind)].amount >= amount {
        let i = index_of(s, kind);
        if s[i].amount == amount {
            assert forall|a: int, b: int|
                0 <= a < t.len() && 0 <= b < t.len() && a != b implies t[a].kind != t[b].kind by {
                let a0 = if a < i { a } else { a + 1 };
                let b0 = if b < i { b } else { b + 1 };
                assert(t[a] == s[a0]);
                assert(t[b] == s[b0]);
            }
            assert forall|a: int| 0 <= a < t.len() implies t[a].amount > 0 by {
                let a0 = if a < i { a } else { a + 1 };
                assert(t[a] == s[a0]);
            }
            if has_kind(t, kind) {
                let j = index_of(t, kind);
                let j0 = if j < i { j } else { j + 1 };
                assert(t[j] == s[j0]);
            }
            if other != kind && has_kind(s, other) {
                let j = index_of(s, other);
                let j1 = if j < i { j } else { j - 1 };
                assert(t[j1] == s[j]);
                lemma_index_of_unique(t, other, j1);
            }
            if other != kind && has_kind(t, other) {
                let j = index_of(t, other);
                let j0 = if j < i { j } else { j + 1 };
                assert(t[j] == s[j0]);
                lemma_index_of_unique(s, other, j0);
            }
        } else {
            lemma_index_of_unique(t, kind, i);
            if other != kind && has_kind(s, other) {
                let j = index_of(s, other);
                lemma_index_of_unique(t, other, j);
            }
            if other != kind && has_kind(t, other) {
                let j = index_of(t, other);
                assert(s[j].kind == other);
            }
        }
    }
}

/// Taking right back what was just added restores the entries exactly.
pub proof fn lemma_add_then_extract_restores(s: Seq<ItemEntry>, kind: ItemKind, count: u32)
    requires
        well_formed_items(s),
        count != 0,
        count_of(s, kind) + count <= u32::MAX,
    ensures
        spec_extract_items(spec_add_item(s, kind, count), kind, count) == (s, count),
{
    let t = spec_add_item(s, kind, count);
    if has_kind(s, kind) {
        let i = index_of(s, kind);
        lemma_index_of_unique(t, kind, i);
        let (u, taken) = spec_extract_items(t, kind, count);
        assert(u =~= s);
    } else {
        let i = s.len() as int;
        lemma_index_of_unique(t, kind, i);
        let (u, taken) = spec_extract_items(t, kind, count);
        assert(u =~= s);
    }
}


/// The entries after adding each `(kind, count)` of `adds` in turn.
pub open spec fn spec_add_all(s: Seq<ItemEntry>, adds: Seq<(ItemKind, u32)>) -> Seq<ItemEntry>
    decreases adds.len(),
{
    if adds.len() == 0 {
        s
    } else {
        spec_add_item(spec_add_all(s, adds.drop_last()), adds.last().0, adds.last().1)
    }
}

/// How many items of `kind` the additions `adds` bring in all.
pub open spec fn added_count(adds: Seq<(ItemKind, u32)>, kind: ItemKind) -> nat
    decreases adds.len(),
{
    if adds.len() == 0 {
        0
    } else {
        added_count(adds.drop_last(), kind) + if adds.last().0 == kind {
            adds.last().1 as nat
        } else {
            0nat
        }
    }
}

/// The kinds of `adds`, each once, in the order in which they first occur.
pub open spec fn first_insertion_order(adds: Seq<(ItemKind, u32)>) -> Seq<ItemKind>
    decreases adds.len(),
{
    if adds.len() == 0 {
        Seq::empty()
    } else {
        let earlier = first_insertion_order(adds.drop_last());
        if earlier.contains(adds.last().0) {
            earlier
        } else {
            earlier.push(adds.last().0)
        }
    }
}

/// The kinds of the entries, in order.
pub open spec fn kinds_of(s: Seq<ItemEntry>) -> Seq<ItemKind> {
    s.map_values(|e: ItemEntry| e.kind)
}

/// Starting from an empty inventory, a sequence of additions (none of them empty, no
/// kind's total past `u32::MAX`) lists each added kind once, in the order in which it was
/// first added, and each entry holds the sum of the counts added for its kind.
pub proof fn lemma_add_sequence(adds: Seq<(ItemKind, u32)>)
    requires
        forall|i: int| 0 <= i < adds.len() ==> (#[trigger] adds[i]).1 > 0,
        forall|k: ItemKind| #[trigger] added_count(adds, k) <= u32::MAX,
    ensures
        well_formed_items(spec_add_all(Seq::empty(), adds)),
        kinds_of(spec_add_all(Seq::empty(), adds)) == first_insertion_order(adds),
        forall|k: ItemKind| #[trigger] count_of(spec_add_all(Seq::empty(), adds), k) == added_count(adds, k),
        forall|i: int| 0 <= i < spec_add_all(Seq::empty(), adds).len()
            ==> (#[trigger] spec_add_all(Seq::empty(), adds)[i]).amount == added_count(
                adds,
                spec_add_all(Seq::empty(), adds)[i].kind,
            ),
    decreases adds.len(),
{
    let t = spec_add_all(Seq::empty(), adds);
    if adds.len() == 0 {
        assert(kinds_of(t) =~= Seq::<ItemKind>::empty());
    } else {
        let p = adds.drop_last();
        let (k, c) = adds.last();
        assert forall|i: int| 0 <= i < p.len() implies (#[trigger] p[i]).1 > 0 by {
            assert(p[i] == adds[i]);
        }
        assert forall|k2: ItemKind| #[trigger] added_count(p, k2) <= u32::MAX by {
            assert(added_count(adds, k2) <= u32::MAX);
        }
        lemma_add_sequence(p);
        let tp = spec_add_all(Seq::empty(), p);
        assert(added_count(adds, k) <= u32::MAX);
        assert(count_of(tp, k) == added_count(p, k));
        assert forall|k2: ItemKind| #[trigger] count_of(t, k2) == added_count(adds, k2) by {
            lemma_add_item_counts(tp, k, c, k2);
            assert(count_of(tp, k2) == added_count(p, k2));
        }
        lemma_add_item_counts(tp, k, c, k);
        let ep = first_insertion_order(p);
        if has_kind(tp, k) {
            let j = index_of(tp, k);
            assert(kinds_of(tp)[j] == k);
            assert(ep.contains(k));
            assert(kinds_of(t) =~= kinds_of(tp));
        } else {
            if ep.contains(k) {
                let j = choose|j: int| 0 <= j < ep.len() && ep[j] == k;
                assert(kinds_of(tp)[j] == k);
                assert(tp[j].kind == k);
            }
            assert(kinds_of(t) =~= kinds_of(tp).push(k));
        }
        assert forall|i: int| 0 <= i < t.len() implies (#[trigger] t[i]).amount == added_count(adds, t[i].kind) by {
            lemma_index_of_unique(t, t[i].kind, i);
            assert(count_of(t, t[i].kind) == added_count(adds, t[i].kind));
        }
    }
}


/// Taking `a` items of a kind and then one more leaves the same entries as taking `a + 1`
/// at once, when there are that many.
pub proof fn lemma_extract_one_more(s: Seq<ItemEntry>, kind: ItemKind, a: u32)
    requires
        well_formed_items(s),
        a < u32::MAX,
        a <= count_of(s, kind),
    ensures
        well_formed_items(spec_extract_items(s, kind, a).0),
        count_of(spec_extract_items(s, kind, a).0, kind) == count_of(s, kind) - a,
        count_of(s, kind) >= a + 1 ==> spec_extract_items(spec_extract_items(s, kind, a).0, kind, 1).0
            == spec_extract_items(s, kind, (a + 1) as u32).0,
{
    lemma_extract_items_counts(s, kind, a, kind);
    let t = spec_extract_items(s, kind, a).0;
    if count_of(s, kind) >= a + 1 {
        let i = index_of(s, kind);
        if a == 0 {
            assert(t =~= s);
        } else {
            lemma_index_of_unique(t, kind, i);
            if s[i].amount == a + 1 {
                assert(spec_extract_items(t, kind, 1).0 =~= spec_extract_items(s, kind, (a + 1) as u32).0);
            } else {
                assert(spec_extract_items(t, kind, 1).0 =~= spec_extract_items(s, kind, (a + 1) as u32).0);
            }
        }
    }
}

} // verus!
