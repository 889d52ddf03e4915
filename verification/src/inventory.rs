//! The inventory store.
//!
//! The store keeps an ordered sequence of item stacks and exposes one
//! operation, [`Inventory::add_item`].  Adding a positive quantity of a
//! stackable item merges into the last stack of the same name, saturating
//! that stack at its capacity and splitting any overflow into a fresh
//! stack.  Adding a non-stackable item, or a non-positive quantity, always
//! appends a fresh stack.  Every call reports the stacks it created, in
//! creation order, so that a presentation layer can render a slot for each.

use vstd::prelude::*;

use crate::item::Item;

verus! {

/// Whether some stack in `s` carries the name `name`.
pub open spec fn has_match(s: Seq<Item>, name: Seq<char>) -> bool {
    exists|i: int| 0 <= i < s.len() && s[i].name@ == name
}

/// The index of the last stack in `s` carrying the name `name`, or -1 if
/// there is none.  The merge target is the last match, not the first: a
/// forward scan that keeps overwriting its candidate ends on the last
/// matching index, and that is the policy the store implements.
pub open spec fn last_match_idx(s: Seq<Item>, name: Seq<char>) -> int
    decreases s.len(),
{
    if s.len() == 0 {
        -1
    } else if s[s.len() - 1].name@ == name {
        s.len() - 1
    } else {
        last_match_idx(s.drop_last(), name)
    }
}

/// `last_match_idx` returns a matching index after which nothing matches,
/// and -1 exactly when nothing matches at all.
pub proof fn lemma_last_match_idx(s: Seq<Item>, name: Seq<char>)
    ensures
        has_match(s, name) ==> {
            let k = last_match_idx(s, name);
            0 <= k < s.len() && s[k].name@ == name && forall|j: int|
                k < j < s.len() ==> s[j].name@ != name
        },
        !has_match(s, name) ==> last_match_idx(s, name) == -1,
    decreases s.len(),
{
    if s.len() == 0 {
    } else if s[s.len() - 1].name@ == name {
    } else {
        let t = s.drop_last();
        lemma_last_match_idx(t, name);
        assert(forall|j: int| 0 <= j < t.len() ==> t[j] == s[j]);
        if has_match(s, name) {
            let i = choose|i: int| 0 <= i < s.len() && s[i].name@ == name;
            assert(i < s.len() - 1);
            assert(t[i].name@ == name);
            assert(has_match(t, name));
        }
        if has_match(t, name) {
            let i = choose|i: int| 0 <= i < t.len() && t[i].name@ == name;
            assert(s[i].name@ == name);
            assert(has_match(s, name));
        }
    }
}

/// The inventory contents and the freshly created stacks, in creation
/// order, after adding `q` units of `item` to the contents `s` on the
/// stackable path: merge into the last stack of the same name up to its
/// capacity, splitting overflow into a new stack; without a match, append,
/// likewise split at capacity.
pub open spec fn spec_add_stackable(s: Seq<Item>, item: Item, q: i64) -> (Seq<Item>, Seq<Item>) {
    let m = item.max_stacks;
    if has_match(s, item.name@) {
        let k = last_match_idx(s, item.name@);
        let target = s[k];
        if target.stacks + q <= m {
            (s.update(k, target.spec_with_stacks((target.stacks + q) as i64)), Seq::<Item>::empty())
        } else {
            let over = target.spec_with_stacks((target.stacks + q - m) as i64);
            (s.update(k, target.spec_with_stacks(m)).push(over), seq![over])
        }
    } else {
        if q <= m {
            let e = item.spec_with_stacks(q);
            (s.push(e), seq![e])
        } else {
            let head = item.spec_with_stacks(m);
            let over = item.spec_with_stacks((q - m) as i64);
            (s.push(head).push(over), seq![head, over])
        }
    }
}

/// The inventory contents and the freshly created stacks after adding `q`
/// units of `item` to the contents `s`: non-positive quantities and
/// non-stackable items append a fresh stack unconditionally, everything
/// else takes the stackable path.
pub open spec fn spec_add(s: Seq<Item>, item: Item, q: i64) -> (Seq<Item>, Seq<Item>) {
    if q <= 0 || item.max_stacks <= 1 {
        let e = item.spec_with_stacks(q);
        (s.push(e), seq![e])
    } else {
        spec_add_stackable(s, item, q)
    }
}

/// The inventory contents after adding `q` units of `item`, `n` calls in
/// a row.
pub open spec fn spec_add_n(s: Seq<Item>, item: Item, q: i64, n: nat) -> Seq<Item>
    decreases n,
{
    if n == 0 {
        s
    } else {
        spec_add(spec_add_n(s, item, q, (n - 1) as nat), item, q).0
    }
}

/// Merging within capacity: adding a positive quantity of a stackable
/// item, where the matched stack has room for all of it, only raises that
/// stack's count by the quantity.  No other stack changes and no stack is
/// created.
pub proof fn lemma_merge_within_capacity(s: Seq<Item>, item: Item, q: i64)
    requires
        q > 0,
        item.max_stacks > 1,
        has_match(s, item.name@),
        s[last_match_idx(s, item.name@)].stacks + q <= item.max_stacks,
    ensures
        ({
            let k = last_match_idx(s, item.name@);
            let r = spec_add(s, item, q);
            r.0.len() == s.len() && r.0[k] == s[k].spec_with_stacks((s[k].stacks + q) as i64)
                && r.0[k].stacks == s[k].stacks + q && (forall|j: int|
                0 <= j < s.len() && j != k ==> r.0[j] == s[j]) && r.1.len() == 0
        }),
{
    lemma_last_match_idx(s, item.name@);
}

/// Overflowing merge: adding a positive quantity of a stackable item,
/// where the matched stack cannot hold all of it, saturates that stack at
/// the item's capacity and creates exactly one new stack carrying the
/// overflow, existing count + quantity - capacity.
pub proof fn lemma_merge_overflow_splits(s: Seq<Item>, item: Item, q: i64)
    requires
        q > 0,
        item.max_stacks > 1,
        has_match(s, item.name@),
        s[last_match_idx(s, item.name@)].stacks + q > item.max_stacks,
        s[last_match_idx(s, item.name@)].stacks + q <= i64::MAX,
    ensures
        ({
            let k = last_match_idx(s, item.name@);
            let r = spec_add(s, item, q);
            let over = s[k].spec_with_stacks((s[k].stacks + q - item.max_stacks) as i64);
            r.0.len() == s.len() + 1 && r.0[k] == s[k].spec_with_stacks(item.max_stacks)
                && r.0[k].stacks == item.max_stacks && r.0[s.len() as int] == over
                && r.0[s.len() as int].stacks == s[k].stacks + q - item.max_stacks && (forall|j: int|
                0 <= j < s.len() && j != k ==> r.0[j] == s[j]) && r.1 == seq![over]
        }),
{
    lemma_last_match_idx(s, item.name@);
}

/// A non-stackable item never merges: adding `q` units of it, `n` calls
/// in a row, appends `n` separate stacks, each carrying `q`, and leaves
/// every stack that was already present untouched.
pub proof fn lemma_non_stackable_never_merges(s: Seq<Item>, item: Item, q: i64, n: nat)
    requires
        item.max_stacks <= 1,
    ensures
        spec_add_n(s, item, q, n).len() == s.len() + n,
        forall|j: int| 0 <= j < s.len() ==> #[trigger] spec_add_n(s, item, q, n)[j] == s[j],
        forall|j: int|
            s.len() <= j < s.len() + n ==> #[trigger] spec_add_n(s, item, q, n)[j]
                == item.spec_with_stacks(q),
    decreases n,
{
    if n > 0 {
        lemma_non_stackable_never_merges(s, item, q, (n - 1) as nat);
    }
}

/// Every stack's count lies between 1 and its own capacity.
pub open spec fn stacks_in_bounds(s: Seq<Item>) -> bool {
    forall|i: int| 0 <= i < s.len() ==> 1 <= (#[trigger] s[i]).stacks <= s[i].max_stacks
}

/// The stack invariant is preserved: when every stack is within its
/// capacity, the added quantity lies between 1 and the item's capacity,
/// and stacks of the same name share that capacity, then after the
/// addition every stack is again within its capacity, and none holds a
/// count below 1.
pub proof fn lemma_add_preserves_stack_bounds(s: Seq<Item>, item: Item, q: i64)
    requires
        stacks_in_bounds(s),
        1 <= q <= item.max_stacks,
        forall|i: int|
            0 <= i < s.len() && (#[trigger] s[i]).name@ == item.name@ ==> s[i].max_stacks
                == item.max_stacks,
    ensures
        stacks_in_bounds(spec_add(s, item, q).0),
{
    let r = spec_add(s, item, q).0;
    if q <= 0 || item.max_stacks <= 1 {
        assert(q == 1 && item.max_stacks == 1);
        assert forall|i: int| 0 <= i < r.len() implies 1 <= (#[trigger] r[i]).stacks
            <= r[i].max_stacks by {
            if i < s.len() {
                assert(r[i] == s[i]);
            }
        }
    } else {
        lemma_last_match_idx(s, item.name@);
        assert forall|i: int| 0 <= i < r.len() implies 1 <= (#[trigger] r[i]).stacks
            <= r[i].max_stacks by {
            if has_match(s, item.name@) {
                let k = last_match_idx(s, item.name@);
                assert(s[k].max_stacks == item.max_stacks);
                if i < s.len() && i != k {
                    assert(r[i] == s[i]);
                }
            } else {
                if i < s.len() {
                    assert(r[i] == s[i]);
                }
            }
        }
    }
}

/// An ordered collection of item stacks, in insertion order.
pub struct Inventory {
    items: Vec<Item>,
}

impl View for Inventory {
    type V = Seq<Item>;

    closed spec fn view(&self) -> Seq<Item> {
        self.items@
    }
}

impl Inventory {
    /// Creates an empty inventory.
    pub fn new() -> (r: Inventory)
        ensures
            r@ == Seq::<Item>::empty(),
    {
        Inventory { items: Vec::new() }
    }

    /// Read access to the stacks, in insertion order.
    pub fn entries(&self) -> (r: &Vec<Item>)
        ensures
            r@ == self@,
    {
        &self.items
    }

    /// Querying is idempotent: the entry list reported by
    /// [`Inventory::entries`] is exactly the inventory's contents, so two
    /// reads with no addition between them return identical sequences.
    pub proof fn lemma_entries_query_idempotent(&self, r1: Seq<Item>, r2: Seq<Item>)
        requires
            r1 == self@,
            r2 == self@,
        ensures
            r1 == r2,
    {
    }

    /// Adds `stacks` units of `item`, merging into existing stacks where
    /// the item is stackable and the quantity positive, and returns the
    /// newly created stacks in creation order.
    pub fn add_item(&mut self, item: &Item, stacks: i64) -> (created: Vec<Item>)
        requires
            stacks > 0 && item.max_stacks > 1 ==> forall|i: int|
                0 <= i < old(self)@.len() ==> (#[trigger] old(self)@[i]).stacks + stacks
                    <= i64::MAX,
        ensures
            final(self)@ == spec_add(old(self)@, *item, stacks).0,
            created@ == spec_add(old(self)@, *item, stacks).1,
    {
        if stacks > 0 && item.max_stacks > 1 {
            self.add_stackable_item_into_inventory(item, stacks)
        } else {
            let entry = item.with_stacks(stacks);
            let mut created: Vec<Item> = Vec::new();
            created.push(entry.clone());
            self.items.push(entry);
            proof {
                assert(created@ =~= seq![item.spec_with_stacks(stacks)]);
            }
            created
        }
    }

    /// The stackable path of [`Inventory::add_item`]: merges `stacks`
    /// units of `item` into the last stack of the same name, saturating at
    /// the item's capacity, and returns the newly created stacks.
    pub fn add_stackable_item_into_inventory(&mut self, item: &Item, stacks: i64) -> (created: Vec<
        Item,
    >)
        requires
            stacks > 0,
            item.max_stacks > 1,
            forall|i: int|
                0 <= i < old(self)@.len() ==> (#[trigger] old(self)@[i]).stacks + stacks
                    <= i64::MAX,
        ensures
            final(self)@ == spec_add_stackable(old(self)@, *item, stacks).0,
            created@ == spec_add_stackable(old(self)@, *item, stacks).1,
    {
        let ghost s = self.items@;
        let mut item_index: Option<usize> = None;
        let n = self.items.len();
        let mut i: usize = 0;
        while i < n
            invariant
                n == self.items.len(),
                self.items@ == s,
                i <= n,
                match item_index {
                    None => forall|j: int| 0 <= j < i ==> s[j].name@ != item.name@,
                    Some(k) => k < i && s[k as int].name@ == item.name@ && forall|j: int|
                        k < j < i ==> s[j].name@ != item.name@,
                },
            decreases n - i,
        {
            if self.items[i].name == item.name {
                item_index = Some(i);
            }
            i += 1;
        }
        proof {
            lemma_last_match_idx(s, item.name@);
            match item_index {
                Some(k) => {
                    assert(has_match(s, item.name@));
                    let k2 = last_match_idx(s, item.name@);
                    assert(s[k2].name@ == item.name@);
                    assert(k2 == k as int);
                },
                None => {
                    assert(!has_match(s, item.name@));
                },
            }
        }
        let mut created: Vec<Item> = Vec::new();
        match item_index {
            Some(idx) => {
                let existing = self.items[idx].stacks;
                proof {
                    assert(old(self)@[idx as int].stacks + stacks <= i64::MAX);
                }
                if existing + stacks <= item.max_stacks {
                    let merged = self.items[idx].with_stacks(existing + stacks);
                    self.items[idx] = merged;
                    proof {
                        assert(created@ =~= Seq::<Item>::empty());
                    }
                } else {
                    let capped = self.items[idx].with_stacks(item.max_stacks);
                    self.items[idx] = capped;
                    let over = self.items[idx].with_stacks(existing + stacks - item.max_stacks);
                    created.push(over.clone());
                    self.items.push(over);
                    proof {
                        let over_spec = s[idx as int].spec_with_stacks(
                            (s[idx as int].stacks + stacks - item.max_stacks) as i64,
                        );
                        assert(created@ =~= seq![over_spec]);
                    }
                }
            },
            None => {
                if stacks <= item.max_stacks {
                    let entry = item.with_stacks(stacks);
                    created.push(entry.clone());
                    self.items.push(entry);
                    proof {
                        assert(created@ =~= seq![item.spec_with_stacks(stacks)]);
                    }
                } else {
                    let head = item.with_stacks(item.max_stacks);
                    let over = item.with_stacks(stacks - item.max_stacks);
                    created.push(head.clone());
                    created.push(over.clone());
                    self.items.push(head);
                    self.items.push(over);
                    proof {
                        assert(created@ =~= seq![
                            item.spec_with_stacks(item.max_stacks),
                            item.spec_with_stacks((stacks - item.max_stacks) as i64),
                        ]);
                    }
                }
            },
        }
        created
    }
}

} // verus!
