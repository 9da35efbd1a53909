//! Warm cache of the static item table, so read-heavy endpoints do not hit
//! the store on every request. The embedding program fetches the rows once
//! at start-up and fills an [`ItemCatalog`]; lookups then run here.

use vstd::prelude::*;

verus! {

/// One immutable row from the item table.
#[derive(Debug, Clone)]
pub struct ItemDef {
    pub id: i32,
    pub name: String,
    pub description: Option<String>,
    pub base_price: i32,
}

/// Copies one item row field for field.
fn copy_item(e: &ItemDef) -> (r: ItemDef)
    ensures
        r == *e,
{
    ItemDef {
        id: e.id,
        name: e.name.clone(),
        description: match &e.description {
            Option::Some(s) => Option::Some(s.clone()),
            Option::None => Option::None,
        },
        base_price: e.base_price,
    }
}

/// The warmed item table: at most one row per id.
pub struct ItemCatalog {
    items: Vec<ItemDef>,
}

impl ItemCatalog {
    /// The cached rows, in insertion order.
    pub closed spec fn entries(self) -> Seq<ItemDef> {
        self.items@
    }

    /// Ids are unique, so a lookup's answer is pinned.
    pub closed spec fn wf(self) -> bool {
        forall|x: int, y: int|
            0 <= x < y < self.items@.len() ==> self.items@[x].id != self.items@[y].id
    }

    pub fn new() -> (c: ItemCatalog)
        ensures
            c.wf(),
            c.entries() == Seq::<ItemDef>::empty(),
    {
        ItemCatalog { items: Vec::new() }
    }

    /// Inserts one row, replacing any earlier row with the same id — so
    /// warming the cache twice is idempotent.
    pub fn insert_item(&mut self, item: ItemDef)
        requires
            old(self).wf(),
        ensures
            final(self).wf(),
            final(self).entries().len() >= 1,
            final(self).entries().last() == item,
            forall|j: int|
                0 <= j < final(self).entries().len() - 1 ==> final(self).entries()[j]
                    == old(self).entries()[item_skip(old(self).entries(), item.id, j)],
            forall|j: int|
                0 <= j < old(self).entries().len() && old(self).entries()[j].id != item.id
                    ==> final(self).entries().contains(old(self).entries()[j]),
    {
        let ghost pre = self.items@;
        let n = self.items.len();
        let mut i: usize = 0;
        while i < n
            invariant
                i <= n,
                n == self.items@.len(),
                self.items@ == pre,
                pre == old(self).entries(),
                forall|x: int, y: int| 0 <= x < y < pre.len() ==> pre[x].id != pre[y].id,
                forall|j: int| 0 <= j < i ==> self.items@[j].id != item.id,
            decreases n - i,
        {
            if self.items[i].id == item.id {
                self.items.remove(i);
                proof {
                    pre.remove_ensures(i as int);
                    assert forall|j: int|
                        0 <= j < self.items@.len() implies self.items@[j] == pre[item_skip(
                        pre,
                        item.id,
                        j,
                    )] by {
                        lemma_item_skip(pre, item.id, i as int, j);
                    }
                    assert forall|x: int, y: int|
                        0 <= x < y < self.items@.len() implies self.items@[x].id
                        != self.items@[y].id by {
                        let x0: int = if x < i { x } else { x + 1 };
                        let y0: int = if y < i { y } else { y + 1 };
                        assert(self.items@[x] == pre[x0]);
                        assert(self.items@[y] == pre[y0]);
                    }
                }
                self.items.push(item);
                proof {
                    lemma_retained(pre, self.items@, item.id, i as int);
                }
                return ;
            }
            i = i + 1;
        }
        self.items.push(item);
        proof {
            assert forall|j: int|
                0 <= j < self.items@.len() - 1 implies self.items@[j] == pre[item_skip(
                pre,
                item.id,
                j,
            )] by {
                assert(pre[j].id != item.id);
            }
            assert forall|j: int|
                0 <= j < pre.len() && pre[j].id != item.id implies self.items@.contains(
                pre[j],
            ) by {
                assert(self.items@[j] == pre[j]);
            }
        }
    }
}

/// Maps a position in the catalog after an upsert of `id` back to the
/// position in the old catalog it came from: positions at or past the old
/// row of `id` shift by one; with no old row they stay put.
pub open spec fn item_skip(pre: Seq<ItemDef>, id: i32, j: int) -> int {
    if exists|k: int| 0 <= k < pre.len() && pre[k].id == id {
        let k = choose|k: int| 0 <= k < pre.len() && pre[k].id == id;
        if j < k {
            j
        } else {
            j + 1
        }
    } else {
        j
    }
}

proof fn lemma_item_skip(pre: Seq<ItemDef>, id: i32, i: int, j: int)
    requires
        0 <= i < pre.len(),
        pre[i].id == id,
        forall|x: int, y: int| 0 <= x < y < pre.len() ==> pre[x].id != pre[y].id,
        0 <= j < pre.remove(i).len(),
    ensures
        pre.remove(i)[j] == pre[item_skip(pre, id, j)],
{
    pre.remove_ensures(i);
    let k = choose|k: int| 0 <= k < pre.len() && pre[k].id == id;
    assert(k == i);
}

proof fn lemma_retained(pre: Seq<ItemDef>, post: Seq<ItemDef>, id: i32, i: int)
    requires
        0 <= i < pre.len(),
        pre[i].id == id,
        post.len() == pre.len(),
        forall|j: int| 0 <= j < i ==> post[j] == pre[j],
        forall|j: int| i <= j < pre.len() - 1 ==> post[j] == pre[j + 1],
    ensures
        forall|j: int| 0 <= j < pre.len() && pre[j].id != id ==> post.contains(pre[j]),
{
    assert forall|j: int| 0 <= j < pre.len() && pre[j].id != id implies post.contains(pre[j]) by {
        if j < i {
            assert(post[j] == pre[j]);
        } else {
            assert(j != i);
            assert(post[j - 1] == pre[j]);
        }
    }
}

/// Retrieves a cached item definition by id: a copy of the unique row with
/// that id, or nothing when the table has none.
pub fn get_item(catalog: &ItemCatalog, id: i32) -> (r: Option<ItemDef>)
    ensures
        match r {
            Option::Some(item) => item.id == id && catalog.entries().contains(item),
            Option::None => forall|k: int|
                0 <= k < catalog.entries().len() ==> catalog.entries()[k].id != id,
        },
{
    let n = catalog.items.len();
    let mut i: usize = 0;
    while i < n
        invariant
            i <= n,
            n == catalog.items@.len(),
            forall|j: int| 0 <= j < i ==> catalog.items@[j].id != id,
        decreases n - i,
    {
        if catalog.items[i].id == id {
            let item = copy_item(&catalog.items[i]);
            proof {
                assert(catalog.items@[i as int] == item);
            }
            return Option::Some(item);
        }
        i = i + 1;
    }
    Option::None
}

} // verus!
