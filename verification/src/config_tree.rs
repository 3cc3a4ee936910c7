//! Configuration documents as trees, and how one document is laid over
//! another.
//!
//! A document is a table of named values; a value is a table again or a
//! leaf. What a leaf holds is of no concern here: it is carried as text.

use vstd::prelude::*;

verus! {

/// One value of a configuration document.
#[derive(Debug)]
pub enum ConfigValue {
    /// Anything that is no table.
    Leaf(String),
    /// Named values, in order.
    Table(Vec<(String, ConfigValue)>),
}

pub ghost enum ValueView {
    Leaf(Seq<char>),
    Table(Seq<(Seq<char>, ValueView)>),
}

impl View for ConfigValue {
    type V = ValueView;

    open spec fn view(&self) -> ValueView
        decreases self, 0nat,
    {
        match self {
            ConfigValue::Leaf(s) => ValueView::Leaf(s@),
            ConfigValue::Table(v) => ValueView::Table(view_first(v@, v@.len())),
        }
    }
}

/// The first `n` entries of a table in mathematical terms.
pub open spec fn view_first(entries: Seq<(String, ConfigValue)>, n: nat) -> Seq<
    (Seq<char>, ValueView),
>
    decreases entries, n,
{
    if n == 0 || n > entries.len() {
        Seq::empty()
    } else {
        view_first(entries, (n - 1) as nat).push((entries[n - 1].0@, entries[n - 1].1.view()))
    }
}

/// The entries of a table in mathematical terms.
pub open spec fn view_entries(entries: Seq<(String, ConfigValue)>) -> Seq<(Seq<char>, ValueView)> {
    Seq::new(entries.len(), |i: int| (entries[i].0@, entries[i].1@))
}

proof fn lemma_view_first(entries: Seq<(String, ConfigValue)>, n: nat)
    requires
        n <= entries.len(),
    ensures
        view_first(entries, n) == view_entries(entries).take(n as int),
    decreases n,
{
    if n > 0 {
        lemma_view_first(entries, (n - 1) as nat);
        assert(view_first(entries, n) == view_first(entries, (n - 1) as nat).push(
            (entries[n - 1].0@, entries[n - 1].1@),
        ));
    }
}

/// The index of the first entry named `key`, or the length where there is
/// none.
pub open spec fn find_key(entries: Seq<(Seq<char>, ValueView)>, key: Seq<char>) -> int
    decreases entries.len(),
{
    if entries.len() == 0 {
        0
    } else if entries[0].0 == key {
        0
    } else {
        1 + find_key(entries.drop_first(), key)
    }
}

/// `other` laid over `base`. Two tables are merged name by name; in every
/// other case `other` takes the place of `base`.
pub open spec fn merge_values(base: ValueView, other: ValueView) -> ValueView
    decreases other, 0nat,
{
    match (base, other) {
        (ValueView::Table(b), ValueView::Table(o)) => ValueView::Table(
            merge_tables(b, o, o.len()),
        ),
        (_, o) => o,
    }
}

/// The first `n` entries of `other` laid over `base`, one after the
/// other: an entry whose name `base` has is merged into the value of that
/// name, another is added at the end.
pub open spec fn merge_tables(
    base: Seq<(Seq<char>, ValueView)>,
    other: Seq<(Seq<char>, ValueView)>,
    n: nat,
) -> Seq<(Seq<char>, ValueView)>
    decreases other, n,
{
    if n == 0 || n > other.len() {
        base
    } else {
        let so_far = merge_tables(base, other, (n - 1) as nat);
        let entry = other[n - 1];
        let i = find_key(so_far, entry.0);
        if 0 <= i < so_far.len() {
            so_far.update(i, (so_far[i].0, merge_values(so_far[i].1, entry.1)))
        } else {
            so_far.push(entry)
        }
    }
}

proof fn lemma_find_key(entries: Seq<(Seq<char>, ValueView)>, key: Seq<char>)
    ensures
        0 <= find_key(entries, key) <= entries.len(),
        find_key(entries, key) < entries.len() ==> entries[find_key(entries, key)].0 == key,
        forall|j: int| 0 <= j < find_key(entries, key) ==> entries[j].0 != key,
    decreases entries.len(),
{
    if entries.len() > 0 && entries[0].0 != key {
        let rest = entries.drop_first();
        lemma_find_key(rest, key);
        assert forall|j: int| 0 <= j < find_key(entries, key) implies entries[j].0 != key by {
            if j > 0 {
                assert(entries[j] == rest[j - 1]);
            }
        }
    }
}

proof fn lemma_view_table(v: Vec<(String, ConfigValue)>)
    ensures
        ConfigValue::Table(v)@ == ValueView::Table(view_entries(v@)),
{
    lemma_view_first(v@, v@.len());
    assert(view_entries(v@).take(v@.len() as int) =~= view_entries(v@));
}

impl ConfigValue {
    /// A copy.
    pub fn copy(&self) -> (out: ConfigValue)
        ensures
            out@ == self@,
        decreases self,
    {
        match self {
            ConfigValue::Leaf(s) => ConfigValue::Leaf(s.clone()),
            ConfigValue::Table(entries) => {
                let n: usize = entries.len();
                let mut out: Vec<(String, ConfigValue)> = Vec::new();
                let mut i: usize = 0;
                while i < n
                    invariant
                        i <= n,
                        n == entries@.len(),
                        *self == ConfigValue::Table(*entries),
                        out@.len() == i,
                        forall|j: int|
                            0 <= j < i ==> (#[trigger] out@[j]).0@ == entries@[j].0@ && out@[j].1@
                                == entries@[j].1@,
                    decreases n - i,
                {
                    let entry = &entries[i];
                    proof {
                        assert(decreases_to!(*self => self->Table_0));
                    }
                    let value = entry.1.copy();
                    out.push((entry.0.clone(), value));
                    i = i + 1;
                }
                proof {
                    lemma_view_table(out);
                    lemma_view_table(*entries);
                    assert(view_entries(out@) =~= view_entries(entries@));
                }
                ConfigValue::Table(out)
            },
        }
    }
}

fn position(table: &Vec<(String, ConfigValue)>, key: &String) -> (i: usize)
    ensures
        i == find_key(view_entries(table@), key@),
        i <= table@.len(),
{
    let n: usize = table.len();
    let mut i: usize = 0;
    proof {
        lemma_find_key(view_entries(table@), key@);
    }
    while i < n
        invariant
            i <= n,
            n == table@.len(),
            i <= find_key(view_entries(table@), key@) <= n,
        decreases n - i,
    {
        proof {
            lemma_find_key(view_entries(table@), key@);
            assert(view_entries(table@)[i as int].0 == table@[i as int].0@);
        }
        if table[i].0 == *key {
            return i;
        }
        i = i + 1;
    }
    i
}

/// Lays `other` over `base`.
pub fn merge(base: ConfigValue, other: &ConfigValue) -> (merged: ConfigValue)
    ensures
        merged@ == merge_values(base@, other@),
    decreases other,
{
    let entries = match other {
        ConfigValue::Table(entries) => entries,
        ConfigValue::Leaf(_) => {
            return other.copy();
        },
    };
    let mut table = match base {
        ConfigValue::Table(table) => table,
        ConfigValue::Leaf(_) => {
            return other.copy();
        },
    };
    let ghost start = view_entries(table@);
    let ghost over = view_entries(entries@);
    proof {
        lemma_view_table(table);
        lemma_view_table(*entries);
    }
    let n: usize = entries.len();
    let mut k: usize = 0;
    while k < n
        invariant
            k <= n,
            n == entries@.len(),
            *other == ConfigValue::Table(*entries),
            over == view_entries(entries@),
            view_entries(table@) == merge_tables(start, over, k as nat),
        decreases n - k,
    {
        let entry = &entries[k];
        let i = position(&table, &entry.0);
        if i < table.len() {
            let (name, existing) = table.remove(i);
            proof {
                assert(decreases_to!(*other => other->Table_0));
            }
            let value = merge(existing, &entry.1);
            table.insert(i, (name, value));
        } else {
            table.push((entry.0.clone(), entry.1.copy()));
        }
        k = k + 1;
    }
    proof {
        lemma_view_table(table);
    }
    ConfigValue::Table(table)
}

} // verus!
