//! The keyboard state: real (named) keys are bound to the virtual keys the
//! game cares about, several real keys may drive one virtual key, and a
//! virtual key is down while any real key bound to it is down.

use vstd::prelude::*;

verus! {

/// All the virtual keys to care about.
/// These are distinguished from real keys in that multiple real keys can
/// map to any of these.
#[derive(Debug, Copy, Clone)]
pub enum Key {
    /// A junk key that real keys are bound to when they are unbound.
    NULL,
    UP,
    LEFT,
    DOWN,
    RIGHT,
    SPACE,
    DEBUG,
    /// Not a key. Just here to count how many exist.
    COUNT,
}

/// The position a virtual key takes in the binding table.
pub open spec fn key_index_s(key: Key) -> int {
    match key {
        Key::NULL => 0,
        Key::UP => 1,
        Key::LEFT => 2,
        Key::DOWN => 3,
        Key::RIGHT => 4,
        Key::SPACE => 5,
        Key::DEBUG => 6,
        Key::COUNT => 7,
    }
}

/// The number of virtual keys (everything before `COUNT`).
pub const KEY_COUNT: usize = 7;

impl Key {
    /// The position this virtual key takes in the binding table.
    pub fn index(&self) -> (r: usize)
        ensures
            r as int == key_index_s(*self),
    {
        match self {
            Key::NULL => 0,
            Key::UP => 1,
            Key::LEFT => 2,
            Key::DOWN => 3,
            Key::RIGHT => 4,
            Key::SPACE => 5,
            Key::DEBUG => 6,
            Key::COUNT => 7,
        }
    }
}

/// A sequence with every occurrence of one value taken out.
pub open spec fn seq_without_s(s: Seq<usize>, value: usize) -> Seq<usize>
    decreases s.len(),
{
    if s.len() == 0 {
        s
    } else {
        let rest = seq_without_s(s.drop_first(), value);
        if s[0] == value {
            rest
        } else {
            seq![s[0]] + rest
        }
    }
}

/// The first tracked slot a real key name maps to, if any.
pub open spec fn lookup_rec_s(mapping: Seq<(Seq<char>, int)>, name: Seq<char>, i: int) -> Option<
    int,
>
    decreases mapping.len() - i,
{
    if i < 0 || i >= mapping.len() {
        Option::None
    } else if mapping[i].0 == name {
        Option::Some(mapping[i].1)
    } else {
        lookup_rec_s(mapping, name, i + 1)
    }
}

/// The default name-to-slot table a fresh keyboard starts with.
pub open spec fn default_mapping_s() -> Seq<(Seq<char>, int)> {
    seq![
        ("ArrowUp"@, 0int),
        ("ArrowLeft"@, 1int),
        ("ArrowDown"@, 2int),
        ("ArrowRight"@, 3int),
        ("Up"@, 4int),
        ("Left"@, 5int),
        ("Down"@, 6int),
        ("Right"@, 7int),
        ("w"@, 8int),
        ("a"@, 9int),
        ("s"@, 10int),
        ("d"@, 11int),
        (" "@, 12int),
        ("~"@, 13int),
    ]
}

/// The default binding rows, indexed by `key_index_s`: the arrow and WASD
/// slots drive the four directions, the space and tilde slots their keys,
/// and nothing is bound to `NULL`.
pub open spec fn default_bindings_s() -> Seq<Seq<usize>> {
    seq![
        Seq::<usize>::empty(),
        seq![0usize, 4usize, 8usize],
        seq![1usize, 5usize, 9usize],
        seq![2usize, 6usize, 10usize],
        seq![3usize, 7usize, 11usize],
        seq![12usize],
        seq![13usize],
    ]
}

/// The virtual key each default slot was created under.
pub open spec fn default_reverse_s() -> Seq<Key> {
    seq![
        Key::UP,
        Key::LEFT,
        Key::DOWN,
        Key::RIGHT,
        Key::UP,
        Key::LEFT,
        Key::DOWN,
        Key::RIGHT,
        Key::UP,
        Key::LEFT,
        Key::DOWN,
        Key::RIGHT,
        Key::SPACE,
        Key::DEBUG,
    ]
}

/// Stores info about the current keyboard state.
pub struct Keyboard {
    /// Maps keyboard event `key` strings to the slot in `key_state` that
    /// tracks the real key.
    key_mapping: Vec<(String, usize)>,
    /// The state of all tracked (real) keys.
    key_state: Vec<bool>,
    /// One entry for each virtual Key, holding the tracked slots bound to
    /// it (no slot appears twice).
    bindings: Vec<Vec<usize>>,
    /// The reverse of `bindings` as the binding code last saw it: which
    /// virtual key each tracked slot was bound to when it was created.
    reverse_bindings: Vec<Key>,
}

impl Keyboard {
    /// The name-to-slot mapping, as math values.
    pub closed spec fn mapping_s(self) -> Seq<(Seq<char>, int)> {
        self.key_mapping@.map(|i: int, p: (String, usize)| (p.0@, p.1 as int))
    }

    /// The state of every tracked real key.
    pub closed spec fn key_state_s(self) -> Seq<bool> {
        self.key_state@
    }

    /// The tracked slots bound to each virtual key.
    pub closed spec fn bindings_s(self) -> Seq<Seq<usize>> {
        self.bindings@.map(|i: int, b: Vec<usize>| b@)
    }

    /// The virtual key each tracked slot was last created under.
    pub closed spec fn reverse_s(self) -> Seq<Key> {
        self.reverse_bindings@
    }

    /// The slot a real key name is tracked in, if any.
    pub open spec fn tracked_s(self, name: Seq<char>) -> Option<int> {
        lookup_rec_s(self.mapping_s(), name, 0)
    }

    /// Well-formedness: the binding table has one row per virtual key, the
    /// reverse table has one entry per tracked slot, every slot reference
    /// stays inside `key_state`, and no binding row repeats a slot.
    pub open spec fn wf(self) -> bool {
        &&& self.bindings_s().len() == KEY_COUNT as int
        &&& self.reverse_s().len() == self.key_state_s().len()
        &&& forall|m: int|
            0 <= m < self.mapping_s().len() ==> 0 <= (#[trigger] self.mapping_s()[m]).1
                < self.key_state_s().len()
        &&& forall|k: int, m: int|
            0 <= k < self.bindings_s().len() && 0 <= m < self.bindings_s()[k].len() ==> (
            #[trigger] self.bindings_s()[k][m]) < self.key_state_s().len()
        &&& forall|k: int|
            0 <= k < self.bindings_s().len() ==> (#[trigger] self.bindings_s()[k]).no_duplicates()
        &&& forall|i: int|
            0 <= i < self.reverse_s().len() ==> key_index_s(#[trigger] self.reverse_s()[i]) < (
            KEY_COUNT as int)
    }

    /// Whether the given virtual key is pressed: some tracked slot bound
    /// to it is down.
    pub open spec fn is_down_s(self, key: Key) -> bool {
        0 <= key_index_s(key) < self.bindings_s().len() && exists|m: int|
            0 <= m < self.bindings_s()[key_index_s(key)].len() && self.key_state_s()[(
            #[trigger] self.bindings_s()[key_index_s(key)][m]) as int]
    }

    /// Creates an instance with the default key bindings, all keys up: the
    /// arrows and WASD drive the four directions (with the short names
    /// older browsers send), space and the tilde drive their own keys.
    /// The state built here is exactly what binding each default name in
    /// turn to its key yields.
    pub fn new() -> (r: Keyboard)
        ensures
            r.wf(),
            forall|k: Key| !r.is_down_s(k),
            r.mapping_s() == default_mapping_s(),
            r.bindings_s() == default_bindings_s(),
            r.reverse_s() == default_reverse_s(),
            r.key_state_s() == Seq::new(14nat, |i: int| false),
    {
        let mut key_mapping: Vec<(String, usize)> = Vec::new();
        key_mapping.push((new_string("ArrowUp"), 0));
        key_mapping.push((new_string("ArrowLeft"), 1));
        key_mapping.push((new_string("ArrowDown"), 2));
        key_mapping.push((new_string("ArrowRight"), 3));
        // Some older browsers don't have "Arrow" in the key name.
        key_mapping.push((new_string("Up"), 4));
        key_mapping.push((new_string("Left"), 5));
        key_mapping.push((new_string("Down"), 6));
        key_mapping.push((new_string("Right"), 7));
        // Allow WASD too.
        key_mapping.push((new_string("w"), 8));
        key_mapping.push((new_string("a"), 9));
        key_mapping.push((new_string("s"), 10));
        key_mapping.push((new_string("d"), 11));
        key_mapping.push((new_string(" "), 12));
        key_mapping.push((new_string("~"), 13));

        let mut key_state: Vec<bool> = Vec::new();
        let mut slot: usize = 0;
        while slot < 14
            invariant
                0 <= slot <= 14,
                key_state@.len() == slot,
                forall|i: int| 0 <= i < slot ==> !(#[trigger] key_state@[i]),
            decreases 14 - slot,
        {
            key_state.push(false);
            slot = slot + 1;
        }

        let mut bindings: Vec<Vec<usize>> = Vec::new();
        bindings.push(Vec::new());  // Nothing unbound yet.
        let mut up_row: Vec<usize> = Vec::new();
        up_row.push(0);
        up_row.push(4);
        up_row.push(8);
        bindings.push(up_row);
        let mut left_row: Vec<usize> = Vec::new();
        left_row.push(1);
        left_row.push(5);
        left_row.push(9);
        bindings.push(left_row);
        let mut down_row: Vec<usize> = Vec::new();
        down_row.push(2);
        down_row.push(6);
        down_row.push(10);
        bindings.push(down_row);
        let mut right_row: Vec<usize> = Vec::new();
        right_row.push(3);
        right_row.push(7);
        right_row.push(11);
        bindings.push(right_row);
        let mut space_row: Vec<usize> = Vec::new();
        space_row.push(12);
        bindings.push(space_row);
        let mut debug_row: Vec<usize> = Vec::new();
        debug_row.push(13);
        bindings.push(debug_row);

        let mut reverse_bindings: Vec<Key> = Vec::new();
        reverse_bindings.push(Key::UP);
        reverse_bindings.push(Key::LEFT);
        reverse_bindings.push(Key::DOWN);
        reverse_bindings.push(Key::RIGHT);
        reverse_bindings.push(Key::UP);
        reverse_bindings.push(Key::LEFT);
        reverse_bindings.push(Key::DOWN);
        reverse_bindings.push(Key::RIGHT);
        reverse_bindings.push(Key::UP);
        reverse_bindings.push(Key::LEFT);
        reverse_bindings.push(Key::DOWN);
        reverse_bindings.push(Key::RIGHT);
        reverse_bindings.push(Key::SPACE);
        reverse_bindings.push(Key::DEBUG);

        let instance = Keyboard { key_mapping, key_state, bindings, reverse_bindings };
        proof {
            assert(instance.mapping_s() =~= default_mapping_s());
            assert(instance.bindings_s() =~~= default_bindings_s());
            assert(instance.reverse_s() =~= default_reverse_s());
            assert(instance.key_state_s() =~= Seq::new(14nat, |i: int| false));
            assert forall|k: Key| !instance.is_down_s(k) by {
                if 0 <= key_index_s(k) < instance.bindings_s().len() {
                    assert forall|m: int|
                        0 <= m < instance.bindings_s()[key_index_s(k)].len()
                            implies !instance.key_state_s()[(instance.bindings_s()[
                        key_index_s(k)][m]) as int] by {
                        assert(instance.bindings_s()[key_index_s(k)][m]
                            < instance.key_state_s().len());
                    }
                }
            }
        }
        instance
    }

    /// Binds a real key to a virtual one.  If the real key was already
    /// tracked, it is taken out of the binding row it was created under
    /// and added to the new virtual key's row; otherwise a fresh tracked
    /// slot (initially up) is created for it.
    pub fn bind(&mut self, real_name: String, virtual_: Key)
        requires
            old(self).wf(),
            key_index_s(virtual_) < KEY_COUNT as int,
        ensures
            final(self).wf(),
            match old(self).tracked_s(real_name@) {
                Option::Some(slot) => {
                    &&& final(self).key_state_s() == old(self).key_state_s()
                    &&& final(self).mapping_s() == old(self).mapping_s()
                    &&& final(self).reverse_s() == old(self).reverse_s()
                    &&& final(self).bindings_s() == insert_slot_s(
                        remove_slot_s(
                            old(self).bindings_s(),
                            key_index_s(old(self).reverse_s()[slot]),
                            slot as usize,
                        ),
                        key_index_s(virtual_),
                        slot as usize,
                    )
                },
                Option::None => {
                    &&& final(self).key_state_s() == old(self).key_state_s().push(false)
                    &&& final(self).mapping_s() == old(self).mapping_s().push(
                        (real_name@, old(self).key_state_s().len() as int),
                    )
                    &&& final(self).reverse_s() == old(self).reverse_s().push(virtual_)
                    &&& final(self).bindings_s() == insert_slot_s(
                        old(self).bindings_s(),
                        key_index_s(virtual_),
                        old(self).key_state_s().len() as usize,
                    )
                },
            },
    {
        // First find or set up the place for the real key to store its
        // state.
        let found = self.find_tracked(&real_name);
        let real_index: usize;
        match found {
            Option::Some(index) => {
                let old_key = self.reverse_bindings[index];
                let row = old_key.index();
                proof {
                    assert(self.bindings_s()[row as int] == self.bindings@[row as int]@);
                    lemma_seq_without_subset(self.bindings@[row as int]@, index);
                    lemma_seq_without_no_dup(self.bindings@[row as int]@, index);
                }
                let without = vec_without(&self.bindings[row], index);
                self.bindings.set(row, without);
                real_index = index;
            },
            Option::None => {
                let index = self.key_state.len();
                self.key_state.push(false);
                self.reverse_bindings.push(virtual_);
                self.key_mapping.push((real_name, index));
                real_index = index;
                proof {
                    assert(self.mapping_s() =~= old(self).mapping_s().push(
                        (real_name@, old(self).key_state_s().len() as int),
                    ));
                }
            },
        }
        // Then bind it to the virtual key.
        let row = virtual_.index();
        if !vec_contains(&self.bindings[row], real_index) {
            let mut updated = vec_copy(&self.bindings[row]);
            updated.push(real_index);
            self.bindings.set(row, updated);
        }
        proof {
            assert(self.bindings_s() =~= match old(self).tracked_s(real_name@) {
                Option::Some(slot) => insert_slot_s(
                    remove_slot_s(
                        old(self).bindings_s(),
                        key_index_s(old(self).reverse_s()[slot]),
                        slot as usize,
                    ),
                    key_index_s(virtual_),
                    slot as usize,
                ),
                Option::None => insert_slot_s(
                    old(self).bindings_s(),
                    key_index_s(virtual_),
                    old(self).key_state_s().len() as usize,
                ),
            });
        }
    }

    /// Fakes unbinding the given key by binding it to the Key::NULL value.
    pub fn unbind(&mut self, real_name: String)
        requires
            old(self).wf(),
        ensures
            final(self).wf(),
            match old(self).tracked_s(real_name@) {
                Option::Some(slot) => {
                    &&& final(self).key_state_s() == old(self).key_state_s()
                    &&& final(self).mapping_s() == old(self).mapping_s()
                    &&& final(self).reverse_s() == old(self).reverse_s()
                    &&& final(self).bindings_s() == insert_slot_s(
                        remove_slot_s(
                            old(self).bindings_s(),
                            key_index_s(old(self).reverse_s()[slot]),
                            slot as usize,
                        ),
                        key_index_s(Key::NULL),
                        slot as usize,
                    )
                },
                Option::None => {
                    &&& final(self).key_state_s() == old(self).key_state_s().push(false)
                    &&& final(self).mapping_s() == old(self).mapping_s().push(
                        (real_name@, old(self).key_state_s().len() as int),
                    )
                    &&& final(self).reverse_s() == old(self).reverse_s().push(Key::NULL)
                    &&& final(self).bindings_s() == insert_slot_s(
                        old(self).bindings_s(),
                        key_index_s(Key::NULL),
                        old(self).key_state_s().len() as usize,
                    )
                },
            },
    {
        self.bind(real_name, Key::NULL);
    }

    /// Checks if the given virtual key is pressed.
    pub fn is_down(&self, key: Key) -> (r: bool)
        requires
            self.wf(),
            key_index_s(key) < KEY_COUNT as int,
        ensures
            r == self.is_down_s(key),
    {
        let row = key.index();
        let slots = &self.bindings[row];
        proof {
            assert(self.bindings_s()[key_index_s(key)] == slots@);
        }
        let mut m: usize = 0;
        while m < slots.len()
            invariant
                self.wf(),
                0 <= m <= slots@.len(),
                slots@ == self.bindings@[key_index_s(key)]@,
                0 <= key_index_s(key) < self.bindings@.len(),
                forall|j: int|
                    0 <= j < m ==> !self.key_state_s()[(#[trigger] slots@[j]) as int],
            decreases slots@.len() - m,
        {
            proof {
                assert(self.bindings_s()[key_index_s(key)][m as int] == slots@[m as int]);
            }
            if self.key_state[slots[m]] {
                return true;
            }
            m = m + 1;
        }
        false
    }

    /// Signals that the given (real) key has been pressed.
    pub fn on_down(&mut self, real_name: String)
        requires
            old(self).wf(),
        ensures
            final(self).wf(),
            final(self).mapping_s() == old(self).mapping_s(),
            final(self).bindings_s() == old(self).bindings_s(),
            final(self).reverse_s() == old(self).reverse_s(),
            final(self).key_state_s() == match old(self).tracked_s(real_name@) {
                Option::Some(slot) => old(self).key_state_s().update(slot, true),
                Option::None => old(self).key_state_s(),
            },
    {
        let found = self.find_tracked(&real_name);
        if let Option::Some(real_index) = found {
            self.key_state.set(real_index, true);
        }
    }

    /// Signals that the given (real) key has been released.
    pub fn on_up(&mut self, real_name: String)
        requires
            old(self).wf(),
        ensures
            final(self).wf(),
            final(self).mapping_s() == old(self).mapping_s(),
            final(self).bindings_s() == old(self).bindings_s(),
            final(self).reverse_s() == old(self).reverse_s(),
            final(self).key_state_s() == match old(self).tracked_s(real_name@) {
                Option::Some(slot) => old(self).key_state_s().update(slot, false),
                Option::None => old(self).key_state_s(),
            },
    {
        let found = self.find_tracked(&real_name);
        if let Option::Some(real_index) = found {
            self.key_state.set(real_index, false);
        }
    }

    /// Looks up the tracked slot of a real key name.
    fn find_tracked(&self, real_name: &String) -> (r: Option<usize>)
        requires
            self.wf(),
        ensures
            r == match self.tracked_s(real_name@) {
                Option::Some(slot) => Option::Some(slot as usize),
                Option::None => Option::<usize>::None,
            },
            r matches Option::Some(slot) ==> (slot as int) < self.key_state_s().len()
                && self.tracked_s(real_name@) == Option::Some(slot as int),
    {
        let mut m: usize = 0;
        while m < self.key_mapping.len()
            invariant
                self.wf(),
                0 <= m <= self.key_mapping@.len(),
                lookup_rec_s(self.mapping_s(), real_name@, m as int) == self.tracked_s(real_name@),
            decreases self.key_mapping@.len() - m,
        {
            let entry = &self.key_mapping[m];
            if entry.0 == *real_name {
                return Option::Some(entry.1);
            }
            m = m + 1;
        }
        Option::None
    }
}

/// The binding table with one slot taken out of one row.
pub open spec fn remove_slot_s(bindings: Seq<Seq<usize>>, row: int, slot: usize) -> Seq<
    Seq<usize>,
> {
    bindings.update(row, seq_without_s(bindings[row], slot))
}

/// The binding table with one slot added to one row (unless already there).
pub open spec fn insert_slot_s(bindings: Seq<Seq<usize>>, row: int, slot: usize) -> Seq<
    Seq<usize>,
> {
    if bindings[row].contains(slot) {
        bindings
    } else {
        bindings.update(row, bindings[row].push(slot))
    }
}

/// Builds an owned `String` from a literal.
fn new_string(name: &str) -> (r: String)
    ensures
        r@ == name@,
{
    name.to_owned()
}

/// An element-for-element copy of a slot list.
fn vec_copy(slots: &Vec<usize>) -> (r: Vec<usize>)
    ensures
        r@ == slots@,
{
    let mut out: Vec<usize> = Vec::new();
    let mut m: usize = 0;
    while m < slots.len()
        invariant
            0 <= m <= slots@.len(),
            out@ == slots@.take(m as int),
        decreases slots@.len() - m,
    {
        out.push(slots[m]);
        proof {
            assert(slots@.take(m as int + 1) =~= slots@.take(m as int).push(slots@[m as int]));
        }
        m = m + 1;
    }
    proof {
        assert(slots@.take(slots@.len() as int) =~= slots@);
    }
    out
}

/// Everything left by `seq_without_s` was in the list it came from.
pub proof fn lemma_seq_without_subset(s: Seq<usize>, value: usize)
    ensures
        forall|j: int|
            0 <= j < seq_without_s(s, value).len() ==> s.contains(
                #[trigger] seq_without_s(s, value)[j],
            ),
    decreases s.len(),
{
    if s.len() > 0 {
        lemma_seq_without_subset(s.drop_first(), value);
        assert forall|j: int|
            0 <= j < seq_without_s(s, value).len() implies s.contains(
            seq_without_s(s, value)[j],
        ) by {
            let rest = seq_without_s(s.drop_first(), value);
            if s[0] == value {
                assert(seq_without_s(s, value)[j] == rest[j]);
                assert(s.drop_first().contains(rest[j]));
                let w = choose|w: int| 0 <= w < s.drop_first().len() && s.drop_first()[w] == rest[j];
                assert(s[w + 1] == rest[j]);
            } else {
                if j == 0 {
                    assert(s[0] == seq_without_s(s, value)[0]);
                } else {
                    assert(seq_without_s(s, value)[j] == rest[j - 1]);
                    assert(s.drop_first().contains(rest[j - 1]));
                    let w = choose|w: int|
                        0 <= w < s.drop_first().len() && s.drop_first()[w] == rest[j - 1];
                    assert(s[w + 1] == rest[j - 1]);
                }
            }
        }
    }
}

/// Whether a slot list holds the given slot.
fn vec_contains(slots: &Vec<usize>, value: usize) -> (r: bool)
    ensures
        r == slots@.contains(value),
{
    let mut m: usize = 0;
    while m < slots.len()
        invariant
            0 <= m <= slots@.len(),
            forall|j: int| 0 <= j < m ==> (#[trigger] slots@[j]) != value,
        decreases slots@.len() - m,
    {
        if slots[m] == value {
            return true;
        }
        m = m + 1;
    }
    false
}

/// A copy of a slot list with every occurrence of one slot taken out.
fn vec_without(slots: &Vec<usize>, value: usize) -> (r: Vec<usize>)
    ensures
        r@ == seq_without_s(slots@, value),
{
    let mut out: Vec<usize> = Vec::new();
    let mut m: usize = 0;
    proof {
        assert(slots@.skip(0) =~= slots@);
        assert(out@ + seq_without_s(slots@.skip(0), value) =~= seq_without_s(slots@, value));
    }
    while m < slots.len()
        invariant
            0 <= m <= slots@.len(),
            out@ + seq_without_s(slots@.skip(m as int), value) == seq_without_s(slots@, value),
        decreases slots@.len() - m,
    {
        let ghost prev_out = out@;
        if slots[m] != value {
            out.push(slots[m]);
        }
        proof {
            assert(slots@.skip(m as int).drop_first() =~= slots@.skip(m as int + 1));
            assert(seq_without_s(slots@.skip(m as int), value) == if slots@[m as int] == value {
                seq_without_s(slots@.skip(m as int + 1), value)
            } else {
                seq![slots@[m as int]] + seq_without_s(slots@.skip(m as int + 1), value)
            });
            if slots@[m as int] != value {
                assert(out@ + seq_without_s(slots@.skip(m as int + 1), value) =~= prev_out + (
                seq![slots@[m as int]] + seq_without_s(slots@.skip(m as int + 1), value)));
            }
        }
        m = m + 1;
    }
    proof {
        assert(slots@.skip(slots@.len() as int) =~= Seq::<usize>::empty());
        assert(out@ + seq_without_s(slots@.skip(slots@.len() as int), value) =~= out@);
    }
    out
}

/// Taking a value out of a duplicate-free list leaves it duplicate-free,
/// and the value is gone.
pub proof fn lemma_seq_without_no_dup(s: Seq<usize>, value: usize)
    requires
        s.no_duplicates(),
    ensures
        seq_without_s(s, value).no_duplicates(),
        !seq_without_s(s, value).contains(value),
    decreases s.len(),
{
    if s.len() > 0 {
        assert(s.drop_first().no_duplicates());
        lemma_seq_without_no_dup(s.drop_first(), value);
        lemma_seq_without_subset(s.drop_first(), value);
        let rest = seq_without_s(s.drop_first(), value);
        if s[0] == value {
        } else {
            let whole = seq![s[0]] + rest;
            assert(!rest.contains(s[0])) by {
                if rest.contains(s[0]) {
                    assert(s.drop_first().contains(s[0]));
                    let w = choose|w: int|
                        0 <= w < s.drop_first().len() && s.drop_first()[w] == s[0];
                    assert(s[w + 1] == s[0]);
                }
            }
            assert(whole.no_duplicates()) by {
                assert forall|i: int, j: int|
                    0 <= i < whole.len() && 0 <= j < whole.len() && i != j implies whole[i]
                    != whole[j] by {
                    if i != 0 && j != 0 {
                        assert(whole[i] == rest[i - 1] && whole[j] == rest[j - 1]);
                    } else if i == 0 {
                        assert(whole[j] == rest[j - 1]);
                    } else {
                        assert(whole[i] == rest[i - 1]);
                    }
                }
            }
            assert(!whole.contains(value)) by {
                if whole.contains(value) {
                    let w = choose|w: int| 0 <= w < whole.len() && whole[w] == value;
                    if w != 0 {
                        assert(rest[w - 1] == value);
                        assert(rest.contains(value));
                    }
                }
            }
        }
    }
}

} // verus!
