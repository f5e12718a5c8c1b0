use vstd::prelude::*;

verus! {

/// Number of keys.
pub const KEYPAD_SIZE: usize = 16;

/// Sixteen keys, each either down or up.
#[derive(Copy, Clone, Debug)]
pub struct Keypad {
    keys: [bool; KEYPAD_SIZE],
}

/// The lowest key at or above `from` that is down, or the number of keys
/// if there is none.
pub open spec fn first_pressed_from(keys: Seq<bool>, from: int) -> int
    decreases keys.len() - from,
{
    if from >= keys.len() {
        keys.len() as int
    } else if keys[from] {
        from
    } else {
        first_pressed_from(keys, from + 1)
    }
}

/// The lowest key that is down, or the number of keys if none is.
pub open spec fn first_pressed(keys: Seq<bool>) -> int {
    first_pressed_from(keys, 0)
}

/// `first_pressed_from` names a key that is down with none down between
/// `from` and it, or the number of keys where none from `from` on is down.
pub proof fn lemma_first_pressed_from(keys: Seq<bool>, from: int)
    requires
        0 <= from <= keys.len(),
    ensures
        from <= first_pressed_from(keys, from) <= keys.len(),
        first_pressed_from(keys, from) < keys.len() ==> keys[first_pressed_from(keys, from)],
        forall|k: int| from <= k < first_pressed_from(keys, from) ==> !keys[k],
    decreases keys.len() - from,
{
    if from < keys.len() && !keys[from] {
        lemma_first_pressed_from(keys, from + 1);
    }
}

/// A key that is down with none down below it is the first pressed key.
pub proof fn lemma_first_pressed_is(keys: Seq<bool>, key: int)
    requires
        0 <= key <= keys.len(),
        key < keys.len() ==> keys[key],
        forall|k: int| 0 <= k < key ==> !keys[k],
    ensures
        first_pressed(keys) == key,
{
    lemma_first_pressed_from(keys, 0);
}

impl Keypad {
    /// Which keys are down, by key number.
    pub closed spec fn view(&self) -> Seq<bool> {
        self.keys@
    }

    /// Every keypad has exactly `KEYPAD_SIZE` keys.
    pub proof fn lemma_size(&self)
        ensures
            self@.len() == KEYPAD_SIZE,
    {
    }

    pub fn new() -> (k: Self)
        ensures
            k@ == Seq::new(KEYPAD_SIZE as nat, |i: int| false),
    {
        let k = Keypad { keys: [false; KEYPAD_SIZE] };
        assert(k@ =~= Seq::new(KEYPAD_SIZE as nat, |i: int| false));
        k
    }

    /// Marks `key` as down.
    pub fn press(&mut self, key: usize)
        requires
            key < KEYPAD_SIZE,
        ensures
            final(self)@ == old(self)@.update(key as int, true),
    {
        self.keys[key] = true;
    }

    /// Marks `key` as up.
    pub fn release(&mut self, key: usize)
        requires
            key < KEYPAD_SIZE,
        ensures
            final(self)@ == old(self)@.update(key as int, false),
    {
        self.keys[key] = false;
    }

    /// Whether `key` is down.
    pub fn pressed(&self, key: usize) -> (down: bool)
        requires
            key < KEYPAD_SIZE,
        ensures
            down == self@[key as int],
    {
        self.keys[key]
    }
}

} // verus!
