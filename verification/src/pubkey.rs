//! The 32-byte identity that names users, tokens, records and programs.
use vstd::prelude::*;
use vstd::std_specs::cmp::PartialEqSpecImpl;

verus! {

/// An identity: 32 opaque bytes, compared byte by byte.
#[derive(Clone, Copy, Debug, Hash)]
pub struct Pubkey {
    pub bytes: [u8; 32],
}

impl View for Pubkey {
    type V = Seq<u8>;

    open spec fn view(&self) -> Seq<u8> {
        self.bytes@
    }
}

impl PartialEq for Pubkey {
    fn eq(&self, other: &Self) -> (r: bool) {
        let mut i: usize = 0;
        while i < 32
            invariant
                i <= 32,
                forall|j: int| 0 <= j < i ==> self.bytes[j] == other.bytes[j],
            decreases 32 - i,
        {
            if self.bytes[i] != other.bytes[i] {
                return false;
            }
            i += 1;
        }
        assert(self.bytes =~= other.bytes);
        true
    }
}

impl Eq for Pubkey {

}

impl PartialEqSpecImpl for Pubkey {
    open spec fn obeys_eq_spec() -> bool {
        true
    }

    open spec fn eq_spec(&self, other: &Self) -> bool {
        *self == *other
    }
}

impl Default for Pubkey {
    /// The all-zero identity, which marks a record that was never written.
    fn default() -> (r: Pubkey)
        ensures
            r == Pubkey::spec_default(),
    {
        let r = Pubkey { bytes: [0u8; 32] };
        assert(r.bytes =~= Pubkey::spec_default().bytes);
        r
    }
}

impl Pubkey {
    /// The all-zero identity.
    pub open spec fn spec_default() -> Pubkey {
        Pubkey { bytes: zero_bytes() }
    }

    /// The identity made of `bytes`.
    pub fn new_from_array(bytes: [u8; 32]) -> (r: Pubkey)
        ensures
            r.bytes == bytes,
            r@ == bytes@,
    {
        Pubkey { bytes }
    }

    /// The 32 bytes of this identity.
    pub fn to_bytes(&self) -> (r: [u8; 32])
        ensures
            r == self.bytes,
            r@ == self@,
    {
        self.bytes
    }

    /// Whether this is the all-zero identity.
    pub fn is_default(&self) -> (r: bool)
        ensures
            r == (*self == Pubkey::spec_default()),
    {
        let zero = Pubkey::default();
        *self == zero
    }
}

/// Thirty-two zero bytes.
pub open spec fn zero_bytes() -> [u8; 32] {
    vstd::array::spec_array_fill_for_copy_type::<u8, 32>(0u8)
}

/// Two identities are equal exactly when their bytes are.
pub proof fn lemma_pubkey_eq(a: Pubkey, b: Pubkey)
    ensures
        (a == b) <==> (a@ == b@),
{
    if a@ == b@ {
        assert(a.bytes =~= b.bytes);
    }
}

/// Finds the first entry of `keys` that equals `key`.
pub fn position(keys: &Vec<Pubkey>, key: &Pubkey) -> (r: Option<usize>)
    ensures
        match r {
            Some(i) => {
                &&& i < keys@.len()
                &&& keys@[i as int] == *key
                &&& forall|j: int| 0 <= j < i ==> keys@[j] != *key
            },
            None => !keys@.contains(*key),
        },
        r is Some <==> keys@.contains(*key),
{
    let mut i: usize = 0;
    while i < keys.len()
        invariant
            i <= keys@.len(),
            forall|j: int| 0 <= j < i ==> keys@[j] != *key,
        decreases keys@.len() - i,
    {
        if keys[i] == *key {
            return Some(i);
        }
        i += 1;
    }
    None
}

/// Whether `keys` holds `key`.
pub fn contains(keys: &Vec<Pubkey>, key: &Pubkey) -> (r: bool)
    ensures
        r == keys@.contains(*key),
{
    position(keys, key).is_some()
}

/// `at` is the first place where `keys` holds `key`.
pub open spec fn first_at(keys: Seq<Pubkey>, key: Pubkey, at: int) -> bool {
    &&& 0 <= at < keys.len()
    &&& keys[at] == key
    &&& forall|j: int| 0 <= j < at ==> keys[j] != key
}

/// `after` is `before` without the first `key` that `before` holds; the
/// other entries keep their order.
pub open spec fn removed_first(before: Seq<Pubkey>, key: Pubkey, after: Seq<Pubkey>) -> bool {
    exists|at: int| first_at(before, key, at) && after == before.remove(at)
}

/// Adding a key that a sequence without repetitions does not hold leaves
/// one without repetitions.
pub proof fn lemma_push_keeps_distinct(keys: Seq<Pubkey>, key: Pubkey)
    requires
        !keys.contains(key),
    ensures
        keys.no_duplicates() ==> keys.push(key).no_duplicates(),
{
    let after = keys.push(key);
    if keys.no_duplicates() {
        assert forall|i: int, j: int|
            0 <= i < after.len() && 0 <= j < after.len() && i != j implies after[i]
            != after[j] by {
            if i < keys.len() && j < keys.len() {
            } else if i < keys.len() {
                assert(keys.contains(keys[i]));
            } else {
                assert(keys.contains(keys[j]));
            }
        }
    }
}

/// Taking one entry out of a sequence without repetitions leaves one
/// without repetitions, which no longer holds that entry.
pub proof fn lemma_remove_keeps_distinct(keys: Seq<Pubkey>, at: int)
    requires
        0 <= at < keys.len(),
    ensures
        keys.remove(at).len() == keys.len() - 1,
        keys.no_duplicates() ==> keys.remove(at).no_duplicates() && !keys.remove(at).contains(
            keys[at],
        ),
{
    let rest = keys.remove(at);
    if keys.no_duplicates() {
        assert forall|i: int, j: int|
            0 <= i < rest.len() && 0 <= j < rest.len() && i != j implies rest[i] != rest[j] by {
            let oi = if i < at { i } else { i + 1 };
            let oj = if j < at { j } else { j + 1 };
            assert(rest[i] == keys[oi]);
            assert(rest[j] == keys[oj]);
        }
        if rest.contains(keys[at]) {
            let i = choose|i: int| 0 <= i < rest.len() && rest[i] == keys[at];
            let oi = if i < at { i } else { i + 1 };
            assert(rest[i] == keys[oi]);
        }
    }
}

} // verus!
