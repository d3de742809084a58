//! An item plugin that, once initialized, holds a large amount of generated
//! text, so that memory tooling has something to measure.

use vstd::prelude::*;
use crate::mod_api::{ModInfo, SandyMod};
use rand::Rng;

verus! {

/// How many generated entries each collection receives on initialization.
pub const TEST_ENTRIES: u32 = 10000;

pub open spec fn digits() -> Seq<char> {
    "0123456789"@
}

pub open spec fn letters() -> Seq<char> {
    "abcdefghijklmnopqrstuvwxyz"@
}

/// Decimal digits of `n`, most significant first, without leading zeros.
pub open spec fn decimal_of(n: nat) -> Seq<char>
    decreases n,
{
    if n < 10 {
        seq![digits()[n as int]]
    } else {
        decimal_of(n / 10) + seq![digits()[(n % 10) as int]]
    }
}

/// Every character is a lowercase ASCII letter.
pub open spec fn all_lowercase(s: Seq<char>) -> bool {
    forall|i: int| 0 <= i < s.len() ==> letters().contains(#[trigger] s[i])
}

/// `s` is the `i`-th generated line: fixed text, the index, 50 random letters.
pub open spec fn is_test_line(s: Seq<char>, i: nat) -> bool {
    exists|r: Seq<char>|
        #[trigger] all_lowercase(r) && r.len() == 50 && s == "Test string #"@ + decimal_of(i)
            + " with some extra characters to use more memory: "@ + r
}

/// `s` is the `i`-th generated key: `Key-`, the index, `-`, 20 random letters.
pub open spec fn is_test_key(s: Seq<char>, i: nat) -> bool {
    exists|r: Seq<char>|
        #[trigger] all_lowercase(r) && r.len() == 20 && s == "Key-"@ + decimal_of(i) + "-"@ + r
}

/// Relies on `rand::Rng::gen_range` over `rand::thread_rng`: a byte drawn
/// from `lo..=hi`, which must not be empty.
#[verifier::external_body]
fn random_byte_between(lo: u8, hi: u8) -> (r: u8)
    requires
        lo <= hi,
    ensures
        lo <= r <= hi,
{
    rand::thread_rng().gen_range(lo..=hi)
}

/// Appends the decimal digits of `n`.
fn push_decimal(s: &mut String, n: u64)
    ensures
        final(s)@ == old(s)@ + decimal_of(n as nat),
    decreases n,
{
    let table = "0123456789";
    proof {
        reveal_strlit("0123456789");
    }
    if n >= 10 {
        push_decimal(s, n / 10);
    }
    let d = (n % 10) as usize;
    s.append(table.substring_ascii(d, d + 1));
    proof {
        assert(table@.subrange(d as int, d + 1) =~= seq![digits()[d as int]]);
        if n >= 10 {
            assert(old(s)@ + decimal_of((n / 10) as nat) + seq![digits()[d as int]]
                =~= old(s)@ + decimal_of(n as nat));
        } else {
            assert(old(s)@ + seq![digits()[d as int]] =~= old(s)@ + decimal_of(n as nat));
        }
    }
}

/// Appends `length` randomly drawn lowercase letters; returns them.
fn push_random_letters(s: &mut String, length: usize) -> (added: Ghost<Seq<char>>)
    ensures
        final(s)@ == old(s)@ + added@,
        added@.len() == length,
        all_lowercase(added@),
{
    let table = "abcdefghijklmnopqrstuvwxyz";
    proof {
        reveal_strlit("abcdefghijklmnopqrstuvwxyz");
    }
    let ghost mut added: Seq<char> = Seq::empty();
    let mut i: usize = 0;
    while i < length
        invariant
            i <= length,
            table@ == letters(),
            table.is_ascii(),
            table@.len() == 26,
            s@ == old(s)@ + added,
            added.len() == i,
            all_lowercase(added),
        decreases length - i,
    {
        let b = random_byte_between(97, 122);
        let k = (b - 97) as usize;
        let piece = table.substring_ascii(k, k + 1);
        s.append(piece);
        proof {
            assert(piece@ =~= seq![letters()[k as int]]);
            assert(letters().contains(letters()[k as int]));
            let next = added.push(letters()[k as int]);
            assert forall|j: int| 0 <= j < next.len() implies letters().contains(#[trigger] next[j]) by {
                if j < added.len() {
                    assert(next[j] == added[j]);
                }
            }
            assert(s@ =~= old(s)@ + next);
            added = next;
        }
        i = i + 1;
    }
    Ghost(added)
}

/// A string of `length` randomly drawn lowercase letters.
pub fn generate_random_string(length: usize) -> (r: String)
    ensures
        r@.len() == length,
        all_lowercase(r@),
{
    let mut s = String::new();
    let added = push_random_letters(&mut s, length);
    assert(s@ =~= added@);
    s
}

pub struct SimpleItemMod {
    pub name: String,
    pub version: String,
    pub description: String,
    memory_usage_test_vec: Vec<String>,
    memory_usage_test_keys: Vec<(String, i32)>,
}

impl SimpleItemMod {
    pub closed spec fn spec_name(&self) -> Seq<char> {
        self.name@
    }

    pub closed spec fn spec_version(&self) -> Seq<char> {
        self.version@
    }

    pub closed spec fn spec_description(&self) -> Seq<char> {
        self.description@
    }

    /// The generated lines held.
    pub closed spec fn lines(&self) -> Seq<String> {
        self.memory_usage_test_vec@
    }

    /// The generated keys held, each with the index it was made for.
    pub closed spec fn keyed(&self) -> Seq<(String, i32)> {
        self.memory_usage_test_keys@
    }

    pub fn new() -> (r: Self)
        ensures
            r.spec_id() == "simple_item_mod"@,
            r.spec_name() == "Simple Item Mod"@,
            r.spec_version() == "1.0.0"@,
            r.spec_description() == "A simple test mod that adds an item and consumes memory"@,
            r.lines().len() == 0,
            r.keyed().len() == 0,
    {
        SimpleItemMod {
            name: String::from_str("Simple Item Mod"),
            version: String::from_str("1.0.0"),
            description: String::from_str("A simple test mod that adds an item and consumes memory"),
            memory_usage_test_vec: Vec::new(),
            memory_usage_test_keys: Vec::new(),
        }
    }

    /// The plugin's descriptor.
    pub fn info(&self) -> (r: ModInfo)
        ensures
            r.id@ == self.spec_id(),
            r.name@ == self.spec_name(),
            r.version@ == self.spec_version(),
            r.description@ == self.spec_description(),
    {
        ModInfo {
            id: String::from_str("simple_item_mod"),
            name: self.name.clone(),
            version: self.version.clone(),
            description: self.description.clone(),
        }
    }

    /// Appends `TEST_ENTRIES` generated lines and as many generated keys,
    /// the `i`-th key paired with `i`.
    pub fn populate_test_data_structures(&mut self)
        ensures
            final(self).spec_name() == old(self).spec_name(),
            final(self).spec_version() == old(self).spec_version(),
            final(self).spec_description() == old(self).spec_description(),
            final(self).lines().len() == old(self).lines().len() + TEST_ENTRIES,
            final(self).keyed().len() == old(self).keyed().len() + TEST_ENTRIES,
            forall|i: int| 0 <= i < old(self).lines().len() ==> #[trigger] final(self).lines()[i] == old(self).lines()[i],
            forall|i: int| 0 <= i < TEST_ENTRIES ==>
                is_test_line(#[trigger] final(self).lines()[old(self).lines().len() + i]@, i as nat),
            forall|i: int| 0 <= i < old(self).keyed().len() ==> #[trigger] final(self).keyed()[i] == old(self).keyed()[i],
            forall|i: int| 0 <= i < TEST_ENTRIES ==> {
                let e = #[trigger] final(self).keyed()[old(self).keyed().len() + i];
                is_test_key(e.0@, i as nat) && e.1 == i
            },
    {
        let ghost base = old(self).memory_usage_test_vec@.len();
        let mut i: u32 = 0;
        while i < TEST_ENTRIES
            invariant
                i <= TEST_ENTRIES,
                self.name == old(self).name,
                self.version == old(self).version,
                self.description == old(self).description,
                self.memory_usage_test_keys == old(self).memory_usage_test_keys,
                self.memory_usage_test_vec@.len() == base + i,
                forall|j: int| 0 <= j < base ==> #[trigger] self.memory_usage_test_vec@[j] == old(self).memory_usage_test_vec@[j],
                forall|j: int| 0 <= j < i ==> is_test_line(#[trigger] self.memory_usage_test_vec@[base + j]@, j as nat),
            decreases TEST_ENTRIES - i,
        {
            let mut line = String::from_str("Test string #");
            push_decimal(&mut line, i as u64);
            line.append(" with some extra characters to use more memory: ");
            let r = push_random_letters(&mut line, 50);
            assert(all_lowercase(r@));
            assert(is_test_line(line@, i as nat));
            self.memory_usage_test_vec.push(line);
            i = i + 1;
        }
        let ghost kbase = old(self).memory_usage_test_keys@.len();
        let mut i: u32 = 0;
        while i < TEST_ENTRIES
            invariant
                i <= TEST_ENTRIES,
                self.name == old(self).name,
                self.version == old(self).version,
                self.description == old(self).description,
                self.memory_usage_test_vec@.len() == base + TEST_ENTRIES,
                forall|j: int| 0 <= j < base ==> #[trigger] self.memory_usage_test_vec@[j] == old(self).memory_usage_test_vec@[j],
                forall|j: int| 0 <= j < TEST_ENTRIES ==> is_test_line(#[trigger] self.memory_usage_test_vec@[base + j]@, j as nat),
                self.memory_usage_test_keys@.len() == kbase + i,
                forall|j: int| 0 <= j < kbase ==> #[trigger] self.memory_usage_test_keys@[j] == old(self).memory_usage_test_keys@[j],
                forall|j: int| 0 <= j < i ==> {
                    let e = #[trigger] self.memory_usage_test_keys@[kbase + j];
                    is_test_key(e.0@, j as nat) && e.1 == j
                },
            decreases TEST_ENTRIES - i,
        {
            let mut key = String::from_str("Key-");
            push_decimal(&mut key, i as u64);
            key.append("-");
            let r = push_random_letters(&mut key, 20);
            assert(all_lowercase(r@));
            assert(is_test_key(key@, i as nat));
            self.memory_usage_test_keys.push((key, i as i32));
            i = i + 1;
        }
    }
}

impl SandyMod for SimpleItemMod {
    open spec fn spec_id(&self) -> Seq<char> {
        "simple_item_mod"@
    }

    fn id(&self) -> (r: &str) {
        proof {
            reveal_strlit("simple_item_mod");
        }
        "simple_item_mod"
    }

    /// Fills the collections with generated data; never fails.
    fn initialize(&mut self) -> (r: Result<(), String>)
        ensures
            r is Ok,
            final(self).spec_name() == old(self).spec_name(),
            final(self).spec_version() == old(self).spec_version(),
            final(self).spec_description() == old(self).spec_description(),
            final(self).lines().len() == old(self).lines().len() + TEST_ENTRIES,
            final(self).keyed().len() == old(self).keyed().len() + TEST_ENTRIES,
            forall|i: int| 0 <= i < old(self).lines().len() ==> #[trigger] final(self).lines()[i] == old(self).lines()[i],
            forall|i: int| 0 <= i < old(self).keyed().len() ==> #[trigger] final(self).keyed()[i] == old(self).keyed()[i],
    {
        self.populate_test_data_structures();
        Ok(())
    }

    fn on_load(&mut self) -> (r: Result<(), String>)
        ensures
            r is Ok,
            *final(self) == *old(self),
    {
        Ok(())
    }

    /// Frees the generated data; never fails.
    fn on_unload(&mut self) -> (r: Result<(), String>)
        ensures
            r is Ok,
            final(self).spec_name() == old(self).spec_name(),
            final(self).spec_version() == old(self).spec_version(),
            final(self).spec_description() == old(self).spec_description(),
            final(self).lines().len() == 0,
            final(self).keyed().len() == 0,
    {
        self.memory_usage_test_vec.clear();
        self.memory_usage_test_keys.clear();
        Ok(())
    }
}

} // verus!
