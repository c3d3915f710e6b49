//! Random password generation with configurable character classes.
//!
//! A [`Generator`] is configured with a [`Characters`] set describing which
//! classes of characters (numeric, lowercase, uppercase, special, space) may
//! appear. Each generated character is chosen by first picking an enabled
//! class uniformly at random, then a character of that class uniformly at
//! random: classes are weighted equally, whatever their size.

use rand::{RngExt, SeedableRng};
use vstd::prelude::*;

verus! {

/// A set of character classes, kept as bits: numeric `0b1`, lowercase
/// `0b10`, uppercase `0b100`, special `0b1000`, space `0b1_0000`.
///
/// Sets are combined with `|`; the class constants and the set operations
/// come from [`CharacterClasses`].
pub type Characters = u16;

/// The number of character classes.
pub const CLASS_COUNT: usize = 5;

/// The bit of class `k` (0 numeric, 1 lowercase, 2 uppercase, 3 special,
/// 4 space).
pub open spec fn class_bit(k: usize) -> u16 {
    if k == 0 {
        1
    } else if k == 1 {
        2
    } else if k == 2 {
        4
    } else if k == 3 {
        8
    } else if k == 4 {
        16
    } else {
        0
    }
}

/// Whether the set `bits` enables class `k`.
pub open spec fn enables(bits: u16, k: usize) -> bool {
    k < CLASS_COUNT && bits & class_bit(k) == class_bit(k)
}

/// Whether every class of `small` is in `big`.
pub open spec fn bits_contain(big: u16, small: u16) -> bool {
    big & small == small
}

/// The classes of characters, and the operations on sets of them.
pub trait CharacterClasses: Sized {
    /// Digits `0`–`9`.
    const NUMERIC: Self;

    /// Lowercase ASCII letters `a`–`z`.
    const LOWERCASE: Self;

    /// Uppercase ASCII letters `A`–`Z`.
    const UPPERCASE: Self;

    /// Punctuation and symbol characters, e.g. `!@#$%^&*()`.
    const SPECIAL: Self;

    /// The space character.
    const SPACE: Self;

    /// The set with no class.
    fn empty() -> Self;

    /// The set of all five classes.
    fn all() -> Self;

    /// Whether no class is in the set.
    fn is_empty(&self) -> bool;

    /// Whether every class of `other` is in this set.
    fn contains(&self, other: Self) -> bool;
}

impl CharacterClasses for Characters {
    const NUMERIC: u16 = 1;

    const LOWERCASE: u16 = 2;

    const UPPERCASE: u16 = 4;

    const SPECIAL: u16 = 8;

    const SPACE: u16 = 16;

    fn empty() -> (c: u16)
        ensures
            c == 0,
    {
        0
    }

    fn all() -> (c: u16)
        ensures
            c == 31,
    {
        31
    }

    fn is_empty(&self) -> (b: bool)
        ensures
            b == (*self == 0),
    {
        *self == 0
    }

    fn contains(&self, other: u16) -> (b: bool)
        ensures
            b == bits_contain(*self, other),
    {
        *self & other == other
    }
}

/// The characters of class `k`, in order.
pub open spec fn alphabet(k: usize) -> Seq<char> {
    if k == 0 {
        seq!['0', '1', '2', '3', '4', '5', '6', '7', '8', '9']
    } else if k == 1 {
        seq![
            'a', 'b', 'c', 'd', 'e', 'f', 'g', 'h', 'i', 'j', 'k', 'l', 'm',
            'n', 'o', 'p', 'q', 'r', 's', 't', 'u', 'v', 'w', 'x', 'y', 'z',
        ]
    } else if k == 2 {
        seq![
            'A', 'B', 'C', 'D', 'E', 'F', 'G', 'H', 'I', 'J', 'K', 'L', 'M',
            'N', 'O', 'P', 'Q', 'R', 'S', 'T', 'U', 'V', 'W', 'X', 'Y', 'Z',
        ]
    } else if k == 3 {
        seq![
            '!', '@', '#', '$', '%', '^', '&', '*', '(', ')', '-', '_', '=', '+', '[',
            ']', '{', '}', '|', ';', ':', '\'', ',', '.', '<', '>', '?', '/', '`', '~',
        ]
    } else if k == 4 {
        seq![' ']
    } else {
        Seq::empty()
    }
}

/// The classes below `n` that `bits` enables, in increasing order.
pub open spec fn enabled_below(bits: u16, n: nat) -> Seq<usize>
    decreases n,
{
    if n == 0 {
        Seq::empty()
    } else {
        let rest = enabled_below(bits, (n - 1) as nat);
        if enables(bits, (n - 1) as usize) {
            rest.push((n - 1) as usize)
        } else {
            rest
        }
    }
}

/// The classes that `bits` enables, in increasing order.
pub open spec fn enabled_classes(bits: u16) -> Seq<usize> {
    enabled_below(bits, CLASS_COUNT as nat)
}

/// Whether `draws` are valid random choices for a password drawn from the
/// classes of `bits`: each pair picks an enabled class by its position among
/// the enabled classes, then a character of that class by its position.
pub open spec fn valid_draws(bits: u16, draws: Seq<(usize, usize)>) -> bool {
    forall|i: int|
        #![trigger draws[i]]
        0 <= i < draws.len() ==> {
            &&& draws[i].0 < enabled_classes(bits).len()
            &&& draws[i].1 < alphabet(enabled_classes(bits)[draws[i].0 as int]).len()
        }
}

/// The character that one draw picks.
pub open spec fn drawn_char(bits: u16, draw: (usize, usize)) -> char {
    alphabet(enabled_classes(bits)[draw.0 as int])[draw.1 as int]
}

/// The password that `draws` pick, one character per draw.
pub open spec fn password_from_draws(bits: u16, draws: Seq<(usize, usize)>) -> Seq<char> {
    Seq::new(draws.len(), |i: int| drawn_char(bits, draws[i]))
}

/// Whether `c` belongs to some class that `bits` enables.
pub open spec fn permits(bits: u16, c: char) -> bool {
    exists|k: usize| enables(bits, k) && #[trigger] alphabet(k).contains(c)
}

/// `rand::rngs::StdRng`: a ChaCha generator. It never reseeds itself, and
/// drawing from it cannot fail.
#[verifier::external_type_specification]
#[verifier::external_body]
pub struct ExStdRng(rand::rngs::StdRng);

/// Calls `StdRng::try_from_rng` on `rand::rngs::SysRng`, seeding a
/// generator from the operating system; `None` when the operating system's
/// random source fails. Nothing is stated of the seed, nor of when the
/// source fails.
#[verifier::external_body]
pub(crate) fn seeded_rng() -> Option<rand::rngs::StdRng> {
    rand::rngs::StdRng::try_from_rng(&mut rand::rngs::SysRng).ok()
}

/// Calls `RngExt::random_range` on `0..bound`, which returns a value of
/// the range and panics only when the range is empty (a `StdRng` draws
/// without fail). Which value comes back is left to chance: only that it
/// lies below `bound` is stated.
#[verifier::external_body]
fn random_below(rng: &mut rand::rngs::StdRng, bound: usize) -> (r: usize)
    requires
        bound > 0,
    ensures
        r < bound,
{
    rng.random_range(0..bound)
}

/// The characters of class `k` as an ASCII string.
fn alphabet_str(k: usize) -> (s: &'static str)
    requires
        k < CLASS_COUNT,
    ensures
        s@ == alphabet(k),
        s.is_ascii(),
{
    if k == 0 {
        let s = "0123456789";
        proof {
            reveal_strlit("0123456789");
        }
        assert(s@ =~= alphabet(0));
        s
    } else if k == 1 {
        let s = "abcdefghijklmnopqrstuvwxyz";
        proof {
            reveal_strlit("abcdefghijklmnopqrstuvwxyz");
        }
        assert(s@ =~= alphabet(1));
        s
    } else if k == 2 {
        let s = "ABCDEFGHIJKLMNOPQRSTUVWXYZ";
        proof {
            reveal_strlit("ABCDEFGHIJKLMNOPQRSTUVWXYZ");
        }
        assert(s@ =~= alphabet(2));
        s
    } else if k == 3 {
        let s = "!@#$%^&*()-_=+[]{}|;:',.<>?/`~";
        proof {
            reveal_strlit("!@#$%^&*()-_=+[]{}|;:',.<>?/`~");
        }
        assert(s@ =~= alphabet(3));
        s
    } else {
        let s = " ";
        proof {
            reveal_strlit(" ");
        }
        assert(s@ =~= alphabet(4));
        s
    }
}

/// Generates random strings from a configurable set of [`Characters`]
/// classes.
#[derive(Debug, Clone, Copy, PartialEq, Eq, Structural)]
pub struct Generator {
    characters: Characters,
}

impl View for Generator {
    type V = u16;

    /// The set of character classes the generator draws from.
    closed spec fn view(&self) -> u16 {
        self.characters
    }
}

impl Generator {
    /// Creates a generator that draws from `characters`.
    pub fn new(characters: Characters) -> (g: Self)
        ensures
            g@ == characters,
    {
        Generator { characters }
    }

    /// The character classes this generator draws from.
    pub fn characters(&self) -> (c: Characters)
        ensures
            c == self@,
    {
        self.characters
    }

    /// Replaces the character classes this generator draws from.
    pub fn set_characters(&mut self, characters: Characters)
        ensures
            final(self)@ == characters,
    {
        self.characters = characters;
    }
}

/// Every class in `enabled_below(bits, n)` lies below `n` and is enabled
/// by `bits`.
proof fn lemma_enabled_below(bits: u16, n: nat)
    requires
        n <= CLASS_COUNT,
    ensures
        forall|i: int|
            0 <= i < enabled_below(bits, n).len() ==> {
                &&& #[trigger] enabled_below(bits, n)[i] < n
                &&& enables(bits, enabled_below(bits, n)[i])
            },
    decreases n,
{
    if n > 0 {
        let rest = enabled_below(bits, (n - 1) as nat);
        lemma_enabled_below(bits, (n - 1) as nat);
        assert forall|i: int| 0 <= i < enabled_below(bits, n).len() implies {
            &&& #[trigger] enabled_below(bits, n)[i] < n
            &&& enables(bits, enabled_below(bits, n)[i])
        } by {
            if i < rest.len() {
                assert(enabled_below(bits, n)[i] == rest[i]);
            }
        }
    }
}

/// The bits of the five class constants. Outside this module the constants'
/// values are known only through this lemma.
pub proof fn lemma_class_constants()
    ensures
        Characters::NUMERIC == 1,
        Characters::LOWERCASE == 2,
        Characters::UPPERCASE == 4,
        Characters::SPECIAL == 8,
        Characters::SPACE == 16,
{
}

/// A set with one of the five class bits enables at least one class.
proof fn lemma_some_class_enabled(bits: u16)
    requires
        bits & 31 != 0,
    ensures
        enabled_classes(bits).len() > 0,
{
    reveal_with_fuel(enabled_below, 6);
    assert(bits & 1 == 1 || bits & 2 == 2 || bits & 4 == 4 || bits & 8 == 8 || bits & 16 == 16)
        by (bit_vector)
        requires
            bits & 31 != 0,
    ;
}

/// Whether `bits` enables class `k`.
fn class_enabled(bits: u16, k: usize) -> (b: bool)
    requires
        k < CLASS_COUNT,
    ensures
        b == enables(bits, k),
{
    let bit: u16 = if k == 0 {
        1
    } else if k == 1 {
        2
    } else if k == 2 {
        4
    } else if k == 3 {
        8
    } else {
        16
    };
    bits & bit == bit
}

/// The classes that `bits` enables, in increasing order.
fn enabled_class_list(bits: u16) -> (v: Vec<usize>)
    ensures
        v@ == enabled_classes(bits),
{
    let mut v: Vec<usize> = Vec::new();
    let mut k: usize = 0;
    while k < CLASS_COUNT
        invariant
            k <= CLASS_COUNT,
            v@ == enabled_below(bits, k as nat),
        decreases CLASS_COUNT - k,
    {
        if class_enabled(bits, k) {
            v.push(k);
        }
        k += 1;
    }
    v
}

impl Generator {
    /// The password that `draws` pick from this generator's classes: for
    /// each draw, the enabled class at position `draw.0` among the enabled
    /// classes (in the order numeric, lowercase, uppercase, special, space),
    /// then the character at position `draw.1` of that class.
    pub fn generate_from(&self, draws: &Vec<(usize, usize)>) -> (s: String)
        requires
            valid_draws(self@, draws@),
        ensures
            s@ == password_from_draws(self@, draws@),
    {
        let classes = enabled_class_list(self.characters);
        proof {
            lemma_enabled_below(self@, CLASS_COUNT as nat);
        }
        let mut s = String::new();
        let mut i: usize = 0;
        while i < draws.len()
            invariant
                i <= draws@.len(),
                valid_draws(self@, draws@),
                classes@ == enabled_classes(self@),
                forall|t: int| 0 <= t < classes@.len() ==> #[trigger] classes@[t] < CLASS_COUNT,
                s@ =~= password_from_draws(self@, draws@.take(i as int)),
            decreases draws@.len() - i,
        {
            let (k, j) = draws[i];
            assert(k < classes@.len() && j < alphabet(classes@[k as int]).len()) by {
                assert(draws@[i as int] == (k, j));
            }
            let letters = alphabet_str(classes[k]);
            let piece = letters.substring_ascii(j, j + 1);
            s.append(piece);
            assert(draws@.take(i as int + 1) =~= draws@.take(i as int).push(draws@[i as int]));
            i += 1;
        }
        assert(draws@.take(draws@.len() as int) =~= draws@);
        s
    }

    /// Generates a random string of `length` characters.
    ///
    /// Each character is drawn from the classes enabled on this generator,
    /// with each class (not each character) equally likely to be chosen.
    /// Returns an empty string when no class is enabled. A set whose only
    /// bits lie outside the five classes is not accepted: no character
    /// could ever be drawn from it. Returns `None` when the operating
    /// system's random source fails to seed the generator.
    pub fn generate(&self, length: usize) -> (r: Option<String>)
        requires
            self@ == 0 || self@ & 31 != 0,
        ensures
            self@ == 0 ==> (r matches Some(s) && s@ == Seq::<char>::empty()),
            r matches Some(s) ==> {
                &&& self@ != 0 ==> s@.len() == length
                &&& self@ != 0 ==> exists|draws: Seq<(usize, usize)>|
                    {
                        &&& draws.len() == length
                        &&& valid_draws(self@, draws)
                        &&& s@ == password_from_draws(self@, draws)
                    }
                &&& forall|i: int| 0 <= i < s@.len() ==> permits(self@, #[trigger] s@[i])
            },
    {
        if self.characters.is_empty() {
            return Some(String::new());
        }
        match seeded_rng() {
            Some(mut rng) => Some(self.generate_with(&mut rng, length)),
            None => None,
        }
    }

    /// Generates a random string of `length` characters with the seeded
    /// generator `rng`, as [`Generator::generate`] does once it has seeded
    /// one. It always succeeds: with a class enabled the password has
    /// exactly `length` characters, each drawn from an enabled class.
    pub fn generate_with(&self, rng: &mut rand::rngs::StdRng, length: usize) -> (s: String)
        requires
            self@ == 0 || self@ & 31 != 0,
        ensures
            self@ == 0 ==> s@ == Seq::<char>::empty(),
            self@ != 0 ==> s@.len() == length,
            self@ != 0 ==> exists|draws: Seq<(usize, usize)>|
                {
                    &&& draws.len() == length
                    &&& valid_draws(self@, draws)
                    &&& s@ == password_from_draws(self@, draws)
                },
            forall|i: int| 0 <= i < s@.len() ==> permits(self@, #[trigger] s@[i]),
    {
        if self.characters.is_empty() {
            return String::new();
        }
        let classes = enabled_class_list(self.characters);
        proof {
            lemma_enabled_below(self@, CLASS_COUNT as nat);
            lemma_some_class_enabled(self@);
        }
        let mut draws: Vec<(usize, usize)> = Vec::new();
        let mut i: usize = 0;
        while i < length
            invariant
                i <= length,
                draws@.len() == i,
                valid_draws(self@, draws@),
                classes@ == enabled_classes(self@),
                classes@.len() > 0,
                forall|t: int| 0 <= t < classes@.len() ==> #[trigger] classes@[t] < CLASS_COUNT,
            decreases length - i,
        {
            let k = random_below(rng, classes.len());
            let size = alphabet_str(classes[k]).unicode_len();
            let j = random_below(rng, size);
            let ghost before = draws@;
            draws.push((k, j));
            assert forall|t: int| 0 <= t < draws@.len() implies {
                &&& (#[trigger] draws@[t]).0 < enabled_classes(self@).len()
                &&& draws@[t].1 < alphabet(enabled_classes(self@)[draws@[t].0 as int]).len()
            } by {
                if t < before.len() {
                    assert(draws@[t] == before[t]);
                }
            }
            i += 1;
        }
        let s = self.generate_from(&draws);
        proof {
            assert forall|t: int| 0 <= t < s@.len() implies permits(self@, #[trigger] s@[t]) by {
                let d = draws@[t];
                let k = enabled_classes(self@)[d.0 as int];
                assert(enables(self@, k));
                assert(alphabet(k).contains(s@[t])) by {
                    assert(alphabet(k)[d.1 as int] == s@[t]);
                }
            }
        }
        s
    }
}

impl Default for Generator {
    /// A generator that draws from all five classes.
    fn default() -> (g: Self)
        ensures
            g@ == 31,
    {
        let characters = Characters::NUMERIC | Characters::LOWERCASE | Characters::UPPERCASE
            | Characters::SPECIAL | Characters::SPACE;
        assert(characters == 31) by (bit_vector)
            requires
                characters == 1u16 | 2u16 | 4u16 | 8u16 | 16u16,
        ;
        Generator { characters }
    }
}

/// Combining two sets with `|` enables exactly the classes that either set
/// enables.
pub proof fn law_union_enables(a: u16, b: u16, k: usize)
    ensures
        enables(a | b, k) <==> enables(a, k) || enables(b, k),
{
    if k < CLASS_COUNT {
        let bit = class_bit(k);
        assert(((a | b) & bit == bit) <==> (a & bit == bit || b & bit == bit)) by (bit_vector)
            requires
                bit == 1 || bit == 2 || bit == 4 || bit == 8 || bit == 16,
        ;
    }
}

} // verus!
