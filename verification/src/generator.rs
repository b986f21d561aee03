//! The password generator: random characters from the sets that its
//! settings switch on.

use crate::encoding::{chars_of, random_bytes, text_of_chars};
use vstd::prelude::*;
use vstd::string::StringExecFns;

verus! {

/// The settings of the generator: which sets of characters to draw from, and
/// how many characters to draw.
#[derive(Clone, Copy, Debug, PartialEq, Eq, Structural)]
pub struct PasswordGenerator {
    pub numbers: bool,
    pub letters: bool,
    pub symbols: bool,
    pub length: usize,
}

/// The letters that the generator draws from.
pub open spec fn letter_set() -> Seq<char> {
    "abcdefghijklmnopqrstuvwxyzABCDEFGHIJKLMNOPQRSTUVWXYZ"@
}

/// The digits that the generator draws from.
pub open spec fn number_set() -> Seq<char> {
    "0123456789"@
}

/// The symbols that the generator draws from.
pub open spec fn symbol_set() -> Seq<char> {
    "!@#$%^&*()-_+/"@
}

/// The characters that a generator draws from: letters, then digits, then
/// symbols, each where it is switched on.
pub open spec fn dataset(generator: PasswordGenerator) -> Seq<char> {
    (if generator.letters {
        letter_set()
    } else {
        Seq::<char>::empty()
    }) + (if generator.numbers {
        number_set()
    } else {
        Seq::<char>::empty()
    }) + (if generator.symbols {
        symbol_set()
    } else {
        Seq::<char>::empty()
    })
}

/// The characters that `numbers` pick from `dataset`: each number picks the
/// character at its remainder by the size of the set.
pub open spec fn picked(dataset: Seq<char>, numbers: Seq<u8>) -> Seq<char> {
    Seq::new(numbers.len(), |i: int| dataset[numbers[i] as int % dataset.len() as int])
}

/// The settings in force: the ones given, else the generator's own.
pub open spec fn chosen(own: PasswordGenerator, given: Option<PasswordGenerator>) -> PasswordGenerator {
    match given {
        Some(generator) => generator,
        None => own,
    }
}

/// What a generator makes of the random `numbers`: nothing where no set is
/// switched on, else the characters that they pick.
pub open spec fn generated(generator: PasswordGenerator, numbers: Seq<u8>) -> Seq<char> {
    if dataset(generator).len() == 0 {
        Seq::<char>::empty()
    } else {
        picked(dataset(generator), numbers)
    }
}

impl Default for PasswordGenerator {
    /// All sets switched on, 32 characters.
    fn default() -> (generator: Self)
        ensures
            generator == (PasswordGenerator {
                numbers: true,
                letters: true,
                symbols: true,
                length: 32,
            }),
    {
        PasswordGenerator { numbers: true, letters: true, symbols: true, length: 32 }
    }
}

impl PasswordGenerator {
    /// The characters that these settings draw from.
    pub fn characters(&self) -> (chars: Vec<char>)
        ensures
            chars@ == dataset(*self),
    {
        let mut set = String::new();
        if self.letters {
            set.append("abcdefghijklmnopqrstuvwxyzABCDEFGHIJKLMNOPQRSTUVWXYZ");
        }
        if self.numbers {
            set.append("0123456789");
        }
        if self.symbols {
            set.append("!@#$%^&*()-_+/");
        }
        chars_of(set.as_str())
    }

    /// The password that the random `numbers` give under the settings
    /// `generator`, or under these where none are given.
    pub fn generate_from(&self, generator: Option<Self>, numbers: &Vec<u8>) -> (password: String)
        ensures
            password@ == generated(chosen(*self, generator), numbers@),
    {
        let generator = match generator {
            Some(generator) => generator,
            None => *self,
        };
        let set = generator.characters();
        if set.len() == 0 {
            return String::new();
        }
        let mut chars: Vec<char> = Vec::new();
        let mut i: usize = 0;
        while i < numbers.len()
            invariant
                i <= numbers.len(),
                set.len() > 0,
                chars@ == picked(set@, numbers@.take(i as int)),
            decreases numbers.len() - i,
        {
            chars.push(set[numbers[i] as usize % set.len()]);
            i = i + 1;
        }
        text_of_chars(&chars)
    }

    /// A random password under the settings `generator`, or under these
    /// where none are given: as many characters as the settings say, each
    /// drawn from their sets; empty where no set is switched on.
    pub fn generate(&self, generator: Option<Self>) -> (password: String)
        ensures
            exists|numbers: Seq<u8>|
                numbers.len() == chosen(*self, generator).length && password@ == generated(
                    chosen(*self, generator),
                    numbers,
                ),
    {
        let settings = match generator {
            Some(generator) => generator,
            None => *self,
        };
        if !settings.letters && !settings.numbers && !settings.symbols {
            let password = self.generate_from(generator, &Vec::new());
            assert(Seq::new(settings.length as nat, |i: int| 0u8).len() == chosen(
                *self,
                generator,
            ).length);
            return password;
        }
        let numbers = random_bytes(settings.length);
        self.generate_from(generator, &numbers)
    }
}

/// How many characters a generator draws from: 52 letters, 10 digits and
/// 14 symbols, each where it is switched on.
pub proof fn lemma_dataset_len(generator: PasswordGenerator)
    ensures
        dataset(generator).len() == (if generator.letters {
            52int
        } else {
            0int
        }) + (if generator.numbers {
            10int
        } else {
            0int
        }) + (if generator.symbols {
            14int
        } else {
            0int
        }),
{
    reveal_strlit("abcdefghijklmnopqrstuvwxyzABCDEFGHIJKLMNOPQRSTUVWXYZ");
    reveal_strlit("0123456789");
    reveal_strlit("!@#$%^&*()-_+/");
}

/// A password has one character for each random number, each of them out of
/// the generator's sets, where a set is switched on; else it is empty.
pub proof fn lemma_generated(generator: PasswordGenerator, numbers: Seq<u8>)
    ensures
        generator.letters || generator.numbers || generator.symbols ==> generated(
            generator,
            numbers,
        ).len() == numbers.len(),
        !(generator.letters || generator.numbers || generator.symbols) ==> generated(
            generator,
            numbers,
        ).len() == 0,
        forall|i: int|
            0 <= i < generated(generator, numbers).len() ==> dataset(generator).contains(
                #[trigger] generated(generator, numbers)[i],
            ),
{
    lemma_dataset_len(generator);
    let set = dataset(generator);
    if set.len() > 0 {
        assert forall|i: int| 0 <= i < generated(generator, numbers).len() implies set.contains(
            #[trigger] generated(generator, numbers)[i],
        ) by {
            assert(set[numbers[i] as int % set.len() as int] == generated(generator, numbers)[i]);
        }
    }
}

} // verus!
