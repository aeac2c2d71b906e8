//! The JSON mapping of an enum: each discriminant is written as the name of
//! the first variant that declares it, and read back from any variant's name
//! or from the decimal text of a declared discriminant.

use vstd::prelude::*;
use crate::decimal::{decimal, decimal_string, lemma_parse_decimal, parse_decimal, parse_int};
use crate::descriptor::{EnumDescriptor, EnumVariantDescriptor};
use crate::error::DecodeError;
use crate::search::{first_match, lemma_first_match, lemma_first_match_is, lemma_first_match_none};

verus! {

/// The variants whose discriminant is `number`.
pub open spec fn has_number(number: i32) -> spec_fn(EnumVariantDescriptor) -> bool {
    |v: EnumVariantDescriptor| v.number == number
}

/// The variants whose name is `text`.
pub open spec fn has_name(text: Seq<char>) -> spec_fn(EnumVariantDescriptor) -> bool {
    |v: EnumVariantDescriptor| v.name@ == text
}

impl EnumDescriptor {
    /// Whether some variant has the discriminant `number`.
    pub open spec fn declares(&self, number: int) -> bool {
        exists|i: int| 0 <= i < self.variants@.len() && #[trigger] self.variants@[i].number == number
    }

    /// The position of the first variant declared with `number`.
    pub open spec fn canonical_index(&self, number: i32) -> Option<int> {
        first_match(self.variants@, has_number(number))
    }

    /// The position of the first variant named `text`.
    pub open spec fn name_index(&self, text: Seq<char>) -> Option<int> {
        first_match(self.variants@, has_name(text))
    }

    /// The JSON string of `number`: the name of the first variant declared
    /// with it, or its decimal form where no variant has it.
    pub open spec fn encode_text(&self, number: i32) -> Seq<char> {
        match self.canonical_index(number) {
            Some(i) => self.variants@[i].name@,
            None => decimal(number as int),
        }
    }

    /// The discriminant that a number read from JSON stands for: itself, if a
    /// variant declares it.
    pub open spec fn decode_int(&self, number: int) -> Option<i32> {
        if self.declares(number) {
            Some(number as i32)
        } else {
            None
        }
    }

    /// The discriminant that the JSON string `text` stands for: that of the
    /// variant so named, else the integer that the text spells if a variant
    /// declares it.
    pub open spec fn decode_text(&self, text: Seq<char>) -> Option<i32> {
        match self.name_index(text) {
            Some(i) => Some(self.variants@[i].number),
            None => match parse_int(text) {
                Some(number) => self.decode_int(number),
                None => None,
            },
        }
    }

    /// No two variants share a name, and no name reads as an integer.
    pub open spec fn wf(&self) -> bool {
        &&& forall|i: int, j: int|
            0 <= i < j < self.variants@.len() ==> self.variants@[i].name@ != self.variants@[j].name@
        &&& forall|i: int|
            0 <= i < self.variants@.len() ==> parse_int(#[trigger] self.variants@[i].name@) is None
    }

    /// Finds the first variant declared with `number`.
    pub fn find_number(&self, number: i32) -> (found: Option<usize>)
        ensures
            match found {
                Some(i) => {
                    &&& i < self.variants@.len()
                    &&& self.variants@[i as int].number == number
                    &&& self.canonical_index(number) == Some(i as int)
                },
                None => self.canonical_index(number) is None && !self.declares(number as int),
            },
    {
        let mut i: usize = 0;
        while i < self.variants.len()
            invariant
                i <= self.variants.len(),
                forall|j: int| 0 <= j < i ==> self.variants@[j].number != number,
            decreases self.variants.len() - i,
        {
            if self.variants[i].number == number {
                proof {
                    lemma_first_match_is(self.variants@, has_number(number), i as int);
                }
                return Some(i);
            }
            i = i + 1;
        }
        proof {
            lemma_first_match_none(self.variants@, has_number(number));
        }
        None
    }

    /// Finds the first variant named `text`.
    pub fn find_name(&self, text: &str) -> (found: Option<usize>)
        ensures
            match found {
                Some(i) => {
                    &&& i < self.variants@.len()
                    &&& self.variants@[i as int].name@ == text@
                    &&& self.name_index(text@) == Some(i as int)
                },
                None => self.name_index(text@) is None,
            },
    {
        let wanted = String::from_str(text);
        let mut i: usize = 0;
        while i < self.variants.len()
            invariant
                i <= self.variants.len(),
                wanted@ == text@,
                forall|j: int| 0 <= j < i ==> self.variants@[j].name@ != text@,
            decreases self.variants.len() - i,
        {
            if self.variants[i].name == wanted {
                proof {
                    lemma_first_match_is(self.variants@, has_name(text@), i as int);
                }
                return Some(i);
            }
            i = i + 1;
        }
        proof {
            lemma_first_match_none(self.variants@, has_name(text@));
        }
        None
    }

    /// Writes the discriminant `number` as its JSON string. Every number has
    /// one: an undeclared number is written in decimal.
    pub fn encode(&self, number: i32) -> (text: String)
        ensures
            text@ == self.encode_text(number),
    {
        match self.find_number(number) {
            Some(i) => self.variants[i].name.clone(),
            None => decimal_string(number as i128),
        }
    }

    /// Reads a discriminant from a JSON number. Fails on a number that no
    /// variant declares.
    pub fn decode_number(&self, number: i64) -> (decoded: Result<i32, DecodeError>)
        ensures
            decoded == match self.decode_int(number as int) {
                Some(n) => Ok::<i32, DecodeError>(n),
                None => Err(DecodeError::UnrecognizedEnumValue),
            },
    {
        if number < -2147483648 || number > 2147483647 {
            return Err(DecodeError::UnrecognizedEnumValue);
        }
        let narrowed = number as i32;
        match self.find_number(narrowed) {
            Some(i) => Ok(narrowed),
            None => Err(DecodeError::UnrecognizedEnumValue),
        }
    }

    /// Reads a discriminant from a JSON string. Fails on text that is neither
    /// the name of a variant nor the decimal text of a declared discriminant.
    pub fn decode(&self, text: &str) -> (decoded: Result<i32, DecodeError>)
        ensures
            decoded == match self.decode_text(text@) {
                Some(n) => Ok::<i32, DecodeError>(n),
                None => Err(DecodeError::UnrecognizedEnumValue),
            },
    {
        match self.find_name(text) {
            Some(i) => Ok(self.variants[i].number),
            None => match parse_decimal(text, -2147483648, 2147483647) {
                Some(number) => self.decode_number(number as i64),
                None => Err(DecodeError::UnrecognizedEnumValue),
            },
        }
    }
}

/// First declared wins: the discriminant of any variant is written as the name
/// of the first variant that was declared with that discriminant, whatever
/// the numeric order of the variants.
pub proof fn lemma_encode_first_declared(e: EnumDescriptor, i: int)
    requires
        0 <= i < e.variants@.len(),
    ensures
        ({
            let number = e.variants@[i].number;
            match e.canonical_index(number) {
                Some(first) => {
                    &&& 0 <= first <= i
                    &&& e.variants@[first].number == number
                    &&& forall|j: int| 0 <= j < first ==> e.variants@[j].number != number
                    &&& e.encode_text(number) == e.variants@[first].name@
                },
                None => false,
            }
        }),
{
    let number = e.variants@[i].number;
    lemma_first_match(e.variants@, has_number(number));
    assert(has_number(number)(e.variants@[i]));
}

/// An alias is written under the name of the variant that it is an alias of:
/// the first that was declared with the discriminant.
pub proof fn lemma_alias_written_as_first(e: EnumDescriptor, first: int, alias: int)
    requires
        0 <= first < e.variants@.len(),
        0 <= alias < e.variants@.len(),
        e.variants@[first].number == e.variants@[alias].number,
        forall|k: int| 0 <= k < first ==> e.variants@[k].number != e.variants@[first].number,
    ensures
        e.encode_text(e.variants@[alias].number) == e.variants@[first].name@,
{
    lemma_first_match_is(e.variants@, has_number(e.variants@[first].number), first);
}

/// A discriminant that no variant declares is written in decimal.
pub proof fn lemma_undeclared_written_in_decimal(e: EnumDescriptor, number: i32)
    requires
        !e.declares(number as int),
    ensures
        e.encode_text(number) == decimal(number as int),
{
    lemma_first_match(e.variants@, has_number(number));
    match e.canonical_index(number) {
        Some(k) => {
            assert(e.variants@[k].number == number);
        },
        None => {},
    }
}

/// Every variant's name, alias or not, is read back as that variant's
/// discriminant.
pub proof fn lemma_decode_accepts_name(e: EnumDescriptor, i: int)
    requires
        e.wf(),
        0 <= i < e.variants@.len(),
    ensures
        e.decode_text(e.variants@[i].name@) == Some(e.variants@[i].number),
{
    let text = e.variants@[i].name@;
    lemma_first_match(e.variants@, has_name(text));
    assert(has_name(text)(e.variants@[i]));
}

/// The decimal text of every declared discriminant is read back as that
/// discriminant.
pub proof fn lemma_decode_accepts_decimal(e: EnumDescriptor, i: int)
    requires
        e.wf(),
        0 <= i < e.variants@.len(),
    ensures
        e.decode_text(decimal(e.variants@[i].number as int)) == Some(e.variants@[i].number),
{
    let number = e.variants@[i].number;
    let text = decimal(number as int);
    lemma_parse_decimal(number as int);
    assert forall|j: int| 0 <= j < e.variants@.len() implies !has_name(text)(e.variants@[j]) by {
        assert(parse_int(e.variants@[j].name@) is None);
    }
    lemma_first_match_none(e.variants@, has_name(text));
    assert(e.variants@[i].number == number as int);
}

/// Text is rejected exactly when it names no variant and does not spell a
/// declared discriminant.
pub proof fn lemma_decode_rejects(e: EnumDescriptor, text: Seq<char>)
    ensures
        e.decode_text(text) is None <==> {
            &&& forall|i: int| 0 <= i < e.variants@.len() ==> e.variants@[i].name@ != text
            &&& match parse_int(text) {
                Some(number) => !e.declares(number),
                None => true,
            }
        },
{
    lemma_first_match(e.variants@, has_name(text));
    match e.name_index(text) {
        Some(i) => {
            assert(e.variants@[i].name@ == text);
        },
        None => {
            assert forall|i: int| 0 <= i < e.variants@.len() implies e.variants@[i].name@
                != text by {
                assert(!has_name(text)(e.variants@[i]));
            }
        },
    }
}

/// A declared discriminant survives being written and read back.
pub proof fn lemma_enum_round_trip(e: EnumDescriptor, number: i32)
    requires
        e.wf(),
        e.declares(number as int),
    ensures
        e.decode_text(e.encode_text(number)) == Some(number),
{
    let i = choose|i: int| 0 <= i < e.variants@.len() && #[trigger] e.variants@[i].number == number;
    lemma_encode_first_declared(e, i);
    let first = e.canonical_index(number).unwrap();
    lemma_decode_accepts_name(e, first);
}

/// A discriminant that no variant declares is not read back: what was
/// written for it names no variant.
pub proof fn lemma_undeclared_not_read_back(e: EnumDescriptor, number: i32)
    requires
        e.wf(),
        !e.declares(number as int),
    ensures
        e.decode_text(e.encode_text(number)) is None,
{
    lemma_undeclared_written_in_decimal(e, number);
    let text = decimal(number as int);
    lemma_parse_decimal(number as int);
    assert forall|j: int| 0 <= j < e.variants@.len() implies !has_name(text)(e.variants@[j]) by {
        assert(parse_int(e.variants@[j].name@) is None);
    }
    lemma_first_match_none(e.variants@, has_name(text));
}

} // verus!
