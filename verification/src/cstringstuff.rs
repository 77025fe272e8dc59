//! Names as the driver hands them out: bytes in a buffer, ended by a zero.

use crate::utils::{first_true, lemma_first_true};
use vstd::prelude::*;
use vstd::string::StringSliceAdditionalSpecFns;

verus! {

/// How many bytes stand before the first zero of `input`; all of them when
/// there is no zero.
pub open spec fn c_string_len(input: Seq<i8>) -> nat
    decreases input.len(),
{
    if input.len() == 0 || input[0] == 0 {
        0
    } else {
        1 + c_string_len(input.skip(1))
    }
}

/// The bytes of `input` before its first zero, each reread as unsigned.
pub open spec fn c_string_of(input: Seq<i8>) -> Seq<u8> {
    Seq::new(c_string_len(input), |i: int| input[i] as u8)
}

/// A prefix without zeros that ends at a zero or at the end is the whole
/// name.
pub proof fn lemma_c_string_len(input: Seq<i8>, end: int)
    requires
        0 <= end <= input.len(),
        forall|i: int| 0 <= i < end ==> input[i] != 0,
        end == input.len() || input[end] == 0,
    ensures
        c_string_len(input) == end,
    decreases end,
{
    if end > 0 {
        let rest = input.skip(1);
        assert forall|i: int| 0 <= i < end - 1 implies rest[i] != 0 by {
            assert(rest[i] == input[i + 1]);
        }
        lemma_c_string_len(rest, end - 1);
    }
}

/// Copies the name out of a zero-terminated buffer.
pub fn i8_slice_to_cstring(input: &[i8]) -> (name: Vec<u8>)
    ensures
        name@ == c_string_of(input@),
{
    let mut result_vec: Vec<u8> = Vec::with_capacity(input.len());
    let mut i: usize = 0;
    while i < input.len() && input[i] != 0
        invariant
            0 <= i <= input.len(),
            result_vec@.len() == i,
            forall|j: int| 0 <= j < i ==> input@[j] != 0,
            forall|j: int| 0 <= j < i ==> result_vec@[j] == input@[j] as u8,
        decreases input.len() - i,
    {
        result_vec.push(input[i] as u8);
        i += 1;
    }
    proof {
        lemma_c_string_len(input@, i as int);
        assert(result_vec@ =~= c_string_of(input@));
    }
    result_vec
}

/// Whether two names are the same bytes.
pub fn names_equal(a: &Vec<u8>, b: &Vec<u8>) -> (same: bool)
    ensures
        same == (a@ == b@),
{
    if a.len() != b.len() {
        return false;
    }
    let mut i: usize = 0;
    while i < a.len()
        invariant
            0 <= i <= a.len(),
            a.len() == b.len(),
            forall|j: int| 0 <= j < i ==> a@[j] == b@[j],
        decreases a.len() - i,
    {
        if a[i] != b[i] {
            return false;
        }
        i += 1;
    }
    assert(a@ =~= b@);
    true
}

/// The names of a list, as byte sequences.
pub open spec fn names_of(list: Seq<Vec<u8>>) -> Seq<Seq<u8>> {
    list.map_values(|name: Vec<u8>| name@)
}

/// For each of `required`, whether it is missing among `available`.
pub open spec fn missing_flags(required: Seq<Seq<u8>>, available: Seq<Seq<u8>>) -> Seq<bool> {
    required.map_values(|name: Seq<u8>| !available.contains(name))
}

/// The first of `required` that is not among `available`.
pub open spec fn first_missing(required: Seq<Seq<u8>>, available: Seq<Seq<u8>>) -> Option<
    Seq<u8>,
> {
    match first_true(missing_flags(required, available)) {
        Some(i) => Some(required[i]),
        None => None,
    }
}

/// Nothing is missing exactly when every required name is available.
pub proof fn lemma_first_missing(required: Seq<Seq<u8>>, available: Seq<Seq<u8>>)
    ensures
        first_missing(required, available) is None <==> forall|i: int|
            0 <= i < required.len() ==> available.contains(#[trigger] required[i]),
        first_missing(required, available) matches Some(name) ==> required.contains(name)
            && !available.contains(name),
{
    let flags = missing_flags(required, available);
    lemma_first_true(flags);
    assert forall|i: int| 0 <= i < required.len() implies flags[i] == !available.contains(
        required[i],
    ) by {}
    if first_true(flags) is None {
        assert forall|i: int| 0 <= i < required.len() implies available.contains(
            #[trigger] required[i],
        ) by {
            assert(!flags[i]);
        }
    } else {
        let at = first_true(flags)->0;
        assert(flags[at]);
        assert(!available.contains(required[at]));
    }
}

/// Whether `name` stands in `list`.
pub fn contains_name(list: &Vec<Vec<u8>>, name: &Vec<u8>) -> (found: bool)
    ensures
        found == names_of(list@).contains(name@),
{
    let mut i: usize = 0;
    while i < list.len()
        invariant
            0 <= i <= list.len(),
            forall|j: int| 0 <= j < i ==> names_of(list@)[j] != name@,
        decreases list.len() - i,
    {
        if names_equal(&list[i], name) {
            assert(names_of(list@)[i as int] == name@);
            return true;
        }
        i += 1;
    }
    false
}

/// A copy of a name.
pub fn clone_name(name: &Vec<u8>) -> (copy: Vec<u8>)
    ensures
        copy@ == name@,
{
    let copy = name.clone();
    assert(copy@ =~= name@);
    copy
}

/// The bytes of a string literal as a name.
pub fn name_from_str(text: &str) -> (name: Vec<u8>)
    ensures
        name@ == text.spec_bytes(),
{
    vstd::slice::slice_to_vec(text.as_bytes())
}

} // verus!
