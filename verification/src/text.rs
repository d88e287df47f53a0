//! Text that the snapshot holds: numbers in decimal, and paths below the root.

use vstd::prelude::*;

verus! {

/// `String::push` appends one character.
pub assume_specification[ String::push ](text: &mut String, c: char)
    ensures
        final(text)@ == old(text)@.push(c),
;

/// The character of a decimal digit.
pub open spec fn digit(value: nat) -> char {
    ('0' as nat + value) as char
}

/// A number in decimal, without leading zeros.
pub open spec fn decimal(number: nat) -> Seq<char>
    decreases number,
{
    if number < 10 {
        seq![digit(number)]
    } else {
        decimal(number / 10).push(digit(number % 10))
    }
}

/// Writes a number in decimal.
pub fn decimal_text(number: u64) -> (text: String)
    ensures
        text@ == decimal(number as nat),
    decreases number,
{
    let last: u8 = (number % 10) as u8;
    let mut text: String = if number < 10 {
        String::new()
    } else {
        decimal_text(number / 10)
    };
    text.push((48u8 + last) as char);
    proof {
        assert(text@ =~= decimal(number as nat));
    }
    text
}

/// The path of an entry below the directory at `prefix`; the root's own path is empty.
pub open spec fn below(prefix: Seq<char>, separator: char, name: Seq<char>) -> Seq<char> {
    if prefix.len() == 0 {
        name
    } else {
        prefix.push(separator) + name
    }
}

/// Builds the path of an entry below the directory at `prefix`.
pub fn path_below(prefix: &str, separator: char, name: &str) -> (path: String)
    ensures
        path@ == below(prefix@, separator, name@),
{
    if prefix.is_empty() {
        name.to_owned()
    } else {
        let mut path: String = prefix.to_owned();
        path.push(separator);
        path.append(name);
        path
    }
}

/// The number that decimal digits denote.
pub open spec fn decimal_value(text: Seq<char>) -> nat
    decreases text.len(),
{
    if text.len() == 0 {
        0
    } else {
        (10 * decimal_value(text.drop_last()) + (text.last() as int - '0' as int)) as nat
    }
}

/// Reading a written number gives it back, and only zero is written with a leading zero.
pub proof fn decimal_reads_back(number: nat)
    ensures
        decimal(number).len() > 0,
        number > 0 ==> decimal(number)[0] != '0',
        decimal_value(decimal(number)) == number,
    decreases number,
{
    reveal_with_fuel(decimal_value, 2);
    if number >= 10 {
        decimal_reads_back(number / 10);
        assert(decimal(number).drop_last() =~= decimal(number / 10));
    } else {
        assert(decimal(number).drop_last() =~= Seq::empty());
    }
}

/// Numbers are written in the ten ASCII digits, and different numbers differently.
pub proof fn numbers_are_written_in_digits(number: nat)
    ensures
        forall|i: int|
            0 <= i < decimal(number).len() ==> 48 <= (#[trigger] decimal(number)[i]) as int <= 57,
        number > 0 ==> decimal(number)[0] as int != 48,
        number == 0 ==> decimal(number).len() == 1,
    decreases number,
{
    if number >= 10 {
        numbers_are_written_in_digits(number / 10);
    }
    decimal_reads_back(number);
}

/// The value of digits: each further digit makes ten times as much and adds itself.
pub proof fn digits_have_their_value(text: Seq<char>, last: char)
    requires
        48 <= last as int <= 57,
    ensures
        decimal_value(Seq::empty()) == 0,
        decimal_value(text.push(last)) == 10 * decimal_value(text) + (last as int - 48),
{
    assert(text.push(last).drop_last() =~= text);
}

/// An entry of the root has its name as its path; an entry of another directory has
/// that directory's path, one separator and its name.
pub proof fn paths_grow_by_name(prefix: Seq<char>, separator: char, name: Seq<char>)
    ensures
        prefix.len() == 0 ==> below(prefix, separator, name) == name,
        prefix.len() > 0 ==> {
            let path = below(prefix, separator, name);
            &&& path.len() == prefix.len() + 1 + name.len()
            &&& path.subrange(0, prefix.len() as int) == prefix
            &&& path[prefix.len() as int] == separator
            &&& path.subrange(prefix.len() as int + 1, path.len() as int) == name
        },
{
    let path = below(prefix, separator, name);
    if prefix.len() > 0 {
        assert(path.subrange(0, prefix.len() as int) =~= prefix);
        assert(path.subrange(prefix.len() as int + 1, path.len() as int) =~= name);
    }
}

} // verus!
