//! Names of screenshot files.
//!
//! Screenshots are numbered. The name of a file is its number in decimal
//! digits, filled with zeros to four characters, under the directory
//! `screenshots`. A new screenshot gets the number after the highest one that
//! a file already has.

use vstd::prelude::*;

verus! {

/// Whether `c` is one of the ten decimal digits.
pub open spec fn is_digit(c: char) -> bool {
    '0' <= c <= '9'
}

/// The value of the decimal digit `c`.
pub open spec fn digit_value(c: char) -> int {
    c as int - '0' as int
}

/// Whether `s` holds decimal digits only.
pub open spec fn all_digits(s: Seq<char>) -> bool {
    forall|i: int| 0 <= i < s.len() ==> is_digit(#[trigger] s[i])
}

/// The number that the decimal digits `s` denote.
pub open spec fn digits_value(s: Seq<char>) -> int
    decreases s.len(),
{
    if s.len() == 0 {
        0
    } else {
        10 * digits_value(s.drop_last()) + digit_value(s.last())
    }
}

/// The number that the name `s` denotes: decimal digits, at least one, after
/// an optional sign, with a value that an `i32` holds. Anything else denotes
/// no number.
pub open spec fn parsed_index(s: Seq<char>) -> Option<i32> {
    let signed = s.len() > 0 && (s[0] == '-' || s[0] == '+');
    let digits = if signed {
        s.skip(1)
    } else {
        s
    };
    let value = if signed && s[0] == '-' {
        -digits_value(digits)
    } else {
        digits_value(digits)
    };
    if digits.len() > 0 && all_digits(digits) && i32::MIN <= value <= i32::MAX {
        Some(value as i32)
    } else {
        None
    }
}

/// The digits of a number denote at least what any of their prefixes does.
proof fn lemma_prefix_value(s: Seq<char>, k: int)
    requires
        all_digits(s),
        0 <= k <= s.len(),
    ensures
        0 <= digits_value(s.take(k)) <= digits_value(s),
    decreases s.len() - k,
{
    if k == s.len() {
        assert(s.take(k) == s);
        lemma_value_not_negative(s);
    } else {
        lemma_prefix_value(s, k + 1);
        assert(s.take(k + 1).drop_last() == s.take(k));
        assert(is_digit(s.take(k + 1).last()));
        lemma_value_not_negative(s.take(k));
    }
}

/// Decimal digits denote no negative number.
proof fn lemma_value_not_negative(s: Seq<char>)
    requires
        all_digits(s),
    ensures
        0 <= digits_value(s),
    decreases s.len(),
{
    if s.len() > 0 {
        lemma_value_not_negative(s.drop_last());
        assert(is_digit(s.last()));
    }
}

/// The value of `c` if it is a decimal digit.
fn digit_of(c: char) -> (d: Option<i64>)
    ensures
        d is Some == is_digit(c),
        d matches Some(v) ==> v == digit_value(c),
{
    if c == '0' {
        Some(0)
    } else if c == '1' {
        Some(1)
    } else if c == '2' {
        Some(2)
    } else if c == '3' {
        Some(3)
    } else if c == '4' {
        Some(4)
    } else if c == '5' {
        Some(5)
    } else if c == '6' {
        Some(6)
    } else if c == '7' {
        Some(7)
    } else if c == '8' {
        Some(8)
    } else if c == '9' {
        Some(9)
    } else {
        None
    }
}

/// Reads the number of a screenshot from the name of its file, without the
/// extension.
pub fn parse_index(stem: &str) -> (r: Option<i32>)
    ensures
        r == parsed_index(stem@),
{
    let n = stem.unicode_len();
    if n == 0 {
        return None;
    }
    let first = stem.get_char(0);
    let negative = first == '-';
    let start: usize = if first == '-' || first == '+' {
        1
    } else {
        0
    };
    let ghost digits = stem@.skip(start as int);
    proof {
        assert(stem@.skip(0) =~= stem@);
        assert(digits.len() == n - start);
    }
    if start == n {
        return None;
    }
    let mut acc: i64 = 0;
    let mut i: usize = start;
    while i < n
        invariant
            start <= i <= n,
            n == stem@.len(),
            first == stem@[0],
            negative == (first == '-'),
            start == if first == '-' || first == '+' {
                1usize
            } else {
                0usize
            },
            digits == stem@.skip(start as int),
            digits.len() == n - start,
            stem@.skip(0) == stem@,
            all_digits(digits.take(i - start)),
            acc == digits_value(digits.take(i - start)),
            0 <= acc <= 2147483648,
        decreases n - i,
    {
        let c = stem.get_char(i);
        let ghost prefix = digits.take(i - start);
        let ghost longer = digits.take(i + 1 - start);
        proof {
            assert(longer.drop_last() == prefix);
            assert(longer.last() == c);
        }
        match digit_of(c) {
            None => {
                assert(!is_digit(digits[i - start]));
                return None;
            },
            Some(d) => {
                let next: i64 = acc * 10 + d;
                assert(next == digits_value(longer));
                if next > 2147483648 {
                    proof {
                        if all_digits(digits) {
                            lemma_prefix_value(digits, i + 1 - start);
                        }
                    }
                    return None;
                }
                acc = next;
            },
        }
        i += 1;
    }
    assert(digits.take(n - start) =~= digits);
    if negative {
        Some((-acc) as i32)
    } else if acc <= 2147483647 {
        Some(acc as i32)
    } else {
        None
    }
}

/// The numbers that the names denote, in the order of the names. A name that
/// denotes no number is passed over.
pub open spec fn parsed_indices(stems: Seq<String>) -> Seq<i32>
    decreases stems.len(),
{
    if stems.len() == 0 {
        Seq::empty()
    } else {
        let rest = parsed_indices(stems.drop_last());
        match parsed_index(stems.last()@) {
            Some(n) => rest.push(n),
            None => rest,
        }
    }
}

/// Reads the numbers of the screenshots from the names of their files,
/// without the extensions. A name that denotes no number is passed over.
pub fn parse_indices(stems: &Vec<String>) -> (taken: Vec<i32>)
    ensures
        taken@ == parsed_indices(stems@),
{
    let mut taken: Vec<i32> = Vec::new();
    let mut i: usize = 0;
    while i < stems.len()
        invariant
            i <= stems.len(),
            taken@ == parsed_indices(stems@.take(i as int)),
        decreases stems.len() - i,
    {
        proof {
            assert(stems@.take(i + 1).drop_last() == stems@.take(i as int));
        }
        if let Some(n) = parse_index(stems[i].as_str()) {
            taken.push(n);
        }
        i += 1;
    }
    proof {
        assert(stems@.take(i as int) == stems@);
    }
    taken
}

/// The highest of the numbers, and zero if none is above it.
pub open spec fn highest(indices: Seq<i32>) -> int
    decreases indices.len(),
{
    if indices.len() == 0 {
        0
    } else {
        let rest = highest(indices.drop_last());
        if indices.last() > rest {
            indices.last() as int
        } else {
            rest
        }
    }
}

/// The number for a new screenshot, given the numbers that are taken: one
/// more than the highest of them, and at least one. There is none if the
/// highest `i32` is taken.
pub fn next_index(taken: &Vec<i32>) -> (r: Option<i32>)
    ensures
        r == if highest(taken@) < i32::MAX {
            Some((highest(taken@) + 1) as i32)
        } else {
            None
        },
        r matches Some(n) ==> n >= 1 && forall|i: int| 0 <= i < taken.len() ==> taken[i] < n,
{
    let mut top: i32 = 0;
    let mut i: usize = 0;
    while i < taken.len()
        invariant
            i <= taken.len(),
            top == highest(taken@.take(i as int)),
            top >= 0,
            forall|j: int| 0 <= j < i ==> taken[j] <= top,
        decreases taken.len() - i,
    {
        proof {
            assert(taken@.take(i + 1).drop_last() == taken@.take(i as int));
        }
        if taken[i] > top {
            top = taken[i];
        }
        i += 1;
    }
    proof {
        assert(taken@.take(i as int) == taken@);
    }
    if top < i32::MAX {
        Some(top + 1)
    } else {
        None
    }
}

/// The decimal digit of value `d`.
pub open spec fn digit_char(d: int) -> char {
    (d + '0' as int) as char
}

/// The decimal digits of `n`, without leading zeros.
pub open spec fn decimal(n: nat) -> Seq<char>
    decreases n,
{
    if n < 10 {
        seq![digit_char(n as int)]
    } else {
        decimal(n / 10).push(digit_char((n % 10) as int))
    }
}

/// `count` zeros.
pub open spec fn zeros(count: int) -> Seq<char> {
    Seq::new(
        if count > 0 {
            count as nat
        } else {
            0
        },
        |i: int| '0',
    )
}

/// The number `n` in decimal digits, filled with zeros to `width`
/// characters. A negative number begins with its sign, which counts as one
/// of the characters.
pub open spec fn zero_padded(n: int, width: int) -> Seq<char> {
    if n >= 0 {
        let digits = decimal(n as nat);
        zeros(width - digits.len()) + digits
    } else {
        let digits = decimal((-n) as nat);
        seq!['-'] + zeros(width - 1 - digits.len()) + digits
    }
}

/// The extension of a screenshot file: `png` keeps every pixel as it is,
/// `jpg` does not.
pub open spec fn extension_spec(lossless: bool) -> Seq<char> {
    if lossless {
        seq!['p', 'n', 'g']
    } else {
        seq!['j', 'p', 'g']
    }
}

/// The name of the file of screenshot number `index`.
pub open spec fn file_name_spec(index: int, lossless: bool) -> Seq<char> {
    "screenshots/"@ + zero_padded(index, 4) + seq!['.'] + extension_spec(lossless)
}

/// The extension of a screenshot file.
pub fn extension(lossless: bool) -> (ext: &'static str)
    ensures
        ext@ == extension_spec(lossless),
{
    proof {
        reveal_strlit("png");
        reveal_strlit("jpg");
        assert("png"@ =~= seq!['p', 'n', 'g']);
        assert("jpg"@ =~= seq!['j', 'p', 'g']);
    }
    if lossless {
        "png"
    } else {
        "jpg"
    }
}

/// The decimal digit of value `d`, as a string.
fn digit_str(d: u32) -> (s: &'static str)
    requires
        d < 10,
    ensures
        s@ == seq![digit_char(d as int)],
{
    proof {
        reveal_strlit("0");
        reveal_strlit("1");
        reveal_strlit("2");
        reveal_strlit("3");
        reveal_strlit("4");
        reveal_strlit("5");
        reveal_strlit("6");
        reveal_strlit("7");
        reveal_strlit("8");
        reveal_strlit("9");
        assert("0"@ =~= seq!['0']);
        assert("1"@ =~= seq!['1']);
        assert("2"@ =~= seq!['2']);
        assert("3"@ =~= seq!['3']);
        assert("4"@ =~= seq!['4']);
        assert("5"@ =~= seq!['5']);
        assert("6"@ =~= seq!['6']);
        assert("7"@ =~= seq!['7']);
        assert("8"@ =~= seq!['8']);
        assert("9"@ =~= seq!['9']);
    }
    if d == 0 {
        "0"
    } else if d == 1 {
        "1"
    } else if d == 2 {
        "2"
    } else if d == 3 {
        "3"
    } else if d == 4 {
        "4"
    } else if d == 5 {
        "5"
    } else if d == 6 {
        "6"
    } else if d == 7 {
        "7"
    } else if d == 8 {
        "8"
    } else {
        "9"
    }
}

/// Appends the decimal digits of `n` to `out`.
fn push_decimal(out: &mut String, n: u32)
    ensures
        final(out)@ == old(out)@ + decimal(n as nat),
    decreases n,
{
    if n < 10 {
        out.append(digit_str(n));
    } else {
        push_decimal(out, n / 10);
        out.append(digit_str(n % 10));
        proof {
            assert(final(out)@ =~= old(out)@ + decimal(n as nat));
        }
    }
}

/// A number below ten has one digit, one below a hundred two, one below a
/// thousand three, and every other number has four or more.
proof fn lemma_decimal_len(n: nat)
    ensures
        n < 10 ==> decimal(n).len() == 1,
        10 <= n < 100 ==> decimal(n).len() == 2,
        100 <= n < 1000 ==> decimal(n).len() == 3,
        1000 <= n ==> decimal(n).len() >= 4,
    decreases n,
{
    if n >= 10 {
        lemma_decimal_len(n / 10);
    }
}

/// Appends the zeros that fill a number of `magnitude` to `width` digits.
fn push_padding(out: &mut String, magnitude: u32, width: usize)
    requires
        width <= 4,
    ensures
        final(out)@ == old(out)@ + zeros(width - decimal(magnitude as nat).len()),
{
    proof {
        lemma_decimal_len(magnitude as nat);
    }
    let len: usize = if magnitude < 10 {
        1
    } else if magnitude < 100 {
        2
    } else if magnitude < 1000 {
        3
    } else {
        4
    };
    let mut i: usize = len;
    proof {
        reveal_strlit("0");
        assert(old(out)@ + zeros(0) =~= old(out)@);
    }
    while i < width
        invariant
            len <= i,
            i <= width || i == len,
            out@ == old(out)@ + zeros(i - len),
            "0"@ == seq!['0'],
        decreases width - i,
    {
        out.append("0");
        i += 1;
        proof {
            assert(out@ =~= old(out)@ + zeros(i - len));
        }
    }
    proof {
        assert(zeros(i - len) =~= zeros(width - decimal(magnitude as nat).len()));
    }
}

/// The name of the file of screenshot number `index`: the directory
/// `screenshots`, the number filled with zeros to four characters, and the
/// extension, `png` if `lossless` and `jpg` otherwise.
pub fn file_name(index: i32, lossless: bool) -> (name: String)
    ensures
        name@ == file_name_spec(index as int, lossless),
{
    let mut name = String::from_str("screenshots/");
    let ghost head = name@;
    if index >= 0 {
        let magnitude = index as u32;
        push_padding(&mut name, magnitude, 4);
        push_decimal(&mut name, magnitude);
        proof {
            assert(name@ =~= head + zero_padded(index as int, 4));
        }
    } else {
        let magnitude = (-(index as i64)) as u32;
        proof {
            reveal_strlit("-");
            assert("-"@ =~= seq!['-']);
        }
        name.append("-");
        push_padding(&mut name, magnitude, 3);
        push_decimal(&mut name, magnitude);
        proof {
            assert(name@ =~= head + zero_padded(index as int, 4));
        }
    }
    proof {
        reveal_strlit(".");
        assert("."@ =~= seq!['.']);
    }
    name.append(".");
    name.append(extension(lossless));
    proof {
        assert(name@ =~= file_name_spec(index as int, lossless));
    }
    name
}

/// The name for a new screenshot, given the names of the files that are
/// there, without their extensions: that of the number after the highest one
/// that a name denotes. There is none if the highest `i32` is taken.
pub fn next_file_name(stems: &Vec<String>, lossless: bool) -> (name: Option<String>)
    ensures
        highest(parsed_indices(stems@)) == i32::MAX ==> name is None,
        highest(parsed_indices(stems@)) < i32::MAX ==> name is Some && name->0@ == file_name_spec(
            highest(parsed_indices(stems@)) + 1,
            lossless,
        ),
{
    let taken = parse_indices(stems);
    match next_index(&taken) {
        Some(index) => Some(file_name(index, lossless)),
        None => None,
    }
}

} // verus!
