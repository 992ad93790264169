//! Numbers and lists of numbers as text.

use vstd::prelude::*;

verus! {

/// The decimal digit of `n`.
pub open spec fn digit(n: int) -> char {
    (('0' as u8) + n) as char
}

/// A number that is not negative, in decimal, without leading zeros.
pub open spec fn natural_text(n: int) -> Seq<char>
    decreases n,
{
    if n < 10 {
        seq![digit(n)]
    } else {
        natural_text(n / 10).push(digit(n % 10))
    }
}

/// An integer in decimal.
pub open spec fn integer_text(n: int) -> Seq<char> {
    if n < 0 {
        seq!['-'] + natural_text(-n)
    } else {
        natural_text(n)
    }
}

/// Integers in decimal, with a comma and a blank between them.
pub open spec fn joined_text(numbers: Seq<i64>) -> Seq<char>
    decreases numbers.len(),
{
    if numbers.len() == 0 {
        seq![]
    } else if numbers.len() == 1 {
        integer_text(numbers[0] as int)
    } else {
        joined_text(numbers.drop_last()) + seq![',', ' '] + integer_text(numbers.last() as int)
    }
}

/// A list of integers, in square brackets.
pub open spec fn list_text(numbers: Seq<i64>) -> Seq<char> {
    seq!['['] + joined_text(numbers) + seq![']']
}

fn digit_text(n: u64) -> (text: &'static str)
    requires
        n < 10,
    ensures
        text@ == seq![digit(n as int)],
{
    proof {
        reveal_strlit("0");
        reveal_strlit("1");
        reveal_strlit("2");
        reveal_strlit("3");
        reveal_strlit("4");
        reveal_strlit("5");
        reveal_strlit("6");
        reveal_strlit("7");
        reveal_strlit("8");
        reveal_strlit("9");
    }
    match n {
        0 => "0",
        1 => "1",
        2 => "2",
        3 => "3",
        4 => "4",
        5 => "5",
        6 => "6",
        7 => "7",
        8 => "8",
        _ => "9",
    }
}

/// Appends `n` in decimal.
pub fn push_natural(out: &mut String, n: u64)
    ensures
        final(out)@ == old(out)@ + natural_text(n as int),
    decreases n,
{
    if n >= 10 {
        push_natural(out, n / 10);
    }
    out.append(digit_text(n % 10));
}

/// Appends `n` in decimal.
pub fn push_integer(out: &mut String, n: i64)
    ensures
        final(out)@ == old(out)@ + integer_text(n as int),
{
    if n < 0 {
        proof {
            reveal_strlit("-");
        }
        out.append("-");
        let magnitude: u64 = (-(n as i128)) as u64;
        push_natural(out, magnitude);
    } else {
        push_natural(out, n as u64);
    }
    assert(out@ =~= old(out)@ + integer_text(n as int));
}

/// Appends the list of `numbers`.
pub fn push_list(out: &mut String, numbers: &[i64])
    ensures
        final(out)@ == old(out)@ + list_text(numbers@),
{
    proof {
        reveal_strlit("[");
        reveal_strlit("]");
        reveal_strlit(", ");
    }
    out.append("[");
    let mut i: usize = 0;
    let ghost start = old(out)@ + seq!['['];
    assert(out@ =~= start + joined_text(numbers@.take(0)));
    while i < numbers.len()
        invariant
            i <= numbers@.len(),
            out@ == start + joined_text(numbers@.take(i as int)),
        decreases numbers@.len() - i,
    {
        proof {
            reveal_strlit(", ");
            assert(numbers@.take(i + 1).drop_last() =~= numbers@.take(i as int));
        }
        if i > 0 {
            out.append(", ");
        } else {
            assert(joined_text(numbers@.take(0)) =~= Seq::<char>::empty());
        }
        push_integer(out, numbers[i]);
        i = i + 1;
        assert(out@ =~= start + joined_text(numbers@.take(i as int)));
    }
    assert(numbers@.take(i as int) =~= numbers@);
    out.append("]");
    assert(out@ =~= old(out)@ + list_text(numbers@));
}

/// The number that decimal digits stand for.
pub open spec fn digits_value(text: Seq<char>) -> int
    decreases text.len(),
{
    if text.len() == 0 {
        0
    } else {
        10 * digits_value(text.drop_last()) + (text.last() as int - '0' as int)
    }
}

/// A number reads back from its text, which holds digits only, at least one,
/// and no leading zero.
pub proof fn law_number_reads_back(n: int)
    requires
        n >= 0,
    ensures
        digits_value(natural_text(n)) == n,
        natural_text(n).len() >= 1,
        forall|i: int|
            0 <= i < natural_text(n).len() ==> '0' as int <= #[trigger] natural_text(n)[i] as int
                <= '9' as int,
        n > 0 ==> natural_text(n)[0] != '0',
        n == 0 ==> natural_text(n).len() == 1,
    decreases n,
{
    let text = natural_text(n);
    if n < 10 {
        assert(text.drop_last() =~= Seq::<char>::empty());
        assert(digits_value(text.drop_last()) == 0);
        assert(text.last() == digit(n));
    } else {
        law_number_reads_back(n / 10);
        assert(text.drop_last() =~= natural_text(n / 10));
        assert(text.last() == digit(n % 10));
        assert(text[0] == natural_text(n / 10)[0]);
        assert forall|i: int| 0 <= i < text.len() implies '0' as int <= #[trigger] text[i] as int
            <= '9' as int by {
            if i < text.len() - 1 {
                assert(text[i] == natural_text(n / 10)[i]);
            }
        }
    }
}

/// An integer reads back from its text: a minus sign stands before the digits
/// exactly where it is negative.
pub proof fn law_integer_reads_back(n: int)
    ensures
        integer_text(n).len() >= 1,
        n < 0 <==> integer_text(n)[0] == '-',
        n >= 0 ==> integer_text(n) == natural_text(n) && digits_value(integer_text(n)) == n,
        n < 0 ==> integer_text(n).skip(1) == natural_text(-n) && digits_value(
            integer_text(n).skip(1),
        ) == -n,
{
    if n < 0 {
        law_number_reads_back(-n);
        assert(integer_text(n).skip(1) =~= natural_text(-n));
    } else {
        law_number_reads_back(n);
        assert('0' as int <= natural_text(n)[0] as int);
    }
}

/// A list opens and closes with a bracket, is empty between them without
/// numbers, and one more number adds its text, after a comma and a blank where
/// numbers stand before it.
pub proof fn law_list_grows_by_its_last(numbers: Seq<i64>, n: i64)
    ensures
        list_text(Seq::<i64>::empty()) == seq!['[', ']'],
        list_text(numbers).len() >= 2,
        list_text(numbers)[0] == '[',
        list_text(numbers).last() == ']',
        list_text(numbers.push(n)) == list_text(numbers).drop_last() + (if numbers.len() == 0 {
            seq![]
        } else {
            seq![',', ' ']
        }) + integer_text(n as int) + seq![']'],
{
    assert(list_text(Seq::<i64>::empty()) =~= seq!['[', ']']);
    assert(numbers.push(n).drop_last() =~= numbers);
    assert(list_text(numbers).drop_last() =~= seq!['['] + joined_text(numbers));
    assert(list_text(numbers.push(n)) =~= list_text(numbers).drop_last() + (if numbers.len()
        == 0 {
        seq![]
    } else {
        seq![',', ' ']
    }) + integer_text(n as int) + seq![']']);
}

} // verus!
