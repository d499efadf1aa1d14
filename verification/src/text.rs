//! Numbers written out in decimal, and text without the white space around it.
use vstd::prelude::*;
use vstd::string::*;

verus! {

/// The character of a decimal digit.
pub open spec fn digit_char(d: int) -> char {
    (d + '0' as int) as char
}

/// `n` in decimal, without leading zeros.
pub open spec fn decimal(n: nat) -> Seq<char>
    decreases n,
{
    if n < 10 {
        seq![digit_char(n as int)]
    } else {
        decimal(n / 10).push(digit_char((n % 10) as int))
    }
}

/// `n` in decimal, with a minus sign where it is negative.
pub open spec fn signed_decimal(n: int) -> Seq<char> {
    if n < 0 {
        seq!['-'] + decimal((-n) as nat)
    } else {
        decimal(n as nat)
    }
}

fn digit_text(d: u64) -> (text: &'static str)
    requires
        d < 10,
    ensures
        text@ == seq![digit_char(d as int)],
{
    proof {
        reveal_strlit("0");
        reveal_strlit("1");
        reveal_strlit("2");
        reveal_strlit("3");
        reveal_strlit("4");
        reveal_strlit("5");
        reveal_strlit("6");
        reveal_strlit("7");
        reveal_strlit("8");
        reveal_strlit("9");
    }
    match d {
        0 => "0",
        1 => "1",
        2 => "2",
        3 => "3",
        4 => "4",
        5 => "5",
        6 => "6",
        7 => "7",
        8 => "8",
        _ => "9",
    }
}

fn natural_text(n: u64) -> (text: String)
    ensures
        text@ == decimal(n as nat),
    decreases n,
{
    if n < 10 {
        digit_text(n).to_owned()
    } else {
        let mut text = natural_text(n / 10);
        text.append(digit_text(n % 10));
        assert(text@ =~= decimal((n / 10) as nat).push(digit_char((n % 10) as int)));
        text
    }
}

/// `n` in decimal, with a minus sign where it is negative.
pub fn decimal_text(n: i64) -> (text: String)
    ensures
        text@ == signed_decimal(n as int),
{
    if n < 0 {
        proof {
            reveal_strlit("-");
        }
        let mut text = "-".to_owned();
        let size: u64 = (-(n + 1)) as u64 + 1;
        text.append(natural_text(size).as_str());
        assert(text@ =~= signed_decimal(n as int));
        text
    } else {
        natural_text(n as u64)
    }
}

/// Whether Unicode gives the character the property White_Space.
pub open spec fn is_white_space(c: char) -> bool {
    let code = c as int;
    ||| 0x9 <= code <= 0xd
    ||| code == 0x20
    ||| code == 0x85
    ||| code == 0xa0
    ||| code == 0x1680
    ||| 0x2000 <= code <= 0x200a
    ||| code == 0x2028
    ||| code == 0x2029
    ||| code == 0x202f
    ||| code == 0x205f
    ||| code == 0x3000
}

/// `s` without the white space at its two ends.
pub open spec fn trimmed(s: Seq<char>) -> Seq<char>
    decreases s.len(),
{
    if s.len() == 0 {
        s
    } else if is_white_space(s.first()) {
        trimmed(s.drop_first())
    } else if is_white_space(s.last()) {
        trimmed(s.drop_last())
    } else {
        s
    }
}

/// `str::trim` of the standard library removes the characters with the Unicode property
/// White_Space from the two ends of a string, and nothing else.
pub assume_specification[ str::trim ](s: &str) -> (result: &str)
    ensures
        result@ == trimmed(s@),
;

/// White space put around a text that neither starts nor ends with it is what `trimmed` takes
/// away.
pub proof fn lemma_trimmed_core(before: Seq<char>, core: Seq<char>, after: Seq<char>)
    requires
        forall|i: int| 0 <= i < before.len() ==> is_white_space(#[trigger] before[i]),
        forall|i: int| 0 <= i < after.len() ==> is_white_space(#[trigger] after[i]),
        core.len() > 0,
        !is_white_space(core.first()),
        !is_white_space(core.last()),
    ensures
        trimmed(before + core + after) == core,
    decreases before.len() + after.len(),
{
    let s = before + core + after;
    if before.len() > 0 {
        assert(s.first() == before[0]);
        assert(s.drop_first() =~= before.drop_first() + core + after);
        lemma_trimmed_core(before.drop_first(), core, after);
    } else if after.len() > 0 {
        assert(s.first() == core.first());
        assert(s.last() == after.last());
        assert(s.drop_last() =~= before + core + after.drop_last());
        lemma_trimmed_core(before, core, after.drop_last());
    } else {
        assert(s =~= core);
    }
}

/// Whether a text is `core` with nothing but white space before and after it.
pub open spec fn is_padded(
    text: Seq<char>,
    before: Seq<char>,
    core: Seq<char>,
    after: Seq<char>,
) -> bool {
    &&& text == before + core + after
    &&& forall|i: int| 0 <= i < before.len() ==> is_white_space(#[trigger] before[i])
    &&& forall|i: int| 0 <= i < after.len() ==> is_white_space(#[trigger] after[i])
}

/// `trimmed` takes away nothing but white space, from the two ends.
pub proof fn lemma_trimmed_parts(s: Seq<char>) -> (parts: (Seq<char>, Seq<char>))
    ensures
        is_padded(s, parts.0, trimmed(s), parts.1),
    decreases s.len(),
{
    let core = trimmed(s);
    if s.len() == 0 {
        assert(s =~= seq![] + core + seq![]);
        (seq![], seq![])
    } else if is_white_space(s.first()) {
        let rest = s.drop_first();
        let (before, after) = lemma_trimmed_parts(rest);
        let longer = seq![s.first()] + before;
        assert(core == trimmed(rest));
        assert(s =~= seq![s.first()] + rest);
        assert(longer + core + after =~= seq![s.first()] + (before + core + after));
        (longer, after)
    } else if is_white_space(s.last()) {
        let rest = s.drop_last();
        let (before, after) = lemma_trimmed_parts(rest);
        let longer = after.push(s.last());
        assert(core == trimmed(rest));
        assert(s =~= rest.push(s.last()));
        assert(before + core + longer =~= (before + core + after).push(s.last()));
        (before, longer)
    } else {
        assert(s =~= seq![] + core + seq![]);
        (seq![], seq![])
    }
}

/// The characters that count as white space, by their code points.
pub proof fn law_white_space_by_code_point(c: char)
    ensures
        is_white_space(c) <==> {
            ||| c == '\t'
            ||| c == '\n'
            ||| c == '\u{B}'
            ||| c == '\u{C}'
            ||| c == '\r'
            ||| c == ' '
            ||| c == '\u{85}'
            ||| c == '\u{A0}'
            ||| c == '\u{1680}'
            ||| c == '\u{2000}'
            ||| c == '\u{2001}'
            ||| c == '\u{2002}'
            ||| c == '\u{2003}'
            ||| c == '\u{2004}'
            ||| c == '\u{2005}'
            ||| c == '\u{2006}'
            ||| c == '\u{2007}'
            ||| c == '\u{2008}'
            ||| c == '\u{2009}'
            ||| c == '\u{200A}'
            ||| c == '\u{2028}'
            ||| c == '\u{2029}'
            ||| c == '\u{202F}'
            ||| c == '\u{205F}'
            ||| c == '\u{3000}'
        },
{
}

/// What is left after the white space at the two ends is gone neither starts nor ends with it, and
/// what was taken away on each side is white space alone.
pub proof fn law_trimmed_takes_all_white_space(s: Seq<char>)
    ensures
        trimmed(s).len() > 0 ==> !is_white_space(trimmed(s).first()) && !is_white_space(
            trimmed(s).last(),
        ),
        exists|before: Seq<char>, after: Seq<char>| is_padded(s, before, trimmed(s), after),
    decreases s.len(),
{
    if s.len() > 0 && is_white_space(s.first()) {
        law_trimmed_takes_all_white_space(s.drop_first());
    } else if s.len() > 0 && is_white_space(s.last()) {
        law_trimmed_takes_all_white_space(s.drop_last());
    }
    let (before, after) = lemma_trimmed_parts(s);
    assert(is_padded(s, before, trimmed(s), after));
}

/// The number that a sequence of decimal digits stands for.
pub open spec fn number(digits: Seq<char>) -> int
    decreases digits.len(),
{
    if digits.len() == 0 {
        0
    } else {
        10 * number(digits.drop_last()) + (digits.last() as int - '0' as int)
    }
}

/// Whether a text is made of the characters from `0` to `9` alone.
pub open spec fn all_digits(text: Seq<char>) -> bool {
    forall|i: int| 0 <= i < text.len() ==> '0' <= #[trigger] text[i] <= '9'
}

/// Whether a text is the usual way to write a natural number in decimal: digits that stand for it,
/// at least one, and no zero before them.
pub open spec fn spells(text: Seq<char>, n: int) -> bool {
    &&& text.len() > 0
    &&& all_digits(text)
    &&& number(text) == n
    &&& text.len() > 1 ==> text[0] != '0'
}

proof fn lemma_decimal_spells(n: nat)
    ensures
        spells(decimal(n), n as int),
        n > 0 ==> decimal(n)[0] != '0',
    decreases n,
{
    let text = decimal(n);
    if n < 10 {
        assert(text.drop_last() =~= seq![]);
        assert(number(text.drop_last()) == 0);
    } else {
        lemma_decimal_spells(n / 10);
        assert(text.drop_last() =~= decimal(n / 10));
        assert(text.last() as int - '0' as int == n % 10);
    }
}

proof fn lemma_number_is_positive(text: Seq<char>)
    requires
        all_digits(text),
        text.len() > 0,
        text[0] != '0',
    ensures
        number(text) > 0,
    decreases text.len(),
{
    let rest = text.drop_last();
    assert('0' <= text.last() <= '9');
    if rest.len() > 0 {
        assert forall|i: int| 0 <= i < rest.len() implies '0' <= #[trigger] rest[i] <= '9' by {
            assert(rest[i] == text[i]);
        }
        lemma_number_is_positive(rest);
    } else {
        assert(number(rest) == 0);
        assert('0' <= text[0]);
    }
}

proof fn lemma_spelling_is_unique(one: Seq<char>, other: Seq<char>, n: int)
    requires
        spells(one, n),
        spells(other, n),
    ensures
        one == other,
    decreases one.len(),
{
    let a = one.drop_last();
    let b = other.drop_last();
    assert('0' <= one.last() <= '9');
    assert('0' <= other.last() <= '9');
    assert forall|i: int| 0 <= i < a.len() implies '0' <= #[trigger] a[i] <= '9' by {
        assert(a[i] == one[i]);
    }
    assert forall|i: int| 0 <= i < b.len() implies '0' <= #[trigger] b[i] <= '9' by {
        assert(b[i] == other[i]);
    }
    if a.len() > 0 {
        lemma_number_is_positive(a);
    }
    if b.len() > 0 {
        lemma_number_is_positive(b);
    }
    assert(a.len() == 0 ==> number(a) == 0);
    assert(b.len() == 0 ==> number(b) == 0);
    assert(number(a) == number(b));
    assert(one.last() == other.last());
    if a.len() > 0 {
        assert(b.len() > 0);
        lemma_spelling_is_unique(a, b, number(a));
    }
    assert(a =~= b);
    assert(one =~= a.push(one.last()));
    assert(other =~= b.push(other.last()));
}

/// A number is written with its own digits, and nothing else is: one text, and only one, spells it.
pub proof fn law_decimal_spells_the_number(n: nat, text: Seq<char>)
    ensures
        spells(decimal(n), n as int),
        spells(text, n as int) ==> text == decimal(n),
{
    lemma_decimal_spells(n);
    if spells(text, n as int) {
        lemma_spelling_is_unique(text, decimal(n), n as int);
    }
}

/// A number that is not negative is written with its digits alone, a negative one with a minus sign
/// before the digits of its opposite.
pub proof fn law_signed_decimal_spells_the_number(n: int)
    ensures
        n >= 0 ==> spells(signed_decimal(n), n),
        n < 0 ==> {
            &&& signed_decimal(n).len() > 1
            &&& signed_decimal(n)[0] == '-'
            &&& spells(signed_decimal(n).skip(1), -n)
        },
{
    if n < 0 {
        lemma_decimal_spells((-n) as nat);
        assert(signed_decimal(n).skip(1) =~= decimal((-n) as nat));
    } else {
        lemma_decimal_spells(n as nat);
    }
}

/// Different numbers are written differently.
pub proof fn law_numbers_are_told_apart(one: int, other: int)
    requires
        one != other,
    ensures
        signed_decimal(one) != signed_decimal(other),
{
    law_signed_decimal_spells_the_number(one);
    law_signed_decimal_spells_the_number(other);
    if one >= 0 {
        assert('0' <= signed_decimal(one)[0]);
    }
    if other >= 0 {
        assert('0' <= signed_decimal(other)[0]);
    }
}

} // verus!
