//! Numbers and quoted strings as text.

use vstd::prelude::*;
use vstd::arithmetic::div_mod::lemma_div_denominator;
use vstd::arithmetic::power::{lemma_pow0, lemma_pow1, lemma_pow_positive, pow};
use vstd::string::{StrSliceExecFns, StringExecFns};

verus! {

/// The digit of value `d`, in lower case.
pub open spec fn digit(d: nat) -> char {
    if d < 10 {
        (48 + d) as char
    } else {
        (87 + d) as char
    }
}

/// `n` in decimal, without leading zeros.
pub open spec fn decimal(n: nat) -> Seq<char>
    decreases n,
{
    if n < 10 {
        seq![digit(n)]
    } else {
        decimal(n / 10).push(digit(n % 10))
    }
}

/// The `width` lowest hexadecimal digits of `n`, the highest first.
pub open spec fn hex_padded(n: nat, width: nat) -> Seq<char>
    decreases width,
{
    if width == 0 {
        Seq::empty()
    } else {
        hex_padded(n / 16, (width - 1) as nat).push(digit(n % 16))
    }
}

/// Appends the digit of value `d`.
fn push_digit(s: &mut String, d: usize)
    requires
        d < 16,
    ensures
        final(s)@ == old(s)@.push(digit(d as nat)),
{
    let all = "0123456789abcdef";
    proof {
        reveal_strlit("0123456789abcdef");
        assert(all.is_ascii());
        assert(all@[d as int] == digit(d as nat));
    }
    let one = all.substring_ascii(d, d + 1);
    s.append(one);
    assert(s@ =~= old(s)@.push(digit(d as nat)));
}

/// Appends `n` in decimal.
pub(crate) fn push_decimal(s: &mut String, n: u64)
    ensures
        final(s)@ == old(s)@ + decimal(n as nat),
    decreases n,
{
    if n >= 10 {
        push_decimal(s, n / 10);
    }
    push_digit(s, (n % 10) as usize);
    assert(s@ =~= old(s)@ + decimal(n as nat));
}

/// Appends the `width` lowest hexadecimal digits of `n`.
pub(crate) fn push_hex(s: &mut String, n: u16, width: usize)
    ensures
        final(s)@ == old(s)@ + hex_padded(n as nat, width as nat),
    decreases width,
{
    if width > 0 {
        push_hex(s, n / 16, width - 1);
        push_digit(s, (n % 16) as usize);
    }
    assert(s@ =~= old(s)@ + hex_padded(n as nat, width as nat));
}

/// What `{:?}` prints for a string: the string between double quotes, with escapes.
pub uninterp spec fn debug_quoted(s: Seq<char>) -> Seq<char>;

/// Formats `s` with `{:?}`, that is, with the `Debug` of `str`.
///
/// The result is taken to be a function of the characters of `s`; which characters are escaped,
/// and how, is not said.
#[verifier::external_body]
pub(crate) fn quoted(s: &str) -> (r: String)
    ensures
        r@ == debug_quoted(s@),
{
    format!("{:?}", s)
}

/// The items, separated by commas.
pub open spec fn comma_separated(items: Seq<Seq<char>>) -> Seq<char>
    decreases items.len(),
{
    if items.len() == 0 {
        Seq::empty()
    } else if items.len() == 1 {
        items[0]
    } else {
        comma_separated(items.drop_last()) + ", "@ + items.last()
    }
}

/// The items between brackets.
pub open spec fn bracketed(items: Seq<Seq<char>>) -> Seq<char> {
    "["@ + comma_separated(items) + "]"@
}

/// What `{:?}` prints for a list of strings.
pub open spec fn debug_list(items: Seq<Seq<char>>) -> Seq<char> {
    bracketed(items.map_values(|s: Seq<char>| debug_quoted(s)))
}

/// The texts of a list of strings.
pub open spec fn texts(items: Seq<String>) -> Seq<Seq<char>> {
    items.map_values(|s: String| s@)
}

/// Puts the items between brackets, separated by commas.
pub fn list_text(items: &[String]) -> (list: String)
    ensures
        list@ == bracketed(texts(items@)),
        list@ == "["@ + comma_separated(Seq::new(items@.len(), |i: int| items@[i]@)) + "]"@,
{
    let ghost all = texts(items@);
    let mut list = "[".to_owned();
    let mut i: usize = 0;
    while i < items.len()
        invariant
            i <= items@.len(),
            all == texts(items@),
            list@ == "["@ + comma_separated(all.take(i as int)),
        decreases items@.len() - i,
    {
        assert(all.take(i + 1).drop_last() =~= all.take(i as int));
        assert(all.take(i + 1).last() == items@[i as int]@);
        if i > 0 {
            list.append(", ");
        } else {
            assert(all.take(0).len() == 0);
            assert(all.take(1)[0] == items@[0]@);
        }
        list.append(items[i].as_str());
        assert(list@ =~= "["@ + comma_separated(all.take(i + 1)));
        i = i + 1;
    }
    assert(all.take(i as int) =~= all);
    list.append("]");
    assert(all =~= Seq::new(items@.len(), |i: int| items@[i]@));
    list
}

/// The list of strings as `{:?}` prints it.
pub(crate) fn quoted_list(items: &[String]) -> (list: String)
    ensures
        list@ == debug_list(texts(items@)),
        list@ == "["@ + comma_separated(
            Seq::new(items@.len(), |i: int| debug_quoted(items@[i]@)),
        ) + "]"@,
{
    let mut all: Vec<String> = Vec::new();
    let mut i: usize = 0;
    while i < items.len()
        invariant
            i <= items@.len(),
            all@.len() == i,
            forall|j: int| 0 <= j < i ==> #[trigger] all@[j]@ == debug_quoted(items@[j]@),
        decreases items@.len() - i,
    {
        all.push(quoted(items[i].as_str()));
        i = i + 1;
    }
    assert(texts(all@) =~= texts(items@).map_values(|s: Seq<char>| debug_quoted(s)));
    assert(Seq::new(all@.len(), |i: int| all@[i]@) =~= Seq::new(
        items@.len(),
        |i: int| debug_quoted(items@[i]@),
    ));
    list_text(all.as_slice())
}

/// The number that a sequence of decimal digits writes.
spec fn decimal_value(s: Seq<char>) -> nat
    decreases s.len(),
{
    if s.len() == 0 {
        0
    } else {
        decimal_value(s.drop_last()) * 10 + (s.last() as nat - 48) as nat
    }
}

proof fn lemma_decimal_value(n: nat)
    ensures
        decimal_value(decimal(n)) == n,
    decreases n,
{
    if n < 10 {
        assert(seq![digit(n)].drop_last() =~= Seq::empty());
        reveal_with_fuel(decimal_value, 2);
    } else {
        lemma_decimal_value(n / 10);
        assert(decimal(n / 10).push(digit(n % 10)).drop_last() =~= decimal(n / 10));
    }
}

/// Two numbers with the same decimal digits are equal.
pub proof fn law_decimal_is_injective(a: nat, b: nat)
    requires
        decimal(a) == decimal(b),
    ensures
        a == b,
{
    lemma_decimal_value(a);
    lemma_decimal_value(b);
}

/// A digit of value below ten is a decimal digit, one from ten on a lower case letter from `a`.
pub proof fn law_digit_characters(d: nat)
    requires
        d < 16,
    ensures
        d < 10 ==> digit(d) as int == 48 + d,
        d >= 10 ==> digit(d) as int == 97 + (d - 10),
{
}

/// The place value `e + 1` of `n` is the place value `e` of `n` without its lowest digit.
pub(crate) proof fn lemma_place(n: int, base: int, e: nat)
    requires
        0 <= n,
        base > 1,
    ensures
        pow(base, e) > 0,
        pow(base, e + 1) == base * pow(base, e),
        n / pow(base, e + 1) == (n / base) / pow(base, e),
{
    lemma_pow_positive(base, e);
    reveal(pow);
    lemma_div_denominator(n, base, pow(base, e));
}

/// The decimal digits of a number: at each place stands the digit of that power of ten, and there
/// are as many places as the number needs, so that no zero leads but that of zero itself.
pub proof fn law_decimal_places(n: nat)
    ensures
        ({
            let s = decimal(n);
            &&& s.len() >= 1
            &&& n < pow(10, s.len())
            &&& s.len() > 1 ==> pow(10, (s.len() - 1) as nat) <= n
            &&& forall|i: int|
                0 <= i < s.len() ==> (#[trigger] s[i]) as int == 48 + n as int / pow(
                    10,
                    (s.len() - 1 - i) as nat,
                ) % 10
        }),
    decreases n,
{
    lemma_pow0(10);
    lemma_pow1(10);
    if n >= 10 {
        let m = n / 10;
        let (s, t) = (decimal(n), decimal(m));
        law_decimal_places(m);
        assert(s.len() == t.len() + 1);
        lemma_place(n as int, 10, t.len());
        lemma_place(n as int, 10, (t.len() - 1) as nat);
        assert forall|i: int| 0 <= i < s.len() implies (#[trigger] s[i]) as int == 48 + n as int
            / pow(10, (s.len() - 1 - i) as nat) % 10 by {
            if i < t.len() {
                assert(s[i] == t[i]);
                lemma_place(n as int, 10, (t.len() - 1 - i) as nat);
                assert((t.len() - 1 - i) as nat + 1 == (s.len() - 1 - i) as nat);
            }
        }
    }
}

/// The padded hexadecimal digits of a number: as many as asked for, and at each place the digit
/// of that power of sixteen.
pub proof fn law_hex_places(n: nat, width: nat)
    ensures
        ({
            let s = hex_padded(n, width);
            &&& s.len() == width
            &&& forall|i: int|
                0 <= i < width ==> {
                    let d = n as int / pow(16, (width - 1 - i) as nat) % 16;
                    (#[trigger] s[i]) as int == (if d < 10 {
                        48 + d
                    } else {
                        87 + d
                    })
                }
        }),
    decreases width,
{
    lemma_pow0(16);
    if width > 0 {
        let (s, t) = (hex_padded(n, width), hex_padded(n / 16, (width - 1) as nat));
        law_hex_places(n / 16, (width - 1) as nat);
        assert forall|i: int| 0 <= i < width implies ({
            let d = n as int / pow(16, (width - 1 - i) as nat) % 16;
            (#[trigger] s[i]) as int == (if d < 10 {
                48 + d
            } else {
                87 + d
            })
        }) by {
            if i < width - 1 {
                assert(s[i] == t[i]);
                lemma_place(n as int, 16, (width - 2 - i) as nat);
                assert((width - 2 - i) as nat + 1 == (width - 1 - i) as nat);
            }
        }
    }
}

/// Nothing separates nothing, one item stands alone, and two lists that are not empty are
/// separated by one comma and one space.
pub proof fn law_commas_separate(a: Seq<Seq<char>>, b: Seq<Seq<char>>, item: Seq<char>)
    ensures
        comma_separated(Seq::<Seq<char>>::empty()) == Seq::<char>::empty(),
        comma_separated(seq![item]) == item,
        a.len() > 0 && b.len() > 0 ==> comma_separated(a + b) == comma_separated(a) + seq![',', ' ']
            + comma_separated(b),
    decreases b.len(),
{
    if a.len() > 0 && b.len() > 0 {
        reveal_strlit(", ");
        assert(", "@ =~= seq![',', ' ']);
        assert((a + b).last() == b.last());
        if b.len() == 1 {
            assert((a + b).drop_last() =~= a);
            assert(comma_separated(b) == b[0]);
            assert(comma_separated(a + b) =~= comma_separated(a) + seq![',', ' '] + b[0]);
        } else {
            assert((a + b).drop_last() =~= a + b.drop_last());
            law_commas_separate(a, b.drop_last(), item);
            assert(comma_separated(a + b) =~= comma_separated(a) + seq![',', ' ']
                + comma_separated(b));
        }
    }
}

/// The texts of a list are those of its items, one by one.
pub proof fn law_texts_are_those_of_the_items(items: Seq<String>, i: int)
    ensures
        texts(items).len() == items.len(),
        0 <= i < items.len() ==> texts(items)[i] == items[i]@,
{
}

} // verus!
