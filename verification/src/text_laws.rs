//! What texts mean: numbers read back, white space, and encoded bytes.

use crate::text;
use vstd::prelude::*;

verus! {

/// The number that decimal digits stand for.
pub open spec fn number_read(s: Seq<char>) -> int
    decreases s.len(),
{
    if s.len() == 0 {
        0
    } else {
        10 * number_read(s.drop_last()) + (s.last() as int - '0' as int)
    }
}

/// A number written in decimal reads back as that number, is made of digits alone, and starts with
/// a zero only if it is zero.
pub proof fn law_decimal_reads_back(n: nat)
    ensures
        number_read(text::decimal(n)) == n,
        text::decimal(n).len() > 0,
        forall|i: int|
            0 <= i < text::decimal(n).len() ==> '0' <= #[trigger] text::decimal(n)[i] <= '9',
        n == 0 ==> text::decimal(n) == seq!['0'],
        n > 0 ==> text::decimal(n)[0] != '0',
    decreases n,
{
    text::lemma_decimal_digits(n);
    if n < 10 {
        assert(text::decimal(n) =~= seq![text::digit(n)]);
        assert(text::decimal(n).drop_last() =~= Seq::empty());
        assert(number_read(Seq::empty()) == 0);
        if n == 0 {
            assert(text::decimal(n) =~= seq!['0']);
        }
    } else {
        law_decimal_reads_back(n / 10);
        assert(text::decimal(n).drop_last() =~= text::decimal(n / 10));
        assert(text::decimal(n)[0] == text::decimal(n / 10)[0]);
    }
}

/// A text is blank exactly if each of its characters is one of Unicode's white space characters.
pub proof fn law_blank_texts_are_white(s: Seq<char>)
    ensures
        text::blank(s) <==> forall|i: int|
            0 <= i < s.len() ==> {
                let n = #[trigger] s[i] as u32;
                ||| 9 <= n <= 13 || n == 32 || n == 0x85 || n == 0xA0 || n == 0x1680
                ||| 0x2000 <= n <= 0x200A || n == 0x2028 || n == 0x2029
                ||| n == 0x202F || n == 0x205F || n == 0x3000
            },
{
    if text::blank(s) {
        assert forall|i: int| 0 <= i < s.len() implies text::is_white(#[trigger] s[i]) by {}
    }
}

/// What a hexadecimal digit counts.
pub open spec fn hex_read(c: char) -> int {
    if '0' <= c <= '9' {
        c as int - '0' as int
    } else if 'A' <= c <= 'F' {
        c as int - 'A' as int + 10
    } else {
        -1
    }
}

/// Letters, digits and the four marks stand for themselves; any other byte becomes a per cent sign
/// and two hexadecimal digits that read back as the byte.
pub proof fn law_one_byte_encoded(b: u8)
    ensures
        ({
            let e = text::percent_encoded(seq![b]);
            let plain = 'a' as int <= b <= 'z' as int || 'A' as int <= b <= 'Z' as int || '0' as int
                <= b <= '9' as int || b == '-' as int || b == '_' as int || b == '.' as int || b
                == '~' as int;
            if plain {
                e.len() == 1 && e[0] as int == b
            } else {
                &&& e.len() == 3
                &&& e[0] == '%'
                &&& 0 <= hex_read(e[1]) < 16
                &&& 0 <= hex_read(e[2]) < 16
                &&& 16 * hex_read(e[1]) + hex_read(e[2]) == b
            }
        }),
{
    assert(seq![b].drop_last() =~= Seq::<u8>::empty());
    assert(text::percent_encoded(Seq::<u8>::empty()) =~= Seq::empty());
    assert(text::percent_encoded(seq![b]) =~= text::encoded_byte(b));
}

/// Bytes are encoded one by one, in order.
pub proof fn law_bytes_are_encoded_one_by_one(a: Seq<u8>, b: Seq<u8>)
    ensures
        text::percent_encoded(a + b) == text::percent_encoded(a) + text::percent_encoded(b),
        text::percent_encoded(Seq::<u8>::empty()) == Seq::<char>::empty(),
    decreases b.len(),
{
    if b.len() == 0 {
        assert(a + b =~= a);
        assert(text::percent_encoded(a + b) =~= text::percent_encoded(a) + text::percent_encoded(b));
    } else {
        law_bytes_are_encoded_one_by_one(a, b.drop_last());
        assert((a + b).drop_last() =~= a + b.drop_last());
        assert((a + b).last() == b.last());
        assert(text::percent_encoded(a + b) =~= text::percent_encoded(a) + text::percent_encoded(b));
    }
}

/// A list of strings holds the texts of all of them, in order.
pub proof fn law_texts_are_all_there(v: Seq<String>)
    ensures
        text::texts(v).len() == v.len(),
        forall|i: int| 0 <= i < v.len() ==> #[trigger] text::texts(v)[i] == v[i]@,
{
}

/// An optional string holds its text.
pub proof fn law_optional_text(t: String)
    ensures
        text::text_view(Some(t)) == Some(t@),
        text::text_view(None) is None,
{
}

} // verus!
