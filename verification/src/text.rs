//! Text: decimal numerals, and the characters that count as white space.

use vstd::prelude::*;

verus! {

/// The character of a decimal digit.
pub open spec fn digit_char(d: nat) -> char {
    (48 + d) as char
}

/// The decimal numeral of `n`, without leading zeros.
pub open spec fn decimal(n: nat) -> Seq<char>
    decreases n,
{
    if n < 10 {
        seq![digit_char(n)]
    } else {
        decimal(n / 10).push(digit_char(n % 10))
    }
}

/// The decimal numeral of `n`, as `u64`'s `Display` writes it.
#[verifier::external_body]
pub fn decimal_text(n: u64) -> (r: String)
    ensures
        r@ == decimal(n as nat),
{
    n.to_string()
}

/// Whether a character has the Unicode `White_Space` property, which is
/// what `char::is_whitespace` tests.
pub open spec fn is_white_space(c: char) -> bool {
    let u: u32 = c as u32;
    ||| 0x09 <= u <= 0x0D
    ||| u == 0x20
    ||| u == 0x85
    ||| u == 0xA0
    ||| u == 0x1680
    ||| 0x2000 <= u <= 0x200A
    ||| u == 0x2028
    ||| u == 0x2029
    ||| u == 0x202F
    ||| u == 0x205F
    ||| u == 0x3000
}

/// Whether a character has the Unicode `White_Space` property.
pub fn is_whitespace(c: char) -> (b: bool)
    ensures
        b == is_white_space(c),
{
    let u: u32 = c as u32;
    (0x09 <= u && u <= 0x0D) || u == 0x20 || u == 0x85 || u == 0xA0 || u == 0x1680 || (0x2000
        <= u && u <= 0x200A) || u == 0x2028 || u == 0x2029 || u == 0x202F || u == 0x205F || u
        == 0x3000
}

/// The characters of `s` that are not white space, in order.
pub open spec fn without_white_space(s: Seq<char>) -> Seq<char> {
    s.filter(|c: char| !is_white_space(c))
}

/// No white space is left in a sanitized token.
pub proof fn lemma_no_white_space_left(s: Seq<char>)
    ensures
        forall|i: int|
            0 <= i < without_white_space(s).len() ==> !is_white_space(
                #[trigger] without_white_space(s)[i],
            ),
{
    broadcast use vstd::seq_lib::group_filter_ensures;
}

/// A token without white space is kept as it is.
pub proof fn lemma_clean_token_kept(s: Seq<char>)
    requires
        forall|i: int| 0 <= i < s.len() ==> !is_white_space(#[trigger] s[i]),
    ensures
        without_white_space(s) == s,
    decreases s.len(),
{
    reveal(Seq::filter);
    if s.len() > 0 {
        lemma_clean_token_kept(s.drop_last());
        assert(s.drop_last().push(s.last()) =~= s);
    }
}

/// Cleaning a single character keeps it unless it is white space.
pub proof fn lemma_clean_char(c: char)
    ensures
        without_white_space(seq![c]) == if is_white_space(c) {
            Seq::<char>::empty()
        } else {
            seq![c]
        },
{
    reveal(Seq::filter);
    assert(seq![c].drop_last() =~= Seq::<char>::empty());
    assert(Seq::<char>::empty().filter(|c: char| !is_white_space(c)) =~= Seq::<char>::empty());
    assert(seq![c].last() == c);
    assert(Seq::<char>::empty().push(c) =~= seq![c]);
}

/// Cleaning a token piece by piece gives the cleaned pieces, in order: no
/// character is dropped or moved but white space.
pub proof fn lemma_clean_concat(a: Seq<char>, b: Seq<char>)
    ensures
        without_white_space(a + b) == without_white_space(a) + without_white_space(b),
    decreases b.len(),
{
    reveal(Seq::filter);
    if b.len() == 0 {
        assert(a + b =~= a);
        assert(without_white_space(b) =~= Seq::<char>::empty());
        assert(without_white_space(a) + Seq::<char>::empty() =~= without_white_space(a));
    } else {
        lemma_clean_concat(a, b.drop_last());
        assert((a + b).drop_last() =~= a + b.drop_last());
        assert((a + b).last() == b.last());
        if !is_white_space(b.last()) {
            assert(without_white_space(a) + without_white_space(b.drop_last()).push(b.last())
                =~= (without_white_space(a) + without_white_space(b.drop_last())).push(b.last()));
        }
    }
}

/// White space added after a token (such as the line end that a read line
/// keeps) does not change the cleaned token.
pub proof fn lemma_trailing_white_space(s: Seq<char>, w: Seq<char>)
    requires
        forall|i: int| 0 <= i < w.len() ==> is_white_space(#[trigger] w[i]),
    ensures
        without_white_space(s + w) == without_white_space(s),
{
    lemma_clean_concat(s, w);
    lemma_all_white_space_removed(w);
    assert(without_white_space(s) + Seq::<char>::empty() =~= without_white_space(s));
}

/// A run of white space cleans to nothing.
pub proof fn lemma_all_white_space_removed(w: Seq<char>)
    requires
        forall|i: int| 0 <= i < w.len() ==> is_white_space(#[trigger] w[i]),
    ensures
        without_white_space(w) == Seq::<char>::empty(),
    decreases w.len(),
{
    reveal(Seq::filter);
    if w.len() > 0 {
        lemma_all_white_space_removed(w.drop_last());
        assert(is_white_space(w[w.len() - 1]));
    } else {
        assert(without_white_space(w) =~= Seq::<char>::empty());
    }
}

/// Sanitizing a sanitized token changes nothing.
pub proof fn lemma_sanitize_idempotent(s: Seq<char>)
    ensures
        without_white_space(without_white_space(s)) == without_white_space(s),
{
    lemma_no_white_space_left(s);
    lemma_clean_token_kept(without_white_space(s));
}

/// Appends a character to a string.
#[verifier::external_body]
fn push_char(s: &mut String, c: char)
    ensures
        final(s)@ == old(s)@.push(c),
{
    s.push(c)
}

/// A pasted token with every white-space character taken out, wherever it
/// stands.
pub fn sanitize_token(token: &str) -> (r: String)
    ensures
        r@ == without_white_space(token@),
{
    broadcast use vstd::string::group_string_axioms;

    let mut r = String::new();
    for c in it: token.chars()
        invariant
            it.seq() == token@,
            r@ == without_white_space(token@.take(it.index() as int)),
    {
        proof {
            let i: int = it.index() as int;
            assert(token@.take(i + 1).drop_last() =~= token@.take(i));
            reveal_with_fuel(Seq::filter, 1);
        }
        if !is_whitespace(c) {
            push_char(&mut r, c);
        }
    }
    proof {
        assert(token@.take(token@.len() as int) =~= token@);
    }
    r
}

} // verus!
