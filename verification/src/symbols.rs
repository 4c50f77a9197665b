//! The Zhuyin alphabet and the resolver from a symbol to its 1-based index.

use vstd::prelude::*;

verus! {

/// Number of symbols in the alphabet.
pub const ZHUYIN_COUNT: usize = 37;

/// The alphabet in teaching order: the 21 initials, the 3 medials, then the
/// 13 finals. The position of a symbol in this table, counted from one, is
/// its index.
pub const ZHUYIN_ORDER: [char; 37] = [
    'ㄅ', 'ㄆ', 'ㄇ', 'ㄈ', 'ㄉ', 'ㄊ', 'ㄋ', 'ㄌ', 'ㄍ', 'ㄎ', 'ㄏ', 'ㄐ', 'ㄑ', 'ㄒ', 'ㄓ', 'ㄔ',
    'ㄕ', 'ㄖ', 'ㄗ', 'ㄘ', 'ㄙ', 'ㄧ', 'ㄨ', 'ㄩ', 'ㄚ', 'ㄛ', 'ㄜ', 'ㄝ', 'ㄞ', 'ㄟ', 'ㄠ', 'ㄡ',
    'ㄢ', 'ㄣ', 'ㄤ', 'ㄥ', 'ㄦ',
];

/// The alphabet as the sequence of its tokens, each a string of one
/// character, in the order of [`ZHUYIN_ORDER`].
pub open spec fn alphabet() -> Seq<Seq<char>> {
    Seq::new(ZHUYIN_COUNT as nat, |i: int| seq![ZHUYIN_ORDER@[i]])
}

/// Index of `token`: one more than the position of its first occurrence in
/// the alphabet, or `None` where the alphabet does not hold it. The match is
/// exact: nothing is trimmed, folded or normalised.
pub open spec fn resolve(token: Seq<char>) -> Option<nat> {
    match alphabet().index_of_first(token) {
        Some(position) => Some((position + 1) as nat),
        None => None,
    }
}

/// Resolves a symbol to its index by exact match against the alphabet.
pub fn get_zhuyin_index(symbol: &str) -> (index: Option<usize>)
    ensures
        match index {
            Some(i) => resolve(symbol@) == Some(i as nat),
            None => resolve(symbol@) is None,
        },
{
    if symbol.unicode_len() != 1 {
        proof {
            alphabet().index_of_first_ensures(symbol@);
        }
        return None;
    }
    let c = symbol.get_char(0);
    let mut i: usize = 0;
    while i < ZHUYIN_COUNT
        invariant
            i <= ZHUYIN_COUNT,
            symbol@.len() == 1,
            symbol@[0] == c,
            forall|j: int| 0 <= j < i ==> ZHUYIN_ORDER@[j] != c,
        decreases ZHUYIN_COUNT - i,
    {
        if ZHUYIN_ORDER[i] == c {
            proof {
                assert(alphabet()[i as int] =~= symbol@);
                alphabet().index_of_first_ensures(symbol@);
            }
            return Some(i + 1);
        }
        i += 1;
    }
    proof {
        alphabet().index_of_first_ensures(symbol@);
    }
    None
}

/// No symbol stands twice in the alphabet.
pub proof fn lemma_alphabet_distinct()
    ensures
        alphabet().len() == ZHUYIN_COUNT,
        alphabet().no_duplicates(),
{
    assert forall|i: int, j: int|
        0 <= i < alphabet().len() && 0 <= j < alphabet().len() && i != j implies alphabet()[i]
        != alphabet()[j] by {
        assert(alphabet()[i][0] == ZHUYIN_ORDER@[i]);
        assert(alphabet()[j][0] == ZHUYIN_ORDER@[j]);
    }
}

/// A token resolves exactly when the alphabet holds it.
pub proof fn lemma_resolve_iff_member(token: Seq<char>)
    ensures
        resolve(token) is Some <==> alphabet().contains(token),
{
    alphabet().index_of_first_ensures(token);
}

/// A symbol of the alphabet resolves to an index between one and the size of
/// the alphabet, and the alphabet holds that symbol at the index's position.
pub proof fn lemma_resolve_member(token: Seq<char>)
    requires
        alphabet().contains(token),
    ensures
        resolve(token) is Some,
        1 <= resolve(token).unwrap() <= ZHUYIN_COUNT,
        alphabet()[resolve(token).unwrap() - 1] == token,
{
    alphabet().index_of_first_ensures(token);
}

/// The symbol at a position of the alphabet resolves to that position,
/// counted from one: every index between one and the size of the alphabet is
/// the index of one symbol.
pub proof fn lemma_resolve_position(index: nat)
    requires
        1 <= index <= ZHUYIN_COUNT,
    ensures
        resolve(alphabet()[index - 1]) == Some(index),
{
    let token = alphabet()[index - 1];
    lemma_alphabet_distinct();
    alphabet().index_of_first_ensures(token);
}

/// Two different symbols of the alphabet never share an index.
pub proof fn lemma_resolve_injective(first: Seq<char>, second: Seq<char>)
    requires
        alphabet().contains(first),
        alphabet().contains(second),
        first != second,
    ensures
        resolve(first) != resolve(second),
{
    lemma_resolve_member(first);
    lemma_resolve_member(second);
}

/// A token outside the alphabet resolves to nothing, so it never takes the
/// index of a symbol.
pub proof fn lemma_resolve_outsider(token: Seq<char>)
    requires
        !alphabet().contains(token),
    ensures
        resolve(token) is None,
{
    alphabet().index_of_first_ensures(token);
}

} // verus!
