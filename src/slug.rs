//! Random slugs over an alphabet without look-alike symbols.
use vstd::prelude::*;

verus! {

/// Number of symbols in a generated slug.
pub const DEFAULT_SLUG_LENGTH: usize = 7;

/// Symbols a generated slug is made of: digits and Latin letters without the
/// look-alikes `0`, `1`, `O`, `o`, `I` and `l`.
pub open spec fn is_slug_symbol(c: char) -> bool {
    ||| '2' <= c && c <= '9'
    ||| 'A' <= c && c <= 'Z' && c != 'I' && c != 'O'
    ||| 'a' <= c && c <= 'z' && c != 'l' && c != 'o'
}

/// A slug as the generator makes it: the default length, slug symbols only.
pub open spec fn is_generated_slug(s: Seq<char>) -> bool {
    &&& s.len() == DEFAULT_SLUG_LENGTH
    &&& forall|i: int| 0 <= i < s.len() ==> is_slug_symbol(#[trigger] s[i])
}

/// The 56 slug symbols, in ascending order.
pub fn alphabet() -> (r: Vec<char>)
    ensures
        r@.len() == 56,
        forall|i: int| 0 <= i < r@.len() ==> is_slug_symbol(#[trigger] r@[i]),
        forall|i: int| 0 <= i < r@.len() - 1 ==> #[trigger] r@[i] < r@[i + 1],
{
    let v: Vec<char> = vec![
        '2', '3', '4', '5', '6', '7', '8', '9',
        'A', 'B', 'C', 'D', 'E', 'F', 'G', 'H', 'J', 'K', 'L', 'M', 'N', 'P', 'Q', 'R',
        'S', 'T', 'U', 'V', 'W', 'X', 'Y', 'Z',
        'a', 'b', 'c', 'd', 'e', 'f', 'g', 'h', 'i', 'j', 'k', 'm', 'n', 'p', 'q', 'r',
        's', 't', 'u', 'v', 'w', 'x', 'y', 'z',
    ];
    v
}

/// Relies on `nanoid::format` with the `nanoid::rngs::default` byte source: it
/// keeps drawing random bytes, masks each to the alphabet's power-of-two
/// range, keeps those that index a symbol, and returns once the string is
/// `size` bytes long. With an ASCII alphabet of 1 to 255 symbols and a size
/// above 0, that is `size` symbols of the alphabet.
#[verifier::external_body]
fn nanoid_format(alphabet: &[char], size: usize) -> (r: String)
    requires
        0 < alphabet@.len() <= 255,
        forall|i: int| 0 <= i < alphabet@.len() ==> (#[trigger] alphabet@[i] as u32) < 128,
        0 < size <= usize::MAX / 8,
    ensures
        r@.len() == size,
        forall|i: int| 0 <= i < size ==> alphabet@.contains(#[trigger] r@[i]),
{
    nanoid::format(nanoid::rngs::default, alphabet, size)
}

/// A fresh random slug of the default length over the slug alphabet. Any such
/// slug may come back, including one that is already taken.
pub fn generate_slug() -> (r: String)
    ensures
        is_generated_slug(r@),
{
    let symbols = alphabet();
    let s = nanoid_format(symbols.as_slice(), DEFAULT_SLUG_LENGTH);
    assert forall|i: int| 0 <= i < s@.len() implies is_slug_symbol(#[trigger] s@[i]) by {
        assert(symbols@.contains(s@[i]));
    }
    s
}

} // verus!
