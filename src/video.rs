//! Short-code codec: turns a twelve-character `BV…` code into the numeric id.
use vstd::prelude::*;
use crate::decimal::{int_decimal, push_int};

verus! {

/// Value XORed into the masked number to give the numeric id.
pub const XOR_CODE: i64 = 23442827791579;
/// Keeps the low 51 bits of the accumulated number.
pub const MASK_CODE: i64 = 2251799813685247;
/// Number of digits in the code's alphabet.
pub const BASE: i64 = 58;
/// Length of a short code, in characters.
pub const CODE_LEN: usize = 12;
/// Characters before the base-58 digits once the code is unshuffled.
pub const TAG_LEN: usize = 3;

/// Why a short code could not be decoded.
#[derive(Debug, Clone, Copy, PartialEq, Eq)]
pub enum CodecError {
    /// Not twelve characters, or not starting with `BV`.
    InvalidFormat,
    /// A digit position holds a character outside the alphabet.
    InvalidCharacter(char),
}

/// The digit alphabet: the digit value of a character is its position here.
pub open spec fn alphabet() -> Seq<char> {
    "FcwAPNKTMug3GV5Lj7EJnHpWsx4tb8haYeviqBz6rkCy12mUSDQX9RdoZf"@
}

/// Digit value of `c`: its first position in the alphabet, if it occurs.
pub open spec fn digit_of(c: char) -> Option<int> {
    if exists|i: int| 0 <= i < alphabet().len() && alphabet()[i] == c {
        Some(
            choose|i: int|
                0 <= i < alphabet().len() && alphabet()[i] == c && forall|j: int|
                    0 <= j < i ==> alphabet()[j] != c,
        )
    } else {
        None
    }
}

/// A code has the right shape: twelve characters, starting with `BV`.
pub open spec fn has_code_shape(s: Seq<char>) -> bool {
    s.len() == 12 && s[0] == 'B' && s[1] == 'V'
}

/// Undo the obfuscating permutation: swap positions 3 and 9, then 4 and 7.
pub open spec fn unshuffle(s: Seq<char>) -> Seq<char>
    recommends
        s.len() == 12,
{
    let t = s.update(3, s[9]).update(9, s[3]);
    t.update(4, t[7]).update(7, t[4])
}

/// The base-58 digits of a well-shaped code: the unshuffled code without its tag.
pub open spec fn digits_of(s: Seq<char>) -> Seq<char>
    recommends
        s.len() == 12,
{
    unshuffle(s).subrange(3, 12)
}

/// The first character of `d` that is not in the alphabet, if any.
pub open spec fn first_invalid(d: Seq<char>) -> Option<char>
    decreases d.len(),
{
    if d.len() == 0 {
        None
    } else if digit_of(d[0]) is None {
        Some(d[0])
    } else {
        first_invalid(d.drop_first())
    }
}

/// The number that `d` spells in base 58, most significant digit first.
pub open spec fn base58_value(d: Seq<char>) -> int
    decreases d.len(),
{
    if d.len() == 0 {
        0
    } else {
        base58_value(d.drop_last()) * 58 + digit_of(d.last()).unwrap()
    }
}

/// `58` to the power `n`.
pub open spec fn pow58(n: nat) -> int
    decreases n,
{
    if n == 0 {
        1
    } else {
        58 * pow58((n - 1) as nat)
    }
}

/// The numeric id for a code whose digits spell `v`: the low 51 bits XOR the constant.
pub open spec fn id_of_value(v: i64) -> i64 {
    (v & MASK_CODE) ^ XOR_CODE
}

/// What decoding `s` gives.
pub open spec fn decode(s: Seq<char>) -> Result<i64, CodecError> {
    if !has_code_shape(s) {
        Err(CodecError::InvalidFormat)
    } else {
        match first_invalid(digits_of(s)) {
            Some(c) => Err(CodecError::InvalidCharacter(c)),
            None => Ok(id_of_value(base58_value(digits_of(s)) as i64)),
        }
    }
}


proof fn lemma_pow58_positive(n: nat)
    ensures
        pow58(n) >= 1,
    decreases n,
{
    if n > 0 {
        lemma_pow58_positive((n - 1) as nat);
    }
}

proof fn lemma_pow58_bound(n: nat)
    requires
        n <= 9,
    ensures
        pow58(n) <= 7427658739644928,
    decreases 9 - n,
{
    if n == 9 {
        reveal_with_fuel(pow58, 10);
    } else {
        lemma_pow58_bound(n + 1);
        lemma_pow58_positive(n);
    }
}

/// Digit value of `c` in the alphabet.
fn digit_index(c: char) -> (r: Option<i64>)
    ensures
        match digit_of(c) {
            Some(i) => r == Some(i as i64) && 0 <= i < 58,
            None => r is None,
        },
{
    let table = "FcwAPNKTMug3GV5Lj7EJnHpWsx4tb8haYeviqBz6rkCy12mUSDQX9RdoZf";
    proof {
        reveal_strlit("FcwAPNKTMug3GV5Lj7EJnHpWsx4tb8haYeviqBz6rkCy12mUSDQX9RdoZf");
    }
    assert(table@.len() == 58);
    let mut i: usize = 0;
    while i < 58
        invariant
            table@ == alphabet(),
            alphabet().len() == 58,
            i <= 58,
            forall|j: int| 0 <= j < i ==> alphabet()[j] != c,
        decreases 58 - i,
    {
        if table.get_char(i) == c {
            proof {
                let k = choose|k: int|
                    0 <= k < alphabet().len() && alphabet()[k] == c && forall|j: int|
                        0 <= j < k ==> alphabet()[j] != c;
                assert(0 <= i < alphabet().len() && alphabet()[i as int] == c);
                assert(k == i as int);
            }
            return Some(i as i64);
        }
        i += 1;
    }
    None
}

/// Position in the code of the character that lands at `k` once the code is unshuffled.
fn source_position(k: usize) -> (r: usize)
    requires
        k < 12,
    ensures
        r < 12,
        forall|s: Seq<char>| s.len() == 12 ==> #[trigger] unshuffle(s)[k as int] == s[r as int],
{
    if k == 3 {
        9
    } else if k == 4 {
        7
    } else if k == 7 {
        4
    } else if k == 9 {
        3
    } else {
        k
    }
}

/// Decodes a short code into the numeric id.
///
/// The nine digits read after the tag stay below `58^9`, so the accumulation
/// `value * 58 + digit` never leaves the range of `i64`.
pub fn bvid2avid(bvid: String) -> (r: Result<i64, CodecError>)
    ensures
        r == decode(bvid@),
{
    let s = bvid.as_str();
    let n = s.unicode_len();
    if n != CODE_LEN || s.get_char(0) != 'B' || s.get_char(1) != 'V' {
        return Err(CodecError::InvalidFormat);
    }
    let ghost d = digits_of(s@);
    let mut tmp: i64 = 0;
    let mut k: usize = TAG_LEN;
    proof {
        assert(d.subrange(0, 0) =~= Seq::<char>::empty());
        assert(d.subrange(0, 9) =~= d);
    }
    while k < CODE_LEN
        invariant
            s@ == bvid@,
            has_code_shape(s@),
            d == digits_of(s@),
            d.len() == 9,
            3 <= k <= 12,
            tmp as int == base58_value(d.subrange(0, k - 3)),
            0 <= tmp < pow58((k - 3) as nat),
            first_invalid(d) == first_invalid(d.subrange(k - 3, 9)),
        decreases 12 - k,
    {
        let src = source_position(k);
        let ch = s.get_char(src);
        let ghost j: int = k - 3;
        assert(ch == d[j]);
        let ghost rest = d.subrange(j, 9);
        assert(rest.drop_first() =~= d.subrange(j + 1, 9));
        match digit_index(ch) {
            None => {
                assert(first_invalid(rest) == Some(ch));
                return Err(CodecError::InvalidCharacter(ch));
            },
            Some(v) => {
                let ghost pre = d.subrange(0, j + 1);
                assert(pre.drop_last() =~= d.subrange(0, j));
                assert(pre.last() == ch);
                proof {
                    lemma_pow58_bound((j + 1) as nat);
                    assert(pow58((j + 1) as nat) == 58 * pow58(j as nat));
                    assert(tmp * 58 + v < 58 * pow58(j as nat)) by (nonlinear_arith)
                        requires
                            tmp < pow58(j as nat),
                            0 <= v < 58,
                    ;
                }
                tmp = tmp * BASE + v;
                k += 1;
            },
        }
    }
    proof {
        assert(d.subrange(9, 9) =~= Seq::<char>::empty());
        assert(d.subrange(0, 9) =~= d);
    }
    Ok((tmp & MASK_CODE) ^ XOR_CODE)
}

/// Decoding depends on the code alone: equal codes of the right shape give the
/// same result, and one whose digits are all in the alphabet gives an id.
pub proof fn lemma_decode_deterministic(a: Seq<char>, b: Seq<char>)
    requires
        a == b,
        has_code_shape(a),
    ensures
        decode(a) == decode(b),
        first_invalid(digits_of(a)) is None ==> decode(a) is Ok,
{
}

/// A string that is not twelve characters long or does not start with `BV`
/// is refused as malformed.
pub proof fn lemma_wrong_shape_is_invalid_format(s: Seq<char>)
    requires
        !has_code_shape(s),
    ensures
        decode(s) == Err::<i64, CodecError>(CodecError::InvalidFormat),
{
}

proof fn lemma_first_invalid_found(d: Seq<char>, i: int)
    requires
        0 <= i < d.len(),
        digit_of(d[i]) is None,
    ensures
        first_invalid(d) is Some,
        digit_of(first_invalid(d).unwrap()) is None,
    decreases d.len(),
{
    if digit_of(d[0]) is Some {
        assert(d.drop_first()[i - 1] == d[i]);
        lemma_first_invalid_found(d.drop_first(), i - 1);
    }
}

/// A well-shaped code with a digit outside the alphabet is refused with a
/// character that is not in the alphabet.
pub proof fn lemma_foreign_digit_is_invalid_character(s: Seq<char>, i: int)
    requires
        has_code_shape(s),
        0 <= i < 9,
        !alphabet().contains(digits_of(s)[i]),
    ensures
        decode(s) matches Err(CodecError::InvalidCharacter(c)) && !alphabet().contains(c),
{
    let d = digits_of(s);
    lemma_first_invalid_found(d, i);
    let c = first_invalid(d).unwrap();
    if alphabet().contains(c) {
        let k = choose|k: int| 0 <= k < alphabet().len() && alphabet()[k] == c;
        assert(0 <= k < alphabet().len() && alphabet()[k] == c);
    }
}

/// Address of the playback sources of the video with code `bvid` and numeric
/// id `avid`, for part `cid` (empty when absent), in the HTML5 flavour when
/// `html5` is given.
pub open spec fn playurl_url_spec(
    bvid: Seq<char>,
    avid: i64,
    cid: Option<i32>,
    html5: Option<bool>,
) -> Seq<char> {
    "https://api.bilibili.com/x/player/wbi/playurl?bvid="@ + bvid + "&avid="@ + int_decimal(
        avid as int,
    ) + "&cid="@ + match cid {
        Some(c) => int_decimal(c as int),
        None => Seq::empty(),
    } + "&qn=127&fnval=4048&fnver=0&fourk=1&gaia_source=pre-load&isGaiaAvoided=true&from_client=BROWSER"@
        + match html5 {
        Some(_) => "&platform=html5&high_quality=1"@,
        None => Seq::empty(),
    }
}

/// Address of the playback sources of the video with code `bvid`; fails as
/// decoding does when the code is malformed.
pub fn playurl_url(bvid: &String, cid: Option<i32>, html5: Option<bool>) -> (r: Result<
    String,
    CodecError,
>)
    ensures
        match decode(bvid@) {
            Ok(avid) => r matches Ok(u) && u@ == playurl_url_spec(bvid@, avid, cid, html5),
            Err(e) => r == Err::<String, CodecError>(e),
        },
{
    let avid = match bvid2avid(bvid.clone()) {
        Ok(a) => a,
        Err(e) => return Err(e),
    };
    let mut url = String::from_str("https://api.bilibili.com/x/player/wbi/playurl?bvid=");
    url.append(bvid.as_str());
    url.append("&avid=");
    push_int(&mut url, avid);
    url.append("&cid=");
    let ghost head = url@;
    if let Some(c) = cid {
        push_int(&mut url, c as i64);
    }
    let ghost with_cid = url@;
    assert(with_cid =~= head + match cid {
        Some(c) => int_decimal(c as int),
        None => Seq::empty(),
    });
    url.append("&qn=127");
    url.append("&fnval=4048");
    url.append("&fnver=0");
    url.append("&fourk=1");
    url.append("&gaia_source=pre-load");
    url.append("&isGaiaAvoided=true");
    url.append("&from_client=BROWSER");
    let ghost fixed = url@;
    if html5.is_some() {
        url.append("&platform=html5");
        url.append("&high_quality=1");
    }
    proof {
        reveal_strlit("&qn=127");
        reveal_strlit("&fnval=4048");
        reveal_strlit("&fnver=0");
        reveal_strlit("&fourk=1");
        reveal_strlit("&gaia_source=pre-load");
        reveal_strlit("&isGaiaAvoided=true");
        reveal_strlit("&from_client=BROWSER");
        reveal_strlit(
            "&qn=127&fnval=4048&fnver=0&fourk=1&gaia_source=pre-load&isGaiaAvoided=true&from_client=BROWSER",
        );
        reveal_strlit("&platform=html5");
        reveal_strlit("&high_quality=1");
        reveal_strlit("&platform=html5&high_quality=1");
    }
    assert(url@ =~= playurl_url_spec(bvid@, avid, cid, html5));
    Ok(url)
}

} // verus!
