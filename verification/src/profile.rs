//! The "estimated IQ" shown on a profile.

use vstd::prelude::*;
use vstd::std_specs::iter::IteratorSpec;
use vstd::string::StringSliceAdditionalSpecFns;
use vstd::string::StringExecFns;
use crate::embeds::{error, Embed, EmbedColor};

verus! {

/// How many characters of `s` are `a` or `b`.
pub open spec fn count_either(s: Seq<char>, a: char, b: char) -> int
    decreases s.len(),
{
    if s.len() == 0 {
        0
    } else {
        count_either(s.drop_last(), a, b) + if s.last() == a || s.last() == b { 1int } else { 0int }
    }
}

/// A string has at least as many bytes in UTF-8 as it has characters.
pub proof fn lemma_utf8_len_at_least_chars(s: Seq<char>)
    ensures
        vstd::utf8::encode_utf8(s).len() >= s.len(),
    decreases s.len(),
{
    if s.len() > 0 {
        lemma_utf8_len_at_least_chars(s.drop_first());
    }
}

/// Whether `x` is a value of `i64`.
pub open spec fn fits_i64(x: int) -> bool {
    i64::MIN <= x <= i64::MAX
}

/// The running value of the estimate after each adjustment, starting from
/// `base`: the byte length of the name minus five is added, then twice the
/// number of `a`/`A`, then twice the number of `c`/`C`, three times the number
/// of `d`/`D` and five times the number of `f`/`F` are taken away.
pub open spec fn iq_steps(base: int, name: Seq<char>, byte_len: int) -> Seq<int> {
    let s1 = base + (byte_len - 5);
    let s2 = s1 + 2 * count_either(name, 'a', 'A');
    let s3 = s2 - 2 * count_either(name, 'c', 'C');
    let s4 = s3 - 3 * count_either(name, 'd', 'D');
    let s5 = s4 - 5 * count_either(name, 'f', 'F');
    seq![s1, s2, s3, s4, s5]
}

/// Whether the estimate can be computed in `i64`: each product of a count
/// and each running value fits.
pub open spec fn iq_computable(base: int, name: Seq<char>, byte_len: int) -> bool {
    &&& fits_i64(2 * count_either(name, 'a', 'A'))
    &&& fits_i64(2 * count_either(name, 'c', 'C'))
    &&& fits_i64(3 * count_either(name, 'd', 'D'))
    &&& fits_i64(5 * count_either(name, 'f', 'F'))
    &&& forall|k: int| 0 <= k < 5 ==> fits_i64(#[trigger] iq_steps(base, name, byte_len)[k])
}

/// What a letter adds to the estimate besides its bytes: two for `a`/`A`,
/// minus two for `c`/`C`, minus three for `d`/`D`, minus five for `f`/`F`,
/// nothing for any other character.
pub open spec fn letter_weight(c: char) -> int {
    if c == 'a' || c == 'A' {
        2
    } else if c == 'c' || c == 'C' {
        -2
    } else if c == 'd' || c == 'D' {
        -3
    } else if c == 'f' || c == 'F' {
        -5
    } else {
        0
    }
}

/// The UTF-8 form of a string with one more character is longer by the
/// UTF-8 form of that character.
proof fn lemma_utf8_len_push(s: Seq<char>, c: char)
    ensures
        vstd::utf8::encode_utf8(s.push(c)).len() == vstd::utf8::encode_utf8(s).len()
            + vstd::utf8::encode_scalar(c as u32).len(),
    decreases s.len(),
{
    if s.len() > 0 {
        assert(s.push(c).drop_first() =~= s.drop_first().push(c));
        assert(s.push(c)[0] == s[0]);
        lemma_utf8_len_push(s.drop_first(), c);
    } else {
        assert(s.push(c).drop_first() =~= s);
        assert(s.push(c)[0] == c);
        assert(vstd::utf8::encode_utf8(s).len() == 0);
    }
}

/// Appending a character to a name moves the unclamped estimate by the
/// character's length in bytes plus its weight, whatever the base.
pub proof fn appended_letter_shifts_estimate(base: int, s: Seq<char>, c: char)
    ensures
        iq_steps(base, s.push(c), vstd::utf8::encode_utf8(s.push(c)).len() as int)[4] == iq_steps(
            base,
            s,
            vstd::utf8::encode_utf8(s).len() as int,
        )[4] + vstd::utf8::encode_scalar(c as u32).len() + letter_weight(c),
{
    lemma_utf8_len_push(s, c);
    assert(s.push(c).drop_last() =~= s);
}

/// `x` held to the range 0 ..= 160.
pub open spec fn clamp_iq(x: int) -> int {
    if x > 160 {
        160
    } else if x < 0 {
        0
    } else {
        x
    }
}

/// The estimated IQ of a player called `username`, from `base`, the value
/// that the player's all-time duel stars give: `base` adjusted by the letters
/// of the name, then held to 0 ..= 160. `None` where an intermediate value
/// does not fit in `i64`.
pub fn estimate_iq(base: i64, username: &str) -> (r: Option<i64>)
    requires
        username.spec_bytes().len() <= isize::MAX,
    ensures
        iq_computable(base as int, username@, username.spec_bytes().len() as int) ==> r == Some(
            clamp_iq(iq_steps(base as int, username@, username.spec_bytes().len() as int)[4])
                as i64,
        ),
        !iq_computable(base as int, username@, username.spec_bytes().len() as int) ==> r is None,
        r matches Some(v) ==> 0 <= v <= 160,
{
    let ghost name = username@;
    let mut na: u64 = 0;
    let mut nc: u64 = 0;
    let mut nd: u64 = 0;
    let mut nf: u64 = 0;
    let mut idx: usize = 0;
    let mut chars = username.chars();
    proof {
        broadcast use vstd::string::axiom_spec_iter;
        lemma_utf8_len_at_least_chars(name);
    }
    loop
        invariant
            chars.obeys_prophetic_iter_laws(),
            chars.remaining() == name.skip(idx as int),
            idx <= name.len(),
            na == count_either(name.take(idx as int), 'a', 'A'),
            nc == count_either(name.take(idx as int), 'c', 'C'),
            nd == count_either(name.take(idx as int), 'd', 'D'),
            nf == count_either(name.take(idx as int), 'f', 'F'),
            na <= idx,
            nc <= idx,
            nd <= idx,
            nf <= idx,
            name.len() <= username.spec_bytes().len(),
            username.spec_bytes().len() <= isize::MAX,
        ensures
            idx == name.len(),
            na == count_either(name.take(idx as int), 'a', 'A'),
            nc == count_either(name.take(idx as int), 'c', 'C'),
            nd == count_either(name.take(idx as int), 'd', 'D'),
            nf == count_either(name.take(idx as int), 'f', 'F'),
            na <= idx,
            nc <= idx,
            nd <= idx,
            nf <= idx,
        decreases name.len() - idx,
    {
        let c = chars.next();
        match c {
            None => {
                break;
            },
            Some(ch) => {
                assert(name.take(idx + 1).drop_last() =~= name.take(idx as int));
                if ch == 'a' || ch == 'A' {
                    na = na + 1;
                }
                if ch == 'c' || ch == 'C' {
                    nc = nc + 1;
                }
                if ch == 'd' || ch == 'D' {
                    nd = nd + 1;
                }
                if ch == 'f' || ch == 'F' {
                    nf = nf + 1;
                }
                idx = idx + 1;
            },
        }
    }
    assert(name.take(idx as int) =~= name);
    let len: i128 = username.len() as i128;
    let a2: i128 = 2 * (na as i128);
    let c2: i128 = 2 * (nc as i128);
    let d3: i128 = 3 * (nd as i128);
    let f5: i128 = 5 * (nf as i128);
    let min: i128 = i64::MIN as i128;
    let max: i128 = i64::MAX as i128;
    let s1: i128 = base as i128 + (len - 5);
    let s2: i128 = s1 + a2;
    let s3: i128 = s2 - c2;
    let s4: i128 = s3 - d3;
    let s5: i128 = s4 - f5;
    let ghost steps = iq_steps(base as int, name, username.spec_bytes().len() as int);
    assert(steps[0] == s1 && steps[1] == s2 && steps[2] == s3 && steps[3] == s4 && steps[4] == s5);
    if a2 > max || c2 > max || d3 > max || f5 > max || s1 < min || s1 > max || s2 < min || s2 > max
        || s3 < min || s3 > max || s4 < min || s4 > max || s5 < min || s5 > max {
        return None;
    }
    let mut iq: i128 = s5;
    if iq > 160 {
        iq = 160;
    }
    if iq < 0 {
        iq = 0;
    }
    Some(iq as i64)
}

/// Where the estimate shown for a name lies strictly between 0 and 160,
/// the estimate shown for the name with one more character is that value
/// moved by the character's length in bytes plus its weight, then held to
/// 0 ..= 160: for example three more for an `a`, one more for a `b`, and
/// four less (at least 0) for an `F`.
pub proof fn appended_letter_shifts_shown_estimate(base: int, s: Seq<char>, c: char)
    requires
        0 < clamp_iq(iq_steps(base, s, vstd::utf8::encode_utf8(s).len() as int)[4]) < 160,
    ensures
        clamp_iq(iq_steps(base, s.push(c), vstd::utf8::encode_utf8(s.push(c)).len() as int)[4])
            == clamp_iq(
            clamp_iq(iq_steps(base, s, vstd::utf8::encode_utf8(s).len() as int)[4])
                + vstd::utf8::encode_scalar(c as u32).len() + letter_weight(c),
        ),
{
    appended_letter_shifts_estimate(base, s, c);
}

/// A name without letters counts none of them, and one more character
/// counts once more exactly when it is one of the two letters counted.
pub proof fn count_either_grows_by_matches(s: Seq<char>, c: char, a: char, b: char)
    ensures
        count_either(Seq::<char>::empty(), a, b) == 0,
        count_either(s.push(c), a, b) == count_either(s, a, b) + if c == a || c == b {
            1int
        } else {
            0int
        },
{
    assert(s.push(c).drop_last() =~= s);
}

/// A name counts at least none and at most all of its characters.
pub proof fn count_either_within_length(s: Seq<char>, a: char, b: char)
    ensures
        0 <= count_either(s, a, b) <= s.len(),
    decreases s.len(),
{
    if s.len() > 0 {
        count_either_within_length(s.drop_last(), a, b);
    }
}

/// The unclamped estimate is the base, plus the byte length less five, plus
/// twice the number of `a`/`A`, less twice the number of `c`/`C`, three
/// times the number of `d`/`D` and five times the number of `f`/`F`; and
/// every running value on the way is a partial sum of those terms.
pub proof fn estimate_is_letter_sum(base: int, name: Seq<char>, byte_len: int)
    ensures
        iq_steps(base, name, byte_len).len() == 5,
        iq_steps(base, name, byte_len)[0] == base + byte_len - 5,
        iq_steps(base, name, byte_len)[1] == base + byte_len - 5 + 2 * count_either(name, 'a', 'A'),
        iq_steps(base, name, byte_len)[2] == base + byte_len - 5 + 2 * count_either(name, 'a', 'A')
            - 2 * count_either(name, 'c', 'C'),
        iq_steps(base, name, byte_len)[3] == base + byte_len - 5 + 2 * count_either(name, 'a', 'A')
            - 2 * count_either(name, 'c', 'C') - 3 * count_either(name, 'd', 'D'),
        iq_steps(base, name, byte_len)[4] == base + byte_len - 5 + 2 * count_either(name, 'a', 'A')
            - 2 * count_either(name, 'c', 'C') - 3 * count_either(name, 'd', 'D') - 5
            * count_either(name, 'f', 'F'),
{
}

/// The estimate can be computed exactly when each product of a letter count
/// and each running sum lies within `i64`, and for no other reason: the
/// length of the name by itself never stops it.
pub proof fn estimate_defined_iff_values_fit(base: int, name: Seq<char>, byte_len: int)
    ensures
        iq_computable(base, name, byte_len) <==> {
            let na = count_either(name, 'a', 'A');
            let nc = count_either(name, 'c', 'C');
            let nd = count_either(name, 'd', 'D');
            let nf = count_either(name, 'f', 'F');
            &&& -0x8000_0000_0000_0000 <= 2 * na <= 0x7fff_ffff_ffff_ffff
            &&& -0x8000_0000_0000_0000 <= 2 * nc <= 0x7fff_ffff_ffff_ffff
            &&& -0x8000_0000_0000_0000 <= 3 * nd <= 0x7fff_ffff_ffff_ffff
            &&& -0x8000_0000_0000_0000 <= 5 * nf <= 0x7fff_ffff_ffff_ffff
            &&& -0x8000_0000_0000_0000 <= base + byte_len - 5 <= 0x7fff_ffff_ffff_ffff
            &&& -0x8000_0000_0000_0000 <= base + byte_len - 5 + 2 * na <= 0x7fff_ffff_ffff_ffff
            &&& -0x8000_0000_0000_0000 <= base + byte_len - 5 + 2 * na - 2 * nc
                <= 0x7fff_ffff_ffff_ffff
            &&& -0x8000_0000_0000_0000 <= base + byte_len - 5 + 2 * na - 2 * nc - 3 * nd
                <= 0x7fff_ffff_ffff_ffff
            &&& -0x8000_0000_0000_0000 <= base + byte_len - 5 + 2 * na - 2 * nc - 3 * nd - 5 * nf
                <= 0x7fff_ffff_ffff_ffff
        },
{
    let st = iq_steps(base, name, byte_len);
    if iq_computable(base, name, byte_len) {
        assert(fits_i64(st[0]) && fits_i64(st[1]) && fits_i64(st[2]) && fits_i64(st[3])
            && fits_i64(st[4]));
    }
}

/// For every base within 2^62 of zero and every name of at most 2^40 bytes
/// the estimate can be computed, however long the name is within that.
pub proof fn estimate_defined_for_ordinary_inputs(base: int, name: Seq<char>)
    requires
        -0x4000_0000_0000_0000 <= base <= 0x4000_0000_0000_0000,
        vstd::utf8::encode_utf8(name).len() <= 0x100_0000_0000,
    ensures
        iq_computable(base, name, vstd::utf8::encode_utf8(name).len() as int),
{
    lemma_utf8_len_at_least_chars(name);
    count_either_within_length(name, 'a', 'A');
    count_either_within_length(name, 'c', 'C');
    count_either_within_length(name, 'd', 'D');
    count_either_within_length(name, 'f', 'F');
    estimate_defined_iff_values_fit(base, name, vstd::utf8::encode_utf8(name).len() as int);
}

/// The shown estimate always lies in 0 ..= 160, equals the value itself
/// there, is 160 above and 0 below.
pub proof fn clamp_holds_to_range(x: int)
    ensures
        0 <= clamp_iq(x) <= 160,
        0 <= x <= 160 ==> clamp_iq(x) == x,
        x > 160 ==> clamp_iq(x) == 160,
        x < 0 ==> clamp_iq(x) == 0,
{
}

/// The answer to `/profile` when the generals.io account check gave
/// `reply`: nothing yet (go on) when it answered `true`, else the error
/// "generals.io username does not exist".
pub fn profile_check(reply: Option<bool>) -> (r: Option<Embed>)
    ensures
        reply == Some(true) ==> r is None,
        reply != Some(true) ==> (r matches Some(e) && e.title@ == "Error"@ && e.description@
            == "generals.io username does not exist"@ && e.color == EmbedColor::Error),
{
    if reply == Some(true) {
        None
    } else {
        Some(error(None, String::from_str("generals.io username does not exist")))
    }
}

/// The answer to `/user` about a Discord user who has no username linked.
pub fn user_not_registered() -> (r: Embed)
    ensures
        r.title@ == "Error"@,
        r.description@ == "Discord user not registered"@,
        r.color == EmbedColor::Error,
{
    error(None, String::from_str("Discord user not registered"))
}

/// What `/user` goes on with after the database lookup of the Discord user
/// gave `found`: the linked username, whose profile is shown, or, when there
/// is none, the error "Discord user not registered".
pub fn user_lookup(found: Option<String>) -> (r: Result<String, Embed>)
    ensures
        found matches Some(u) ==> r == Ok::<String, Embed>(u),
        found is None ==> (r matches Err(e) && e.title@ == "Error"@ && e.description@
            == "Discord user not registered"@ && e.color == EmbedColor::Error),
{
    match found {
        Some(u) => Ok(u),
        None => Err(user_not_registered()),
    }
}

} // verus!
