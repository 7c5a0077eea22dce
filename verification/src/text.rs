//! Character sequences and their UTF-8 byte geometry.
//!
//! The library holds text as sequences of `char`; byte offsets, which the
//! viewports use to locate the cursor, are the UTF-8 encoded lengths.
use vstd::prelude::*;

verus! {

/// Number of bytes of the UTF-8 encoding of `c`.
pub open spec fn char_utf8_len(c: char) -> nat {
    if (c as u32) < 0x80 {
        1
    } else if (c as u32) < 0x800 {
        2
    } else if (c as u32) < 0x10000 {
        3
    } else {
        4
    }
}

/// Number of bytes of the UTF-8 encoding of `s`.
pub open spec fn byte_len(s: Seq<char>) -> nat
    decreases s.len(),
{
    if s.len() == 0 {
        0
    } else {
        byte_len(s.drop_last()) + char_utf8_len(s.last())
    }
}

/// Byte offset of the character at index `k` of `s`, or the byte length of
/// `s` when `k` is past its end.
pub open spec fn byte_offset_of_char(s: Seq<char>, k: int) -> nat {
    if k < s.len() {
        byte_len(s.take(k))
    } else {
        byte_len(s)
    }
}

/// Number of characters of `s` whose encoding lies entirely within its first
/// `b` bytes.
pub open spec fn chars_within_bytes(s: Seq<char>, b: int) -> nat
    decreases s.len(),
{
    if s.len() == 0 {
        0
    } else if byte_len(s) <= b {
        s.len()
    } else {
        chars_within_bytes(s.drop_last(), b)
    }
}

/// The longest prefix of `s` whose encoding fits within `b` bytes.
pub open spec fn take_bytes(s: Seq<char>, b: int) -> Seq<char> {
    s.take(chars_within_bytes(s, b) as int)
}

pub proof fn lemma_byte_len_add(a: Seq<char>, b: Seq<char>)
    ensures
        byte_len(a + b) == byte_len(a) + byte_len(b),
    decreases b.len(),
{
    if b.len() == 0 {
        assert(a + b =~= a);
    } else {
        lemma_byte_len_add(a, b.drop_last());
        assert((a + b).drop_last() =~= a + b.drop_last());
    }
}

pub proof fn lemma_byte_len_take_mono(s: Seq<char>, i: int, j: int)
    requires
        0 <= i <= j <= s.len(),
    ensures
        byte_len(s.take(i)) <= byte_len(s.take(j)),
        i < j ==> byte_len(s.take(i)) < byte_len(s.take(j)),
    decreases j - i,
{
    if i < j {
        lemma_byte_len_take_mono(s, i, j - 1);
        assert(s.take(j).drop_last() =~= s.take(j - 1));
    }
}

pub proof fn lemma_byte_len_take_last(s: Seq<char>, k: int)
    requires
        0 <= k < s.len(),
    ensures
        byte_len(s.take(k + 1)) == byte_len(s.take(k)) + char_utf8_len(s[k]),
{
    assert(s.take(k + 1).drop_last() =~= s.take(k));
}

pub proof fn lemma_byte_len_bounds(s: Seq<char>)
    ensures
        s.len() <= byte_len(s) <= 4 * s.len(),
    decreases s.len(),
{
    if s.len() > 0 {
        lemma_byte_len_bounds(s.drop_last());
    }
}

/// `chars_within_bytes` is the largest `k` whose prefix fits within `b` bytes.
pub proof fn lemma_chars_within_bytes(s: Seq<char>, b: int)
    ensures
        chars_within_bytes(s, b) <= s.len(),
        byte_len(s.take(chars_within_bytes(s, b) as int)) <= b || chars_within_bytes(s, b) == 0,
        forall|k: int|
            chars_within_bytes(s, b) < k <= s.len() ==> byte_len(#[trigger] s.take(k)) > b,
    decreases s.len(),
{
    if s.len() == 0 {
    } else if byte_len(s) <= b {
        assert(s.take(s.len() as int) =~= s);
    } else {
        let t = s.drop_last();
        lemma_chars_within_bytes(t, b);
        assert(s.take(s.len() as int) =~= s);
        assert forall|k: int| chars_within_bytes(s, b) < k <= s.len() implies byte_len(
            #[trigger] s.take(k),
        ) > b by {
            if k < s.len() {
                assert(t.take(k) =~= s.take(k));
            }
        }
        assert(t.take(chars_within_bytes(t, b) as int) =~= s.take(
            chars_within_bytes(s, b) as int,
        ));
    }
}

/// UTF-8 encoded length of `c`.
pub fn char_len_utf8(c: char) -> (n: usize)
    ensures
        n == char_utf8_len(c),
{
    let u = c as u32;
    if u < 0x80 {
        1
    } else if u < 0x800 {
        2
    } else if u < 0x10000 {
        3
    } else {
        4
    }
}

/// The characters of `s`.
pub fn chars_of(s: &str) -> (v: Vec<char>)
    ensures
        v@ == s@,
{
    let mut v: Vec<char> = Vec::new();
    for c in it: s.chars()
        invariant
            v@ == it.seq().take(it.index() as int),
    {
        v.push(c);
    }
    v
}

} // verus!

verus! {

/// Total number of UTF-8 bytes of the pieces `ls`.
pub open spec fn total_bytes(ls: Seq<Seq<char>>) -> nat
    decreases ls.len(),
{
    if ls.len() == 0 {
        0
    } else {
        byte_len(ls[0]) + total_bytes(ls.drop_first())
    }
}

pub proof fn lemma_total_bytes_push(ls: Seq<Seq<char>>, x: Seq<char>)
    ensures
        total_bytes(ls.push(x)) == total_bytes(ls) + byte_len(x),
    decreases ls.len(),
{
    if ls.len() == 0 {
        assert(ls.push(x).drop_first() =~= Seq::<Seq<char>>::empty());
        assert(ls.push(x)[0] == x);
        assert(total_bytes(ls.push(x).drop_first()) == 0);
    } else {
        assert(ls.push(x)[0] == ls[0]);
        lemma_total_bytes_push(ls.drop_first(), x);
        assert(ls.push(x).drop_first() =~= ls.drop_first().push(x));
    }
}

pub proof fn lemma_total_bytes_take(ls: Seq<Seq<char>>, i: int)
    requires
        0 <= i < ls.len(),
    ensures
        total_bytes(ls.take(i + 1)) == total_bytes(ls.take(i)) + byte_len(ls[i]),
{
    assert(ls.take(i + 1) =~= ls.take(i).push(ls[i]));
    lemma_total_bytes_push(ls.take(i), ls[i]);
}

pub proof fn lemma_total_bytes_take_mono(ls: Seq<Seq<char>>, i: int, j: int)
    requires
        0 <= i <= j <= ls.len(),
    ensures
        total_bytes(ls.take(i)) <= total_bytes(ls.take(j)),
    decreases j - i,
{
    if i < j {
        lemma_total_bytes_take_mono(ls, i, j - 1);
        lemma_total_bytes_take(ls, j - 1);
    }
}

pub proof fn lemma_total_bytes_flatten(ls: Seq<Seq<char>>)
    ensures
        total_bytes(ls) == byte_len(ls.flatten()),
    decreases ls.len(),
{
    if ls.len() > 0 {
        lemma_total_bytes_flatten(ls.drop_first());
        lemma_byte_len_add(ls.first(), ls.drop_first().flatten());
    }
}

/// Byte length of the characters `s`.
pub fn bytes_len(s: &[char]) -> (n: usize)
    requires
        byte_len(s@) <= usize::MAX,
    ensures
        n == byte_len(s@),
{
    let mut n: usize = 0;
    let mut i: usize = 0;
    while i < s.len()
        invariant
            i <= s@.len(),
            n == byte_len(s@.take(i as int)),
            byte_len(s@) <= usize::MAX,
        decreases s.len() - i,
    {
        proof {
            lemma_byte_len_take_last(s@, i as int);
            lemma_byte_len_take_mono(s@, i as int + 1, s@.len() as int);
            assert(s@.take(s@.len() as int) =~= s@);
        }
        n = n + char_len_utf8(s[i]);
        i = i + 1;
    }
    assert(s@.take(s@.len() as int) =~= s@);
    n
}

/// The longest prefix of `s` whose encoding fits in `b` bytes.
pub fn prefix_within_bytes(s: &[char], b: usize) -> (r: Vec<char>)
    ensures
        r@ == take_bytes(s@, b as int),
{
    let mut r: Vec<char> = Vec::new();
    let mut used: usize = 0;
    let mut i: usize = 0;
    while i < s.len()
        invariant
            i <= s@.len(),
            used == byte_len(s@.take(i as int)),
            used <= b,
            r@ == s@.take(i as int),
        decreases s.len() - i,
    {
        let n = char_len_utf8(s[i]);
        proof {
            lemma_byte_len_take_last(s@, i as int);
        }
        if n > b - used {
            proof {
                lemma_prefix_limit(s@, b as int, i as int);
            }
            return r;
        }
        used = used + n;
        r.push(s[i]);
        assert(r@ =~= s@.take(i as int + 1));
        i = i + 1;
    }
    proof {
        assert(s@.take(s@.len() as int) =~= s@);
        lemma_prefix_limit(s@, b as int, i as int);
    }
    r
}

/// When the first `j` characters fit in `b` bytes and the first `j + 1` do not
/// (or there are only `j`), exactly `j` characters lie within `b` bytes.
pub proof fn lemma_prefix_limit(s: Seq<char>, b: int, j: int)
    requires
        0 <= j <= s.len(),
        byte_len(s.take(j)) <= b,
        j < s.len() ==> byte_len(s.take(j + 1)) > b,
    ensures
        chars_within_bytes(s, b) == j,
{
    lemma_chars_within_bytes(s, b);
    let c = chars_within_bytes(s, b) as int;
    if c < j {
        assert(byte_len(s.take(j)) > b);
    }
    if c > j {
        lemma_byte_len_take_mono(s, j + 1, c);
        if c > 0 {
        }
    }
}

/// Number of characters of `s` that lie entirely within its first `b` bytes;
/// for a byte offset `b` that starts a character, this is that character's
/// index.
pub fn char_count_within_bytes(s: &[char], b: usize) -> (k: usize)
    ensures
        k == chars_within_bytes(s@, b as int),
{
    let mut used: usize = 0;
    let mut i: usize = 0;
    while i < s.len()
        invariant
            i <= s@.len(),
            used == byte_len(s@.take(i as int)),
            used <= b,
        decreases s.len() - i,
    {
        let n = char_len_utf8(s[i]);
        proof {
            lemma_byte_len_take_last(s@, i as int);
        }
        if n > b - used {
            proof {
                lemma_prefix_limit(s@, b as int, i as int);
            }
            return i;
        }
        used = used + n;
        i = i + 1;
    }
    proof {
        assert(s@.take(s@.len() as int) =~= s@);
        lemma_prefix_limit(s@, b as int, i as int);
    }
    i
}

/// Byte offset of the character at index `k` of `s`, or the byte length of
/// `s` when `k` is past its end.
pub fn byte_offset_of_char_idx(s: &[char], k: usize) -> (b: usize)
    requires
        byte_len(s@) <= usize::MAX,
    ensures
        b == byte_offset_of_char(s@, k as int),
{
    let mut used: usize = 0;
    let mut i: usize = 0;
    while i < s.len() && i < k
        invariant
            i <= s@.len(),
            i <= k,
            used == byte_len(s@.take(i as int)),
            byte_len(s@) <= usize::MAX,
        decreases s.len() - i,
    {
        proof {
            lemma_byte_len_take_last(s@, i as int);
            lemma_byte_len_take_mono(s@, i as int + 1, s@.len() as int);
            assert(s@.take(s@.len() as int) =~= s@);
        }
        used = used + char_len_utf8(s[i]);
        i = i + 1;
    }
    assert(s@.take(s@.len() as int) =~= s@);
    used
}

} // verus!

verus! {

/// A copy of the characters `s`.
pub fn copy_chars(s: &[char]) -> (r: Vec<char>)
    ensures
        r@ == s@,
{
    let mut r: Vec<char> = Vec::new();
    let mut i: usize = 0;
    while i < s.len()
        invariant
            i <= s@.len(),
            r@ == s@.take(i as int),
        decreases s.len() - i,
    {
        r.push(s[i]);
        assert(r@ =~= s@.take(i as int + 1));
        i = i + 1;
    }
    assert(s@.take(s@.len() as int) =~= s@);
    r
}

/// Appends the characters `src` to `dst`.
pub fn append_chars(dst: &mut Vec<char>, src: &[char])
    ensures
        final(dst)@ == old(dst)@ + src@,
{
    let ghost start = dst@;
    let mut i: usize = 0;
    while i < src.len()
        invariant
            i <= src@.len(),
            dst@ == start + src@.take(i as int),
        decreases src.len() - i,
    {
        dst.push(src[i]);
        assert(dst@ =~= start + src@.take(i as int + 1));
        i = i + 1;
    }
    assert(src@.take(src@.len() as int) =~= src@);
}

/// Total byte length of `lines` when it is at most `limit`, and `None` when
/// it exceeds `limit`.
pub fn total_bytes_bounded(lines: &Vec<Vec<char>>, limit: usize) -> (r: Option<usize>)
    ensures
        match r {
            Some(n) => n == total_bytes(lines@.map_values(|l: Vec<char>| l@)) && n <= limit,
            None => total_bytes(lines@.map_values(|l: Vec<char>| l@)) > limit,
        },
{
    let ghost ls = lines@.map_values(|l: Vec<char>| l@);
    let mut n: usize = 0;
    let mut i: usize = 0;
    while i < lines.len()
        invariant
            ls == lines@.map_values(|l: Vec<char>| l@),
            i <= lines.len(),
            n == total_bytes(ls.take(i as int)),
            n <= limit,
        decreases lines.len() - i,
    {
        proof {
            lemma_total_bytes_take(ls, i as int);
            lemma_total_bytes_take_mono(ls, i as int + 1, ls.len() as int);
            assert(ls.take(ls.len() as int) =~= ls);
        }
        let line = lines[i].as_slice();
        proof {
            lemma_byte_len_bounds(line@);
        }
        match bytes_len_upto(line, limit - n) {
            None => {
                return None;
            },
            Some(m) => {
                n = n + m;
            },
        }
        i = i + 1;
    }
    assert(ls.take(ls.len() as int) =~= ls);
    Some(n)
}

/// Byte length of `s` when it is at most `limit`, and `None` when it exceeds
/// `limit`.
pub fn bytes_len_upto(s: &[char], limit: usize) -> (r: Option<usize>)
    ensures
        match r {
            Some(n) => n == byte_len(s@) && n <= limit,
            None => byte_len(s@) > limit,
        },
{
    let mut n: usize = 0;
    let mut i: usize = 0;
    while i < s.len()
        invariant
            i <= s@.len(),
            n == byte_len(s@.take(i as int)),
            n <= limit,
        decreases s.len() - i,
    {
        let c = char_len_utf8(s[i]);
        proof {
            lemma_byte_len_take_last(s@, i as int);
            lemma_byte_len_take_mono(s@, i as int + 1, s@.len() as int);
            assert(s@.take(s@.len() as int) =~= s@);
        }
        if c > limit - n {
            return None;
        }
        n = n + c;
        i = i + 1;
    }
    assert(s@.take(s@.len() as int) =~= s@);
    Some(n)
}

} // verus!

verus! {

pub proof fn lemma_byte_len_split(s: Seq<char>, k: int)
    requires
        0 <= k <= s.len(),
    ensures
        byte_len(s) == byte_len(s.take(k)) + byte_len(s.skip(k)),
{
    assert(s =~= s.take(k) + s.skip(k));
    lemma_byte_len_add(s.take(k), s.skip(k));
}

pub proof fn lemma_byte_len_insert(s: Seq<char>, k: int, c: char)
    requires
        0 <= k <= s.len(),
    ensures
        byte_len(s.insert(k, c)) == byte_len(s) + char_utf8_len(c),
{
    assert(s.insert(k, c) =~= s.take(k) + seq![c] + s.skip(k));
    lemma_byte_len_add(s.take(k) + seq![c], s.skip(k));
    lemma_byte_len_add(s.take(k), seq![c]);
    assert(seq![c].drop_last() =~= Seq::<char>::empty());
    assert(byte_len(seq![c]) == byte_len(Seq::<char>::empty()) + char_utf8_len(c));
    lemma_byte_len_split(s, k);
}

pub proof fn lemma_byte_len_cut(s: Seq<char>, a: int, b: int)
    requires
        0 <= a <= b <= s.len(),
    ensures
        byte_len(s.take(a) + s.skip(b)) <= byte_len(s),
{
    lemma_byte_len_add(s.take(a), s.skip(b));
    lemma_byte_len_split(s, b);
    lemma_byte_len_take_mono(s, a, b);
}


/// Fewer bytes hold no more whole characters.
pub proof fn lemma_prefix_order(s: Seq<char>, a: int, b: int)
    requires
        a <= b,
    ensures
        chars_within_bytes(s, a) <= chars_within_bytes(s, b),
{
    lemma_chars_within_bytes(s, a);
    lemma_chars_within_bytes(s, b);
    let i = chars_within_bytes(s, a) as int;
    let j = chars_within_bytes(s, b) as int;
    if i > j {
        if i > 0 {
            assert(byte_len(s.take(i)) <= a);
            assert(byte_len(s.take(i)) > b);
        }
    }
}


/// The UTF-8 encoding of a character is `char_utf8_len` bytes long.
pub proof fn lemma_encode_scalar_len(c: char)
    ensures
        vstd::utf8::encode_scalar(c as u32).len() == char_utf8_len(c),
{
}

/// The UTF-8 encoding of a text is `byte_len` bytes long.
pub proof fn lemma_encode_utf8_len(s: Seq<char>)
    ensures
        vstd::utf8::encode_utf8(s).len() == byte_len(s),
    decreases s.len(),
{
    if s.len() > 0 {
        lemma_encode_utf8_len(s.drop_first());
        lemma_encode_scalar_len(s[0]);
        assert(s =~= seq![s[0]] + s.drop_first());
        lemma_byte_len_add(seq![s[0]], s.drop_first());
        assert(seq![s[0]].drop_last() =~= Seq::<char>::empty());
        assert(byte_len(seq![s[0]]) == byte_len(Seq::<char>::empty()) + char_utf8_len(s[0]));
        assert(vstd::utf8::encode_utf8(s) == vstd::utf8::encode_scalar(s[0] as u32)
            + vstd::utf8::encode_utf8(s.drop_first()));
    }
}

/// The byte length of a string slice fits in `usize`.
pub fn str_fits(s: &str)
    ensures
        byte_len(s@) <= usize::MAX,
{
    let b = s.as_bytes();
    let _n = b.len();
    proof {
        lemma_encode_utf8_len(s@);
    }
}

} // verus!
