//! Text building blocks: decimal rendering, header text and path segments.
use vstd::prelude::*;
use vstd::string::*;
use vstd::utf8::*;

verus! {

/// The ASCII digit for `d` (taken modulo ten).
pub open spec fn digit_char(d: int) -> char {
    let r = d % 10;
    if r == 0 { '0' }
    else if r == 1 { '1' }
    else if r == 2 { '2' }
    else if r == 3 { '3' }
    else if r == 4 { '4' }
    else if r == 5 { '5' }
    else if r == 6 { '6' }
    else if r == 7 { '7' }
    else if r == 8 { '8' }
    else { '9' }
}

/// The decimal rendering of `n`, without leading zeros ("0" for zero).
pub open spec fn decimal(n: nat) -> Seq<char>
    decreases n,
{
    if n < 10 {
        seq![digit_char(n as int)]
    } else {
        decimal(n / 10) + seq![digit_char(n as int)]
    }
}

/// One decimal digit as a one-character string.
fn digit_text(d: u64) -> (s: String)
    requires
        d < 10,
    ensures
        s@ == seq![digit_char(d as int)],
{
    let digits = "0123456789";
    proof {
        reveal_strlit("0123456789");
    }
    let piece = digits.substring_char(d as usize, (d + 1) as usize);
    assert(piece@ =~= seq![digits@[d as int]]);
    piece.to_owned()
}

/// Renders `n` in decimal, as `u64::to_string` does.
pub fn u64_text(n: u64) -> (s: String)
    ensures
        s@ == decimal(n as nat),
{
    let mut rest: u64 = n / 10;
    let mut acc = digit_text(n % 10);
    assert(acc@ == seq![digit_char(n as int)]);
    while rest > 0
        invariant
            rest > 0 ==> decimal(n as nat) == decimal(rest as nat) + acc@,
            rest == 0 ==> acc@ == decimal(n as nat),
        decreases rest,
    {
        let d = digit_text(rest % 10);
        let mut next = d;
        next.append(acc.as_str());
        proof {
            assert(digit_char(rest as int) == digit_char((rest % 10) as int));
        }
        acc = next;
        rest = rest / 10;
    }
    acc
}

/// A byte that an HTTP header value may hold as text: visible ASCII or a tab.
pub open spec fn is_visible_ascii(b: u8) -> bool {
    (32 <= b && b < 127) || b == 9
}

/// Every byte of `bytes` is visible ASCII (or a tab).
pub open spec fn all_visible_ascii(bytes: Seq<u8>) -> bool {
    forall|i: int| 0 <= i < bytes.len() ==> #[trigger] is_visible_ascii(bytes[i])
}

/// The characters that ASCII bytes stand for, one for one.
pub open spec fn ascii_chars(bytes: Seq<u8>) -> Seq<char> {
    bytes.map_values(|b: u8| b as char)
}

/// Views `bytes` as text when they are well-formed UTF-8.
///
/// Calls `std::str::from_utf8`; the contract claims what its documentation
/// says: it succeeds exactly on valid UTF-8 and the text holds the same bytes.
#[verifier::external_body]
fn utf8_text(bytes: &[u8]) -> (res: Option<&str>)
    ensures
        res is Some <==> valid_utf8(bytes@),
        res matches Some(t) ==> t.spec_bytes() == bytes@,
{
    std::str::from_utf8(bytes).ok()
}

/// ASCII bytes are valid UTF-8 and decode to the characters they stand for.
proof fn lemma_ascii_decode(bytes: Seq<u8>)
    requires
        forall|i: int| 0 <= i < bytes.len() ==> #[trigger] bytes[i] < 128,
    ensures
        valid_utf8(bytes),
        decode_utf8(bytes) == ascii_chars(bytes),
    decreases bytes.len(),
{
    if bytes.len() > 0 {
        let rest = bytes.subrange(1, bytes.len() as int);
        assert forall|i: int| 0 <= i < rest.len() implies #[trigger] rest[i] < 128 by {
            assert(rest[i] == bytes[i + 1]);
        }
        lemma_ascii_decode(rest);
        let b0 = bytes[0];
        assert(b0 < 128);
        assert(b0 & 0x7f == b0) by (bit_vector)
            requires
                b0 < 128,
        ;
        assert(pop_first_scalar(bytes) =~= rest);
        assert(decode_utf8(bytes) =~= ascii_chars(bytes));
    }
}

/// The text of an HTTP header value, as `HeaderValue::to_str` gives it:
/// present exactly when every byte is visible ASCII or a tab.
pub fn header_text(bytes: &[u8]) -> (res: Option<String>)
    ensures
        res is Some <==> all_visible_ascii(bytes@),
        res matches Some(t) ==> t@ == ascii_chars(bytes@),
{
    let mut i: usize = 0;
    while i < bytes.len()
        invariant
            i <= bytes@.len(),
            forall|j: int| 0 <= j < i ==> #[trigger] is_visible_ascii(bytes@[j]),
        decreases bytes@.len() - i,
    {
        if !((32 <= bytes[i] && bytes[i] < 127) || bytes[i] == 9) {
            assert(!is_visible_ascii(bytes@[i as int]));
            return None;
        }
        i = i + 1;
    }
    proof {
        assert forall|j: int| 0 <= j < bytes@.len() implies #[trigger] bytes@[j] < 128 by {
            assert(is_visible_ascii(bytes@[j]));
        }
        lemma_ascii_decode(bytes@);
    }
    match utf8_text(bytes) {
        Some(t) => {
            proof {
                encode_utf8_decode_utf8(t@);
            }
            Some(t.to_owned())
        },
        None => None,
    }
}

/// The pieces of `s` between '/' separators, as `str::split('/')` yields them
/// (always at least one piece, possibly empty).
pub open spec fn split_slash(s: Seq<char>) -> Seq<Seq<char>>
    decreases s.len(),
{
    if s.len() == 0 {
        seq![Seq::<char>::empty()]
    } else {
        let parts = split_slash(s.drop_last());
        if s.last() == '/' {
            parts.push(Seq::<char>::empty())
        } else {
            parts.update(parts.len() - 1, parts.last().push(s.last()))
        }
    }
}

/// The last non-empty piece, as `rfind(|s| !s.is_empty())` finds it.
pub open spec fn last_nonempty(parts: Seq<Seq<char>>) -> Option<Seq<char>>
    decreases parts.len(),
{
    if parts.len() == 0 {
        None
    } else if parts.last().len() > 0 {
        Some(parts.last())
    } else {
        last_nonempty(parts.drop_last())
    }
}

proof fn lemma_split_nonempty(s: Seq<char>)
    ensures
        split_slash(s).len() >= 1,
    decreases s.len(),
{
    if s.len() > 0 {
        lemma_split_nonempty(s.drop_last());
    }
}

/// No piece of `split_slash(s)` holds a '/'.
pub proof fn lemma_split_pieces_have_no_slash(s: Seq<char>)
    ensures
        forall|i: int|
            0 <= i < split_slash(s).len() ==> !(#[trigger] split_slash(s)[i]).contains('/'),
    decreases s.len(),
{
    if s.len() > 0 {
        let p = s.drop_last();
        lemma_split_pieces_have_no_slash(p);
        lemma_split_nonempty(p);
        let parts = split_slash(p);
        if s.last() != '/' {
            let grown = parts.last().push(s.last());
            assert(!grown.contains('/')) by {
                if grown.contains('/') {
                    let k = choose|k: int| 0 <= k < grown.len() && grown[k] == '/';
                    if k < parts.last().len() {
                        assert(parts.last().contains('/'));
                        assert(parts[parts.len() - 1].contains('/'));
                    }
                }
            }
            assert forall|i: int| 0 <= i < split_slash(s).len() implies !(
            #[trigger] split_slash(s)[i]).contains('/') by {
                if i < parts.len() - 1 {
                    assert(split_slash(s)[i] == parts[i]);
                }
            }
        } else {
            assert forall|i: int| 0 <= i < split_slash(s).len() implies !(
            #[trigger] split_slash(s)[i]).contains('/') by {
                if i < parts.len() {
                    assert(split_slash(s)[i] == parts[i]);
                } else {
                    assert(split_slash(s)[i] =~= Seq::<char>::empty());
                }
            }
        }
    }
}

/// What `last_nonempty` finds is a non-empty piece of its input.
pub proof fn lemma_last_nonempty_is_piece(parts: Seq<Seq<char>>)
    ensures
        last_nonempty(parts) matches Some(x) ==> x.len() > 0 && exists|i: int|
            0 <= i < parts.len() && #[trigger] parts[i] == x,
    decreases parts.len(),
{
    if parts.len() > 0 && parts.last().len() == 0 {
        lemma_last_nonempty_is_piece(parts.drop_last());
        if let Some(x) = last_nonempty(parts.drop_last()) {
            let i = choose|i: int| 0 <= i < parts.drop_last().len() && #[trigger] parts.drop_last()[i] == x;
            assert(parts[i] == x);
        }
    } else if parts.len() > 0 {
        assert(parts[parts.len() - 1] == parts.last());
    }
}

/// The last non-empty '/'-separated segment of `s`.
pub fn last_nonempty_segment(s: &str) -> (res: Option<String>)
    ensures
        match res {
            Some(t) => last_nonempty(split_slash(s@)) == Some(t@),
            None => last_nonempty(split_slash(s@)) is None,
        },
{
    let n = s.unicode_len();
    let mut i: usize = 0;
    let mut cur_start: usize = 0;
    let mut best: Option<(usize, usize)> = None;
    proof {
        assert(s@.subrange(0, 0) =~= Seq::<char>::empty());
    }
    while i < n
        invariant
            n == s@.len(),
            cur_start <= i <= n,
            split_slash(s@.subrange(0, i as int)).len() >= 1,
            split_slash(s@.subrange(0, i as int)).last() =~= s@.subrange(cur_start as int, i as int),
            match best {
                Some((a, b)) => a <= b <= i && last_nonempty(
                    split_slash(s@.subrange(0, i as int)).drop_last(),
                ) == Some(s@.subrange(a as int, b as int)),
                None => last_nonempty(split_slash(s@.subrange(0, i as int)).drop_last()) is None,
            },
        decreases n - i,
    {
        let c = s.get_char(i);
        let ghost p = s@.subrange(0, i as int);
        let ghost q = s@.subrange(0, i + 1);
        proof {
            assert(q.drop_last() =~= p);
            assert(q.last() == c);
            lemma_split_nonempty(p);
        }
        if c == '/' {
            if cur_start < i {
                best = Some((cur_start, i));
            }
            proof {
                assert(split_slash(q) == split_slash(p).push(Seq::<char>::empty()));
                assert(split_slash(q).drop_last() =~= split_slash(p));
            }
            cur_start = i + 1;
        } else {
            proof {
                let parts = split_slash(p);
                assert(split_slash(q) == parts.update(parts.len() - 1, parts.last().push(c)));
                assert(split_slash(q).drop_last() =~= parts.drop_last());
                assert(s@.subrange(cur_start as int, i + 1) =~= s@.subrange(
                    cur_start as int,
                    i as int,
                ).push(c));
            }
        }
        i = i + 1;
    }
    proof {
        assert(s@.subrange(0, n as int) =~= s@);
    }
    if cur_start < n {
        Some(s.substring_char(cur_start, n).to_owned())
    } else {
        match best {
            Some((a, b)) => Some(s.substring_char(a, b).to_owned()),
            None => None,
        }
    }
}

} // verus!
