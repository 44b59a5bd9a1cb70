use vstd::prelude::*;

verus! {

/// True when `p` is a prefix of `s`.
pub open spec fn is_prefix_of(p: Seq<char>, s: Seq<char>) -> bool {
    p.len() <= s.len() && s.subrange(0, p.len() as int) == p
}

/// Character-by-character prefix test.
pub fn str_starts_with(s: &str, p: &str) -> (b: bool)
    ensures
        b == is_prefix_of(p@, s@),
{
    let n: usize = p.unicode_len();
    let m: usize = s.unicode_len();
    if n > m {
        return false;
    }
    let mut i: usize = 0;
    while i < n
        invariant
            i <= n,
            n == p@.len(),
            n <= s@.len(),
            forall|j: int| 0 <= j < i ==> s@[j] == p@[j],
        decreases n - i,
    {
        if s.get_char(i) != p.get_char(i) {
            assert(!is_prefix_of(p@, s@)) by {
                if is_prefix_of(p@, s@) {
                    assert(s@.subrange(0, p@.len() as int)[i as int] == p@[i as int]);
                }
            }
            return false;
        }
        i += 1;
    }
    assert(s@.subrange(0, p@.len() as int) =~= p@);
    true
}

/// Character-by-character equality test.
pub fn str_eq(a: &str, b: &str) -> (r: bool)
    ensures
        r == (a@ == b@),
{
    let n: usize = a.unicode_len();
    let m: usize = b.unicode_len();
    if n != m {
        return false;
    }
    let mut i: usize = 0;
    while i < n
        invariant
            i <= n,
            n == a@.len(),
            n == b@.len(),
            forall|j: int| 0 <= j < i ==> a@[j] == b@[j],
        decreases n - i,
    {
        if a.get_char(i) != b.get_char(i) {
            return false;
        }
        i += 1;
    }
    assert(a@ =~= b@);
    true
}

/// The concatenation of three string slices.
pub fn concat3(a: &str, b: &str, c: &str) -> (r: String)
    ensures
        r@ == a@ + b@ + c@,
{
    let mut s = String::from_str(a);
    s.append(b);
    s.append(c);
    s
}

/// The concatenation of four string slices.
pub fn concat4(a: &str, b: &str, c: &str, d: &str) -> (r: String)
    ensures
        r@ == a@ + b@ + c@ + d@,
{
    let mut s = String::from_str(a);
    s.append(b);
    s.append(c);
    s.append(d);
    s
}

/// Whether the token holds a `=` separator.
pub open spec fn has_eq(t: Seq<char>) -> bool {
    t.contains('=')
}

/// The part of the token before its first `=` (the whole token if none).
pub open spec fn split_key(t: Seq<char>) -> Seq<char>
    decreases t.len(),
{
    if t.len() == 0 {
        Seq::empty()
    } else if t[0] == '=' {
        Seq::empty()
    } else {
        seq![t[0]] + split_key(t.drop_first())
    }
}

/// The part of the token after its first `=` (empty if none).
pub open spec fn split_val(t: Seq<char>) -> Seq<char>
    decreases t.len(),
{
    if t.len() == 0 {
        Seq::empty()
    } else if t[0] == '=' {
        t.drop_first()
    } else {
        split_val(t.drop_first())
    }
}

/// A decomposition `t == k ++ "=" ++ v` with no `=` in `k` is exactly the
/// split at the first `=`.
pub proof fn lemma_split_at_first_eq(k: Seq<char>, v: Seq<char>, t: Seq<char>)
    requires
        !k.contains('='),
        t == k + seq!['='] + v,
    ensures
        split_key(t) == k,
        split_val(t) == v,
    decreases k.len(),
{
    assert(t.len() == k.len() + 1 + v.len());
    if k.len() == 0 {
        assert(t[0] == '=');
        assert(t.drop_first() =~= v);
        assert(split_key(t) =~= k);
    } else {
        assert(t[0] == k[0]);
        assert(k[0] != '=') by {
            if k[0] == '=' {
                assert(k.contains('='));
            }
        }
        assert(!k.drop_first().contains('=')) by {
            if k.drop_first().contains('=') {
                let i = choose|i: int| 0 <= i < k.drop_first().len() && k.drop_first()[i] == '=';
                assert(k[i + 1] == '=');
                assert(k.contains('='));
            }
        }
        assert(t.drop_first() =~= k.drop_first() + seq!['='] + v);
        lemma_split_at_first_eq(k.drop_first(), v, t.drop_first());
        assert(split_key(t) =~= seq![t[0]] + split_key(t.drop_first()));
        assert(seq![k[0]] + k.drop_first() =~= k);
    }
}

/// Splits the token at its first `=`, or returns `None` when it has none.
pub fn split_at_eq(t: &str) -> (r: Option<(String, String)>)
    ensures
        (r is Some) == has_eq(t@),
        r matches Some(kv) ==> kv.0@ == split_key(t@) && kv.1@ == split_val(t@),
{
    let n: usize = t.unicode_len();
    let mut i: usize = 0;
    while i < n
        invariant
            i <= n,
            n == t@.len(),
            forall|j: int| 0 <= j < i ==> t@[j] != '=',
        decreases n - i,
    {
        if t.get_char(i) == '=' {
            let key = String::from_str(t.substring_char(0, i));
            let val = String::from_str(t.substring_char(i + 1, n));
            proof {
                assert(has_eq(t@));
                assert(!key@.contains('=')) by {
                    if key@.contains('=') {
                        let j = choose|j: int| 0 <= j < key@.len() && key@[j] == '=';
                        assert(key@[j] == t@[j]);
                    }
                }
                assert(t@ =~= key@ + seq!['='] + val@);
                lemma_split_at_first_eq(key@, val@, t@);
            }
            return Some((key, val));
        }
        i += 1;
    }
    proof {
        assert(!has_eq(t@)) by {
            if has_eq(t@) {
                let j = choose|j: int| 0 <= j < t@.len() && t@[j] == '=';
                assert(t@[j] != '=');
            }
        }
    }
    None
}

/// The character for one decimal digit.
pub open spec fn dec_digit(d: nat) -> char {
    if d == 0 {
        '0'
    } else if d == 1 {
        '1'
    } else if d == 2 {
        '2'
    } else if d == 3 {
        '3'
    } else if d == 4 {
        '4'
    } else if d == 5 {
        '5'
    } else if d == 6 {
        '6'
    } else if d == 7 {
        '7'
    } else if d == 8 {
        '8'
    } else {
        '9'
    }
}

/// The decimal digit string of a natural number, without leading zeros.
pub open spec fn dec_of(n: nat) -> Seq<char>
    decreases n,
{
    if n < 10 {
        seq![dec_digit(n)]
    } else {
        dec_of(n / 10).push(dec_digit(n % 10))
    }
}

/// One decimal digit as a string slice.
fn dec_digit_str(d: u16) -> (r: &'static str)
    requires
        d < 10,
    ensures
        r@ == seq![dec_digit(d as nat)],
{
    proof {
        reveal_strlit("0");
        reveal_strlit("1");
        reveal_strlit("2");
        reveal_strlit("3");
        reveal_strlit("4");
        reveal_strlit("5");
        reveal_strlit("6");
        reveal_strlit("7");
        reveal_strlit("8");
        reveal_strlit("9");
    }
    match d {
        0 => "0",
        1 => "1",
        2 => "2",
        3 => "3",
        4 => "4",
        5 => "5",
        6 => "6",
        7 => "7",
        8 => "8",
        _ => "9",
    }
}

/// Writes a number in decimal.
pub fn u16_to_dec(x: u16) -> (r: String)
    ensures
        r@ == dec_of(x as nat),
    decreases x,
{
    if x < 10 {
        String::from_str(dec_digit_str(x))
    } else {
        let mut s = u16_to_dec(x / 10);
        s.append(dec_digit_str(x % 10));
        proof {
            assert(dec_of((x / 10) as nat) + seq![dec_digit((x % 10) as nat)] =~= dec_of(
                (x / 10) as nat,
            ).push(dec_digit((x % 10) as nat)));
        }
        s
    }
}

} // verus!
