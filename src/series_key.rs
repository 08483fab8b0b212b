use vstd::prelude::*;

verus! {

/// The parts of `s` between the `:` separators, in order; a string without a
/// separator is one part.
pub open spec fn split_colon(s: Seq<char>) -> Seq<Seq<char>>
    decreases s.len(),
{
    if s.len() == 0 {
        seq![Seq::empty()]
    } else {
        let prev = split_colon(s.drop_last());
        if s.last() == ':' {
            prev.push(Seq::empty())
        } else {
            prev.update(prev.len() - 1, prev.last().push(s.last()))
        }
    }
}

/// The number that a string of decimal digits stands for.
pub open spec fn decimal(s: Seq<char>) -> nat
    decreases s.len(),
{
    if s.len() == 0 {
        0
    } else {
        decimal(s.drop_last()) * 10 + ((s.last() as nat) - ('0' as nat)) as nat
    }
}

/// `s` is a non-empty run of decimal digits.
pub open spec fn is_digits(s: Seq<char>) -> bool {
    s.len() > 0 && forall|i: int| 0 <= i < s.len() ==> '0' <= #[trigger] s[i] <= '9'
}

/// A part of a series key read as an index: it is a run of digits whose
/// value fits in `usize`.
pub open spec fn part_index(p: Seq<char>) -> Option<nat> {
    if is_digits(p) && decimal(p) <= usize::MAX {
        Some(decimal(p))
    } else {
        None
    }
}

/// The indices of a series key `i0:i1:...:ik`; nothing where a part is no index.
pub open spec fn key_indices(key: Seq<char>) -> Option<Seq<nat>> {
    let parts = split_colon(key);
    if forall|k: int| 0 <= k < parts.len() ==> (#[trigger] part_index(parts[k])) is Some {
        Some(parts.map_values(|p: Seq<char>| part_index(p)->Some_0))
    } else {
        None
    }
}

proof fn lemma_split_nonempty(s: Seq<char>)
    ensures
        split_colon(s).len() >= 1,
    decreases s.len(),
{
    if s.len() > 0 {
        lemma_split_nonempty(s.drop_last());
    }
}

proof fn lemma_decimal_grows(s: Seq<char>, k: int)
    requires
        0 <= k <= s.len(),
        forall|i: int| 0 <= i < s.len() ==> '0' <= #[trigger] s[i] <= '9',
    ensures
        decimal(s.take(k)) <= decimal(s),
    decreases s.len() - k,
{
    if k < s.len() {
        lemma_decimal_grows(s, k + 1);
        assert(s.take(k + 1).drop_last() =~= s.take(k));
        let x = decimal(s.take(k));
        let y = decimal(s.take(k + 1));
        assert(y == x * 10 + ((s[k] as nat) - ('0' as nat)) as nat);
        assert(x <= x * 10) by (nonlinear_arith);
    } else {
        assert(s.take(k) =~= s);
    }
}

/// Splits a key at each `:`.
fn split_key(key: &str) -> (r: Vec<Vec<char>>)
    ensures
        r@.len() == split_colon(key@).len(),
        forall|k: int| 0 <= k < r@.len() ==> (#[trigger] r@[k])@ == split_colon(key@)[k],
{
    let n = key.unicode_len();
    let mut parts: Vec<Vec<char>> = Vec::new();
    let mut cur: Vec<char> = Vec::new();
    let mut i: usize = 0;
    assert(key@.take(0) =~= Seq::<char>::empty());
    while i < n
        invariant
            i <= n,
            n == key@.len(),
            parts@.len() + 1 == split_colon(key@.take(i as int)).len(),
            forall|k: int|
                0 <= k < parts@.len() ==> (#[trigger] parts@[k])@ == split_colon(
                    key@.take(i as int),
                )[k],
            cur@ == split_colon(key@.take(i as int)).last(),
        decreases n - i,
    {
        let c = key.get_char(i);
        assert(key@.take(i + 1).drop_last() =~= key@.take(i as int));
        assert(key@.take(i + 1).last() == c);
        proof {
            lemma_split_nonempty(key@.take(i as int));
        }
        if c == ':' {
            parts.push(cur);
            cur = Vec::new();
        } else {
            cur.push(c);
        }
        i += 1;
    }
    assert(key@.take(n as int) =~= key@);
    parts.push(cur);
    parts
}

/// Reads one part of a series key as an index.
fn parse_part(p: &Vec<char>) -> (r: Option<usize>)
    ensures
        match r {
            Some(v) => part_index(p@) == Some(v as nat),
            None => part_index(p@) is None,
        },
{
    if p.len() == 0 {
        return None;
    }
    let mut v: usize = 0;
    let mut i: usize = 0;
    assert(p@.take(0) =~= Seq::<char>::empty());
    while i < p.len()
        invariant
            i <= p.len(),
            v as nat == decimal(p@.take(i as int)),
            forall|k: int| 0 <= k < i ==> '0' <= #[trigger] p@[k] <= '9',
        decreases p.len() - i,
    {
        let c = p[i];
        if !('0' <= c && c <= '9') {
            return None;
        }
        let d = ((c as u32) - ('0' as u32)) as usize;
        assert(p@.take(i + 1).drop_last() =~= p@.take(i as int));
        assert(decimal(p@.take(i + 1)) == v * 10 + d);
        if v > (usize::MAX - d) / 10 {
            assert(v * 10 + d > usize::MAX) by (nonlinear_arith)
                requires
                    v > (usize::MAX - d) / 10,
                    d <= 9,
            ;
            proof {
                if is_digits(p@) {
                    lemma_decimal_grows(p@, i + 1);
                }
            }
            return None;
        }
        assert(v * 10 + d <= usize::MAX) by (nonlinear_arith)
            requires
                v <= (usize::MAX - d) / 10,
                d <= 9,
        ;
        v = v * 10 + d;
        i += 1;
    }
    assert(p@.take(p@.len() as int) =~= p@);
    Some(v)
}

/// The indices of a series key `i0:i1:...:ik`, in order; nothing where a part
/// is not a run of digits or its value does not fit in `usize`.
pub fn series_key_indices(key: &str) -> (r: Option<Vec<usize>>)
    ensures
        match r {
            Some(v) => key_indices(key@) == Some(v@.map_values(|x: usize| x as nat)),
            None => key_indices(key@) is None,
        },
{
    let parts = split_key(key);
    let ghost sp = split_colon(key@);
    let mut out: Vec<usize> = Vec::new();
    let mut i: usize = 0;
    while i < parts.len()
        invariant
            i <= parts.len(),
            parts@.len() == sp.len(),
            sp == split_colon(key@),
            forall|k: int| 0 <= k < parts@.len() ==> (#[trigger] parts@[k])@ == sp[k],
            out@.len() == i,
            forall|k: int|
                0 <= k < i ==> part_index(sp[k]) == Some(#[trigger] out@[k] as nat),
        decreases parts.len() - i,
    {
        assert(parts@[i as int]@ == sp[i as int]);
        match parse_part(&parts[i]) {
            Some(v) => out.push(v),
            None => {
                assert(part_index(sp[i as int]) is None);
                return None;
            },
        }
        i += 1;
    }
    assert forall|k: int| 0 <= k < sp.len() implies (#[trigger] part_index(sp[k])) is Some by {
        assert(part_index(sp[k]) == Some(out@[k] as nat));
    }
    assert(out@.map_values(|x: usize| x as nat) =~= sp.map_values(
        |p: Seq<char>| part_index(p)->Some_0,
    ));
    Some(out)
}

} // verus!
