use vstd::prelude::*;

verus! {

/// Whether `pat` stands in `s` at position `i`.
pub open spec fn occurs_at(s: Seq<char>, pat: Seq<char>, i: int) -> bool {
    0 <= i && i + pat.len() <= s.len() && s.subrange(i, i + pat.len()) == pat
}

/// The first position at or after `i` where `pat` stands in `s`.
pub open spec fn find_from(s: Seq<char>, pat: Seq<char>, i: int) -> Option<int>
    decreases s.len() + 1 - i,
{
    if i < 0 || i + pat.len() > s.len() {
        None
    } else if occurs_at(s, pat, i) {
        Some(i)
    } else {
        find_from(s, pat, i + 1)
    }
}

/// The first position where `pat` stands in `s`.
pub open spec fn find(s: Seq<char>, pat: Seq<char>) -> Option<int> {
    find_from(s, pat, 0)
}

pub proof fn lemma_find_from_bounds(s: Seq<char>, pat: Seq<char>, i: int)
    ensures
        match find_from(s, pat, i) {
            Some(k) => i <= k && k + pat.len() <= s.len() && occurs_at(s, pat, k),
            None => true,
        },
    decreases s.len() + 1 - i,
{
    if i < 0 || i + pat.len() > s.len() {
    } else if occurs_at(s, pat, i) {
    } else {
        lemma_find_from_bounds(s, pat, i + 1);
    }
}

/// The text after the first `pat` and before the second, as the second
/// piece of `s` split at `pat`.
pub open spec fn piece_after(s: Seq<char>, pat: Seq<char>) -> Option<Seq<char>> {
    match find(s, pat) {
        Some(i) => {
            let rest = s.subrange(i + pat.len(), s.len() as int);
            Some(
                match find(rest, pat) {
                    Some(j) => rest.subrange(0, j),
                    None => rest,
                },
            )
        },
        None => None,
    }
}

/// The text of `s` before the first `pat`, or all of it.
pub open spec fn piece_before(s: Seq<char>, pat: Seq<char>) -> Seq<char> {
    match find(s, pat) {
        Some(j) => s.subrange(0, j),
        None => s,
    }
}

/// Unicode white space, the characters `char::is_whitespace` accepts.
pub open spec fn is_space(c: char) -> bool {
    let u = c as u32;
    (0x09 <= u && u <= 0x0d) || u == 0x20 || u == 0x85 || u == 0xa0 || u == 0x1680 || (0x2000 <= u
        && u <= 0x200a) || u == 0x2028 || u == 0x2029 || u == 0x202f || u == 0x205f || u == 0x3000
}

pub open spec fn trim_start(s: Seq<char>) -> Seq<char>
    decreases s.len(),
{
    if s.len() > 0 && is_space(s[0]) {
        trim_start(s.drop_first())
    } else {
        s
    }
}

pub open spec fn trim_end(s: Seq<char>) -> Seq<char>
    decreases s.len(),
{
    if s.len() > 0 && is_space(s.last()) {
        trim_end(s.drop_last())
    } else {
        s
    }
}

/// `s` without white space at either end.
pub open spec fn trim(s: Seq<char>) -> Seq<char> {
    trim_end(trim_start(s))
}

/// The end of the run of non-space characters of `s` that starts at `i`.
pub open spec fn word_end(s: Seq<char>, i: int) -> int
    decreases s.len() - i,
{
    if i < 0 || i >= s.len() || is_space(s[i]) {
        i
    } else {
        word_end(s, i + 1)
    }
}

/// The first word of `s`, words being separated by white space.
pub open spec fn first_word(s: Seq<char>) -> Option<Seq<char>> {
    let t = trim_start(s);
    if t.len() == 0 {
        None
    } else {
        Some(t.subrange(0, word_end(t, 0)))
    }
}

pub fn is_space_char(c: char) -> (r: bool)
    ensures
        r == is_space(c),
{
    let u = c as u32;
    (0x09 <= u && u <= 0x0d) || u == 0x20 || u == 0x85 || u == 0xa0 || u == 0x1680 || (0x2000 <= u
        && u <= 0x200a) || u == 0x2028 || u == 0x2029 || u == 0x202f || u == 0x205f || u == 0x3000
}

/// The characters of `s` from `from` up to `to`.
pub fn slice_of(s: &Vec<char>, from: usize, to: usize) -> (r: Vec<char>)
    requires
        from <= to <= s@.len(),
    ensures
        r@ == s@.subrange(from as int, to as int),
{
    let mut r: Vec<char> = Vec::new();
    let mut i = from;
    while i < to
        invariant
            from <= i <= to <= s@.len(),
            r@ == s@.subrange(from as int, i as int),
        decreases to - i,
    {
        r.push(s[i]);
        assert(r@ =~= s@.subrange(from as int, i as int + 1));
        i = i + 1;
    }
    r
}

fn occurs_at_exec(s: &Vec<char>, pat: &Vec<char>, i: usize) -> (r: bool)
    requires
        i + pat@.len() <= s@.len(),
    ensures
        r == occurs_at(s@, pat@, i as int),
{
    let n = pat.len();
    let sl = s.len();
    let mut k: usize = 0;
    while k < n
        invariant
            n == pat@.len(),
            sl == s@.len(),
            i + n <= sl,
            k <= n,
            forall|m: int| 0 <= m < k ==> s@[i + m] == pat@[m],
        decreases n - k,
    {
        if s[i + k] != pat[k] {
            assert(s@.subrange(i as int, i + n)[k as int] != pat@[k as int]);
            return false;
        }
        k = k + 1;
    }
    assert(s@.subrange(i as int, i + n) =~= pat@);
    true
}

/// The first position where `pat` stands in `s`.
pub fn find_exec(s: &Vec<char>, pat: &Vec<char>) -> (r: Option<usize>)
    ensures
        match r {
            Some(i) => find(s@, pat@) == Some(i as int) && i + pat@.len() <= s@.len(),
            None => find(s@, pat@) is None,
        },
{
    proof {
        lemma_find_from_bounds(s@, pat@, 0);
    }
    let n = s.len();
    let m = pat.len();
    if m > n {
        return None;
    }
    if m == 0 {
        assert(s@.subrange(0, 0) =~= pat@);
        return Some(0);
    }
    let mut i: usize = 0;
    while i <= n - m
        invariant
            n == s@.len(),
            m == pat@.len(),
            0 < m <= n,
            i <= n - m + 1,
            find(s@, pat@) == find_from(s@, pat@, i as int),
        decreases n + 1 - i,
    {
        if occurs_at_exec(s, pat, i) {
            return Some(i);
        }
        i = i + 1;
    }
    None
}

/// The second piece of `s` split at `pat`.
pub fn piece_after_exec(s: &Vec<char>, pat: &Vec<char>) -> (r: Option<Vec<char>>)
    ensures
        match r {
            Some(v) => piece_after(s@, pat@) == Some(v@),
            None => piece_after(s@, pat@) is None,
        },
{
    let n = s.len();
    match find_exec(s, pat) {
        Some(i) => {
            let rest = slice_of(s, i + pat.len(), n);
            match find_exec(&rest, pat) {
                Some(j) => Some(slice_of(&rest, 0, j)),
                None => Some(rest),
            }
        },
        None => None,
    }
}

/// The first piece of `s` split at `pat`.
pub fn piece_before_exec(s: &Vec<char>, pat: &Vec<char>) -> (r: Vec<char>)
    ensures
        r@ == piece_before(s@, pat@),
{
    match find_exec(s, pat) {
        Some(j) => slice_of(s, 0, j),
        None => slice_of(s, 0, s.len()),
    }
}

proof fn lemma_trim_start_step(s: Seq<char>, i: int)
    requires
        0 <= i < s.len(),
        is_space(s[i]),
    ensures
        trim_start(s.subrange(i, s.len() as int)) == trim_start(s.subrange(i + 1, s.len() as int)),
{
    assert(s.subrange(i, s.len() as int).drop_first() =~= s.subrange(i + 1, s.len() as int));
}

proof fn lemma_trim_end_step(s: Seq<char>, j: int)
    requires
        0 < j <= s.len(),
        is_space(s[j - 1]),
    ensures
        trim_end(s.subrange(0, j)) == trim_end(s.subrange(0, j - 1)),
{
    assert(s.subrange(0, j).drop_last() =~= s.subrange(0, j - 1));
}

/// Where the text of `s` starts once leading white space is skipped.
fn trim_start_index(s: &Vec<char>) -> (r: usize)
    ensures
        r <= s@.len(),
        trim_start(s@) == s@.subrange(r as int, s@.len() as int),
{
    let n = s.len();
    let mut i: usize = 0;
    assert(s@.subrange(0, n as int) =~= s@);
    while i < n && is_space_char(s[i])
        invariant
            n == s@.len(),
            i <= n,
            trim_start(s@) == trim_start(s@.subrange(i as int, n as int)),
        decreases n - i,
    {
        proof {
            lemma_trim_start_step(s@, i as int);
        }
        i = i + 1;
    }
    i
}

/// `s` without white space at either end.
pub fn trim_exec(s: &Vec<char>) -> (r: Vec<char>)
    ensures
        r@ == trim(s@),
{
    let a = trim_start_index(s);
    let t = slice_of(s, a, s.len());
    let n = t.len();
    let mut j: usize = n;
    assert(t@.subrange(0, n as int) =~= t@);
    while j > 0 && is_space_char(t[j - 1])
        invariant
            n == t@.len(),
            j <= n,
            trim_end(t@) == trim_end(t@.subrange(0, j as int)),
        decreases j,
    {
        proof {
            lemma_trim_end_step(t@, j as int);
        }
        j = j - 1;
    }
    slice_of(&t, 0, j)
}

/// The first word of `s`.
pub fn first_word_exec(s: &Vec<char>) -> (r: Option<Vec<char>>)
    ensures
        match r {
            Some(v) => first_word(s@) == Some(v@),
            None => first_word(s@) is None,
        },
{
    let a = trim_start_index(s);
    let t = slice_of(s, a, s.len());
    let n = t.len();
    if n == 0 {
        return None;
    }
    let mut j: usize = 0;
    while j < n && !is_space_char(t[j])
        invariant
            n == t@.len(),
            j <= n,
            word_end(t@, 0) == word_end(t@, j as int),
        decreases n - j,
    {
        j = j + 1;
    }
    Some(slice_of(&t, 0, j))
}

} // verus!
