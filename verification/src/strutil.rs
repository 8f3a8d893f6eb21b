//! Verified string scanning and formatting helpers.
//!
//! The trace-stream grammar and the status strings of this library are all
//! built from a few primitives: first-occurrence search, decimal parsing and
//! decimal formatting. Their specifications live here so that every caller's
//! contract can speak of the same spec functions.

use vstd::prelude::*;

verus! {

/// Whether pattern `p` occurs in `s` at position `i`.
pub open spec fn match_at(s: Seq<char>, p: Seq<char>, i: int) -> bool {
    0 <= i && i + p.len() <= s.len() && s.subrange(i, i + p.len() as int) == p
}

/// The position of the first occurrence of `p` in `s`, if any.
pub open spec fn find_spec(s: Seq<char>, p: Seq<char>) -> Option<int>
    decreases s.len(),
{
    if p.len() > s.len() {
        None
    } else if s.subrange(0, p.len() as int) == p {
        Some(0)
    } else if s.len() == 0 {
        None
    } else {
        match find_spec(s.skip(1), p) {
            Some(i) => Some(i + 1),
            None => None,
        }
    }
}

/// `find_spec` returns exactly the first position where `p` matches.
pub proof fn lemma_find_spec(s: Seq<char>, p: Seq<char>)
    ensures
        match find_spec(s, p) {
            Some(i) => match_at(s, p, i) && (forall|j: int| 0 <= j < i ==> !match_at(s, p, j)),
            None => forall|j: int| !match_at(s, p, j),
        },
    decreases s.len(),
{
    if p.len() > s.len() {
        assert(forall|j: int| !match_at(s, p, j));
    } else if s.subrange(0, p.len() as int) == p {
        assert(match_at(s, p, 0));
    } else if s.len() == 0 {
        assert(forall|j: int| !match_at(s, p, j));
    } else {
        lemma_find_spec(s.skip(1), p);
        assert forall|j: int| 1 <= j && j + p.len() <= s.len() implies
            match_at(s, p, j) == match_at(s.skip(1), p, j - 1) by {
            assert(s.skip(1).subrange(j - 1, j - 1 + p.len() as int)
                =~= s.subrange(j, j + p.len() as int));
        }
        assert(!match_at(s, p, 0));
        match find_spec(s.skip(1), p) {
            Some(i) => {
                assert(match_at(s.skip(1), p, i));
                assert(match_at(s, p, i + 1));
                assert forall|j: int| 0 <= j < i + 1 implies !match_at(s, p, j) by {
                    if j >= 1 {
                        assert(!match_at(s.skip(1), p, j - 1));
                    }
                }
            },
            None => {
                assert forall|j: int| !match_at(s, p, j) by {
                    if 1 <= j && j + p.len() <= s.len() {
                        assert(!match_at(s.skip(1), p, j - 1));
                    }
                }
            },
        }
    }
}

/// A match with no match before it is what `find_spec` returns.
pub proof fn lemma_find_spec_unique(s: Seq<char>, p: Seq<char>, i: int)
    requires
        match_at(s, p, i),
        forall|j: int| 0 <= j < i ==> !match_at(s, p, j),
    ensures
        find_spec(s, p) == Some(i),
{
    lemma_find_spec(s, p);
    match find_spec(s, p) {
        Some(f) => {
            if f < i {
                assert(!match_at(s, p, f));
            } else if f > i {
                assert(!match_at(s, p, i));
            }
        },
        None => {
            assert(!match_at(s, p, i));
        },
    }
}

/// No match anywhere is what a failed `find_spec` means.
pub proof fn lemma_find_spec_none(s: Seq<char>, p: Seq<char>)
    requires
        forall|j: int| !match_at(s, p, j),
    ensures
        find_spec(s, p) is None,
{
    lemma_find_spec(s, p);
    match find_spec(s, p) {
        Some(f) => {
            assert(!match_at(s, p, f));
        },
        None => {},
    }
}

/// The decimal rendering of a number is a digit string denoting that number.
pub proof fn lemma_dec_str_digits(n: int)
    requires
        n >= 0,
    ensures
        all_digits(dec_str(n)),
        digits_val(dec_str(n)) == n,
        dec_str(n).len() >= 1,
    decreases n,
{
    if n < 10 {
        assert(is_digit_char(digit_char(n)));
        assert(dec_str(n)[0] == digit_char(n));
        assert(dec_str(n).last() == digit_char(n));
        assert(dec_str(n).drop_last() =~= Seq::<char>::empty());
        assert(digit_of(digit_char(n)) == n);
        assert(digits_val(Seq::<char>::empty()) == 0);
        assert(digits_val(dec_str(n)) == digits_val(dec_str(n).drop_last()) * 10 + digit_of(
            dec_str(n).last(),
        ));
        assert forall|i: int| 0 <= i < dec_str(n).len() implies is_digit_char(dec_str(n)[i]) by {
            assert(dec_str(n)[i] == digit_char(n));
        }
    } else {
        lemma_dec_str_digits(n / 10);
        assert(dec_str(n).drop_last() =~= dec_str(n / 10));
        assert(dec_str(n).last() == digit_char(n % 10));
        assert(is_digit_char(digit_char(n % 10)));
        assert(digit_of(digit_char(n % 10)) == n % 10);
        assert(digits_val(dec_str(n)) == digits_val(dec_str(n / 10)) * 10 + digit_of(
            digit_char(n % 10),
        ));
        assert forall|i: int| 0 <= i < dec_str(n).len() implies is_digit_char(dec_str(n)[i]) by {
            if i < dec_str(n).len() - 1 {
                assert(dec_str(n)[i] == dec_str(n / 10)[i]);
            } else {
                assert(dec_str(n)[i] == digit_char(n % 10));
            }
        }
    }
}

/// Finds the first occurrence of `p` in `s`, reported as a character index.
pub fn find_sub(s: &str, p: &str) -> (r: Option<usize>)
    ensures
        match r {
            Some(i) => find_spec(s@, p@) == Some(i as int),
            None => find_spec(s@, p@) is None,
        },
{
    let n = s.unicode_len();
    let m = p.unicode_len();
    proof {
        lemma_find_spec(s@, p@);
    }
    if m > n {
        return None;
    }
    if m == 0 {
        proof {
            assert(s@.subrange(0, 0) =~= p@);
        }
        return Some(0);
    }
    let mut i: usize = 0;
    while i <= n - m
        invariant
            0 < m <= n,
            i <= n - m + 1,
            n == s@.len(),
            m == p@.len(),
            forall|j: int| 0 <= j < i ==> !match_at(s@, p@, j),
        decreases n - m + 1 - i,
    {
        let mut k: usize = 0;
        let mut hit = true;
        while k < m && hit
            invariant
                m <= n,
                i + m <= n,
                n == s@.len(),
                m == p@.len(),
                k <= m,
                hit ==> s@.subrange(i as int, i + k as int) =~= p@.subrange(0, k as int),
                !hit ==> !match_at(s@, p@, i as int),
            decreases m - k, (if hit { 1int } else { 0int }),
        {
            let sc = s.get_char(i + k);
            let pc = p.get_char(k);
            if sc != pc {
                proof {
                    if match_at(s@, p@, i as int) {
                        assert(s@.subrange(i as int, i + m as int)[k as int] == p@[k as int]);
                    }
                }
                hit = false;
            } else {
                proof {
                    assert(s@.subrange(i as int, i + (k + 1) as int)
                        =~= s@.subrange(i as int, i + k as int).push(s@[i + k]));
                    assert(p@.subrange(0, (k + 1) as int)
                        =~= p@.subrange(0, k as int).push(p@[k as int]));
                }
                k = k + 1;
            }
        }
        if hit {
            proof {
                assert(p@.subrange(0, m as int) =~= p@);
                assert(match_at(s@, p@, i as int));
                lemma_find_spec(s@, p@);
                match find_spec(s@, p@) {
                    Some(f) => {
                        assert(!(f < i));
                        assert(!(f > i));
                    },
                    None => {
                        assert(false);
                    },
                }
            }
            return Some(i);
        }
        i = i + 1;
    }
    proof {
        assert(forall|j: int| match_at(s@, p@, j) ==> 0 <= j && j + m <= n);
        lemma_find_spec(s@, p@);
    }
    None
}

/// Whether `p` occurs anywhere in `s`.
pub fn contains_sub(s: &str, p: &str) -> (r: bool)
    ensures
        r == (find_spec(s@, p@) is Some),
{
    find_sub(s, p).is_some()
}

/// A match inside the tail of `s` is a match of `s` shifted by the cut.
pub proof fn lemma_match_at_skip(s: Seq<char>, p: Seq<char>, k: int, j: int)
    requires
        0 <= k <= s.len(),
        0 <= j,
    ensures
        match_at(s, p, j + k) == match_at(s.skip(k), p, j),
{
    if j + p.len() <= s.len() - k {
        assert(s.skip(k).subrange(j, j + p.len() as int) =~= s.subrange(j + k, j + k + p.len() as int));
    }
}

/// Whether `s` starts with `p`.
pub fn starts_with(s: &str, p: &str) -> (r: bool)
    ensures
        r == match_at(s@, p@, 0),
{
    let n = s.unicode_len();
    let m = p.unicode_len();
    if m > n {
        return false;
    }
    let head = s.substring_char(0, m);
    str_eq(head, p)
}

/// Whether `c` is a decimal digit.
pub open spec fn is_digit_char(c: char) -> bool {
    '0' as u32 <= c as u32 && c as u32 <= '9' as u32
}

/// The numeric value of a digit character.
pub open spec fn digit_of(c: char) -> int {
    c as u32 - '0' as u32
}

/// Whether every character of `s` is a decimal digit.
pub open spec fn all_digits(s: Seq<char>) -> bool {
    forall|i: int| 0 <= i < s.len() ==> is_digit_char(s[i])
}

/// The number that the digit string `s` denotes.
pub open spec fn digits_val(s: Seq<char>) -> int
    decreases s.len(),
{
    if s.len() == 0 {
        0
    } else {
        digits_val(s.drop_last()) * 10 + digit_of(s.last())
    }
}

/// A digit string denotes a non-negative number.
pub proof fn lemma_digits_val_nonneg(s: Seq<char>)
    requires
        all_digits(s),
    ensures
        digits_val(s) >= 0,
    decreases s.len(),
{
    if s.len() > 0 {
        assert(all_digits(s.drop_last()));
        lemma_digits_val_nonneg(s.drop_last());
    }
}

/// Extending a digit string never shrinks its value.
pub proof fn lemma_digits_val_prefix(s: Seq<char>, i: int)
    requires
        all_digits(s),
        0 <= i <= s.len(),
    ensures
        digits_val(s.subrange(0, i)) <= digits_val(s),
    decreases s.len() - i,
{
    if i < s.len() {
        let t = s.subrange(0, i + 1);
        assert(t.drop_last() =~= s.subrange(0, i));
        assert(all_digits(s.subrange(0, i)));
        lemma_digits_val_nonneg(s.subrange(0, i));
        assert(digits_val(t) == digits_val(s.subrange(0, i)) * 10 + digit_of(s[i]));
        lemma_digits_val_prefix(s, i + 1);
        assert(s.subrange(0, s.len() as int) =~= s);
    } else {
        assert(s.subrange(0, i) =~= s);
    }
}

/// Parses a whole string of decimal digits, rejecting empty strings,
/// non-digit characters and values over `u64::MAX`.
pub fn parse_u64(s: &str) -> (r: Option<u64>)
    ensures
        match r {
            Some(v) => s@.len() > 0 && all_digits(s@) && digits_val(s@) == v as int,
            None => s@.len() == 0 || !all_digits(s@) || digits_val(s@) > u64::MAX,
        },
{
    let n = s.unicode_len();
    if n == 0 {
        return None;
    }
    let mut acc: u64 = 0;
    let mut i: usize = 0;
    while i < n
        invariant
            n == s@.len(),
            i <= n,
            all_digits(s@.subrange(0, i as int)),
            acc as int == digits_val(s@.subrange(0, i as int)),
        decreases n - i,
    {
        let c = s.get_char(i);
        let u = c as u32;
        if u < '0' as u32 || u > '9' as u32 {
            return None;
        }
        let d = (u - '0' as u32) as u64;
        proof {
            assert(s@.subrange(0, (i + 1) as int).drop_last() =~= s@.subrange(0, i as int));
        }
        if acc > (u64::MAX - d) / 10 {
            proof {
                let t = s@.subrange(0, (i + 1) as int);
                assert(digits_val(t) == acc as int * 10 + d);
                assert(digits_val(t) > u64::MAX) by {
                    assert(acc as int >= (u64::MAX - d) / 10 as int + 1);
                }
                if all_digits(s@) {
                    lemma_digits_val_prefix(s@, i + 1 as int);
                }
            }
            return None;
        }
        acc = acc * 10 + d;
        i = i + 1;
    }
    proof {
        assert(s@.subrange(0, n as int) =~= s@);
    }
    Some(acc)
}

/// The digit character for a value below ten.
pub open spec fn digit_char(d: int) -> char {
    if d == 0 {
        '0'
    } else if d == 1 {
        '1'
    } else if d == 2 {
        '2'
    } else if d == 3 {
        '3'
    } else if d == 4 {
        '4'
    } else if d == 5 {
        '5'
    } else if d == 6 {
        '6'
    } else if d == 7 {
        '7'
    } else if d == 8 {
        '8'
    } else {
        '9'
    }
}

/// The decimal representation of a non-negative number, without leading
/// zeros (except for zero itself).
pub open spec fn dec_str(n: int) -> Seq<char>
    decreases n,
{
    if n < 10 {
        seq![digit_char(n)]
    } else {
        dec_str(n / 10).push(digit_char(n % 10))
    }
}

/// The single-character string for a digit value.
pub fn digit_str(d: u64) -> (r: &'static str)
    requires
        d < 10,
    ensures
        r@ =~= seq![digit_char(d as int)],
{
    proof {
        reveal_strlit("0");
        reveal_strlit("1");
        reveal_strlit("2");
        reveal_strlit("3");
        reveal_strlit("4");
        reveal_strlit("5");
        reveal_strlit("6");
        reveal_strlit("7");
        reveal_strlit("8");
        reveal_strlit("9");
    }
    if d == 0 {
        "0"
    } else if d == 1 {
        "1"
    } else if d == 2 {
        "2"
    } else if d == 3 {
        "3"
    } else if d == 4 {
        "4"
    } else if d == 5 {
        "5"
    } else if d == 6 {
        "6"
    } else if d == 7 {
        "7"
    } else if d == 8 {
        "8"
    } else {
        "9"
    }
}

/// Formats a number in decimal.
pub fn u64_to_string(n: u64) -> (r: String)
    ensures
        r@ == dec_str(n as int),
    decreases n,
{
    if n < 10 {
        let mut r = String::new();
        r.append(digit_str(n));
        proof {
            assert(r@ =~= dec_str(n as int));
        }
        r
    } else {
        let mut r = u64_to_string(n / 10);
        r.append(digit_str(n % 10));
        proof {
            assert(r@ =~= dec_str(n as int));
        }
        r
    }
}

/// The decimal rendering of a quantity held in tenths: the integer part,
/// a dot, then the tenths digit.
pub open spec fn tenths_str(t: int) -> Seq<char> {
    dec_str(t / 10) + seq!['.'] + seq![digit_char(t % 10)]
}

/// Formats a quantity held in tenths with one decimal place, as in `85.5`.
pub fn format_tenths(t: u64) -> (r: String)
    ensures
        r@ == tenths_str(t as int),
{
    let mut r = u64_to_string(t / 10);
    proof {
        reveal_strlit(".");
    }
    r.append(".");
    r.append(digit_str(t % 10));
    proof {
        assert(r@ =~= tenths_str(t as int));
    }
    r
}

/// The segments of `s` between occurrences of the separator `c`. A trailing
/// separator yields a final empty segment.
pub open spec fn split_char_spec(s: Seq<char>, c: char) -> Seq<Seq<char>>
    decreases s.len(),
{
    match find_spec(s, seq![c]) {
        Some(i) => if 0 <= i < s.len() {
            seq![s.subrange(0, i)] + split_char_spec(s.subrange(i + 1, s.len() as int), c)
        } else {
            seq![s]
        },
        None => seq![s],
    }
}

/// The segments of `s` between newline characters.
pub open spec fn split_lines_spec(s: Seq<char>) -> Seq<Seq<char>> {
    split_char_spec(s, '\n')
}

/// Splits a string at every occurrence of a one-character separator.
pub fn split_on(s: &str, sep: &str) -> (r: Vec<String>)
    requires
        sep@.len() == 1,
    ensures
        r@.len() == split_char_spec(s@, sep@[0]).len(),
        forall|i: int| 0 <= i < r@.len() ==> r@[i]@ == split_char_spec(s@, sep@[0])[i],
    decreases s@.len(),
{
    let ghost c = sep@[0];
    proof {
        assert(sep@ =~= seq![c]);
    }
    let nl = find_sub(s, sep);
    proof {
        lemma_find_spec(s@, seq![c]);
    }
    match nl {
        Some(i) => {
            let n = s.unicode_len();
            let head = s.substring_char(0, i).to_owned();
            let rest = s.substring_char(i + 1, n);
            let mut tail = split_on(rest, sep);
            let ghost tail_view = tail@;
            let mut out: Vec<String> = Vec::new();
            out.push(head);
            out.append(&mut tail);
            proof {
                assert(out@ =~= seq![head] + tail_view);
                assert(out@.len() == split_char_spec(s@, c).len());
                assert forall|j: int| 0 <= j < out@.len() implies
                    out@[j]@ == split_char_spec(s@, c)[j] by {
                    if j > 0 {
                        assert(out@[j]@ == tail_view[j - 1]@);
                    }
                }
            }
            out
        },
        None => {
            let mut out: Vec<String> = Vec::new();
            out.push(s.to_owned());
            out
        },
    }
}

/// Splits a string at newline characters.
pub fn split_lines(s: &str) -> (r: Vec<String>)
    ensures
        r@.len() == split_lines_spec(s@).len(),
        forall|i: int| 0 <= i < r@.len() ==> r@[i]@ == split_lines_spec(s@)[i],
{
    proof {
        reveal_strlit("\n");
    }
    split_on(s, "\n")
}

/// Compares two string slices character by character.
pub fn str_eq(a: &str, b: &str) -> (r: bool)
    ensures
        r == (a@ == b@),
{
    let n = a.unicode_len();
    let m = b.unicode_len();
    if n != m {
        return false;
    }
    let mut i: usize = 0;
    while i < n
        invariant
            n == a@.len(),
            n == b@.len(),
            i <= n,
            a@.subrange(0, i as int) =~= b@.subrange(0, i as int),
        decreases n - i,
    {
        if a.get_char(i) != b.get_char(i) {
            proof {
                assert(a@ != b@);
            }
            return false;
        }
        proof {
            assert(a@.subrange(0, (i + 1) as int)
                =~= a@.subrange(0, i as int).push(a@[i as int]));
            assert(b@.subrange(0, (i + 1) as int)
                =~= b@.subrange(0, i as int).push(b@[i as int]));
        }
        i = i + 1;
    }
    proof {
        assert(a@.subrange(0, n as int) =~= a@);
        assert(b@.subrange(0, n as int) =~= b@);
        assert(a@ =~= b@);
    }
    true
}

/// Whether `c` separates whitespace-delimited columns.
pub open spec fn is_blank(c: char) -> bool {
    c == ' ' || c == '\n' || c == '\t' || c == '\r'
}

/// The longest prefix of `s` without blank characters.
pub open spec fn take_word(s: Seq<char>) -> Seq<char>
    decreases s.len(),
{
    if s.len() == 0 || is_blank(s[0]) {
        Seq::empty()
    } else {
        seq![s[0]] + take_word(s.skip(1))
    }
}

/// The whitespace-delimited words of `s`, in order.
pub open spec fn words_spec(s: Seq<char>) -> Seq<Seq<char>>
    decreases s.len(),
{
    if s.len() == 0 {
        Seq::empty()
    } else if is_blank(s[0]) {
        words_spec(s.skip(1))
    } else {
        let w = take_word(s);
        if 0 < w.len() <= s.len() {
            seq![w] + words_spec(s.skip(w.len() as int))
        } else {
            Seq::empty()
        }
    }
}

/// The longest blank-free prefix is delimited by the first blank character.
proof fn lemma_take_word(s: Seq<char>, k: int)
    requires
        0 <= k <= s.len(),
        forall|j: int| 0 <= j < k ==> !is_blank(s[j]),
        k == s.len() || is_blank(s[k]),
    ensures
        take_word(s) == s.subrange(0, k),
    decreases k,
{
    if k == 0 {
        assert(s.subrange(0, 0) =~= Seq::<char>::empty());
    } else {
        lemma_take_word(s.skip(1), k - 1);
        assert(seq![s[0]] + s.skip(1).subrange(0, k - 1) =~= s.subrange(0, k));
    }
}

/// Splits a string into its whitespace-delimited words.
pub fn split_whitespace_words(s: &str) -> (r: Vec<String>)
    ensures
        r@.len() == words_spec(s@).len(),
        forall|i: int| 0 <= i < r@.len() ==> r@[i]@ == words_spec(s@)[i],
{
    let n = s.unicode_len();
    let mut out: Vec<String> = Vec::new();
    let ghost all = words_spec(s@);
    let mut i: usize = 0;
    proof {
        assert(s@.skip(0) =~= s@);
    }
    while i < n
        invariant
            i <= n,
            n == s@.len(),
            all == words_spec(s@),
            all =~= out@.map_values(|x: String| x@) + words_spec(s@.skip(i as int)),
        decreases n - i,
    {
        let c = s.get_char(i);
        proof {
            assert(s@.skip(i as int)[0] == s@[i as int]);
            assert(s@.skip(i as int).skip(1) =~= s@.skip(i + 1 as int));
        }
        if c == ' ' || c == '\n' || c == '\t' || c == '\r' {
            i = i + 1;
        } else {
            let mut j = i + 1;
            let mut running = true;
            while running
                invariant
                    i < j <= n,
                    n == s@.len(),
                    forall|k: int| i <= k < j ==> !is_blank(s@[k]),
                    !running ==> (j == n || is_blank(s@[j as int])),
                decreases n - j, (if running { 1int } else { 0int }),
            {
                if j < n {
                    let d = s.get_char(j);
                    if d == ' ' || d == '\n' || d == '\t' || d == '\r' {
                        running = false;
                    } else {
                        j = j + 1;
                    }
                } else {
                    running = false;
                }
            }
            let word = s.substring_char(i, j).to_owned();
            proof {
                let tail = s@.skip(i as int);
                assert forall|k: int| 0 <= k < j - i implies !is_blank(tail[k]) by {
                    assert(tail[k] == s@[i + k]);
                }
                if j < n {
                    assert(tail[j - i] == s@[j as int]);
                }
                lemma_take_word(tail, j - i as int);
                assert(tail.subrange(0, j - i as int) =~= s@.subrange(i as int, j as int));
                assert(!is_blank(tail[0]));
                assert(take_word(tail) == s@.subrange(i as int, j as int));
                assert(tail.skip(j - i as int) =~= s@.skip(j as int));
                assert(words_spec(tail) == seq![s@.subrange(i as int, j as int)] + words_spec(
                    s@.skip(j as int),
                ));
            }
            let ghost before = out@;
            out.push(word);
            proof {
                assert(out@.map_values(|x: String| x@) =~= before.map_values(|x: String| x@)
                    + seq![s@.subrange(i as int, j as int)]);
                assert(all =~= out@.map_values(|x: String| x@) + words_spec(s@.skip(j as int)));
            }
            i = j;
        }
    }
    proof {
        assert(s@.skip(n as int) =~= Seq::<char>::empty());
        assert(all =~= out@.map_values(|x: String| x@));
        assert forall|k: int| 0 <= k < out@.len() implies out@[k]@ == all[k] by {
            assert(all[k] == out@.map_values(|x: String| x@)[k]);
        }
    }
    out
}

/// `n` copies of the character `c`.
pub open spec fn repeat_char(c: char, n: int) -> Seq<char>
    decreases n,
{
    if n <= 0 {
        Seq::empty()
    } else {
        repeat_char(c, n - 1).push(c)
    }
}

/// `s` padded with leading spaces up to `width`.
pub open spec fn pad_left_spec(s: Seq<char>, width: int) -> Seq<char> {
    if s.len() >= width {
        s
    } else {
        repeat_char(' ', width - s.len()) + s
    }
}

/// `s` padded with trailing spaces up to `width`.
pub open spec fn pad_right_spec(s: Seq<char>, width: int) -> Seq<char> {
    if s.len() >= width {
        s
    } else {
        s + repeat_char(' ', width - s.len())
    }
}

/// A run of spaces.
pub fn spaces(n: usize) -> (r: String)
    ensures
        r@ == repeat_char(' ', n as int),
{
    let mut out = String::new();
    let mut i: usize = 0;
    proof {
        reveal_strlit(" ");
        assert(" "@ =~= seq![' ']);
    }
    while i < n
        invariant
            i <= n,
            out@ == repeat_char(' ', i as int),
        decreases n - i,
    {
        out.append(" ");
        proof {
            reveal_strlit(" ");
            assert(" "@ =~= seq![' ']);
            assert(out@ =~= repeat_char(' ', i + 1 as int));
        }
        i = i + 1;
    }
    out
}

/// Pads `s` with leading spaces up to `width`.
pub fn pad_left(s: &str, width: usize) -> (r: String)
    ensures
        r@ == pad_left_spec(s@, width as int),
{
    let n = s.unicode_len();
    if n >= width {
        s.to_owned()
    } else {
        let mut out = spaces(width - n);
        out.append(s);
        out
    }
}

/// Pads `s` with trailing spaces up to `width`.
pub fn pad_right(s: &str, width: usize) -> (r: String)
    ensures
        r@ == pad_right_spec(s@, width as int),
{
    let n = s.unicode_len();
    let mut out = s.to_owned();
    if n < width {
        let pad = spaces(width - n);
        out.append(pad.as_str());
    }
    out
}

/// What `extract_token` returns: the non-empty token that directly follows
/// the first occurrence of `pat` and runs to the next space or the end of the
/// line.
pub open spec fn extract_token_spec(line: Seq<char>, pat: Seq<char>) -> Option<Seq<char>> {
    match find_spec(line, pat) {
        None => None,
        Some(i) => {
            let rest = line.subrange(i + pat.len() as int, line.len() as int);
            let tok = match find_spec(rest, seq![' ']) {
                Some(j) => rest.subrange(0, j),
                None => rest,
            };
            if tok.len() > 0 {
                Some(tok)
            } else {
                None
            }
        },
    }
}

/// Extracts the string field introduced by `pat` (for example `comm=`) from a
/// `key=value` trace line.
pub fn extract_token(line: &str, pat: &str) -> (r: Option<String>)
    ensures
        match r {
            Some(t) => extract_token_spec(line@, pat@) == Some(t@),
            None => extract_token_spec(line@, pat@) is None,
        },
{
    let start = match find_sub(line, pat) {
        Some(i) => i,
        None => {
            return None;
        },
    };
    let n = line.unicode_len();
    let p = pat.unicode_len();
    proof {
        lemma_find_spec(line@, pat@);
    }
    let rest = line.substring_char(start + p, n);
    proof {
        reveal_strlit(" ");
        assert(" "@ =~= seq![' ']);
    }
    let sp = find_sub(rest, " ");
    proof {
        lemma_find_spec(rest@, seq![' ']);
    }
    let tok = match sp {
        Some(j) => rest.substring_char(0, j),
        None => rest,
    };
    if tok.unicode_len() > 0 {
        Some(tok.to_owned())
    } else {
        None
    }
}

/// What `extract_metric` returns: the digit token that directly follows the
/// first occurrence of `pat` and runs to the next space or the end of the
/// line, parsed as a number.
pub open spec fn extract_metric_spec(line: Seq<char>, pat: Seq<char>) -> Option<u64> {
    match find_spec(line, pat) {
        None => None,
        Some(i) => {
            let rest = line.subrange(i + pat.len() as int, line.len() as int);
            let tok = match find_spec(rest, seq![' ']) {
                Some(j) => rest.subrange(0, j),
                None => rest,
            };
            if tok.len() > 0 && all_digits(tok) && digits_val(tok) <= u64::MAX {
                Some(digits_val(tok) as u64)
            } else {
                None
            }
        },
    }
}

/// Extracts the numeric field introduced by `pat` (for example `pid=`) from a
/// `key=value` trace line.
pub fn extract_metric(line: &str, pat: &str) -> (r: Option<u64>)
    ensures
        r == extract_metric_spec(line@, pat@),
{
    let start = match find_sub(line, pat) {
        Some(i) => i,
        None => {
            return None;
        },
    };
    let n = line.unicode_len();
    let p = pat.unicode_len();
    proof {
        lemma_find_spec(line@, pat@);
    }
    let rest = line.substring_char(start + p, n);
    proof {
        reveal_strlit(" ");
        assert(" "@ =~= seq![' ']);
    }
    let sp = find_sub(rest, " ");
    proof {
        lemma_find_spec(rest@, seq![' ']);
    }
    let tok = match sp {
        Some(j) => rest.substring_char(0, j),
        None => rest,
    };
    parse_u64(tok)
}

} // verus!
