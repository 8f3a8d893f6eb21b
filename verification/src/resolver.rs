//! Workload resolution: mapping a kernel identity (pid, cgroup path,
//! hostname) to the queries that identify its pod.
//!
//! Everything here is pure. The unverified rim reads `/proc` and executes the
//! store queries this module decides on, in order, taking the first success;
//! when no query is produced the event is dropped — no identity is ever
//! synthesized.

use vstd::prelude::*;

use crate::strutil::{
    all_digits, digit_of, digits_val, find_spec, find_sub, lemma_digits_val_nonneg,
    lemma_find_spec, is_digit_char, match_at, parse_u64, split_char_spec, split_lines,
    split_lines_spec, split_on, starts_with, str_eq,
};

verus! {

/// The workload identity of a resolved pid.
#[derive(Clone, Debug)]
pub struct PodInfo {
    pub name: String,
    pub namespace: String,
    pub container_name: String,
    pub cpu_request_millicores: u64,
    pub cpu_limit_millicores: u64,
}

/// Whether a process name is one of the container runtimes whose lineage the
/// observer follows.
pub open spec fn is_runtime_comm(comm: Seq<char>) -> bool {
    ||| comm == "containerd-shim"@
    ||| comm == "containerd-shim-runc-v2"@
    ||| comm == "runc"@
    ||| comm == "crun"@
    ||| comm == "conmon"@
}

/// Tests a process name against the container-runtime set.
pub fn is_container_runtime(comm: &str) -> (r: bool)
    ensures
        r == is_runtime_comm(comm@),
{
    str_eq(comm, "containerd-shim") || str_eq(comm, "containerd-shim-runc-v2")
        || str_eq(comm, "runc") || str_eq(comm, "crun") || str_eq(comm, "conmon")
}

/// Whether `c` can appear in a pod UID as written into a cgroup path.
pub open spec fn is_uid_char(c: char) -> bool {
    ||| ('0' as u32 <= c as u32 && c as u32 <= '9' as u32)
    ||| ('a' as u32 <= c as u32 && c as u32 <= 'f' as u32)
    ||| ('A' as u32 <= c as u32 && c as u32 <= 'F' as u32)
    ||| c == '-'
    ||| c == '_'
}

/// The longest prefix of `s` made of UID characters.
pub open spec fn take_uid_prefix(s: Seq<char>) -> Seq<char>
    decreases s.len(),
{
    if s.len() == 0 {
        Seq::empty()
    } else if is_uid_char(s[0]) {
        seq![s[0]] + take_uid_prefix(s.skip(1))
    } else {
        Seq::empty()
    }
}

/// The first run of UID characters in `s`.
pub open spec fn first_uid_run(s: Seq<char>) -> Seq<char>
    decreases s.len(),
{
    if s.len() == 0 {
        Seq::empty()
    } else if is_uid_char(s[0]) {
        take_uid_prefix(s)
    } else {
        first_uid_run(s.skip(1))
    }
}

/// A UID with its underscores normalized to dashes.
pub open spec fn normalize_uid(s: Seq<char>) -> Seq<char> {
    s.map_values(|c: char| if c == '_' { '-' } else { c })
}

/// The normalized UID read after the first occurrence of `marker`, where the
/// first run of UID characters behind the marker has the 32-or-more
/// characters of a pod UID.
pub open spec fn uid_after_marker(line: Seq<char>, marker: Seq<char>) -> Option<Seq<char>> {
    match find_spec(line, marker) {
        None => None,
        Some(i) => {
            let run = first_uid_run(line.subrange(i + marker.len() as int, line.len() as int));
            if run.len() >= 32 {
                Some(normalize_uid(run))
            } else {
                None
            }
        },
    }
}

/// The pod UID of one cgroup line: the cgroupfs form (`…/pod<UID>/…`) is
/// tried first, then — on kubepods lines — the systemd slice form
/// (`…-pod<UID>.slice`) and finally a bare `pod<UID>` segment.
pub open spec fn extract_uid_line_spec(line: Seq<char>) -> Option<Seq<char>> {
    if uid_after_marker(line, "/pod"@) is Some {
        uid_after_marker(line, "/pod"@)
    } else if find_spec(line, "kubepods"@) is Some {
        if uid_after_marker(line, "-pod"@) is Some {
            uid_after_marker(line, "-pod"@)
        } else {
            uid_after_marker(line, "pod"@)
        }
    } else {
        None
    }
}

/// The longest all-UID-character prefix is delimited by the first
/// non-UID character.
proof fn lemma_take_uid_prefix(s: Seq<char>, k: int)
    requires
        0 <= k <= s.len(),
        forall|j: int| 0 <= j < k ==> is_uid_char(s[j]),
        k == s.len() || !is_uid_char(s[k]),
    ensures
        take_uid_prefix(s) == s.subrange(0, k),
    decreases k,
{
    if k == 0 {
        assert(s.subrange(0, 0) =~= Seq::<char>::empty());
    } else {
        assert(is_uid_char(s[0]));
        lemma_take_uid_prefix(s.skip(1), k - 1);
        assert(seq![s[0]] + s.skip(1).subrange(0, k - 1) =~= s.subrange(0, k));
    }
}

/// Finds the bounds of the first run of UID characters in `s`.
fn uid_run_bounds(s: &str) -> (r: (usize, usize))
    ensures
        r.0 <= r.1 <= s@.len(),
        first_uid_run(s@) == s@.subrange(r.0 as int, r.1 as int),
{
    let n = s.unicode_len();
    let mut i: usize = 0;
    proof {
        assert(s@.skip(0) =~= s@);
    }
    while i < n
        invariant
            i <= n,
            n == s@.len(),
            first_uid_run(s@) == first_uid_run(s@.skip(i as int)),
        decreases n - i,
    {
        let c = s.get_char(i);
        proof {
            assert(s@.skip(i as int)[0] == s@[i as int]);
            assert(s@.skip(i as int).skip(1) =~= s@.skip(i + 1 as int));
        }
        if c == '-' || c == '_'
            || (c as u32 >= '0' as u32 && c as u32 <= '9' as u32)
            || (c as u32 >= 'a' as u32 && c as u32 <= 'f' as u32)
            || (c as u32 >= 'A' as u32 && c as u32 <= 'F' as u32)
        {
            let mut j = i + 1;
            let mut running = true;
            while running
                invariant
                    i < j <= n,
                    n == s@.len(),
                    forall|k: int| i <= k < j ==> is_uid_char(s@[k]),
                    !running ==> (j == n || !is_uid_char(s@[j as int])),
                decreases n - j, (if running { 1int } else { 0int }),
            {
                if j < n {
                    let d = s.get_char(j);
                    if d == '-' || d == '_'
                        || (d as u32 >= '0' as u32 && d as u32 <= '9' as u32)
                        || (d as u32 >= 'a' as u32 && d as u32 <= 'f' as u32)
                        || (d as u32 >= 'A' as u32 && d as u32 <= 'F' as u32)
                    {
                        j = j + 1;
                    } else {
                        running = false;
                    }
                } else {
                    running = false;
                }
            }
            proof {
                let tail = s@.skip(i as int);
                assert(is_uid_char(tail[0]));
                assert(first_uid_run(tail) == take_uid_prefix(tail));
                assert forall|k: int| 0 <= k < j - i implies is_uid_char(tail[k]) by {
                    assert(tail[k] == s@[i + k]);
                }
                if j < n {
                    assert(tail[j - i] == s@[j as int]);
                }
                lemma_take_uid_prefix(tail, j - i as int);
                assert(tail.subrange(0, j - i as int) =~= s@.subrange(i as int, j as int));
            }
            return (i, j);
        }
        i = i + 1;
    }
    proof {
        assert(s@.skip(n as int) =~= Seq::<char>::empty());
        assert(s@.subrange(n as int, n as int) =~= Seq::<char>::empty());
    }
    (n, n)
}

/// Rewrites every underscore of `s` to a dash.
pub fn replace_underscores(s: &str) -> (r: String)
    ensures
        r@ == normalize_uid(s@),
    decreases s@.len(),
{
    proof {
        reveal_strlit("_");
        reveal_strlit("-");
        assert("_"@ =~= seq!['_']);
    }
    let us = find_sub(s, "_");
    proof {
        lemma_find_spec(s@, seq!['_']);
    }
    match us {
        Some(i) => {
            let n = s.unicode_len();
            let mut out = s.substring_char(0, i).to_owned();
            out.append("-");
            let rest = replace_underscores(s.substring_char(i + 1, n));
            out.append(rest.as_str());
            proof {
                assert(s@.subrange(i as int, i + 1 as int)[0] == s@[i as int]);
                assert(s@[i as int] == '_');
                let sub = s@.subrange(i + 1 as int, n as int);
                assert(out@.len() == normalize_uid(s@).len());
                assert forall|k: int| 0 <= k < out@.len() implies
                    out@[k] == normalize_uid(s@)[k] by {
                    if k < i {
                        assert(!match_at(s@, seq!['_'], k));
                        assert(s@.subrange(k, k + 1)[0] == s@[k]);
                        if s@[k] == '_' {
                            assert(s@.subrange(k, k + 1) =~= seq!['_']);
                        }
                        assert(out@[k] == s@[k]);
                    } else if k == i {
                        assert(out@[k] == '-');
                    } else {
                        assert(out@[k] == normalize_uid(sub)[k - i - 1]);
                        assert(sub[k - i - 1] == s@[k]);
                    }
                }
                assert(out@ =~= normalize_uid(s@));
            }
            out
        },
        None => {
            proof {
                assert forall|j: int| 0 <= j < s@.len() implies s@[j] != '_' by {
                    assert(!match_at(s@, seq!['_'], j));
                    assert(s@.subrange(j, j + 1)[0] == s@[j]);
                    if s@[j] == '_' {
                        assert(s@.subrange(j, j + 1) =~= seq!['_']);
                    }
                }
                assert(s@ =~= normalize_uid(s@));
            }
            s.to_owned()
        },
    }
}

/// Reads the normalized pod UID behind `marker`, if the run behind it is long
/// enough to be a pod UID.
fn uid_behind_marker(line: &str, marker: &str) -> (r: Option<String>)
    ensures
        match r {
            Some(u) => uid_after_marker(line@, marker@) == Some(u@),
            None => uid_after_marker(line@, marker@) is None,
        },
{
    let i = match find_sub(line, marker) {
        Some(i) => i,
        None => {
            return None;
        },
    };
    proof {
        lemma_find_spec(line@, marker@);
    }
    let n = line.unicode_len();
    let m = marker.unicode_len();
    let rest = line.substring_char(i + m, n);
    let (a, b) = uid_run_bounds(rest);
    if b - a >= 32 {
        let run = rest.substring_char(a, b);
        Some(replace_underscores(run))
    } else {
        None
    }
}

/// Extracts the pod UID from one line of `/proc/<pid>/cgroup`, trying the
/// cgroupfs form first and the systemd slice forms on kubepods lines.
pub fn extract_pod_uid_from_cgroup_line(line: &str) -> (r: Option<String>)
    ensures
        match r {
            Some(u) => extract_uid_line_spec(line@) == Some(u@),
            None => extract_uid_line_spec(line@) is None,
        },
{
    if let Some(u) = uid_behind_marker(line, "/pod") {
        return Some(u);
    }
    if contains_kubepods(line) {
        if let Some(u) = uid_behind_marker(line, "-pod") {
            return Some(u);
        }
        return uid_behind_marker(line, "pod");
    }
    None
}

/// Whether a cgroup line mentions the kubepods hierarchy.
fn contains_kubepods(line: &str) -> (r: bool)
    ensures
        r == (find_spec(line@, "kubepods"@) is Some),
{
    find_sub(line, "kubepods").is_some()
}

/// The first pod UID any line of a cgroup file yields.
pub open spec fn first_uid_in_lines(lines: Seq<Seq<char>>) -> Option<Seq<char>>
    decreases lines.len(),
{
    if lines.len() == 0 {
        None
    } else {
        match extract_uid_line_spec(lines[0]) {
            Some(u) => Some(u),
            None => first_uid_in_lines(lines.skip(1)),
        }
    }
}

/// The pod UID that a whole `/proc/<pid>/cgroup` file yields: the first line
/// with a recognizable pod segment decides.
pub open spec fn cgroup_uid_spec(content: Seq<char>) -> Option<Seq<char>> {
    first_uid_in_lines(split_lines_spec(content))
}

/// Extracts the pod UID from the content of `/proc/<pid>/cgroup`.
pub fn extract_pod_uid_from_cgroup_content(content: &str) -> (r: Option<String>)
    ensures
        match r {
            Some(u) => cgroup_uid_spec(content@) == Some(u@),
            None => cgroup_uid_spec(content@) is None,
        },
{
    let lines = split_lines(content);
    let ghost lv = split_lines_spec(content@);
    proof {
        assert(lv.skip(0) =~= lv);
    }
    let mut i: usize = 0;
    while i < lines.len()
        invariant
            lv == split_lines_spec(content@),
            lines@.len() == lv.len(),
            forall|j: int| 0 <= j < lv.len() ==> lines@[j]@ == lv[j],
            i <= lv.len(),
            first_uid_in_lines(lv.skip(i as int)) == first_uid_in_lines(lv),
        decreases lv.len() - i,
    {
        proof {
            assert(lv.skip(i as int)[0] == lv[i as int]);
            assert(lv.skip(i as int).skip(1) =~= lv.skip(i + 1 as int));
        }
        if let Some(u) = extract_pod_uid_from_cgroup_line(lines[i].as_str()) {
            return Some(u);
        }
        i = i + 1;
    }
    proof {
        assert(lv.skip(lv.len() as int) =~= Seq::<Seq<char>>::empty());
    }
    None
}

/// Whether a variable of `/proc/<pid>/environ` starts with the `HOSTNAME=`
/// prefix.
pub open spec fn starts_with_spec(s: Seq<char>, p: Seq<char>) -> bool {
    match_at(s, p, 0)
}

/// The value of the first `HOSTNAME=` variable of a NUL-separated environment
/// block.
pub open spec fn first_hostname(vars: Seq<Seq<char>>) -> Option<Seq<char>>
    decreases vars.len(),
{
    if vars.len() == 0 {
        None
    } else if starts_with_spec(vars[0], "HOSTNAME="@) {
        Some(vars[0].skip("HOSTNAME="@.len() as int))
    } else {
        first_hostname(vars.skip(1))
    }
}

/// The hostname a whole environment block yields.
pub open spec fn hostname_spec(environ: Seq<char>) -> Option<Seq<char>> {
    first_hostname(split_char_spec(environ, '\u{0}'))
}

/// Reads the pod hostname out of the content of `/proc/<pid>/environ`.
pub fn hostname_from_environ(environ: &str) -> (r: Option<String>)
    ensures
        match r {
            Some(h) => hostname_spec(environ@) == Some(h@),
            None => hostname_spec(environ@) is None,
        },
{
    proof {
        reveal_strlit("\u{0}");
        reveal_strlit("HOSTNAME=");
        assert("\u{0}"@ =~= seq!['\u{0}']);
    }
    let vars = split_on(environ, "\u{0}");
    let ghost lv = split_char_spec(environ@, '\u{0}');
    proof {
        assert(lv.skip(0) =~= lv);
    }
    let mut i: usize = 0;
    while i < vars.len()
        invariant
            lv == split_char_spec(environ@, '\u{0}'),
            vars@.len() == lv.len(),
            forall|j: int| 0 <= j < lv.len() ==> vars@[j]@ == lv[j],
            i <= lv.len(),
            first_hostname(lv.skip(i as int)) == first_hostname(lv),
            "HOSTNAME="@.len() == 9,
        decreases lv.len() - i,
    {
        proof {
            assert(lv.skip(i as int)[0] == lv[i as int]);
            assert(lv.skip(i as int).skip(1) =~= lv.skip(i + 1 as int));
        }
        let v = &vars[i];
        if starts_with(v.as_str(), "HOSTNAME=") {
            let n = v.as_str().unicode_len();
            let value = v.as_str().substring_char(9, n);
            proof {
                assert(value@ =~= lv[i as int].skip(9));
            }
            return Some(value.to_owned());
        }
        i = i + 1;
    }
    proof {
        assert(lv.skip(lv.len() as int) =~= Seq::<Seq<char>>::empty());
    }
    None
}

/// The scaled value of up to three fractional digits, in thousandths.
pub open spec fn frac_thousandths(fr: Seq<char>) -> int {
    if fr.len() >= 3 {
        digits_val(fr.subrange(0, 3))
    } else if fr.len() == 2 {
        digits_val(fr) * 10
    } else if fr.len() == 1 {
        digits_val(fr) * 100
    } else {
        0
    }
}

/// The millicore reading of a CPU quantity string: `<digits>m` reads as
/// millicores; a decimal number of cores reads as its thousandfold, keeping
/// three fractional digits. A string that parses as neither — or whose value
/// would not fit a `u64` of millicores — reads as zero, as an unparsable
/// request does.
pub open spec fn cpu_quantity_millicores_spec(q: Seq<char>) -> int {
    if q.len() > 0 && q.last() == 'm' {
        let d = q.drop_last();
        if d.len() > 0 && all_digits(d) && digits_val(d) <= u64::MAX {
            digits_val(d)
        } else {
            0
        }
    } else {
        match find_spec(q, seq!['.']) {
            Some(i) => {
                let ip = q.subrange(0, i);
                let fr = q.subrange(i + 1, q.len() as int);
                if (ip.len() > 0 || fr.len() > 0) && all_digits(ip) && all_digits(fr)
                    && digits_val(ip) <= (u64::MAX - 999) / 1000 {
                    digits_val(ip) * 1000 + frac_thousandths(fr)
                } else {
                    0
                }
            },
            None => if q.len() > 0 && all_digits(q) && digits_val(q) <= (u64::MAX - 999) / 1000 {
                digits_val(q) * 1000
            } else {
                0
            },
        }
    }
}

/// Parses a CPU quantity into millicores.
pub fn parse_cpu_quantity_millicores(q: &str) -> (r: u64)
    ensures
        r == cpu_quantity_millicores_spec(q@),
{
    let n = q.unicode_len();
    if n > 0 && q.get_char(n - 1) == 'm' {
        let d = q.substring_char(0, n - 1);
        proof {
            assert(d@ =~= q@.drop_last());
        }
        return match parse_u64(d) {
            Some(v) => v,
            None => 0,
        };
    }
    proof {
        reveal_strlit(".");
        assert("."@ =~= seq!['.']);
    }
    let dot = find_sub(q, ".");
    proof {
        lemma_find_spec(q@, seq!['.']);
    }
    match dot {
        Some(i) => {
            let ip = q.substring_char(0, i);
            let fr = q.substring_char(i + 1, n);
            let ipv: u64 = if ip.unicode_len() == 0 {
                proof {
                    assert(all_digits(ip@));
                }
                0
            } else {
                match parse_u64(ip) {
                    Some(v) => v,
                    None => {
                        return 0;
                    },
                }
            };
            if ipv > (u64::MAX - 999) / 1000 {
                return 0;
            }
            let frv: u64 = match frac_value(fr) {
                Some(v) => v,
                None => {
                    return 0;
                },
            };
            ipv * 1000 + frv
        },
        None => {
            match parse_u64(q) {
                Some(v) => if v <= (u64::MAX - 999) / 1000 {
                    v * 1000
                } else {
                    0
                },
                None => 0,
            }
        },
    }
}

/// Parses the fractional digits of a cores quantity into thousandths,
/// rejecting non-digit characters.
fn frac_value(fr: &str) -> (r: Option<u64>)
    ensures
        match r {
            Some(v) => all_digits(fr@) && v == frac_thousandths(fr@) && v <= 999,
            None => !all_digits(fr@),
        },
{
    let n = fr.unicode_len();
    if n == 0 {
        proof {
            assert(all_digits(fr@));
        }
        return Some(0);
    }
    let keep = if n >= 3 {
        3
    } else {
        n
    };
    let head = fr.substring_char(0, keep);
    let v = match parse_u64(head) {
        Some(v) => v,
        None => {
            proof {
                if all_digits(fr@) {
                    assert forall|j: int| 0 <= j < head@.len() implies is_digit_char(head@[j]) by {
                        assert(head@[j] == fr@[j]);
                    }
                    lemma_digits_val_bounded(head@);
                }
            }
            return None;
        },
    };
    let mut i = keep;
    while i < n
        invariant
            keep <= i <= n,
            n == fr@.len(),
            forall|j: int| keep <= j < i ==> is_digit_char(fr@[j]),
        decreases n - i,
    {
        let c = fr.get_char(i);
        let u = c as u32;
        if u < '0' as u32 || u > '9' as u32 {
            proof {
                assert(!is_digit_char(fr@[i as int]));
                assert(!all_digits(fr@));
            }
            return None;
        }
        i = i + 1;
    }
    proof {
        assert forall|j: int| 0 <= j < fr@.len() implies is_digit_char(fr@[j]) by {
            if j < keep {
                assert(head@[j] == fr@[j]);
            }
        }
        if n >= 3 {
            assert(head@ =~= fr@.subrange(0, 3));
        } else {
            assert(head@ =~= fr@);
        }
        lemma_digits_val_bounded(head@);
    }
    if n >= 3 {
        Some(v)
    } else if n == 2 {
        Some(v * 10)
    } else {
        Some(v * 100)
    }
}

/// A three-digit-or-fewer value stays below the bounds that scaling to
/// thousandths needs.
proof fn lemma_digits_val_bounded(s: Seq<char>)
    requires
        all_digits(s),
    ensures
        s.len() == 0 ==> digits_val(s) == 0,
        s.len() <= 1 ==> digits_val(s) <= 9,
        s.len() <= 2 ==> digits_val(s) <= 99,
        s.len() <= 3 ==> digits_val(s) <= 999,
    decreases s.len(),
{
    if s.len() > 0 {
        assert(all_digits(s.drop_last()));
        lemma_digits_val_bounded(s.drop_last());
        assert(digit_of(s.last()) <= 9);
    }
}

/// The sum of a list of CPU quantities, in millicores.
pub open spec fn sum_millicores(qs: Seq<Seq<char>>) -> int
    decreases qs.len(),
{
    if qs.len() == 0 {
        0
    } else {
        sum_millicores(qs.drop_last()) + cpu_quantity_millicores_spec(qs.last())
    }
}

/// Each quantity reads as a non-negative number of millicores.
proof fn lemma_quantity_nonneg(q: Seq<char>)
    ensures
        cpu_quantity_millicores_spec(q) >= 0,
{
    if q.len() > 0 && q.last() == 'm' {
        let d = q.drop_last();
        if d.len() > 0 && all_digits(d) && digits_val(d) <= u64::MAX {
            lemma_digits_val_nonneg(d);
        }
    } else {
        match find_spec(q, seq!['.']) {
            Some(i) => {
                let ip = q.subrange(0, i);
                let fr = q.subrange(i + 1, q.len() as int);
                if (ip.len() > 0 || fr.len() > 0) && all_digits(ip) && all_digits(fr)
                    && digits_val(ip) <= (u64::MAX - 999) / 1000 {
                    lemma_digits_val_nonneg(ip);
                    if fr.len() >= 3 {
                        assert(all_digits(fr.subrange(0, 3)));
                        lemma_digits_val_nonneg(fr.subrange(0, 3));
                    } else {
                        lemma_digits_val_nonneg(fr);
                    }
                }
            },
            None => {
                if q.len() > 0 && all_digits(q) && digits_val(q) <= (u64::MAX - 999) / 1000 {
                    lemma_digits_val_nonneg(q);
                }
            },
        }
    }
}

/// Every sum of millicore quantities is non-negative.
proof fn lemma_sum_millicores_nonneg(qs: Seq<Seq<char>>)
    ensures
        sum_millicores(qs) >= 0,
    decreases qs.len(),
{
    if qs.len() > 0 {
        lemma_sum_millicores_nonneg(qs.drop_last());
        lemma_quantity_nonneg(qs.last());
    }
}

/// A partial sum of millicore quantities never exceeds the total.
proof fn lemma_sum_millicores_mono(qs: Seq<Seq<char>>, i: int)
    requires
        0 <= i <= qs.len(),
    ensures
        0 <= sum_millicores(qs.subrange(0, i)) <= sum_millicores(qs),
    decreases qs.len(),
{
    if i == qs.len() {
        assert(qs.subrange(0, i) =~= qs);
        lemma_sum_millicores_nonneg(qs);
    } else {
        lemma_sum_millicores_mono(qs.drop_last(), i);
        assert(qs.subrange(0, i) =~= qs.drop_last().subrange(0, i));
        lemma_quantity_nonneg(qs.last());
    }
}

/// Sums the CPU quantities of a pod's containers, in millicores, saturating
/// at what a `u64` can hold.
pub fn sum_cpu_quantities(qs: &Vec<String>) -> (r: u64)
    ensures
        r == if sum_millicores(qs.deep_view()) > u64::MAX {
            u64::MAX as int
        } else {
            sum_millicores(qs.deep_view())
        },
{
    let ghost qv = qs.deep_view();
    let mut acc: u64 = 0;
    let mut i: usize = 0;
    proof {
        assert(qv.subrange(0, 0) =~= Seq::<Seq<char>>::empty());
    }
    while i < qs.len()
        invariant
            qv == qs.deep_view(),
            qs@.len() == qv.len(),
            forall|j: int| 0 <= j < qv.len() ==> qs@[j]@ == qv[j],
            i <= qv.len(),
            acc == if sum_millicores(qv.subrange(0, i as int)) > u64::MAX {
                u64::MAX as int
            } else {
                sum_millicores(qv.subrange(0, i as int))
            },
        decreases qv.len() - i,
    {
        let v = parse_cpu_quantity_millicores(qs[i].as_str());
        proof {
            assert(qv.subrange(0, i + 1 as int).drop_last() =~= qv.subrange(0, i as int));
            assert(qv.subrange(0, i + 1 as int).last() == qv[i as int]);
            lemma_quantity_nonneg(qv[i as int]);
            lemma_sum_millicores_mono(qv.subrange(0, i + 1 as int), i as int);
        }
        if acc > u64::MAX - v {
            acc = u64::MAX;
        } else {
            acc = acc + v;
        }
        i = i + 1;
    }
    proof {
        assert(qv.subrange(0, qv.len() as int) =~= qv);
    }
    acc
}

/// The CPU reading of a `top pod` report: its second whitespace-delimited
/// column, read as millicores. Since a millicore is a tenth of a percent of
/// one core, the value doubles as the reported CPU percentage in tenths.
pub open spec fn top_cpu_millicores_spec(output: Seq<char>) -> Option<int> {
    let words = crate::strutil::words_spec(output);
    if words.len() >= 2 {
        Some(cpu_quantity_millicores_spec(words[1]))
    } else {
        None
    }
}

/// Reads the CPU column out of a `top pod` report line, in millicores;
/// nothing where the report has no such column.
pub fn parse_top_cpu_millicores(output: &str) -> (r: Option<u64>)
    ensures
        match r {
            Some(v) => top_cpu_millicores_spec(output@) == Some(v as int),
            None => top_cpu_millicores_spec(output@) is None,
        },
{
    let words = crate::strutil::split_whitespace_words(output);
    if words.len() >= 2 {
        Some(parse_cpu_quantity_millicores(words[1].as_str()))
    } else {
        None
    }
}

/// One step of the ancestor chain the unverified rim reads out of `/proc`:
/// the process id, its name, and the content of its cgroup file.
pub struct ProcEntry {
    pub pid: u32,
    pub comm: String,
    pub cgroup_content: Option<String>,
}

/// The index of the first container-runtime process within the bounded
/// ancestor walk (ten steps, the observed pid itself first).
pub open spec fn runtime_index_from(chain: Seq<ProcEntry>, i: int) -> Option<int>
    decreases 10 - i,
{
    if i >= 10 || i >= chain.len() || i < 0 {
        None
    } else if is_runtime_comm(chain[i].comm@) {
        Some(i)
    } else {
        runtime_index_from(chain, i + 1)
    }
}

/// Finds the first container-runtime process in the ancestor chain, within
/// the bounded depth.
pub fn find_runtime_ancestor(chain: &Vec<ProcEntry>) -> (r: Option<usize>)
    ensures
        match r {
            Some(i) => runtime_index_from(chain@, 0) == Some(i as int) && i < chain@.len(),
            None => runtime_index_from(chain@, 0) is None,
        },
{
    let mut i: usize = 0;
    let bound = if chain.len() < 10 {
        chain.len()
    } else {
        10
    };
    while i < bound
        invariant
            bound == if chain@.len() < 10 {
                chain@.len() as int
            } else {
                10
            },
            i <= bound,
            runtime_index_from(chain@, 0) == runtime_index_from(chain@, i as int),
        decreases bound - i,
    {
        if is_container_runtime(chain[i].comm.as_str()) {
            return Some(i);
        }
        i = i + 1;
    }
    None
}

/// The store query that identifies a workload.
#[derive(Clone, Debug)]
pub enum ResolveQuery {
    ByUid(String),
    ByName(String),
}

/// The mathematical image of a resolve query.
pub enum ResolveQueryV {
    ByUid(Seq<char>),
    ByName(Seq<char>),
}

impl View for ResolveQuery {
    type V = ResolveQueryV;

    open spec fn view(&self) -> ResolveQueryV {
        match self {
            ResolveQuery::ByUid(u) => ResolveQueryV::ByUid(u@),
            ResolveQuery::ByName(n) => ResolveQueryV::ByName(n@),
        }
    }
}

/// What the unverified rim read out of `/proc` for one pid: the pid's own
/// cgroup file, its ancestor chain (the pid itself first), and its
/// environment block.
pub struct ProcSnapshot {
    pub cgroup_content: Option<String>,
    pub chain: Vec<ProcEntry>,
    pub environ: Option<String>,
}

/// The pod UID the runtime-ancestor strategy yields: the first runtime
/// process in the bounded chain whose cgroup file carries a pod UID.
pub open spec fn ancestor_uid_spec(chain: Seq<ProcEntry>) -> Option<Seq<char>> {
    match runtime_index_from(chain, 0) {
        Some(i) => match chain[i].cgroup_content {
            Some(c) => cgroup_uid_spec(c@),
            None => None,
        },
        None => None,
    }
}

/// The ordered store queries that resolve a kernel identity, per the three
/// strategies: the pid's own cgroup UID, then the runtime ancestor's cgroup
/// UID, then the hostname. An empty sequence means the event must be dropped;
/// no identity is ever synthesized.
pub open spec fn resolution_queries_spec(snap: ProcSnapshot) -> Seq<ResolveQueryV> {
    let q1: Seq<ResolveQueryV> = match snap.cgroup_content {
        Some(c) => match cgroup_uid_spec(c@) {
            Some(u) => seq![ResolveQueryV::ByUid(u)],
            None => seq![],
        },
        None => seq![],
    };
    let q2: Seq<ResolveQueryV> = match ancestor_uid_spec(snap.chain@) {
        Some(u) => seq![ResolveQueryV::ByUid(u)],
        None => seq![],
    };
    let q3: Seq<ResolveQueryV> = match snap.environ {
        Some(e) => match hostname_spec(e@) {
            Some(h) => seq![ResolveQueryV::ByName(h)],
            None => seq![],
        },
        None => seq![],
    };
    q1 + q2 + q3
}

/// Decides the ordered store queries for one kernel identity. The rim runs
/// them in order and takes the first pod they yield; with no queries the
/// event is dropped.
pub fn resolution_queries(snap: &ProcSnapshot) -> (r: Vec<ResolveQuery>)
    ensures
        r@.len() == resolution_queries_spec(*snap).len(),
        forall|i: int| 0 <= i < r@.len() ==> r@[i]@ == resolution_queries_spec(*snap)[i],
{
    let mut out: Vec<ResolveQuery> = Vec::new();
    match &snap.cgroup_content {
        Some(c) => {
            if let Some(u) = extract_pod_uid_from_cgroup_content(c.as_str()) {
                out.push(ResolveQuery::ByUid(u));
            }
        },
        None => {},
    }
    match find_runtime_ancestor(&snap.chain) {
        Some(i) => {
            match &snap.chain[i].cgroup_content {
                Some(c) => {
                    if let Some(u) = extract_pod_uid_from_cgroup_content(c.as_str()) {
                        out.push(ResolveQuery::ByUid(u));
                    }
                },
                None => {},
            }
        },
        None => {},
    }
    match &snap.environ {
        Some(e) => {
            if let Some(h) = hostname_from_environ(e.as_str()) {
                out.push(ResolveQuery::ByName(h));
            }
        },
        None => {},
    }
    out
}

/// With no pod UID in the pid's own cgroup file, no container-runtime
/// ancestor, and no hostname in its environment, the resolver returns no
/// query at all: the event is dropped rather than attributed.
pub proof fn lemma_resolution_returns_none(snap: ProcSnapshot)
    requires
        match snap.cgroup_content {
            Some(c) => cgroup_uid_spec(c@) is None,
            None => true,
        },
        runtime_index_from(snap.chain@, 0) is None,
        match snap.environ {
            Some(e) => hostname_spec(e@) is None,
            None => true,
        },
    ensures
        resolution_queries_spec(snap).len() == 0,
{
    assert(resolution_queries_spec(snap) =~= Seq::<ResolveQueryV>::empty());
}

/// The pod UID embedded in a cgroup directory name of the form
/// `kubepods-<class>-pod<UID>.slice`: the text between the first `pod` and
/// the following `.slice`, or the whole name where either is missing.
pub open spec fn extract_pod_uid_spec(name: Seq<char>) -> Seq<char> {
    match find_spec(name, "pod"@) {
        Some(i) => {
            let rest = name.subrange(i + 3, name.len() as int);
            match find_spec(rest, ".slice"@) {
                Some(j) => rest.subrange(0, j),
                None => name,
            }
        },
        None => name,
    }
}

/// Extracts the pod UID from a cgroup directory name.
pub fn extract_pod_uid(cgroup_name: &str) -> (r: String)
    ensures
        r@ == extract_pod_uid_spec(cgroup_name@),
{
    let start = match find_sub(cgroup_name, "pod") {
        Some(i) => i,
        None => {
            return cgroup_name.to_owned();
        },
    };
    proof {
        lemma_find_spec(cgroup_name@, "pod"@);
        reveal_strlit("pod");
    }
    let n = cgroup_name.unicode_len();
    let rest = cgroup_name.substring_char(start + 3, n);
    let sl = find_sub(rest, ".slice");
    proof {
        lemma_find_spec(rest@, ".slice"@);
    }
    match sl {
        Some(j) => rest.substring_char(0, j).to_owned(),
        None => cgroup_name.to_owned(),
    }
}

} // verus!
