use vstd::prelude::*;
use vstd::relations::{sorted_by, total_ordering};
use vstd::seq_lib::lemma_sorted_unique;
use vstd::string::StrSliceExecFns;
use vstd::string::StringExecFns;

verus! {

/// A decimal digit character.
pub open spec fn is_digit_char(c: char) -> bool {
    '0' <= c <= '9'
}

/// One or more decimal digit characters.
pub open spec fn is_digits(s: Seq<char>) -> bool {
    s.len() > 0 && forall|i: int| 0 <= i < s.len() ==> is_digit_char(#[trigger] s[i])
}

/// A well-formed version identifier: one or more digits, a dot, one or more
/// digits. Every operation that takes a raw version checks this shape before
/// using the version in a path or URL.
pub open spec fn is_version_str(s: Seq<char>) -> bool {
    exists|i: int|
        0 <= i < s.len() && s[i] == '.' && is_digits(#[trigger] s.take(i)) && is_digits(
            s.skip(i + 1),
        )
}

/// Checks that `version` has the shape `<major>.<minor>`: digits, one dot,
/// digits, with nothing before, between or after.
pub fn validate_version(version: &str) -> (r: bool)
    ensures
        r == is_version_str(version@),
{
    let ghost s = version@;
    let n: usize = version.unicode_len();
    let mut first_dot: Option<usize> = None;
    let mut second_dot: Option<usize> = None;
    let mut bad: Option<usize> = None;
    let mut i: usize = 0;
    while i < n
        invariant
            n == s.len(),
            s == version@,
            i <= n,
            match bad {
                None => forall|k: int| 0 <= k < i ==> is_digit_char(#[trigger] s[k]) || s[k] == '.',
                Some(j) => j < i && !is_digit_char(s[j as int]) && s[j as int] != '.',
            },
            match first_dot {
                None => forall|k: int| 0 <= k < i ==> #[trigger] s[k] != '.',
                Some(d) => d < i && s[d as int] == '.' && forall|k: int|
                    0 <= k < d ==> #[trigger] s[k] != '.',
            },
            match second_dot {
                None => (first_dot matches Some(d) ==> forall|k: int|
                    d < k < i ==> #[trigger] s[k] != '.'),
                Some(d2) => d2 < i && s[d2 as int] == '.' && (first_dot matches Some(d) && d
                    < d2),
            },
        decreases n - i,
    {
        let c = version.get_char(i);
        if '0' <= c && c <= '9' {
            // a digit: nothing to record
        } else if c == '.' {
            if first_dot.is_none() {
                first_dot = Some(i);
            } else if second_dot.is_none() {
                second_dot = Some(i);
            }
        } else {
            if bad.is_none() {
                bad = Some(i);
            }
        }
        i = i + 1;
    }
    let r = match (bad, first_dot, second_dot) {
        (None, Some(d), None) => d > 0 && d + 1 < n,
        _ => false,
    };
    proof {
        if r {
            let d = first_dot->Some_0 as int;
            assert(is_digits(s.take(d))) by {
                assert forall|k: int| 0 <= k < s.take(d).len() implies is_digit_char(
                    #[trigger] s.take(d)[k],
                ) by {
                    assert(s.take(d)[k] == s[k]);
                    assert(s[k] != '.');
                }
            }
            assert(is_digits(s.skip(d + 1))) by {
                assert forall|k: int| 0 <= k < s.skip(d + 1).len() implies is_digit_char(
                    #[trigger] s.skip(d + 1)[k],
                ) by {
                    assert(s.skip(d + 1)[k] == s[d + 1 + k]);
                    assert(s[d + 1 + k] != '.');
                }
            }
            assert(is_version_str(s));
        } else {
            assert forall|i0: int|
                !(0 <= i0 < s.len() && s[i0] == '.' && is_digits(#[trigger] s.take(i0))
                    && is_digits(s.skip(i0 + 1))) by {
                if 0 <= i0 < s.len() && s[i0] == '.' {
                    match bad {
                        Some(j) => {
                            let j = j as int;
                            if j < i0 {
                                assert(s.take(i0)[j] == s[j]);
                                assert(!is_digits(s.take(i0)));
                            } else {
                                assert(j != i0);
                                assert(s.skip(i0 + 1)[j - i0 - 1] == s[j]);
                                assert(!is_digits(s.skip(i0 + 1)));
                            }
                        },
                        None => {
                            match first_dot {
                                None => {
                                    assert(s[i0] != '.');
                                },
                                Some(d) => {
                                    let d = d as int;
                                    match second_dot {
                                        Some(d2) => {
                                            let d2 = d2 as int;
                                            if i0 > d {
                                                assert(s.take(i0)[d] == s[d]);
                                                assert(!is_digit_char('.'));
                                                assert(!is_digits(s.take(i0)));
                                            } else {
                                                assert(i0 == d);
                                                assert(s.skip(i0 + 1)[d2 - i0 - 1] == s[d2]);
                                                assert(!is_digits(s.skip(i0 + 1)));
                                            }
                                        },
                                        None => {
                                            // the dot is unique, so i0 == d, and d must
                                            // stand at an end of the string
                                            assert(i0 == d);
                                            if d == 0 {
                                                assert(s.take(i0).len() == 0);
                                            } else {
                                                assert(d + 1 >= n);
                                                assert(s.skip(i0 + 1).len() == 0);
                                            }
                                        },
                                    }
                                },
                            }
                        },
                    }
                }
            }
            assert(!is_version_str(s));
        }
    }
    r
}

/// The numeric value of a digit character.
pub open spec fn digit_val(c: char) -> int {
    c as int - '0' as int
}

/// The value of a digit string read in base ten.
pub open spec fn digits_val(s: Seq<char>) -> int
    decreases s.len(),
{
    if s.len() == 0 {
        0
    } else {
        digits_val(s.drop_last()) * 10 + digit_val(s.last())
    }
}

/// The position of the dot of a well-formed version identifier.
pub open spec fn dot_pos(s: Seq<char>) -> int {
    choose|i: int|
        0 <= i < s.len() && s[i] == '.' && is_digits(#[trigger] s.take(i)) && is_digits(
            s.skip(i + 1),
        )
}

/// The numeric major component of a well-formed version identifier.
pub open spec fn major_val(s: Seq<char>) -> int {
    digits_val(s.take(dot_pos(s)))
}

/// The numeric minor component of a well-formed version identifier.
pub open spec fn minor_val(s: Seq<char>) -> int {
    digits_val(s.skip(dot_pos(s) + 1))
}

proof fn lemma_digits_val_nonneg(s: Seq<char>)
    requires
        forall|i: int| 0 <= i < s.len() ==> is_digit_char(#[trigger] s[i]),
    ensures
        digits_val(s) >= 0,
    decreases s.len(),
{
    if s.len() > 0 {
        lemma_digits_val_nonneg(s.drop_last());
    }
}

proof fn lemma_digits_val_extend(s: Seq<char>, from: int, i: int)
    requires
        0 <= from <= i < s.len(),
    ensures
        digits_val(s.subrange(from, i + 1)) == digits_val(s.subrange(from, i)) * 10 + digit_val(
            s[i],
        ),
{
    assert(s.subrange(from, i + 1).drop_last() =~= s.subrange(from, i));
    assert(s.subrange(from, i + 1).last() == s[i]);
}

proof fn lemma_digits_val_monotone(s: Seq<char>, from: int, i: int, j: int)
    requires
        0 <= from <= i <= j <= s.len(),
        forall|k: int| from <= k < j ==> is_digit_char(#[trigger] s[k]),
    ensures
        digits_val(s.subrange(from, j)) >= digits_val(s.subrange(from, i)),
    decreases j - i,
{
    if j > i {
        lemma_digits_val_monotone(s, from, i, j - 1);
        lemma_digits_val_extend(s, from, j - 1);
        assert(forall|k: int|
            0 <= k < s.subrange(from, j - 1).len() ==> is_digit_char(
                #[trigger] s.subrange(from, j - 1)[k],
            ));
        lemma_digits_val_nonneg(s.subrange(from, j - 1));
    }
}

/// Parses the digit run `s[from..to]` in base ten; `None` exactly when the
/// value does not fit a `u32`.
fn parse_digits(s: &str, from: usize, to: usize) -> (r: Option<u32>)
    requires
        from < to <= s@.len(),
        forall|k: int| from <= k < to ==> is_digit_char(#[trigger] s@[k]),
    ensures
        r is Some <==> digits_val(s@.subrange(from as int, to as int)) <= u32::MAX,
        r matches Some(v) ==> v == digits_val(s@.subrange(from as int, to as int)),
{
    let mut val: u64 = 0;
    let mut i: usize = from;
    while i < to
        invariant
            from <= i <= to <= s@.len(),
            forall|k: int| from <= k < to ==> is_digit_char(#[trigger] s@[k]),
            val == digits_val(s@.subrange(from as int, i as int)),
            val <= u32::MAX,
        decreases to - i,
    {
        let c = s.get_char(i);
        assert(is_digit_char(c));
        let d: u32 = c as u32 - '0' as u32;
        assert(d <= 9);
        let nv: u64 = val * 10 + d as u64;
        proof {
            lemma_digits_val_extend(s@, from as int, i as int);
        }
        if nv > u32::MAX as u64 {
            proof {
                lemma_digits_val_monotone(s@, from as int, i as int + 1, to as int);
            }
            return None;
        }
        val = nv;
        i = i + 1;
    }
    Some(val as u32)
}

/// Parses a version identifier into its numeric major and minor components;
/// `None` exactly when the shape is wrong or a component does not fit a `u32`.
pub fn parse_version(version: &str) -> (r: Option<(u32, u32)>)
    ensures
        r is Some <==> is_version_str(version@) && major_val(version@) <= u32::MAX && minor_val(
            version@,
        ) <= u32::MAX,
        r matches Some(v) ==> v.0 == major_val(version@) && v.1 == minor_val(version@),
{
    let ghost s = version@;
    if !validate_version(version) {
        return None;
    }
    let ghost dp = dot_pos(s);
    proof {
        assert(0 <= dp < s.len() && s[dp] == '.' && is_digits(s.take(dp)) && is_digits(
            s.skip(dp + 1),
        ));
    }
    let n: usize = version.unicode_len();
    let mut d: usize = 0;
    while d < n && version.get_char(d) != '.'
        invariant
            s == version@,
            n == s.len(),
            d <= n,
            0 <= dp < s.len() && s[dp] == '.',
            forall|k: int| 0 <= k < d ==> #[trigger] s[k] != '.',
        decreases n - d,
    {
        d = d + 1;
    }
    proof {
        assert(d < n);
        assert(d as int == dp) by {
            if (d as int) < dp {
                assert(s.take(dp)[d as int] == s[d as int]);
                assert(!is_digit_char('.'));
            }
        }
        assert(forall|k: int| 0 <= k < d ==> is_digit_char(#[trigger] s[k])) by {
            assert(forall|k: int| 0 <= k < d ==> s.take(dp)[k] == #[trigger] s[k]);
        }
        assert(forall|k: int| d < k < n ==> is_digit_char(#[trigger] s[k])) by {
            assert(forall|k: int| d < k < n ==> s.skip(dp + 1)[k - dp - 1] == #[trigger] s[k]);
        }
        assert(s.take(dp) =~= s.subrange(0, d as int));
        assert(s.skip(dp + 1) =~= s.subrange(d as int + 1, n as int));
    }
    let major = parse_digits(version, 0, d);
    let minor = parse_digits(version, d + 1, n);
    match (major, minor) {
        (Some(a), Some(b)) => Some((a, b)),
        _ => None,
    }
}

/// The digit character of a value below ten.
pub open spec fn digit_char(d: int) -> char {
    if d == 0 {
        '0'
    } else if d == 1 {
        '1'
    } else if d == 2 {
        '2'
    } else if d == 3 {
        '3'
    } else if d == 4 {
        '4'
    } else if d == 5 {
        '5'
    } else if d == 6 {
        '6'
    } else if d == 7 {
        '7'
    } else if d == 8 {
        '8'
    } else {
        '9'
    }
}

/// The base-ten rendering of a number, most significant digit first.
pub open spec fn dec_str(n: nat) -> Seq<char>
    decreases n,
{
    if n < 10 {
        seq![digit_char(n as int)]
    } else {
        dec_str(n / 10) + seq![digit_char((n % 10) as int)]
    }
}

fn digit_string(d: u32) -> (r: String)
    requires
        d < 10,
    ensures
        r@ == seq![digit_char(d as int)],
{
    proof {
        reveal_strlit("0");
        reveal_strlit("1");
        reveal_strlit("2");
        reveal_strlit("3");
        reveal_strlit("4");
        reveal_strlit("5");
        reveal_strlit("6");
        reveal_strlit("7");
        reveal_strlit("8");
        reveal_strlit("9");
    }
    let s: &str = if d == 0 {
        "0"
    } else if d == 1 {
        "1"
    } else if d == 2 {
        "2"
    } else if d == 3 {
        "3"
    } else if d == 4 {
        "4"
    } else if d == 5 {
        "5"
    } else if d == 6 {
        "6"
    } else if d == 7 {
        "7"
    } else if d == 8 {
        "8"
    } else {
        "9"
    };
    let r = String::from_str(s);
    proof {
        assert(r@ =~= seq![digit_char(d as int)]);
    }
    r
}

/// Renders a number in base ten.
pub fn u32_to_string(n: u32) -> (r: String)
    ensures
        r@ == dec_str(n as nat),
    decreases n,
{
    if n < 10 {
        digit_string(n)
    } else {
        let front = u32_to_string(n / 10);
        let back = digit_string(n % 10);
        let r = front.concat(back.as_str());
        proof {
            assert(r@ =~= dec_str(n as nat));
        }
        r
    }
}

/// The rendering `major.minor` of a version.
pub open spec fn format_version(v: (u32, u32)) -> Seq<char> {
    dec_str(v.0 as nat) + "."@ + dec_str(v.1 as nat)
}

/// Renders a version as `major.minor`.
pub fn version_string(v: (u32, u32)) -> (r: String)
    ensures
        r@ == format_version(v),
{
    u32_to_string(v.0).concat(".").concat(u32_to_string(v.1).as_str())
}

/// Numeric ordering on versions: ascending by major, then by minor.
pub open spec fn version_le(a: (u32, u32), b: (u32, u32)) -> bool {
    a.0 < b.0 || (a.0 == b.0 && a.1 <= b.1)
}

pub open spec fn version_le_f() -> spec_fn((u32, u32), (u32, u32)) -> bool {
    |a: (u32, u32), b: (u32, u32)| version_le(a, b)
}

pub proof fn lemma_version_le_total()
    ensures
        total_ordering(version_le_f()),
{
    let f = version_le_f();
    assert forall|x: (u32, u32)| #[trigger] f(x, x) by {}
}

fn version_le_exec(a: (u32, u32), b: (u32, u32)) -> (r: bool)
    ensures
        r == version_le(a, b),
{
    a.0 < b.0 || (a.0 == b.0 && a.1 <= b.1)
}

proof fn lemma_sorted_insert(s: Seq<(u32, u32)>, i: int, x: (u32, u32))
    requires
        sorted_by(s, version_le_f()),
        0 <= i <= s.len(),
        forall|j: int| 0 <= j < i ==> version_le(#[trigger] s[j], x),
        i < s.len() ==> !version_le(s[i], x),
    ensures
        sorted_by(s.insert(i, x), version_le_f()),
{
    let f = version_le_f();
    let t = s.insert(i, x);
    s.insert_ensures(i, x);
    assert forall|p: int, q: int| 0 <= p < q < t.len() implies #[trigger] f(t[p], t[q]) by {
        if q < i {
            assert(f(s[p], s[q]));
        } else if q == i {
            assert(t[q] == x && t[p] == s[p]);
            assert(version_le(s[p], x));
        } else if p < i {
            assert(t[p] == s[p] && t[q] == s[q - 1]);
            assert(f(s[p], s[q - 1]));
        } else if p == i {
            assert(t[p] == x && t[q] == s[q - 1]);
            assert(i < s.len() && !version_le(s[i], x));
            if i < q - 1 {
                assert(f(s[i], s[q - 1]));
            }
            assert(version_le(x, s[q - 1]));
        } else {
            assert(t[p] == s[p - 1] && t[q] == s[q - 1]);
            assert(f(s[p - 1], s[q - 1]));
        }
    }
}

/// Sorts versions ascending by numeric major then minor.
pub fn sort_versions(v: Vec<(u32, u32)>) -> (r: Vec<(u32, u32)>)
    ensures
        r@ == v@.sort_by(version_le_f()),
{
    let mut out: Vec<(u32, u32)> = Vec::new();
    let mut k: usize = 0;
    proof {
        assert(out@ =~= v@.take(0));
    }
    while k < v.len()
        invariant
            k <= v.len(),
            sorted_by(out@, version_le_f()),
            out@.to_multiset() == v@.take(k as int).to_multiset(),
        decreases v.len() - k,
    {
        let x = v[k];
        let mut idx: usize = 0;
        while idx < out.len() && version_le_exec(out[idx], x)
            invariant
                idx <= out.len(),
                forall|j: int| 0 <= j < idx ==> version_le(#[trigger] out@[j], x),
            decreases out.len() - idx,
        {
            idx = idx + 1;
        }
        let ghost pre = out@;
        proof {
            lemma_sorted_insert(pre, idx as int, x);
        }
        out.insert(idx, x);
        proof {
            vstd::seq_lib::to_multiset_insert(pre, idx as int, x);
            v@.take(k as int).to_multiset_ensures();
            assert(v@.take(k as int + 1) =~= v@.take(k as int).push(v@[k as int]));
        }
        k = k + 1;
    }
    proof {
        assert(v@.take(v.len() as int) =~= v@);
        lemma_version_le_total();
        v@.lemma_sort_by_ensures(version_le_f());
        lemma_sorted_unique(out@, v@.sort_by(version_le_f()), version_le_f());
        assert(out@ =~= v@.sort_by(version_le_f()));
    }
    out
}

/// The version of a cache-entry directory name `glibc-<major>.<minor>`;
/// `None` when the name does not match that pattern, or a component does not
/// fit a `u32`.
pub open spec fn glibc_entry_version(name: Seq<char>) -> Option<(u32, u32)> {
    if name.len() > 6 && name.take(6) == "glibc-"@ && is_version_str(name.skip(6)) && major_val(
        name.skip(6),
    ) <= u32::MAX && minor_val(name.skip(6)) <= u32::MAX {
        Some(((major_val(name.skip(6)) as u32), (minor_val(name.skip(6)) as u32)))
    } else {
        None
    }
}

/// Parses one cache-entry directory name against the `glibc-<version>` pattern.
pub fn parse_glibc_entry(name: &str) -> (r: Option<(u32, u32)>)
    ensures
        r == glibc_entry_version(name@),
{
    let ghost s = name@;
    let n: usize = name.unicode_len();
    if n <= 6 {
        return None;
    }
    proof {
        reveal_strlit("glibc-");
        assert(forall|j: int| 0 <= j < 6 ==> s.take(6)[j] == #[trigger] s[j]);
    }
    let p = name.get_char(0) == 'g' && name.get_char(1) == 'l' && name.get_char(2) == 'i'
        && name.get_char(3) == 'b' && name.get_char(4) == 'c' && name.get_char(5) == '-';
    if !p {
        proof {
            assert(s.take(6) != "glibc-"@);
        }
        return None;
    }
    proof {
        assert(s.take(6) =~= "glibc-"@);
    }
    let rest = name.substring_char(6, n);
    proof {
        assert(rest@ =~= s.skip(6));
    }
    parse_version(rest)
}

pub open spec fn entry_of() -> spec_fn(Seq<char>) -> Option<(u32, u32)> {
    |n: Seq<char>| glibc_entry_version(n)
}

pub open spec fn fmt_of() -> spec_fn((u32, u32)) -> Seq<char> {
    |v: (u32, u32)| format_version(v)
}

pub open spec fn text_of() -> spec_fn(String) -> Seq<char> {
    |t: String| t@
}

/// The version strings listed for a set of cache-entry directory names: the
/// names matching the entry pattern, parsed, sorted ascending by numeric major
/// then minor (never lexicographically), and rendered as `major.minor`.
pub open spec fn glibc_list_spec(names: Seq<Seq<char>>) -> Seq<Seq<char>> {
    names.filter_map(entry_of()).sort_by(version_le_f()).map_values(fmt_of())
}

/// Lists the versions cached under the given directory names, ascending by
/// numeric major then minor version.
pub fn get_glibc_list(names: &Vec<String>) -> (r: Vec<String>)
    ensures
        r@.map_values(text_of()) == glibc_list_spec(names@.map_values(text_of())),
{
    let ghost ns = names@.map_values(text_of());
    let mut parsed: Vec<(u32, u32)> = Vec::new();
    let mut i: usize = 0;
    while i < names.len()
        invariant
            i <= names.len(),
            ns == names@.map_values(text_of()),
            names@.len() == ns.len(),
            parsed@ == ns.take(i as int).filter_map(entry_of()),
        decreases names.len() - i,
    {
        proof {
            assert(ns[i as int] == names@[i as int]@);
            ns.lemma_filter_map_take_succ(entry_of(), i as int);
        }
        match parse_glibc_entry(names[i].as_str()) {
            Some(v) => {
                parsed.push(v);
                proof {
                    assert(parsed@ =~= ns.take(i as int + 1).filter_map(entry_of()));
                }
            },
            None => {
                proof {
                    assert(parsed@ =~= ns.take(i as int + 1).filter_map(entry_of()));
                }
            },
        }
        i = i + 1;
    }
    proof {
        assert(ns.take(names.len() as int) =~= ns);
    }
    let sorted = sort_versions(parsed);
    let mut r: Vec<String> = Vec::new();
    let mut j: usize = 0;
    while j < sorted.len()
        invariant
            j <= sorted.len(),
            sorted@ == ns.filter_map(entry_of()).sort_by(version_le_f()),
            r@.len() == j,
            forall|q: int| 0 <= q < j ==> (#[trigger] r@[q])@ == format_version(sorted@[q]),
        decreases sorted.len() - j,
    {
        let sv = version_string(sorted[j]);
        r.push(sv);
        j = j + 1;
    }
    proof {
        assert forall|q: int|
            0 <= q < r@.len() implies r@.map_values(text_of())[q] == glibc_list_spec(ns)[q] by {
            assert(r@.map_values(text_of())[q] == text_of()(r@[q]));
            assert(glibc_list_spec(ns)[q] == fmt_of()(sorted@[q]));
        }
        assert(r@.map_values(text_of()) =~= glibc_list_spec(ns));
    }
    r
}

} // verus!
