use vstd::prelude::*;

verus! {

/// One update package announced by the server: its ordering/resume key and
/// the file name to fetch, relative to the patch base URL.
///
/// A manifest is an ordered `Vec<ManifestEntry>`, ascending by `index`; the
/// index is expected to be unique per manifest generation.
pub struct ManifestEntry {
    pub index: u64,
    pub file_name: String,
}

impl Clone for ManifestEntry {
    fn clone(&self) -> (r: Self)
        ensures
            r == *self,
    {
        ManifestEntry { index: self.index, file_name: self.file_name.clone() }
    }
}

/// A manifest as a mathematical value: each entry reduced to its index and
/// the characters of its file name.
pub open spec fn entries_view(v: Seq<ManifestEntry>) -> Seq<(u64, Seq<char>)> {
    v.map_values(|e: ManifestEntry| (e.index, e.file_name@))
}

pub open spec fn is_digit(c: char) -> bool {
    48 <= c as u32 && c as u32 <= 57
}

pub open spec fn digit_val(c: char) -> nat {
    (c as u32 - 48) as nat
}

/// Decimal value of a run of digits, most significant first.
pub open spec fn digits_value(s: Seq<char>) -> nat
    decreases s.len(),
{
    if s.len() == 0 {
        0
    } else {
        digits_value(s.drop_last()) * 10 + digit_val(s.last())
    }
}

/// First position at or after `i` that does not hold a decimal digit
/// (`s.len()` when the digits run to the end).
pub open spec fn digit_run_end(s: Seq<char>, i: int) -> int
    decreases s.len() - i,
{
    if i < 0 || i >= s.len() {
        i
    } else if is_digit(s[i]) {
        digit_run_end(s, i + 1)
    } else {
        i
    }
}

/// First position at or after `i` that does not hold a space.
pub open spec fn space_run_end(s: Seq<char>, i: int) -> int
    decreases s.len() - i,
{
    if i < 0 || i >= s.len() {
        i
    } else if s[i] == ' ' {
        space_run_end(s, i + 1)
    } else {
        i
    }
}

/// First position at or after `i` that holds a line feed (`s.len()` when the
/// rest of the string is the final, unterminated line).
pub open spec fn line_end(s: Seq<char>, i: int) -> int
    decreases s.len() - i,
{
    if i < 0 || i >= s.len() {
        i
    } else if s[i] == '\n' {
        i
    } else {
        line_end(s, i + 1)
    }
}

/// A line with an optional trailing carriage return dropped, so manifests
/// with either line ending convention read the same.
pub open spec fn line_body(raw: Seq<char>) -> Seq<char> {
    if raw.len() > 0 && raw.last() == '\r' {
        raw.drop_last()
    } else {
        raw
    }
}

/// What one manifest line announces: `Some((index, file name))` when the
/// line is one or more decimal digits whose value fits an unsigned 64-bit
/// integer, then one or more spaces, then a nonempty file name; `None` for
/// every other line (blank lines, comments, malformed input), which the
/// parser skips.
pub open spec fn parse_line(raw: Seq<char>) -> Option<(u64, Seq<char>)> {
    let l = line_body(raw);
    let d = digit_run_end(l, 0);
    let n = space_run_end(l, d);
    if 1 <= d && d < n && n < l.len() && digits_value(l.subrange(0, d)) <= u64::MAX {
        Option::Some(
            (digits_value(l.subrange(0, d)) as u64, l.subrange(n, l.len() as int)),
        )
    } else {
        Option::None
    }
}

/// `line_end` never moves backwards and never passes the end of the string.
proof fn lemma_line_end_bounds(s: Seq<char>, i: int)
    requires
        0 <= i <= s.len(),
    ensures
        i <= line_end(s, i) <= s.len(),
    decreases s.len() - i,
{
    if i < s.len() && s[i] != '\n' {
        lemma_line_end_bounds(s, i + 1);
    }
}

/// The entries announced from position `i` onward: the string is split at
/// line feeds and each line contributes its parsed entry, in order.
pub open spec fn parse_from(s: Seq<char>, i: int) -> Seq<(u64, Seq<char>)>
    decreases s.len() - i + 1,
    via parse_from_decreases
{
    if i < 0 || i >= s.len() {
        Seq::empty()
    } else {
        let e = line_end(s, i);
        let head: Seq<(u64, Seq<char>)> = match parse_line(s.subrange(i, e)) {
            Option::Some(p) => seq![p],
            Option::None => Seq::empty(),
        };
        head + parse_from(s, e + 1)
    }
}

#[via_fn]
proof fn parse_from_decreases(s: Seq<char>, i: int) {
    if 0 <= i < s.len() {
        lemma_line_end_bounds(s, i);
    }
}

/// The ordered manifest a server response body announces.
pub open spec fn parse_manifest_spec(s: Seq<char>) -> Seq<(u64, Seq<char>)> {
    parse_from(s, 0)
}

fn find_line_end(s: &str, from: usize, len: usize) -> (r: usize)
    requires
        len == s@.len(),
        from <= len,
    ensures
        from <= r <= len,
        r == line_end(s@, from as int),
        r == len || s@[r as int] == '\n',
{
    let mut j: usize = from;
    loop
        invariant
            from <= j <= len,
            len == s@.len(),
            line_end(s@, from as int) == line_end(s@, j as int),
        ensures
            from <= j <= len,
            line_end(s@, from as int) == line_end(s@, j as int),
            j == len || s@[j as int] == '\n',
        decreases len - j,
    {
        if j == len {
            break ;
        }
        if s.get_char(j) == '\n' {
            break ;
        }
        j = j + 1;
    }
    j
}

fn parse_manifest_line(line: &str) -> (r: Option<ManifestEntry>)
    ensures
        match r {
            Option::Some(e) => parse_line(line@) == Option::Some((e.index, e.file_name@)),
            Option::None => parse_line(line@) is None,
        },
{
    let llen = line.unicode_len();
    let end: usize = if llen > 0 && line.get_char(llen - 1) == '\r' {
        llen - 1
    } else {
        llen
    };
    let ghost l = line_body(line@);
    proof {
        assert(l =~= line@.subrange(0, end as int));
    }
    let mut i: usize = 0;
    let mut val: u64 = 0;
    let mut fits: bool = true;
    loop
        invariant
            0 <= i <= end <= llen,
            llen == line@.len(),
            l == line_body(line@),
            l =~= line@.subrange(0, end as int),
            digit_run_end(l, 0) == digit_run_end(l, i as int),
            fits ==> val == digits_value(l.subrange(0, i as int)),
            !fits ==> digits_value(l.subrange(0, i as int)) > u64::MAX,
        ensures
            0 <= i <= end,
            digit_run_end(l, 0) == i,
            fits ==> val == digits_value(l.subrange(0, i as int)),
            !fits ==> digits_value(l.subrange(0, i as int)) > u64::MAX,
        decreases end - i,
    {
        if i == end {
            assert(digit_run_end(l, i as int) == i);
            break ;
        }
        let c = line.get_char(i);
        assert(l[i as int] == line@[i as int]);
        let u = c as u32;
        if !(48 <= u && u <= 57) {
            assert(!is_digit(l[i as int]));
            assert(digit_run_end(l, i as int) == i);
            break ;
        }
        let d: u64 = (u - 48) as u64;
        proof {
            assert(is_digit(l[i as int]));
            assert(l.subrange(0, i + 1 as int).drop_last() =~= l.subrange(0, i as int));
            assert(l.subrange(0, i + 1 as int).last() == l[i as int]);
            assert(digits_value(l.subrange(0, i + 1 as int)) == digits_value(
                l.subrange(0, i as int),
            ) * 10 + digit_val(l[i as int]));
            assert(digit_val(l[i as int]) == d as nat);
        }
        if fits {
            match val.checked_mul(10) {
                Option::Some(v10) => {
                    match v10.checked_add(d) {
                        Option::Some(v) => {
                            val = v;
                        },
                        Option::None => {
                            fits = false;
                        },
                    }
                },
                Option::None => {
                    assert(val * 10 + d as nat > u64::MAX);
                    fits = false;
                },
            }
        } else {
            proof {
                let prev = digits_value(l.subrange(0, i as int));
                assert(prev * 10 + digit_val(l[i as int]) >= prev) by (nonlinear_arith)
                    requires
                        prev >= 0,
                ;
            }
        }
        i = i + 1;
    }
    let digits: usize = i;
    let mut n: usize = digits;
    loop
        invariant
            digits <= n <= end <= llen,
            llen == line@.len(),
            l =~= line@.subrange(0, end as int),
            space_run_end(l, digits as int) == space_run_end(l, n as int),
        ensures
            digits <= n <= end,
            space_run_end(l, digits as int) == n,
        decreases end - n,
    {
        if n == end {
            assert(space_run_end(l, n as int) == n);
            break ;
        }
        if line.get_char(n) != ' ' {
            assert(l[n as int] == line@[n as int]);
            assert(space_run_end(l, n as int) == n);
            break ;
        }
        assert(l[n as int] == line@[n as int]);
        n = n + 1;
    }
    if 1 <= digits && digits < n && n < end && fits {
        let name = line.substring_char(n, end);
        proof {
            assert(l.subrange(n as int, l.len() as int) =~= line@.subrange(n as int, end as int));
        }
        let file_name = String::from_str(name);
        Option::Some(ManifestEntry { index: val, file_name })
    } else {
        Option::None
    }
}

/// Parses a manifest response body into the ordered patch list it announces.
/// Lines that announce no entry (blank or malformed ones) are skipped.
pub fn parse_manifest(s: &str) -> (r: Vec<ManifestEntry>)
    ensures
        entries_view(r@) == parse_manifest_spec(s@),
{
    let len = s.unicode_len();
    let mut out: Vec<ManifestEntry> = Vec::new();
    let mut pos: usize = 0;
    proof {
        assert(entries_view(out@) =~= Seq::<(u64, Seq<char>)>::empty());
        assert(entries_view(out@) + parse_from(s@, 0) =~= parse_manifest_spec(s@));
    }
    while pos < len
        invariant
            pos <= len,
            len == s@.len(),
            entries_view(out@) + parse_from(s@, pos as int) == parse_manifest_spec(s@),
        decreases len - pos,
    {
        let e = find_line_end(s, pos, len);
        let line = s.substring_char(pos, e);
        let parsed = parse_manifest_line(line);
        let ghost head: Seq<(u64, Seq<char>)> = match parse_line(line@) {
            Option::Some(p) => seq![p],
            Option::None => Seq::empty(),
        };
        proof {
            assert(line@ == s@.subrange(pos as int, e as int));
            assert(parse_from(s@, pos as int) == head + parse_from(s@, e + 1 as int));
        }
        match parsed {
            Option::Some(entry) => {
                let ghost prev = out@;
                out.push(entry);
                proof {
                    assert(entries_view(out@) =~= entries_view(prev).push(
                        (entry.index, entry.file_name@),
                    ));
                    assert(entries_view(out@) + parse_from(s@, e + 1 as int) =~= entries_view(
                        prev,
                    ) + (head + parse_from(s@, e + 1 as int)));
                }
            },
            Option::None => {
                proof {
                    assert(entries_view(out@) + parse_from(s@, e + 1 as int) =~= entries_view(
                        out@,
                    ) + (head + parse_from(s@, e + 1 as int)));
                }
            },
        }
        if e == len {
            proof {
                assert(parse_from(s@, e + 1 as int) =~= parse_from(s@, len as int));
            }
            pos = len;
        } else {
            pos = e + 1;
        }
    }
    proof {
        assert(parse_from(s@, pos as int) =~= Seq::<(u64, Seq<char>)>::empty());
        assert(entries_view(out@) =~= entries_view(out@) + parse_from(s@, pos as int));
    }
    out
}

} // verus!
