use vstd::prelude::*;
use vstd::slice::slice_subrange;

verus! {

/// A decimal digit byte.
pub open spec fn spec_is_digit(b: u8) -> bool {
    48 <= b && b <= 57
}

/// Every byte is a decimal digit.
pub open spec fn all_digits(s: Seq<u8>) -> bool {
    forall|i: int| 0 <= i < s.len() ==> spec_is_digit(#[trigger] s[i])
}

/// The number a digit string denotes, most significant digit first.
pub open spec fn dec_value(s: Seq<u8>) -> nat
    decreases s.len(),
{
    if s.len() == 0 {
        0
    } else {
        dec_value(s.drop_last()) * 10 + (s.last() - 48) as nat
    }
}

/// What reading a byte string as a decimal number yields: its value where it
/// is nonempty, all digits, and in range; nothing otherwise.
pub open spec fn parse_u32_spec(s: Seq<u8>) -> Option<u32> {
    if s.len() > 0 && all_digits(s) && dec_value(s) <= u32::MAX {
        Some(dec_value(s) as u32)
    } else {
        Option::None
    }
}

/// A digit string is worth at least any of its prefixes.
proof fn lemma_dec_value_prefix(s: Seq<u8>, i: int)
    requires
        0 <= i <= s.len(),
        all_digits(s),
    ensures
        dec_value(s.take(i)) <= dec_value(s),
    decreases s.len(),
{
    if i == s.len() {
        assert(s.take(i) =~= s);
    } else {
        let t = s.drop_last();
        assert forall|j: int| 0 <= j < t.len() implies spec_is_digit(#[trigger] t[j]) by {
            assert(t[j] == s[j]);
        }
        assert(s.take(i) =~= t.take(i));
        lemma_dec_value_prefix(t, i);
    }
}

/// Reads a byte string as a decimal number.
pub fn parse_u32_digits(s: &[u8]) -> (r: Option<u32>)
    ensures
        r == parse_u32_spec(s@),
{
    if s.len() == 0 {
        return Option::None;
    }
    let mut acc: u64 = 0;
    let mut i: usize = 0;
    proof {
        assert(s@.take(0) =~= Seq::<u8>::empty());
    }
    while i < s.len()
        invariant
            0 < s@.len(),
            i <= s@.len(),
            all_digits(s@.take(i as int)),
            acc == dec_value(s@.take(i as int)),
            acc <= u32::MAX,
        decreases s@.len() - i,
    {
        let b = s[i];
        if b < 48 || b > 57 {
            proof {
                assert(!spec_is_digit(s@[i as int]));
            }
            return Option::None;
        }
        let next: u64 = acc * 10 + ((b - 48) as u64);
        proof {
            assert(s@.take(i as int + 1).drop_last() =~= s@.take(i as int));
            assert(s@.take(i as int + 1).last() == b);
            assert(all_digits(s@.take(i as int + 1)));
        }
        if next > 0xFFFF_FFFF {
            proof {
                if all_digits(s@) {
                    lemma_dec_value_prefix(s@, i as int + 1);
                }
            }
            return Option::None;
        }
        acc = next;
        i += 1;
    }
    proof {
        assert(s@.take(s@.len() as int) =~= s@);
    }
    Some(acc as u32)
}

/// The position of the first `sep` at or after `pos`, or the length when
/// there is none (or `pos` is out of range).
pub open spec fn find_byte_from_spec(s: Seq<u8>, pos: int, sep: u8) -> int
    decreases s.len() - pos,
{
    if pos < 0 || pos >= s.len() {
        s.len() as int
    } else if s[pos] == sep {
        pos
    } else {
        find_byte_from_spec(s, pos + 1, sep)
    }
}

/// Where the search lands: between `pos` and the length, on a `sep`, with
/// none before it.
pub proof fn lemma_find_byte_from(s: Seq<u8>, pos: int, sep: u8)
    requires
        0 <= pos <= s.len(),
    ensures
        pos <= find_byte_from_spec(s, pos, sep) <= s.len(),
        find_byte_from_spec(s, pos, sep) < s.len() ==> s[find_byte_from_spec(s, pos, sep)] == sep,
        forall|j: int| pos <= j < find_byte_from_spec(s, pos, sep) ==> s[j] != sep,
    decreases s.len() - pos,
{
    if pos < s.len() && s[pos] != sep {
        lemma_find_byte_from(s, pos + 1, sep);
    }
}

/// Finds the first `sep` in the bytes, returning the length when none is there.
fn find_byte_in(s: &[u8], sep: u8) -> (r: usize)
    ensures
        r == find_byte_from_spec(s@, 0, sep),
{
    let mut k: usize = 0;
    while k < s.len()
        invariant
            k <= s@.len(),
            find_byte_from_spec(s@, 0, sep) == find_byte_from_spec(s@, k as int, sep),
        decreases s@.len() - k,
    {
        if s[k] == sep {
            return k;
        }
        k += 1;
    }
    k
}

/// The needle stands at position `k` of the haystack.
pub open spec fn sub_at(s: Seq<u8>, needle: Seq<u8>, k: int) -> bool {
    0 <= k && k + needle.len() <= s.len() && s.subrange(k, k + needle.len() as int) == needle
}

/// The needle stands somewhere in the haystack.
pub open spec fn contains_sub(s: Seq<u8>, needle: Seq<u8>) -> bool {
    exists|k: int| sub_at(s, needle, k)
}

/// Whether the needle stands somewhere in the haystack.
fn contains_bytes(s: &[u8], needle: &[u8]) -> (r: bool)
    ensures
        r == contains_sub(s@, needle@),
{
    let n = needle.len();
    let slen = s.len();
    if n > slen {
        proof {
            assert forall|k: int| !sub_at(s@, needle@, k) by {}
        }
        return false;
    }
    let mut k: usize = 0;
    while k <= slen - n
        invariant
            n == needle@.len(),
            slen == s@.len(),
            n <= slen,
            k <= slen - n + 1,
            forall|j: int| 0 <= j < k ==> !sub_at(s@, needle@, j),
        decreases slen - n - k + 1,
    {
        let mut t: usize = 0;
        while t < n && s[k + t] == needle[t]
            invariant
                n == needle@.len(),
                slen == s@.len(),
                n <= slen,
                k + n <= slen,
                t <= n,
                forall|u: int| 0 <= u < t ==> s@[k + u] == needle@[u],
            decreases n - t,
        {
            t += 1;
        }
        if t == n {
            proof {
                assert(s@.subrange(k as int, k as int + n as int) =~= needle@);
                assert(sub_at(s@, needle@, k as int));
            }
            return true;
        }
        proof {
            assert(!sub_at(s@, needle@, k as int)) by {
                if sub_at(s@, needle@, k as int) {
                    assert(s@.subrange(k as int, k as int + needle@.len() as int)[t as int]
                        == needle@[t as int]);
                }
            }
        }
        k += 1;
    }
    proof {
        assert forall|j: int| !sub_at(s@, needle@, j) by {
            if 0 <= j < k {
            } else if sub_at(s@, needle@, j) {
                assert(j + needle@.len() <= s@.len());
            }
        }
    }
    false
}

/// A line as the listing reports it: without a trailing carriage return.
pub open spec fn strip_cr(line: Seq<u8>) -> Seq<u8> {
    if line.len() > 0 && line.last() == 13 {
        line.drop_last()
    } else {
        line
    }
}

/// Leading quote bytes removed.
pub open spec fn trim_lead_q(s: Seq<u8>) -> Seq<u8>
    decreases s.len(),
{
    if s.len() > 0 && s[0] == 34 {
        trim_lead_q(s.skip(1))
    } else {
        s
    }
}

/// Trailing quote bytes removed.
pub open spec fn trim_trail_q(s: Seq<u8>) -> Seq<u8>
    decreases s.len(),
{
    if s.len() > 0 && s.last() == 34 {
        trim_trail_q(s.drop_last())
    } else {
        s
    }
}

/// Quote bytes removed from both ends.
pub open spec fn trim_quotes(s: Seq<u8>) -> Seq<u8> {
    trim_trail_q(trim_lead_q(s))
}

/// Strips quote bytes from both ends.
fn trim_quote_slice<'a>(s: &'a [u8]) -> (r: &'a [u8])
    ensures
        r@ == trim_quotes(s@),
{
    let mut lo: usize = 0;
    let mut hi: usize = s.len();
    proof {
        assert(s@.skip(0) =~= s@);
    }
    while lo < hi && s[lo] == 34
        invariant
            lo <= hi <= s@.len(),
            hi == s@.len(),
            trim_lead_q(s@) == trim_lead_q(s@.skip(lo as int)),
        decreases hi - lo,
    {
        proof {
            assert(s@.skip(lo as int).skip(1) =~= s@.skip(lo as int + 1));
        }
        lo += 1;
    }
    proof {
        assert(trim_lead_q(s@) == s@.skip(lo as int));
    }
    let ghost t = s@.skip(lo as int);
    proof {
        assert(t.take(hi - lo as int) =~= t);
    }
    while hi > lo && s[hi - 1] == 34
        invariant
            lo <= hi <= s@.len(),
            t == s@.skip(lo as int),
            trim_lead_q(s@) == t,
            trim_trail_q(t) == trim_trail_q(t.take(hi - lo as int)),
        decreases hi - lo,
    {
        proof {
            assert(t.take(hi - lo as int).last() == s@[hi - 1]);
            assert(t.take(hi - lo as int).drop_last() =~= t.take(hi - 1 - lo as int));
        }
        hi -= 1;
    }
    proof {
        if hi > lo {
            assert(t.take(hi - lo as int).last() == s@[hi - 1]);
        }
        assert(trim_trail_q(t.take(hi - lo as int)) == t.take(hi - lo as int));
        assert(t.take(hi - lo as int) =~= s@.subrange(lo as int, hi as int));
    }
    slice_subrange(s, lo, hi)
}

/// The process name the listing is searched for.
pub open spec fn steam_needle() -> Seq<u8> {
    seq![115u8, 116u8, 101u8, 97u8, 109u8, 46u8, 101u8, 120u8, 101u8]
}

/// The bytes of the process name searched for in the listing ("steam.exe").
fn steam_needle_bytes() -> (r: Vec<u8>)
    ensures
        r@ == steam_needle(),
{
    let mut v: Vec<u8> = Vec::new();
    v.push(115);
    v.push(116);
    v.push(101);
    v.push(97);
    v.push(109);
    v.push(46);
    v.push(101);
    v.push(120);
    v.push(101);
    proof {
        assert(v@ =~= steam_needle());
    }
    v
}

/// The second comma-separated field of a line, where the line has at least
/// two fields.
pub open spec fn second_field(line: Seq<u8>) -> Option<Seq<u8>> {
    let i = find_byte_from_spec(line, 0, 44);
    if i < line.len() {
        let rest = line.skip(i + 1);
        let j = find_byte_from_spec(rest, 0, 44);
        Some(rest.take(j))
    } else {
        Option::None
    }
}

/// What one listing line contributes: where it names the searched process
/// and its second field reads as a number once quotes are stripped, that
/// number; nothing otherwise.
pub open spec fn line_pid(line: Seq<u8>) -> Option<u32> {
    if contains_sub(line, steam_needle()) {
        match second_field(line) {
            Option::Some(f) => parse_u32_spec(trim_quotes(f)),
            Option::None => Option::None,
        }
    } else {
        Option::None
    }
}

/// Reads one line of the listing.
fn line_pid_exec(line: &[u8], needle: &Vec<u8>) -> (r: Option<u32>)
    requires
        needle@ == steam_needle(),
    ensures
        r == line_pid(line@),
{
    if !contains_bytes(line, needle.as_slice()) {
        return Option::None;
    }
    let i = find_byte_in(line, 44);
    proof {
        lemma_find_byte_from(line@, 0, 44);
    }
    if i >= line.len() {
        return Option::None;
    }
    let rest = slice_subrange(line, i + 1, line.len());
    proof {
        assert(rest@ =~= line@.skip(i as int + 1));
    }
    let j = find_byte_in(rest, 44);
    proof {
        lemma_find_byte_from(rest@, 0, 44);
    }
    let field = slice_subrange(rest, 0, j);
    proof {
        assert(field@ =~= rest@.take(j as int));
    }
    let trimmed = trim_quote_slice(field);
    parse_u32_digits(trimmed)
}

/// The identifier the whole process listing reports for the searched
/// process: the first line that names it and carries a numeric second
/// field; nothing when no line does.
pub open spec fn tasklist_pid_spec(s: Seq<u8>) -> Option<u32>
    decreases s.len(),
{
    if s.len() == 0 {
        Option::None
    } else {
        let i = find_byte_from_spec(s, 0, 10);
        let line = strip_cr(s.take(if i < s.len() { i } else { s.len() as int }));
        match line_pid(line) {
            Option::Some(p) => Option::Some(p),
            Option::None => if 0 <= i && i < s.len() {
                tasklist_pid_spec(s.skip(i + 1))
            } else {
                Option::None
            },
        }
    }
}

/// Reads the Windows process listing (one CSV row per process, no header):
/// the identifier of the first row that names steam.exe and carries a
/// numeric second field.
pub fn is_steam_running_windows(out: &[u8]) -> (r: Option<u32>)
    ensures
        r == tasklist_pid_spec(out@),
{
    let needle = steam_needle_bytes();
    let mut rest: &[u8] = out;
    loop
        invariant
            needle@ == steam_needle(),
            tasklist_pid_spec(out@) == tasklist_pid_spec(rest@),
        decreases rest@.len(),
    {
        if rest.len() == 0 {
            return Option::None;
        }
        let i = find_byte_in(rest, 10);
        proof {
            lemma_find_byte_from(rest@, 0, 10);
        }
        let mut line = slice_subrange(rest, 0, i);
        proof {
            assert(line@ =~= rest@.take(i as int));
        }
        if line.len() > 0 && line[line.len() - 1] == 13 {
            let shorter = slice_subrange(line, 0, line.len() - 1);
            proof {
                assert(shorter@ =~= line@.drop_last());
            }
            line = shorter;
        }
        proof {
            assert(line@ == strip_cr(rest@.take(i as int)));
        }
        let p = line_pid_exec(line, &needle);
        if p.is_some() {
            return p;
        }
        if i >= rest.len() {
            return Option::None;
        }
        let next = slice_subrange(rest, i + 1, rest.len());
        proof {
            assert(next@ =~= rest@.skip(i as int + 1));
        }
        rest = next;
    }
}

/// An ASCII whitespace byte, as the liveness probe's output is trimmed of.
pub open spec fn is_ws(b: u8) -> bool {
    b == 32 || (9 <= b && b <= 13)
}

/// Leading whitespace removed.
pub open spec fn trim_ws_lead(s: Seq<u8>) -> Seq<u8>
    decreases s.len(),
{
    if s.len() > 0 && is_ws(s[0]) {
        trim_ws_lead(s.skip(1))
    } else {
        s
    }
}

/// Trailing whitespace removed.
pub open spec fn trim_ws_trail(s: Seq<u8>) -> Seq<u8>
    decreases s.len(),
{
    if s.len() > 0 && is_ws(s.last()) {
        trim_ws_trail(s.drop_last())
    } else {
        s
    }
}

/// Strips whitespace from both ends.
fn trim_ws_slice<'a>(s: &'a [u8]) -> (r: &'a [u8])
    ensures
        r@ == trim_ws_trail(trim_ws_lead(s@)),
{
    let mut lo: usize = 0;
    let mut hi: usize = s.len();
    proof {
        assert(s@.skip(0) =~= s@);
    }
    while lo < hi && (s[lo] == 32 || (9 <= s[lo] && s[lo] <= 13))
        invariant
            lo <= hi <= s@.len(),
            hi == s@.len(),
            trim_ws_lead(s@) == trim_ws_lead(s@.skip(lo as int)),
        decreases hi - lo,
    {
        proof {
            assert(s@.skip(lo as int).skip(1) =~= s@.skip(lo as int + 1));
        }
        lo += 1;
    }
    proof {
        assert(trim_ws_lead(s@) == s@.skip(lo as int));
    }
    let ghost t = s@.skip(lo as int);
    proof {
        assert(t.take(hi - lo as int) =~= t);
    }
    while hi > lo && (s[hi - 1] == 32 || (9 <= s[hi - 1] && s[hi - 1] <= 13))
        invariant
            lo <= hi <= s@.len(),
            t == s@.skip(lo as int),
            trim_ws_lead(s@) == t,
            trim_ws_trail(t) == trim_ws_trail(t.take(hi - lo as int)),
        decreases hi - lo,
    {
        proof {
            assert(t.take(hi - lo as int).last() == s@[hi - 1]);
            assert(t.take(hi - lo as int).drop_last() =~= t.take(hi - 1 - lo as int));
        }
        hi -= 1;
    }
    proof {
        if hi > lo {
            assert(t.take(hi - lo as int).last() == s@[hi - 1]);
        }
        assert(trim_ws_trail(t.take(hi - lo as int)) == t.take(hi - lo as int));
        assert(t.take(hi - lo as int) =~= s@.subrange(lo as int, hi as int));
    }
    slice_subrange(s, lo, hi)
}

/// The identifier the Unix liveness probe reports: where the probe
/// succeeded, its output's first line, trimmed of surrounding whitespace,
/// read as a number; nothing otherwise.
pub open spec fn pgrep_pid_spec(success: bool, s: Seq<u8>) -> Option<u32> {
    if !success {
        Option::None
    } else {
        let t = trim_ws_trail(trim_ws_lead(s));
        if t.len() == 0 {
            Option::None
        } else {
            let i = find_byte_from_spec(t, 0, 10);
            let line = strip_cr(t.take(if i < t.len() { i } else { t.len() as int }));
            parse_u32_spec(line)
        }
    }
}

/// Reads the Unix liveness probe's output.
pub fn is_steam_running_unix(success: bool, out: &[u8]) -> (r: Option<u32>)
    ensures
        r == pgrep_pid_spec(success, out@),
{
    if !success {
        return Option::None;
    }
    let t = trim_ws_slice(out);
    if t.len() == 0 {
        return Option::None;
    }
    let i = find_byte_in(t, 10);
    proof {
        lemma_find_byte_from(t@, 0, 10);
    }
    let mut line = slice_subrange(t, 0, i);
    proof {
        assert(line@ =~= t@.take(i as int));
    }
    if line.len() > 0 && line[line.len() - 1] == 13 {
        let shorter = slice_subrange(line, 0, line.len() - 1);
        proof {
            assert(shorter@ =~= line@.drop_last());
        }
        line = shorter;
    }
    proof {
        assert(line@ == strip_cr(t@.take(i as int)));
    }
    parse_u32_digits(line)
}

} // verus!
