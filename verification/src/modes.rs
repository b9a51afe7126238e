//! Pure logic of the auxiliary modes.
//!
//! The list mode turns the runner's terse listing into one test identifier
//! per line: blank lines, the trailing summary line and any benchmark-count
//! line are discarded, and a trailing `: test` or `: bench` marker is
//! stripped. The filter-file mode trims the file's lines, drops the blank
//! ones, and fails when nothing is left. Both work on the bytes of each
//! line; reading the runner's output and the file stays with the caller.
use vstd::prelude::*;

use vstd::utf8::encode_utf8;

verus! {

/// Whether the byte is ASCII whitespace as a line trim removes it.
pub open spec fn is_ws(b: u8) -> bool {
    b == 32 || b == 9 || b == 10 || b == 13
}

/// The line without leading and trailing ASCII whitespace.
pub open spec fn trim_spec(s: Seq<u8>) -> Seq<u8>
    decreases s.len(),
{
    if s.len() > 0 && is_ws(s[0]) {
        trim_spec(s.drop_first())
    } else if s.len() > 0 && is_ws(s.last()) {
        trim_spec(s.drop_last())
    } else {
        s
    }
}

/// Whether the line ends with the given suffix.
pub open spec fn ends_with(s: Seq<u8>, suffix: Seq<u8>) -> bool {
    suffix.len() <= s.len() && s.subrange(s.len() - suffix.len(), s.len() as int) == suffix
}

/// Whether the pattern occurs anywhere in the line.
pub open spec fn contains_seq(s: Seq<u8>, pat: Seq<u8>) -> bool {
    exists|i: int|
        0 <= i <= s.len() - pat.len() && #[trigger] s.subrange(i, i + pat.len()) == pat
}

/// The end of the terse listing's summary line.
pub open spec fn summary_marker() -> Seq<u8> {
    encode_utf8(" tests, "@)
}

/// The mark of a benchmark-count line.
pub open spec fn bench_marker() -> Seq<u8> {
    encode_utf8(" benchmarks"@)
}

/// The marker a listed test name carries.
pub open spec fn test_suffix() -> Seq<u8> {
    encode_utf8(": test"@)
}

/// The marker a listed benchmark name carries.
pub open spec fn bench_suffix() -> Seq<u8> {
    encode_utf8(": bench"@)
}

/// The identifier a line of the terse listing yields, if any: nothing for a
/// blank, summary or benchmark-count line; otherwise the trimmed line with
/// a trailing test or bench marker stripped.
pub open spec fn list_name_of(line: Seq<u8>) -> Option<Seq<u8>> {
    let t = trim_spec(line);
    if t.len() == 0 || ends_with(t, summary_marker()) || contains_seq(t, bench_marker()) {
        None
    } else if ends_with(t, test_suffix()) {
        Some(t.subrange(0, t.len() - test_suffix().len()))
    } else if ends_with(t, bench_suffix()) {
        Some(t.subrange(0, t.len() - bench_suffix().len()))
    } else {
        Some(t)
    }
}

/// The identifiers of a whole listing, in the listing's order.
pub open spec fn spec_list_names(lines: Seq<Seq<u8>>) -> Seq<Seq<u8>>
    decreases lines.len(),
{
    if lines.len() == 0 {
        Seq::empty()
    } else {
        spec_list_names(lines.drop_last()) + (match list_name_of(lines.last()) {
            Some(n) => seq![n],
            None => Seq::empty(),
        })
    }
}

/// The filters a filter file yields: each line trimmed, blank lines
/// dropped, order kept.
pub open spec fn spec_filters(lines: Seq<Seq<u8>>) -> Seq<Seq<u8>>
    decreases lines.len(),
{
    if lines.len() == 0 {
        Seq::empty()
    } else {
        spec_filters(lines.drop_last()) + (if trim_spec(lines.last()).len() > 0 {
            seq![trim_spec(lines.last())]
        } else {
            Seq::empty()
        })
    }
}

/// A filter file that yields no test name at all.
#[derive(Debug, Clone, Copy, PartialEq, Eq, Structural)]
pub struct FilterFileError;

/// Whether the bytes of `pat` stand in `s` at position `at`.
fn seq_eq_at(s: &Vec<u8>, pat: &Vec<u8>, at: usize) -> (r: bool)
    requires
        at + pat@.len() <= s@.len(),
    ensures
        r == (s@.subrange(at as int, at + pat@.len()) == pat@),
{
    let slen = s.len();
    let plen = pat.len();
    let mut j: usize = 0;
    while j < plen
        invariant
            j <= plen,
            plen == pat@.len(),
            slen == s@.len(),
            at + plen <= slen,
            forall|k: int| 0 <= k < j ==> s@[at + k] == pat@[k],
        decreases pat@.len() - j,
    {
        if s[at + j] != pat[j] {
            assert(s@.subrange(at as int, at + pat@.len())[j as int] != pat@[j as int]);
            return false;
        }
        j += 1;
    }
    proof {
        assert(s@.subrange(at as int, at + pat@.len()) =~= pat@);
    }
    true
}

/// Whether the line ends with the given suffix.
fn ends_with_bytes(s: &Vec<u8>, suffix: &Vec<u8>) -> (r: bool)
    ensures
        r == ends_with(s@, suffix@),
{
    if suffix.len() > s.len() {
        return false;
    }
    seq_eq_at(s, suffix, s.len() - suffix.len())
}

/// Whether the pattern occurs anywhere in the line.
fn contains_bytes(s: &Vec<u8>, pat: &Vec<u8>) -> (r: bool)
    ensures
        r == contains_seq(s@, pat@),
{
    if pat.len() > s.len() {
        return false;
    }
    if pat.len() == 0 {
        proof {
            let w: int = 0;
            assert(s@.subrange(w, w + pat@.len()) =~= pat@);
            assert(contains_seq(s@, pat@));
        }
        return true;
    }
    let mut i: usize = 0;
    while i <= s.len() - pat.len()
        invariant
            0 < pat@.len() <= s@.len(),
            i <= s@.len() - pat@.len() + 1,
            forall|k: int| 0 <= k < i ==> #[trigger] s@.subrange(k, k + pat@.len()) != pat@,
        decreases s@.len() - pat@.len() + 1 - i,
    {
        if seq_eq_at(s, pat, i) {
            proof {
                let w = i as int;
                assert(0 <= w <= s@.len() - pat@.len());
                assert(s@.subrange(w, w + pat@.len()) == pat@);
                assert(contains_seq(s@, pat@));
            }
            return true;
        }
        i += 1;
    }
    false
}

/// Copy the given range of the line.
fn copy_range(s: &Vec<u8>, lo: usize, hi: usize) -> (r: Vec<u8>)
    requires
        lo <= hi <= s@.len(),
    ensures
        r@ == s@.subrange(lo as int, hi as int),
{
    let mut r: Vec<u8> = Vec::new();
    let mut i: usize = lo;
    while i < hi
        invariant
            lo <= i <= hi <= s@.len(),
            r@ == s@.subrange(lo as int, i as int),
        decreases hi - i,
    {
        r.push(s[i]);
        proof {
            assert(r@ =~= s@.subrange(lo as int, i + 1 as int));
        }
        i += 1;
    }
    r
}

/// The line without leading and trailing ASCII whitespace.
fn trim_bytes(s: &Vec<u8>) -> (r: Vec<u8>)
    ensures
        r@ == trim_spec(s@),
{
    let mut lo: usize = 0;
    let mut hi: usize = s.len();
    proof {
        assert(s@.subrange(0, s@.len() as int) =~= s@);
    }
    while lo < hi && (is_ws_byte(s[lo]) || is_ws_byte(s[hi - 1]))
        invariant
            lo <= hi <= s@.len(),
            trim_spec(s@) == trim_spec(s@.subrange(lo as int, hi as int)),
        decreases hi - lo,
    {
        if is_ws_byte(s[lo]) {
            proof {
                assert(s@.subrange(lo as int, hi as int).drop_first() =~= s@.subrange(
                    lo + 1 as int,
                    hi as int,
                ));
            }
            lo += 1;
        } else {
            proof {
                assert(s@.subrange(lo as int, hi as int).drop_last() =~= s@.subrange(
                    lo as int,
                    hi - 1 as int,
                ));
            }
            hi -= 1;
        }
    }
    proof {
        let t = s@.subrange(lo as int, hi as int);
        if lo < hi {
            assert(t[0] == s@[lo as int]);
            assert(t.last() == s@[hi - 1 as int]);
        }
        assert(trim_spec(t) == t);
    }
    copy_range(s, lo, hi)
}

/// Whether the byte is ASCII whitespace as a line trim removes it.
fn is_ws_byte(b: u8) -> (r: bool)
    ensures
        r == is_ws(b),
{
    b == 32 || b == 9 || b == 10 || b == 13
}

/// Turn the lines of the runner's terse listing into test identifiers, in
/// order: blank, summary and benchmark-count lines yield nothing, every
/// other line its trimmed name without a trailing test or bench marker.
pub fn extract_test_names(lines: &Vec<Vec<u8>>) -> (r: Vec<Vec<u8>>)
    ensures
        r.deep_view() == spec_list_names(lines.deep_view()),
{
    let summary = " tests, ".as_bytes_vec();
    let bench = " benchmarks".as_bytes_vec();
    let t_suffix = ": test".as_bytes_vec();
    let b_suffix = ": bench".as_bytes_vec();
    let mut r: Vec<Vec<u8>> = Vec::new();
    let mut i: usize = 0;
    proof {
        assert(r.deep_view() =~~= spec_list_names(lines.deep_view().subrange(0, 0)));
        assert(r.deep_view() =~~= spec_filters(lines.deep_view().subrange(0, 0)));
    }
    while i < lines.len()
        invariant
            i <= lines@.len(),
            summary@ == summary_marker(),
            bench@ == bench_marker(),
            t_suffix@ == test_suffix(),
            b_suffix@ == bench_suffix(),
            r.deep_view() == spec_list_names(lines.deep_view().subrange(0, i as int)),
        decreases lines@.len() - i,
    {
        let ghost pre = lines.deep_view().subrange(0, i as int);
        let ghost cur = lines.deep_view().subrange(0, i + 1 as int);
        proof {
            assert(cur.drop_last() =~= pre);
            assert(cur.last() =~= lines@[i as int]@);
        }
        let t = trim_bytes(&lines[i]);
        if t.len() == 0 || ends_with_bytes(&t, &summary) || contains_bytes(&t, &bench) {
            // no identifier on this line
        } else if ends_with_bytes(&t, &t_suffix) {
            let name = copy_range(&t, 0, t.len() - t_suffix.len());
            r.push(name);
        } else if ends_with_bytes(&t, &b_suffix) {
            let name = copy_range(&t, 0, t.len() - b_suffix.len());
            r.push(name);
        } else {
            r.push(t);
        }
        proof {
            assert(r.deep_view() =~~= spec_list_names(cur));
        }
        i += 1;
    }
    proof {
        assert(lines.deep_view().subrange(0, lines@.len() as int) =~~= lines.deep_view());
    }
    r
}

/// Read the filters out of a filter file's lines: each line trimmed, blank
/// lines dropped. A file that yields no filter at all is an error, raised
/// before any runner is started.
pub fn filters_from_lines(lines: &Vec<Vec<u8>>) -> (r: Result<Vec<Vec<u8>>, FilterFileError>)
    ensures
        spec_filters(lines.deep_view()).len() > 0 ==> (r matches Ok(v) && v.deep_view()
            == spec_filters(lines.deep_view())),
        spec_filters(lines.deep_view()).len() == 0 ==> (r matches Err(e) && e == FilterFileError),
{
    let mut r: Vec<Vec<u8>> = Vec::new();
    let mut i: usize = 0;
    proof {
        assert(r.deep_view() =~~= spec_list_names(lines.deep_view().subrange(0, 0)));
        assert(r.deep_view() =~~= spec_filters(lines.deep_view().subrange(0, 0)));
    }
    while i < lines.len()
        invariant
            i <= lines@.len(),
            r.deep_view() == spec_filters(lines.deep_view().subrange(0, i as int)),
        decreases lines@.len() - i,
    {
        let ghost pre = lines.deep_view().subrange(0, i as int);
        let ghost cur = lines.deep_view().subrange(0, i + 1 as int);
        proof {
            assert(cur.drop_last() =~= pre);
            assert(cur.last() =~= lines@[i as int]@);
        }
        let t = trim_bytes(&lines[i]);
        if t.len() > 0 {
            r.push(t);
        }
        proof {
            assert(r.deep_view() =~~= spec_filters(cur));
        }
        i += 1;
    }
    proof {
        assert(lines.deep_view().subrange(0, lines@.len() as int) =~~= lines.deep_view());
    }
    if r.len() == 0 {
        Err(FilterFileError)
    } else {
        Ok(r)
    }
}

/// The argument list that makes the runner stream machine-readable, timed
/// events for the filtered tests: the test subcommand, the caller's
/// pass-through arguments, the flags that turn on the JSON event feed, then
/// the filters.
pub open spec fn spec_runner_args(filters: Seq<Seq<char>>, extra: Seq<Seq<char>>) -> Seq<
    Seq<char>,
> {
    seq!["test"@] + extra + seq![
        "--"@,
        "-Z"@,
        "unstable-options"@,
        "--format"@,
        "json"@,
        "--report-time"@,
    ] + filters
}

/// The argument list of the list mode: the test subcommand, the caller's
/// pass-through arguments, then the flags that make the runner list its
/// tests tersely.
pub open spec fn spec_list_args(extra: Seq<Seq<char>>) -> Seq<Seq<char>> {
    seq!["test"@] + extra + seq!["--"@, "--list"@, "--format"@, "terse"@]
}

/// Append clones of all the given strings.
fn push_all(out: &mut Vec<String>, src: &Vec<String>)
    ensures
        final(out).deep_view() == old(out).deep_view() + src.deep_view(),
{
    let mut i: usize = 0;
    proof {
        assert(out.deep_view() =~~= old(out).deep_view() + src.deep_view().subrange(0, 0));
    }
    while i < src.len()
        invariant
            i <= src@.len(),
            out.deep_view() == old(out).deep_view() + src.deep_view().subrange(0, i as int),
        decreases src@.len() - i,
    {
        let ghost prev = out.deep_view();
        out.push(src[i].as_str().to_owned());
        proof {
            assert(out.deep_view() =~~= prev.push(src.deep_view()[i as int]));
            assert(prev.push(src.deep_view()[i as int]) =~= prev + seq![
                src.deep_view()[i as int],
            ]);
            assert(src.deep_view().subrange(0, i + 1 as int) =~= src.deep_view().subrange(
                0,
                i as int,
            ) + seq![src.deep_view()[i as int]]);
            assert(out.deep_view() =~~= old(out).deep_view() + src.deep_view().subrange(
                0,
                i + 1 as int,
            ));
        }
        i += 1;
    }
    proof {
        assert(src.deep_view().subrange(0, src@.len() as int) =~~= src.deep_view());
    }
}

/// Build the runner arguments of a filtered run.
pub fn runner_args(filters: &Vec<String>, extra: &Vec<String>) -> (r: Vec<String>)
    ensures
        r.deep_view() == spec_runner_args(filters.deep_view(), extra.deep_view()),
{
    let mut r: Vec<String> = Vec::new();
    r.push("test".to_owned());
    proof {
        assert(r.deep_view() =~~= seq!["test"@]);
    }
    push_all(&mut r, extra);
    let ghost head = seq!["test"@] + extra.deep_view();
    r.push("--".to_owned());
    proof {
        assert(r.deep_view() =~~= head + seq!["--"@]);
    }
    r.push("-Z".to_owned());
    proof {
        assert(r.deep_view() =~~= head + seq!["--"@, "-Z"@]);
    }
    r.push("unstable-options".to_owned());
    proof {
        assert(r.deep_view() =~~= head + seq!["--"@, "-Z"@, "unstable-options"@]);
    }
    r.push("--format".to_owned());
    proof {
        assert(r.deep_view() =~~= head + seq!["--"@, "-Z"@, "unstable-options"@, "--format"@]);
    }
    r.push("json".to_owned());
    proof {
        assert(r.deep_view() =~~= head + seq![
            "--"@,
            "-Z"@,
            "unstable-options"@,
            "--format"@,
            "json"@,
        ]);
    }
    r.push("--report-time".to_owned());
    let ghost mid = head + seq![
        "--"@,
        "-Z"@,
        "unstable-options"@,
        "--format"@,
        "json"@,
        "--report-time"@,
    ];
    proof {
        assert(r.deep_view() =~~= mid);
    }
    push_all(&mut r, filters);
    proof {
        assert(r.deep_view() =~~= spec_runner_args(filters.deep_view(), extra.deep_view()));
    }
    r
}

/// Build the runner arguments of the list mode.
pub fn list_args(extra: &Vec<String>) -> (r: Vec<String>)
    ensures
        r.deep_view() == spec_list_args(extra.deep_view()),
{
    let mut r: Vec<String> = Vec::new();
    r.push("test".to_owned());
    proof {
        assert(r.deep_view() =~~= seq!["test"@]);
    }
    push_all(&mut r, extra);
    let ghost head = seq!["test"@] + extra.deep_view();
    r.push("--".to_owned());
    proof {
        assert(r.deep_view() =~~= head + seq!["--"@]);
    }
    r.push("--list".to_owned());
    proof {
        assert(r.deep_view() =~~= head + seq!["--"@, "--list"@]);
    }
    r.push("--format".to_owned());
    proof {
        assert(r.deep_view() =~~= head + seq!["--"@, "--list"@, "--format"@]);
    }
    r.push("terse".to_owned());
    proof {
        assert(r.deep_view() =~~= spec_list_args(extra.deep_view()));
    }
    r
}

} // verus!
