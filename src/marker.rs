//! The check page variant: the page is read line by line, and a line that,
//! trimmed of whitespace, equals the success marker means that the request
//! went through Tor.
use vstd::prelude::*;
use crate::TorCheck;

verus! {

/// Address of the human-facing check page.
pub const PAGE_URL: &'static str = "https://check.torproject.org/?TorButton=True";

/// The anchor that the check page holds only when the request came through Tor.
pub const TOR_CHECK_MARKER: &'static str = "<a id=\"TorCheckResult\" target=\"success\" href=\"/\"></a>";

/// The marker as a sequence of characters.
pub open spec fn marker() -> Seq<char> {
    TOR_CHECK_MARKER@
}

/// The characters of Unicode's `White_Space` property, which `char::is_whitespace`
/// and `str::trim` go by.
pub open spec fn is_ws(c: char) -> bool {
    ('\u{9}' <= c && c <= '\u{d}') || c == ' ' || c == '\u{85}' || c == '\u{a0}'
        || c == '\u{1680}' || ('\u{2000}' <= c && c <= '\u{200a}') || c == '\u{2028}'
        || c == '\u{2029}' || c == '\u{202f}' || c == '\u{205f}' || c == '\u{3000}'
}

/// `s` without its leading whitespace.
pub open spec fn trim_start(s: Seq<char>) -> Seq<char>
    decreases s.len(),
{
    if s.len() > 0 && is_ws(s[0]) {
        trim_start(s.drop_first())
    } else {
        s
    }
}

/// `s` without its trailing whitespace.
pub open spec fn trim_end(s: Seq<char>) -> Seq<char>
    decreases s.len(),
{
    if s.len() > 0 && is_ws(s.last()) {
        trim_end(s.drop_last())
    } else {
        s
    }
}

/// `s` without whitespace at either end.
pub open spec fn trimmed(s: Seq<char>) -> Seq<char> {
    trim_end(trim_start(s))
}

/// A line of the page is the marker once trimmed.
pub open spec fn is_marker_line(line: Seq<char>) -> bool {
    trimmed(line) == marker()
}

fn is_ws_char(c: char) -> (r: bool)
    ensures
        r == is_ws(c),
{
    ('\u{9}' <= c && c <= '\u{d}') || c == ' ' || c == '\u{85}' || c == '\u{a0}'
        || c == '\u{1680}' || ('\u{2000}' <= c && c <= '\u{200a}') || c == '\u{2028}'
        || c == '\u{2029}' || c == '\u{202f}' || c == '\u{205f}' || c == '\u{3000}'
}

fn chars_of(s: &str) -> (v: Vec<char>)
    ensures
        v@ == s@,
{
    let mut v: Vec<char> = Vec::new();
    for c in it: s.chars()
        invariant
            v@ == it.seq().take(it.index() as int),
    {
        v.push(c);
    }
    v
}

/// Whether a line of the page is the marker, whitespace at either end aside.
pub fn line_is_marker(line: &str) -> (r: bool)
    ensures
        r == is_marker_line(line@),
{
    let v = chars_of(line);
    let m = chars_of(TOR_CHECK_MARKER);
    let n = v.len();
    let mut i: usize = 0;
    assert(v@.skip(0) =~= v@);
    while i < n && is_ws_char(v[i])
        invariant
            v@ == line@,
            n == v@.len(),
            i <= n,
            trim_start(v@) == trim_start(v@.skip(i as int)),
        decreases n - i,
    {
        assert(v@.skip(i as int).drop_first() =~= v@.skip(i + 1));
        i = i + 1;
    }
    assert(trim_start(v@) == v@.skip(i as int));
    let mut j: usize = n;
    while j > i && is_ws_char(v[j - 1])
        invariant
            v@ == line@,
            n == v@.len(),
            i <= j <= n,
            trimmed(v@) == trim_end(v@.subrange(i as int, j as int)),
        decreases j,
    {
        assert(v@.subrange(i as int, j as int).drop_last() =~= v@.subrange(i as int, j - 1));
        j = j - 1;
    }
    assert(v@.skip(i as int) =~= v@.subrange(i as int, n as int));
    assert(trimmed(v@) == v@.subrange(i as int, j as int));
    if j - i != m.len() {
        return false;
    }
    let mut k: usize = 0;
    while k < m.len()
        invariant
            v@ == line@,
            m@ == marker(),
            n == v@.len(),
            i <= j <= n,
            j - i == m@.len(),
            trimmed(v@) == v@.subrange(i as int, j as int),
            k <= m@.len(),
            forall|t: int| 0 <= t < k ==> v@[i + t] == m@[t],
        decreases m@.len() - k,
    {
        if v[i + k] != m[k] {
            assert(trimmed(v@)[k as int] != marker()[k as int]);
            return false;
        }
        k = k + 1;
    }
    assert(trimmed(v@) =~= marker());
    true
}

/// Errors of the check page variant: `E` is the HTTP client's error, `P` the
/// error of reading a line of the page.
#[derive(Debug, PartialEq)]
pub enum PageCheckError<E, P> {
    /// The HTTP client could not fetch the page.
    HttpClient(E),
    /// A line of the page could not be read.
    Parsing(P),
    /// The page says that the request did not come through Tor.
    YouAreNotUsingTor,
}

/// What reading the page top to bottom finds: `Ok(true)` at a marker line,
/// `Err(p)` at a line that could not be read, whichever comes first, and
/// `Ok(false)` when the lines run out first.
pub open spec fn scan_result<P>(lines: Seq<Result<String, P>>) -> Result<bool, P>
    decreases lines.len(),
{
    if lines.len() == 0 {
        Ok(false)
    } else {
        match lines[0] {
            Err(p) => Err(p),
            Ok(line) => if is_marker_line(line@) {
                Ok(true)
            } else {
                scan_result(lines.drop_first())
            },
        }
    }
}

/// Whether a line, as read, settles the scan: it is the marker, or it could
/// not be read. A reader of the page may stop after such a line.
pub open spec fn ends_scan<P>(line: Result<String, P>) -> bool {
    match line {
        Ok(l) => is_marker_line(l@),
        Err(_) => true,
    }
}

/// Whether the scan stops at this line.
pub fn line_ends_scan<P>(line: &Result<String, P>) -> (r: bool)
    ensures
        r == ends_scan(*line),
{
    match line {
        Ok(l) => line_is_marker(l.as_str()),
        Err(_) => true,
    }
}

/// Reads the lines in order and stops at the first that settles the scan.
pub fn scan_lines<P>(lines: Vec<Result<String, P>>) -> (r: Result<bool, P>)
    ensures
        r == scan_result(lines@),
{
    let mut rest = lines;
    while rest.len() > 0
        invariant
            scan_result(rest@) == scan_result(lines@),
        decreases rest.len(),
    {
        let ghost before = rest@;
        let line = rest.remove(0);
        assert(rest@ =~= before.drop_first());
        match line {
            Err(p) => {
                return Err(p);
            },
            Ok(l) => {
                if line_is_marker(l.as_str()) {
                    return Ok(true);
                }
            },
        }
    }
    Ok(false)
}

/// What the check page variant returns for a fetched page: the client when
/// the scan finds the marker, else the error that stopped it.
pub open spec fn page_outcome<C, E, P>(client: C, page: Result<Seq<Result<String, P>>, E>) -> Result<
    C,
    PageCheckError<E, P>,
> {
    match page {
        Err(e) => Err(PageCheckError::HttpClient(e)),
        Ok(lines) => match scan_result(lines) {
            Ok(true) => Ok(client),
            Ok(false) => Err(PageCheckError::YouAreNotUsingTor),
            Err(p) => Err(PageCheckError::Parsing(p)),
        },
    }
}

/// The check page variant on a fetched page: `page` is the client's error, or
/// the page's lines as read, up to the first that settles the scan or all of them.
pub fn check_page<C, E, P>(client: C, page: Result<Vec<Result<String, P>>, E>) -> (r: Result<
    C,
    PageCheckError<E, P>,
>)
    ensures
        r == page_outcome(
            client,
            match page {
                Ok(lines) => Ok(lines@),
                Err(e) => Err(e),
            },
        ),
{
    match page {
        Err(e) => Err(PageCheckError::HttpClient(e)),
        Ok(lines) => match scan_lines(lines) {
            Ok(true) => Ok(client),
            Ok(false) => Err(PageCheckError::YouAreNotUsingTor),
            Err(p) => Err(PageCheckError::Parsing(p)),
        },
    }
}

/// A page read without error passes the check exactly when one of its lines
/// is the marker; otherwise the check says that Tor is not in use.
pub proof fn lemma_page_read_whole<C, E, P>(client: C, lines: Seq<Result<String, P>>)
    requires
        forall|i: int| 0 <= i < lines.len() ==> lines[i] is Ok,
    ensures
        (exists|i: int| 0 <= i < lines.len() && is_marker_line(lines[i]->Ok_0@))
            ==> page_outcome::<C, E, P>(client, Ok(lines)) == Ok::<C, PageCheckError<E, P>>(
            client,
        ),
        (forall|i: int| 0 <= i < lines.len() ==> !is_marker_line(lines[i]->Ok_0@))
            ==> page_outcome::<C, E, P>(client, Ok(lines)) == Err::<C, PageCheckError<E, P>>(
            PageCheckError::YouAreNotUsingTor,
        ),
    decreases lines.len(),
{
    if lines.len() > 0 {
        let rest = lines.drop_first();
        lemma_page_read_whole::<C, E, P>(client, rest);
        if exists|i: int| 0 <= i < lines.len() && is_marker_line(lines[i]->Ok_0@) {
            let i = choose|i: int| 0 <= i < lines.len() && is_marker_line(lines[i]->Ok_0@);
            if i > 0 {
                assert(rest[i - 1] == lines[i]);
            }
        }
        if forall|i: int| 0 <= i < lines.len() ==> !is_marker_line(lines[i]->Ok_0@) {
            assert forall|i: int| 0 <= i < rest.len() implies !is_marker_line(rest[i]->Ok_0@) by {
                assert(rest[i] == lines[i + 1]);
            }
            assert(!is_marker_line(lines[0]->Ok_0@));
        }
    }
}

proof fn lemma_trim_start_ws(a: Seq<char>, x: Seq<char>)
    requires
        forall|i: int| 0 <= i < a.len() ==> is_ws(a[i]),
    ensures
        trim_start(a + x) == trim_start(x),
    decreases a.len(),
{
    if a.len() > 0 {
        assert((a + x).drop_first() =~= a.drop_first() + x);
        lemma_trim_start_ws(a.drop_first(), x);
    } else {
        assert(a + x =~= x);
    }
}

proof fn lemma_trim_end_ws(x: Seq<char>, b: Seq<char>)
    requires
        forall|i: int| 0 <= i < b.len() ==> is_ws(b[i]),
    ensures
        trim_end(x + b) == trim_end(x),
    decreases b.len(),
{
    if b.len() > 0 {
        assert((x + b).drop_last() =~= x + b.drop_last());
        lemma_trim_end_ws(x, b.drop_last());
    } else {
        assert(x + b =~= x);
    }
}

/// A line that is the marker with any whitespace before and after it is a
/// marker line.
pub proof fn lemma_marker_padded(before: Seq<char>, after: Seq<char>)
    requires
        forall|i: int| 0 <= i < before.len() ==> is_ws(before[i]),
        forall|i: int| 0 <= i < after.len() ==> is_ws(after[i]),
    ensures
        is_marker_line(before + marker() + after),
{
    reveal_strlit("<a id=\"TorCheckResult\" target=\"success\" href=\"/\"></a>");
    let m = marker();
    assert(m[0] == '<');
    assert(m.last() == '>');
    assert(before + m + after =~= before + (m + after));
    lemma_trim_start_ws(before, m + after);
    assert(trim_start(m + after) == m + after);
    lemma_trim_end_ws(m, after);
    assert(trim_end(m) == m);
}

/// The scan ends at the first line that settles it: what follows that line
/// does not change the outcome.
pub proof fn lemma_first_settling_line<P>(
    lines1: Seq<Result<String, P>>,
    lines2: Seq<Result<String, P>>,
    k: int,
)
    requires
        0 <= k < lines1.len(),
        k < lines2.len(),
        lines1.take(k + 1) == lines2.take(k + 1),
        ends_scan(lines1[k]),
    ensures
        scan_result(lines1) == scan_result(lines2),
    decreases k,
{
    assert(lines1[0] == lines1.take(k + 1)[0]);
    assert(lines2[0] == lines2.take(k + 1)[0]);
    if k > 0 && !ends_scan(lines1[0]) {
        assert(lines1.drop_first().take(k) =~= lines1.take(k + 1).drop_first());
        assert(lines2.drop_first().take(k) =~= lines2.take(k + 1).drop_first());
        lemma_first_settling_line(lines1.drop_first(), lines2.drop_first(), k - 1);
    }
}

/// Two checks on two clients do not interfere: each outcome depends on its
/// own page alone, and a passing check hands back its own client.
pub proof fn lemma_page_checks_independent<C, E, P>(
    client1: C,
    client2: C,
    page: Result<Seq<Result<String, P>>, E>,
)
    ensures
        page_outcome(client1, page) is Ok <==> page_outcome(client2, page) is Ok,
        page_outcome(client1, page) is Ok ==> page_outcome(client1, page) == Ok::<
            C,
            PageCheckError<E, P>,
        >(client1),
        page_outcome(client1, page) is Err ==> page_outcome(client1, page) == page_outcome(
            client2,
            page,
        ),
{
}

/// A client together with the lines that it read of the check page, or its error.
pub struct PageReply<C, E, P> {
    pub client: C,
    pub page: Result<Vec<Result<String, P>>, E>,
}

impl<C, E, P> TorCheck for PageReply<C, E, P> {
    type Result = Result<C, PageCheckError<E, P>>;

    fn tor_check(self) -> (r: Self::Result)
        ensures
            r == page_outcome(
                self.client,
                match self.page {
                    Ok(lines) => Ok(lines@),
                    Err(e) => Err(e),
                },
            ),
    {
        check_page(self.client, self.page)
    }
}

} // verus!
