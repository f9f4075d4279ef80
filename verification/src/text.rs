use vstd::prelude::*;
use vstd::string::StrSliceExecFns;
use vstd::string::StringExecFns;

verus! {

/// Relies on String::push: it appends exactly the given character.
#[verifier::external_body]
fn push_char(s: &mut String, c: char)
    ensures
        final(s)@ == old(s)@ + seq![c],
{
    s.push(c);
}

/// Character-for-character equality of two string slices.
pub fn str_equal(a: &str, b: &str) -> (r: bool)
    ensures
        r == (a@ == b@),
{
    let n = a.unicode_len();
    if n != b.unicode_len() {
        return false;
    }
    let mut i: usize = 0;
    while i < n
        invariant
            n == a@.len(),
            n == b@.len(),
            i <= n,
            forall|k: int| 0 <= k < i ==> a@[k] == b@[k],
        decreases n - i,
    {
        if a.get_char(i) != b.get_char(i) {
            return false;
        }
        i += 1;
    }
    proof {
        assert(a@ =~= b@);
    }
    true
}

/// A whitespace character for trimming: space, tab, newline or carriage
/// return.
pub open spec fn is_ws_char(c: char) -> bool {
    c == ' ' || c == '\t' || c == '\n' || c == '\r'
}

fn ws_char(c: char) -> (r: bool)
    ensures
        r == is_ws_char(c),
{
    c == ' ' || c == '\t' || c == '\n' || c == '\r'
}

/// The text without its leading whitespace.
pub open spec fn trim_start_spec(s: Seq<char>) -> Seq<char>
    decreases s.len(),
{
    if s.len() == 0 {
        s
    } else if is_ws_char(s[0]) {
        trim_start_spec(s.drop_first())
    } else {
        s
    }
}

/// The text without its trailing whitespace.
pub open spec fn trim_end_spec(s: Seq<char>) -> Seq<char>
    decreases s.len(),
{
    if s.len() == 0 {
        s
    } else if is_ws_char(s.last()) {
        trim_end_spec(s.drop_last())
    } else {
        s
    }
}

/// The text with leading and trailing whitespace removed.
pub open spec fn trim_spec(s: Seq<char>) -> Seq<char> {
    trim_end_spec(trim_start_spec(s))
}

proof fn lemma_trim_start_prefix(s: Seq<char>, k: int)
    requires
        0 <= k <= s.len(),
        forall|i: int| 0 <= i < k ==> is_ws_char(s[i]),
        k < s.len() ==> !is_ws_char(s[k]),
    ensures
        trim_start_spec(s) == s.subrange(k, s.len() as int),
    decreases k,
{
    if k == 0 {
        if s.len() == 0 || !is_ws_char(s[0]) {
            assert(trim_start_spec(s) == s);
            assert(s.subrange(0, s.len() as int) =~= s);
        }
    } else {
        let d = s.drop_first();
        assert(is_ws_char(s[0]));
        lemma_trim_start_prefix(d, k - 1);
        assert(d.subrange(k - 1, d.len() as int) =~= s.subrange(k, s.len() as int));
    }
}

proof fn lemma_trim_end_suffix(s: Seq<char>, e: int)
    requires
        0 <= e <= s.len(),
        forall|i: int| e <= i < s.len() ==> is_ws_char(s[i]),
        e > 0 ==> !is_ws_char(s[e - 1]),
    ensures
        trim_end_spec(s) == s.subrange(0, e),
    decreases s.len() - e,
{
    if e == s.len() {
        if s.len() == 0 || !is_ws_char(s.last()) {
            assert(trim_end_spec(s) == s);
            assert(s.subrange(0, e) =~= s);
        } else {
            let d = s.drop_last();
            lemma_trim_end_suffix(d, e - 1);
        }
    } else {
        assert(is_ws_char(s.last()));
        let d = s.drop_last();
        lemma_trim_end_suffix(d, e);
        assert(d.subrange(0, e) =~= s.subrange(0, e));
    }
}

fn first_kept(s: &str) -> (r: usize)
    ensures
        r <= s@.len(),
        forall|k: int| 0 <= k < r ==> is_ws_char(s@[k]),
        r < s@.len() ==> !is_ws_char(s@[r as int]),
{
    let n = s.unicode_len();
    let mut i: usize = 0;
    while i < n
        invariant
            n == s@.len(),
            i <= n,
            forall|k: int| 0 <= k < i ==> is_ws_char(s@[k]),
        decreases n - i,
    {
        if !ws_char(s.get_char(i)) {
            return i;
        }
        i += 1;
    }
    n
}

fn end_kept(s: &str) -> (r: usize)
    ensures
        r <= s@.len(),
        forall|k: int| r <= k < s@.len() ==> is_ws_char(s@[k]),
        r > 0 ==> !is_ws_char(s@[r - 1]),
{
    let n = s.unicode_len();
    let mut i: usize = n;
    while i > 0
        invariant
            n == s@.len(),
            i <= n,
            forall|k: int| i <= k < n ==> is_ws_char(s@[k]),
        decreases i,
    {
        if !ws_char(s.get_char(i - 1)) {
            return i;
        }
        i -= 1;
    }
    0
}

/// The text with leading and trailing whitespace stripped, as a fresh string.
pub fn trim_text(s: &str) -> (r: String)
    ensures
        r@ == trim_spec(s@),
{
    let start = first_kept(s);
    let end = end_kept(s);
    if start >= end {
        proof {
            assert(forall|i: int| 0 <= i < s@.len() ==> is_ws_char(s@[i]));
            lemma_trim_start_prefix(s@, s@.len() as int);
            assert(trim_start_spec(s@) =~= Seq::<char>::empty());
            assert(trim_spec(s@) =~= Seq::<char>::empty());
        }
        String::new()
    } else {
        let t = s.substring_char(start, end);
        proof {
            lemma_trim_start_prefix(s@, start as int);
            let u = s@.subrange(start as int, s@.len() as int);
            assert(forall|j: int|
                end - start <= j < u.len() ==> is_ws_char(#[trigger] u[j]));
            lemma_trim_end_suffix(u, end - start);
            assert(u.subrange(0, end - start) =~= s@.subrange(start as int, end as int));
        }
        t.to_owned()
    }
}

/// The replacement for one character under HTML escaping: the five
/// markup-significant characters become entities, every other character
/// stands unchanged.
pub open spec fn escape_char(c: char) -> Seq<char> {
    if c == '<' {
        seq!['&', 'l', 't', ';']
    } else if c == '>' {
        seq!['&', 'g', 't', ';']
    } else if c == '"' {
        seq!['&', 'q', 'u', 'o', 't', ';']
    } else if c == '&' {
        seq!['&', 'a', 'm', 'p', ';']
    } else if c == '\'' {
        seq!['&', '#', 'x', '2', '7', ';']
    } else {
        seq![c]
    }
}

/// HTML escaping of a whole text, character by character.
pub open spec fn escape_seq(s: Seq<char>) -> Seq<char>
    decreases s.len(),
{
    if s.len() == 0 {
        Seq::empty()
    } else {
        escape_seq(s.drop_last()) + escape_char(s.last())
    }
}

/// Escaping rewrites each character independently: around any position, the
/// escaped text splits into the escape of the prefix, the replacement of the
/// character there, and the escape of the suffix.
pub proof fn lemma_escape_at(s: Seq<char>, i: int)
    requires
        0 <= i < s.len(),
    ensures
        escape_seq(s) == escape_seq(s.take(i)) + escape_char(s[i]) + escape_seq(
            s.skip(i + 1),
        ),
    decreases s.len(),
{
    let d = s.drop_last();
    if i == s.len() - 1 {
        assert(s.take(i) =~= d);
        assert(s.skip(i + 1) =~= Seq::<char>::empty());
        assert(escape_seq(s) =~= escape_seq(s.take(i)) + escape_char(s[i]) + escape_seq(
            s.skip(i + 1),
        ));
    } else {
        lemma_escape_at(d, i);
        assert(d.take(i) =~= s.take(i));
        assert(s.skip(i + 1).drop_last() =~= d.skip(i + 1));
        assert(escape_seq(s.skip(i + 1)) == escape_seq(d.skip(i + 1)) + escape_char(s.last()));
        assert(escape_seq(s) =~= escape_seq(s.take(i)) + escape_char(s[i]) + escape_seq(
            s.skip(i + 1),
        ));
    }
}

/// The HTML-escaped form of the text, as a fresh string.
pub fn escape_html(s: &str) -> (r: String)
    ensures
        r@ == escape_seq(s@),
{
    let n = s.unicode_len();
    let mut out = String::new();
    let mut i: usize = 0;
    while i < n
        invariant
            n == s@.len(),
            i <= n,
            out@ == escape_seq(s@.take(i as int)),
        decreases n - i,
    {
        let c = s.get_char(i);
        if c == '<' {
            out.append("&lt;");
            proof {
                reveal_strlit("&lt;");
                assert("&lt;"@ =~= escape_char(c));
            }
        } else if c == '>' {
            out.append("&gt;");
            proof {
                reveal_strlit("&gt;");
                assert("&gt;"@ =~= escape_char(c));
            }
        } else if c == '"' {
            out.append("&quot;");
            proof {
                reveal_strlit("&quot;");
                assert("&quot;"@ =~= escape_char(c));
            }
        } else if c == '&' {
            out.append("&amp;");
            proof {
                reveal_strlit("&amp;");
                assert("&amp;"@ =~= escape_char(c));
            }
        } else if c == '\'' {
            out.append("&#x27;");
            proof {
                reveal_strlit("&#x27;");
                assert("&#x27;"@ =~= escape_char(c));
            }
        } else {
            push_char(&mut out, c);
            proof {
                assert(seq![c] =~= escape_char(c));
            }
        }
        proof {
            assert(s@.take(i + 1).drop_last() =~= s@.take(i as int));
            assert(s@.take(i + 1).last() == s@[i as int]);
        }
        i += 1;
    }
    proof {
        assert(s@.take(n as int) =~= s@);
    }
    out
}

/// The text as the output writer renders it: HTML-escaped when `escape` is
/// set, verbatim otherwise.
pub fn apply_escape(message: &str, escape: bool) -> (r: String)
    ensures
        escape ==> r@ == escape_seq(message@),
        !escape ==> r@ == message@,
{
    if escape {
        escape_html(message)
    } else {
        message.to_owned()
    }
}

} // verus!
