//! Text helpers shared by the status normalizer and the error messages.

use vstd::prelude::*;
use vstd::string::*;

verus! {

/// The truncation rule for one-line status text: text that fits is kept,
/// longer text keeps its first `limit - 3` characters and ends in "...".
pub open spec fn truncated(text: Seq<char>, limit: nat) -> Seq<char> {
    if text.len() <= limit {
        text
    } else {
        text.subrange(0, limit - 3) + "..."@
    }
}

/// Shortens `text` for a status line.
pub fn truncate_for_status(text: &str, max_length: usize) -> (r: String)
    requires
        3 <= max_length,
    ensures
        r@ == truncated(text@, max_length as nat),
        text@.len() <= max_length ==> r@ == text@,
        text@.len() > max_length ==> r@.len() == max_length,
        text@.len() > max_length ==> r@.subrange(max_length - 3, max_length as int) == "..."@,
{
    proof {
        reveal_strlit("...");
    }
    let n = text.unicode_len();
    if n <= max_length {
        text.to_owned()
    } else {
        let head = text.substring_char(0, max_length - 3);
        let r = head.to_owned().concat("...");
        assert(r@.subrange(max_length - 3, max_length as int) =~= "..."@);
        r
    }
}

/// Whether `a` and `b` hold the same characters.
pub fn same_text(a: &str, b: &str) -> (r: bool)
    ensures
        r == (a@ == b@),
{
    a.to_owned() == b.to_owned()
}

/// What `str::to_lowercase` makes of a text.
pub uninterp spec fn lower_of(s: Seq<char>) -> Seq<char>;

/// Relies on `str::to_lowercase`: the result depends on the characters alone.
#[verifier::external_body]
pub(crate) fn lowercase(s: &str) -> (r: String)
    ensures
        r@ == lower_of(s@),
{
    s.to_lowercase()
}

/// The character of decimal digit `d`.
pub open spec fn digit_char(d: nat) -> char {
    if d == 0 {
        '0'
    } else if d == 1 {
        '1'
    } else if d == 2 {
        '2'
    } else if d == 3 {
        '3'
    } else if d == 4 {
        '4'
    } else if d == 5 {
        '5'
    } else if d == 6 {
        '6'
    } else if d == 7 {
        '7'
    } else if d == 8 {
        '8'
    } else {
        '9'
    }
}

/// The decimal notation of `n`, without leading zeros.
pub open spec fn decimal(n: nat) -> Seq<char>
    decreases n,
{
    if n < 10 {
        seq![digit_char(n)]
    } else {
        decimal(n / 10).push(digit_char(n % 10))
    }
}

/// Writes `n` in decimal.
pub fn to_decimal(n: u64) -> (r: String)
    ensures
        r@ == decimal(n as nat),
    decreases n,
{
    let digits = "0123456789";
    proof {
        reveal_strlit("0123456789");
    }
    let d = (n % 10) as usize;
    let last = digits.substring_char(d, d + 1);
    assert(last@ == seq![digit_char(d as nat)]);
    if n < 10 {
        last.to_owned()
    } else {
        let mut head = to_decimal(n / 10);
        head.append(last);
        head
    }
}

/// Index just past the last '/' among the first `n` characters of `s`, or 0.
pub open spec fn last_slash_cut(s: Seq<char>, n: int) -> int
    decreases n,
{
    if n <= 0 {
        0
    } else if s[n - 1] == '/' {
        n
    } else {
        last_slash_cut(s, n - 1)
    }
}

proof fn lemma_last_slash_cut_bounds(s: Seq<char>, n: int)
    requires
        0 <= n,
    ensures
        0 <= last_slash_cut(s, n) <= n,
    decreases n,
{
    if n > 0 && s[n - 1] != '/' {
        lemma_last_slash_cut_bounds(s, n - 1);
    }
}

/// The last '/'-separated segment of a path: all of it when it holds no '/'.
pub open spec fn base_name(s: Seq<char>) -> Seq<char> {
    s.subrange(last_slash_cut(s, s.len() as int), s.len() as int)
}

/// The last segment of a '/'-separated path.
pub fn file_name_of(path: &str) -> (r: String)
    ensures
        r@ == base_name(path@),
{
    let n = path.unicode_len();
    let mut cut: usize = 0;
    let mut idx: usize = 0;
    let chars = path.chars();
    for c in it: chars
        invariant
            idx == it.index(),
            it.seq() == path@,
            n == path@.len(),
            cut == last_slash_cut(path@, idx as int),
    {
        proof {
            lemma_last_slash_cut_bounds(path@, idx as int);
        }
        idx = idx + 1;
        if c == '/' {
            cut = idx;
        }
    }
    proof {
        lemma_last_slash_cut_bounds(path@, n as int);
    }
    path.substring_char(cut, n).to_owned()
}

/// `s` between double quotes.
pub open spec fn quoted(s: Seq<char>) -> Seq<char> {
    "\""@ + s + "\""@
}

/// Puts `s` between double quotes.
pub fn quote(s: &str) -> (r: String)
    ensures
        r@ == quoted(s@),
{
    let open = String::from_str("\"");
    open.concat(s).concat("\"")
}

/// What `String::from_utf8_lossy` makes of a byte sequence.
pub uninterp spec fn lossy_text(b: Seq<u8>) -> Seq<char>;

/// Relies on `String::from_utf8_lossy`: the text depends on the bytes
/// alone, invalid sequences becoming replacement characters.
#[verifier::external_body]
pub(crate) fn decode_lossy(bytes: &[u8]) -> (r: String)
    ensures
        r@ == lossy_text(bytes@),
{
    String::from_utf8_lossy(bytes).into_owned()
}

} // verus!
