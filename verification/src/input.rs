use vstd::prelude::*;
use vstd::string::StrSliceExecFns;

verus! {

/// A whitespace character, as surrounding whitespace is understood by the
/// move validator: the blank, tab, line feed, vertical tab, form feed and
/// carriage return.
pub open spec fn is_space(c: char) -> bool {
    c == ' ' || c == '\t' || c == '\n' || c == '\u{b}' || c == '\u{c}' || c == '\r'
}

/// `s` with its leading whitespace removed.
pub open spec fn trim_front(s: Seq<char>) -> Seq<char>
    decreases s.len(),
{
    if s.len() > 0 && is_space(s[0]) {
        trim_front(s.drop_first())
    } else {
        s
    }
}

/// `s` with its trailing whitespace removed.
pub open spec fn trim_back(s: Seq<char>) -> Seq<char>
    decreases s.len(),
{
    if s.len() > 0 && is_space(s.last()) {
        trim_back(s.drop_last())
    } else {
        s
    }
}

/// `s` with both leading and trailing whitespace removed.
pub open spec fn trimmed(s: Seq<char>) -> Seq<char> {
    trim_back(trim_front(s))
}

/// A digit naming a cell: `'1'` through `'9'`.
pub open spec fn move_digit(c: char) -> bool {
    49 <= c as int <= 57
}

/// The numeric value of a decimal digit character.
pub open spec fn digit_value(c: char) -> int {
    c as int - 48
}

/// The raw inputs the validator accepts: those that are a single digit
/// `'1'` through `'9'` once surrounding whitespace is removed.
pub open spec fn accepted(s: Seq<char>) -> bool {
    trimmed(s).len() == 1 && move_digit(trimmed(s)[0])
}

/// The cell index an accepted input names.
pub open spec fn accepted_value(s: Seq<char>) -> int {
    digit_value(trimmed(s)[0])
}

/// Whether a character is whitespace in the validator's sense.
fn is_space_char(c: char) -> (r: bool)
    ensures
        r == is_space(c),
{
    c == ' ' || c == '\t' || c == '\n' || c == '\u{b}' || c == '\u{c}' || c == '\r'
}

proof fn lemma_trim_front_at(s: Seq<char>, i: int)
    requires
        0 <= i <= s.len(),
        forall|j: int| 0 <= j < i ==> is_space(#[trigger] s[j]),
        i == s.len() || !is_space(s[i]),
    ensures
        trim_front(s) =~= s.subrange(i, s.len() as int),
    decreases i,
{
    if i == 0 {
        assert(s.subrange(0, s.len() as int) =~= s);
    } else {
        assert(is_space(s[0]));
        let t = s.drop_first();
        assert(forall|j: int| 0 <= j < i - 1 ==> is_space(#[trigger] t[j]));
        lemma_trim_front_at(t, i - 1);
        assert(t.subrange(i - 1, t.len() as int) =~= s.subrange(i, s.len() as int));
    }
}

proof fn lemma_trim_back_at(s: Seq<char>, h: int)
    requires
        0 <= h <= s.len(),
        forall|j: int| h <= j < s.len() ==> is_space(#[trigger] s[j]),
        h == 0 || !is_space(s[h - 1]),
    ensures
        trim_back(s) =~= s.subrange(0, h),
    decreases s.len() - h,
{
    if h < s.len() {
        assert(is_space(s.last()));
        let t = s.drop_last();
        assert(forall|j: int| h <= j < t.len() ==> is_space(#[trigger] t[j]));
        lemma_trim_back_at(t, h);
        assert(t.subrange(0, h) =~= s.subrange(0, h));
    } else {
        if s.len() == 0 {
            assert(trim_back(s) =~= s.subrange(0, 0));
        } else {
            assert(!is_space(s.last()));
            assert(s.subrange(0, h) =~= s);
        }
    }
}

/// Parse a raw move input. After removing surrounding whitespace the text
/// must be a single digit `'1'` through `'9'`; exactly then the named cell
/// index is returned, and anything else is rejected with an error message.
pub fn validate_input(input: &String) -> (r: Result<u8, &'static str>)
    ensures
        r is Ok <==> accepted(input@),
        r matches Ok(n) ==> 1 <= n <= 9 && n == accepted_value(input@),
        r matches Err(m) ==> m@ == "Please enter a number between 1 and 9"@,
{
    let s: &str = input.as_str();
    let len: usize = s.unicode_len();
    let mut lo: usize = 0;
    loop
        invariant_except_break
            0 <= lo <= len,
            len == s@.len(),
            forall|j: int| 0 <= j < lo ==> is_space(#[trigger] s@[j]),
        ensures
            0 <= lo <= len,
            len == s@.len(),
            forall|j: int| 0 <= j < lo ==> is_space(#[trigger] s@[j]),
            lo == len || !is_space(s@[lo as int]),
        decreases len - lo,
    {
        if lo == len {
            break;
        }
        if !is_space_char(s.get_char(lo)) {
            break;
        }
        lo = lo + 1;
    }
    if lo == len {
        proof {
            lemma_trim_front_at(s@, lo as int);
            assert(trim_front(s@) =~= Seq::<char>::empty());
            assert(trimmed(s@).len() == 0);
        }
        return Err("Please enter a number between 1 and 9");
    }
    let mut hi: usize = len;
    loop
        invariant_except_break
            lo < hi <= len,
            len == s@.len(),
            !is_space(s@[lo as int]),
            forall|j: int| hi <= j < len ==> is_space(#[trigger] s@[j]),
        ensures
            lo < hi <= len,
            len == s@.len(),
            forall|j: int| hi <= j < len ==> is_space(#[trigger] s@[j]),
            !is_space(s@[hi - 1]),
        decreases hi,
    {
        if !is_space_char(s.get_char(hi - 1)) {
            break;
        }
        hi = hi - 1;
    }
    proof {
        lemma_trim_front_at(s@, lo as int);
        let t = trim_front(s@);
        assert(t =~= s@.subrange(lo as int, len as int));
        assert(forall|j: int| hi - lo <= j < t.len() ==> is_space(#[trigger] t[j]));
        assert(t[hi - lo - 1] == s@[hi - 1]);
        lemma_trim_back_at(t, hi - lo);
        assert(trimmed(s@) =~= s@.subrange(lo as int, hi as int));
    }
    if hi - lo == 1 {
        let c = s.get_char(lo);
        let u: u32 = c as u32;
        assert(trimmed(s@)[0] == c);
        if 49 <= u && u <= 57 {
            let n: u8 = (u - 48) as u8;
            return Ok(n);
        }
    }
    Err("Please enter a number between 1 and 9")
}

} // verus!
