//! Character-level text utilities: whitespace trimming and separator
//! splitting, with specification-level models over `Seq<char>` and verified
//! executable counterparts.

use vstd::prelude::*;

verus! {

/// The whitespace characters that trimming removes: the ASCII blank
/// characters (space, tab, carriage return, line feed, vertical tab and
/// form feed).
pub open spec fn is_space_char(c: char) -> bool {
    c == ' ' || c == '\t' || c == '\r' || c == '\n' || c == '\u{b}' || c == '\u{c}'
}

/// `s` with its leading whitespace removed.
pub open spec fn trim_start(s: Seq<char>) -> Seq<char>
    decreases s.len(),
{
    if s.len() > 0 && is_space_char(s[0]) {
        trim_start(s.drop_first())
    } else {
        s
    }
}

/// `s` with its trailing whitespace removed.
pub open spec fn trim_end(s: Seq<char>) -> Seq<char>
    decreases s.len(),
{
    if s.len() > 0 && is_space_char(s.last()) {
        trim_end(s.drop_last())
    } else {
        s
    }
}

/// `s` with both leading and trailing whitespace removed.
pub open spec fn trimmed(s: Seq<char>) -> Seq<char> {
    trim_end(trim_start(s))
}

/// The pieces of `s` between occurrences of the separator `sep`, in order.
/// As with `str::split`, an empty input yields one empty piece, and
/// adjacent separators yield empty pieces.
pub open spec fn split_char(s: Seq<char>, sep: char) -> Seq<Seq<char>>
    decreases s.len(),
{
    if s.len() == 0 {
        seq![Seq::<char>::empty()]
    } else if s[0] == sep {
        seq![Seq::<char>::empty()] + split_char(s.drop_first(), sep)
    } else {
        let rest = split_char(s.drop_first(), sep);
        seq![seq![s[0]] + rest[0]] + rest.drop_first()
    }
}

/// Splitting always yields at least one piece.
pub proof fn lemma_split_len(s: Seq<char>, sep: char)
    ensures
        split_char(s, sep).len() >= 1,
    decreases s.len(),
{
    if s.len() == 0 {
    } else {
        lemma_split_len(s.drop_first(), sep);
    }
}

/// If the separator does not occur in `s`, the split is `s` itself.
pub proof fn lemma_split_no_sep(s: Seq<char>, sep: char)
    requires
        forall|i: int| 0 <= i < s.len() ==> s[i] != sep,
    ensures
        split_char(s, sep) =~~= seq![s],
    decreases s.len(),
{
    if s.len() == 0 {
        assert(s =~= Seq::<char>::empty());
    } else {
        lemma_split_no_sep(s.drop_first(), sep);
        let rest = split_char(s.drop_first(), sep);
        assert(rest =~~= seq![s.drop_first()]);
        assert(seq![s[0]] + s.drop_first() =~= s);
    }
}

/// If the first occurrence of the separator in `s` is at position `k`,
/// splitting takes the prefix before `k` as the first piece and continues
/// after it.
pub proof fn lemma_split_first_sep(s: Seq<char>, sep: char, k: int)
    requires
        0 <= k < s.len(),
        s[k] == sep,
        forall|i: int| 0 <= i < k ==> s[i] != sep,
    ensures
        split_char(s, sep) =~~= seq![s.take(k)] + split_char(s.skip(k + 1), sep),
    decreases k,
{
    if k == 0 {
        assert(s.take(0) =~= Seq::<char>::empty());
        assert(s.skip(1) =~= s.drop_first());
    } else {
        lemma_split_first_sep(s.drop_first(), sep, k - 1);
        let rest = split_char(s.drop_first(), sep);
        assert(rest =~~= seq![s.drop_first().take(k - 1)] + split_char(
            s.drop_first().skip(k),
            sep,
        ));
        assert(seq![s[0]] + s.drop_first().take(k - 1) =~= s.take(k));
        assert(s.drop_first().skip(k) =~= s.skip(k + 1));
        lemma_split_len(s.skip(k + 1), sep);
    }
}

/// No piece of a split is longer than the split string itself.
pub proof fn lemma_split_piece_len(s: Seq<char>, sep: char, i: int)
    requires
        0 <= i < split_char(s, sep).len(),
    ensures
        split_char(s, sep)[i].len() <= s.len(),
    decreases s.len(),
{
    if s.len() == 0 {
    } else if s[0] == sep {
        if i > 0 {
            lemma_split_piece_len(s.drop_first(), sep, i - 1);
        }
    } else {
        lemma_split_len(s.drop_first(), sep);
        if i == 0 {
            lemma_split_piece_len(s.drop_first(), sep, 0);
        } else {
            lemma_split_piece_len(s.drop_first(), sep, i);
        }
    }
}

/// If the first `k` characters of `s` are whitespace and the character at
/// `k` (when there is one) is not, trimming the start of `s` removes
/// exactly those `k` characters.
pub proof fn lemma_trim_start_at(s: Seq<char>, k: int)
    requires
        0 <= k <= s.len(),
        forall|i: int| 0 <= i < k ==> is_space_char(s[i]),
        k < s.len() ==> !is_space_char(s[k]),
    ensures
        trim_start(s) =~= s.skip(k),
    decreases k,
{
    if k == 0 {
        assert(s.skip(0) =~= s);
    } else {
        lemma_trim_start_at(s.drop_first(), k - 1);
        assert(s.drop_first().skip(k - 1) =~= s.skip(k));
    }
}

/// If every character of `s` from position `k` on is whitespace and the
/// character just before `k` (when there is one) is not, trimming the end
/// of `s` keeps exactly the first `k` characters.
pub proof fn lemma_trim_end_at(s: Seq<char>, k: int)
    requires
        0 <= k <= s.len(),
        forall|i: int| k <= i < s.len() ==> is_space_char(s[i]),
        k > 0 ==> !is_space_char(s[k - 1]),
    ensures
        trim_end(s) =~= s.take(k),
    decreases s.len(),
{
    if k == s.len() {
        assert(s.take(k) =~= s);
    } else {
        lemma_trim_end_at(s.drop_last(), k);
        assert(s.drop_last().take(k) =~= s.take(k));
    }
}

/// Compares two string slices character by character.
pub fn str_eq(a: &str, b: &str) -> (r: bool)
    ensures
        r == (a@ == b@),
{
    let alen = a.unicode_len();
    let blen = b.unicode_len();
    if alen != blen {
        return false;
    }
    let mut i: usize = 0;
    while i < alen
        invariant
            0 <= i <= alen,
            alen == a@.len(),
            alen == b@.len(),
            forall|j: int| 0 <= j < i ==> a@[j] == b@[j],
        decreases alen - i,
    {
        if a.get_char(i) != b.get_char(i) {
            return false;
        }
        i = i + 1;
    }
    proof {
        assert(a@ =~= b@);
    }
    true
}

/// Returns the slice of `s` with leading and trailing whitespace removed.
pub fn trim_of(s: &str) -> (r: &str)
    ensures
        r@ == trimmed(s@),
{
    let len = s.unicode_len();
    let mut lo: usize = 0;
    while lo < len && is_space_exec(s.get_char(lo))
        invariant
            0 <= lo <= len,
            len == s@.len(),
            forall|i: int| 0 <= i < lo ==> is_space_char(s@[i]),
        decreases len - lo,
    {
        lo = lo + 1;
    }
    if lo == len {
        proof {
            reveal_strlit("");
            lemma_trim_start_at(s@, len as int);
            assert(s@.skip(len as int) =~= Seq::<char>::empty());
            assert(""@ =~= Seq::<char>::empty());
        }
        ""
    } else {
        let mut hi: usize = len;
        while hi > lo && is_space_exec(s.get_char(hi - 1))
            invariant
                lo <= hi <= len,
                len == s@.len(),
                lo < len,
                !is_space_char(s@[lo as int]),
                forall|i: int| hi <= i < len ==> is_space_char(s@[i]),
            decreases hi,
        {
            hi = hi - 1;
        }
        let r = s.substring_char(lo, hi);
        proof {
            lemma_trim_start_at(s@, lo as int);
            lemma_trim_end_at(s@.skip(lo as int), hi - lo);
            assert(s@.skip(lo as int).take(hi - lo) =~= s@.subrange(lo as int, hi as int));
        }
        r
    }
}

/// Exec test for the whitespace set of [`is_space_char`].
pub fn is_space_exec(c: char) -> (r: bool)
    ensures
        r == is_space_char(c),
{
    c == ' ' || c == '\t' || c == '\r' || c == '\n' || c == '\u{b}' || c == '\u{c}'
}

/// Splits `s` on the separator `sep`, keeping empty pieces.
pub fn split_str(s: &str, sep: char) -> (r: Vec<String>)
    ensures
        r.deep_view() == split_char(s@, sep),
{
    let len = s.unicode_len();
    let mut fields: Vec<String> = Vec::new();
    let mut start: usize = 0;
    let mut i: usize = 0;
    proof {
        assert(s@.skip(0) =~= s@);
        assert(fields.deep_view() + split_char(s@, sep) =~~= split_char(s@, sep));
    }
    while i < len
        invariant
            0 <= start <= i <= len,
            len == s@.len(),
            forall|j: int| start <= j < i ==> s@[j] != sep,
            split_char(s@, sep) =~~= fields.deep_view() + split_char(s@.skip(start as int), sep),
        decreases len - i,
    {
        if s.get_char(i) == sep {
            let piece = s.substring_char(start, i);
            fields.push(piece.to_owned());
            proof {
                lemma_split_first_sep(s@.skip(start as int), sep, i - start);
                assert(s@.skip(start as int).take(i - start) =~= s@.subrange(
                    start as int,
                    i as int,
                ));
                assert(s@.skip(start as int).skip(i - start + 1) =~= s@.skip(i + 1));
            }
            start = i + 1;
        }
        i = i + 1;
    }
    let piece = s.substring_char(start, len);
    fields.push(piece.to_owned());
    proof {
        lemma_split_no_sep(s@.skip(start as int), sep);
        assert(s@.skip(start as int) =~= s@.subrange(start as int, len as int));
        assert(fields.deep_view() =~~= split_char(s@, sep));
    }
    fields
}

/// The trimmed tab-separated fields of one trimmed line: the line is
/// trimmed, split on tabs, and each field is trimmed in turn.
pub open spec fn line_fields(raw: Seq<char>) -> Seq<Seq<char>> {
    split_char(trimmed(raw), '\t').map_values(|f: Seq<char>| trimmed(f))
}

/// A line is blank when it holds nothing but whitespace.
pub open spec fn line_blank(raw: Seq<char>) -> bool {
    trimmed(raw).len() == 0
}

/// A non-blank line always has at least one field.
pub proof fn lemma_line_fields_len(raw: Seq<char>)
    ensures
        line_fields(raw).len() >= 1,
{
    lemma_split_len(trimmed(raw), '\t');
}

/// Splits one raw line into its trimmed tab-separated fields.
pub fn split_line_fields(line: &str) -> (r: Vec<String>)
    ensures
        r.deep_view() == line_fields(line@),
{
    let t = trim_of(line);
    let parts = split_str(t, '\t');
    let mut fields: Vec<String> = Vec::new();
    let mut i: usize = 0;
    while i < parts.len()
        invariant
            0 <= i <= parts.len(),
            parts.deep_view() == split_char(trimmed(line@), '\t'),
            fields.len() == i,
            forall|j: int| 0 <= j < i ==> fields@[j]@ == trimmed(parts.deep_view()[j]),
        decreases parts.len() - i,
    {
        let f = trim_of(parts[i].as_str());
        fields.push(f.to_owned());
        proof {
            assert(parts.deep_view()[i as int] == parts@[i as int]@);
        }
        i = i + 1;
    }
    proof {
        assert(fields.deep_view() =~~= line_fields(line@));
    }
    fields
}

} // verus!
