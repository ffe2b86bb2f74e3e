//! String helpers shared by the query layer: case folding, equality and
//! substring search over the character view of a string.

use vstd::prelude::*;

verus! {

/// The character sequence that `str::to_lowercase` produces for a given input.
pub uninterp spec fn lower_of(s: Seq<char>) -> Seq<char>;

/// The character sequence that `str::to_uppercase` produces for a given input.
pub uninterp spec fn upper_of(s: Seq<char>) -> Seq<char>;

/// Relies on str::to_lowercase: the result depends on the input characters alone.
#[verifier::external_body]
pub(crate) fn to_lowercase(s: &str) -> (r: String)
    ensures
        r@ == lower_of(s@),
{
    s.to_lowercase()
}

/// Relies on str::to_uppercase: the result depends on the input characters alone.
#[verifier::external_body]
pub(crate) fn to_uppercase(s: &str) -> (r: String)
    ensures
        r@ == upper_of(s@),
{
    s.to_uppercase()
}

/// The view of an optional borrowed string.
pub open spec fn opt_str_view(o: Option<&String>) -> Option<Seq<char>> {
    match o {
        Some(s) => Some(s@),
        None => None,
    }
}

/// A field passes an optional filter parameter when the parameter is absent
/// or the two compare equal after case folding.
pub open spec fn matches_lower(field: Seq<char>, param: Option<Seq<char>>) -> bool {
    match param {
        Some(q) => lower_of(field) == lower_of(q),
        None => true,
    }
}

/// Character-for-character equality of two string slices.
pub fn str_eq(a: &str, b: &str) -> (r: bool)
    ensures
        r == (a@ == b@),
{
    let alen = a.unicode_len();
    let blen = b.unicode_len();
    if alen != blen {
        return false;
    }
    let mut i: usize = 0;
    while i < alen
        invariant
            alen == a@.len(),
            alen == b@.len(),
            i <= alen,
            forall|j: int| 0 <= j < i ==> a@[j] == b@[j],
        decreases alen - i,
    {
        if a.get_char(i) != b.get_char(i) {
            return false;
        }
        i = i + 1;
    }
    proof {
        assert(a@ =~= b@);
    }
    true
}

/// Whether `sub` occurs as a contiguous run of characters inside `s`.
pub open spec fn contains_seq(s: Seq<char>, sub: Seq<char>) -> bool {
    exists|i: int|
        0 <= i && i + sub.len() <= s.len() && #[trigger] s.subrange(i, i + sub.len() as int)
            == sub
}

/// Substring search over the character views, as `str::contains` performs it.
pub fn str_contains(s: &str, sub: &str) -> (r: bool)
    ensures
        r == contains_seq(s@, sub@),
{
    let slen = s.unicode_len();
    let sublen = sub.unicode_len();
    if sublen > slen {
        return false;
    }
    if sublen == 0 {
        proof {
            assert(s@.subrange(0, 0 + sub@.len() as int) =~= sub@);
        }
        return true;
    }
    let mut i: usize = 0;
    while i <= slen - sublen
        invariant
            slen == s@.len(),
            sublen == sub@.len(),
            1 <= sublen <= slen,
            i <= slen - sublen + 1,
            forall|k: int|
                0 <= k < i ==> #[trigger] s@.subrange(k, k + sub@.len() as int) != sub@,
        decreases slen - sublen + 1 - i,
    {
        let mut j: usize = 0;
        let mut mismatch = false;
        while j < sublen
            invariant
                slen == s@.len(),
                sublen == sub@.len(),
                i + sublen <= slen,
                j <= sublen,
                !mismatch ==> forall|k: int| 0 <= k < j ==> s@[i + k] == sub@[k],
                mismatch ==> s@.subrange(i as int, i + sub@.len() as int) != sub@,
            decreases sublen - j,
        {
            if s.get_char(i + j) != sub.get_char(j) {
                proof {
                    assert(s@.subrange(i as int, i + sub@.len() as int)[j as int] == s@[i + j]);
                }
                mismatch = true;
                j = sublen;
            } else {
                j = j + 1;
            }
        }
        if !mismatch {
            proof {
                assert(s@.subrange(i as int, i + sub@.len() as int) =~= sub@);
            }
            return true;
        }
        i = i + 1;
    }
    proof {
        assert(forall|k: int|
            0 <= k && k + sub@.len() <= s@.len() ==> #[trigger] s@.subrange(
                k,
                k + sub@.len() as int,
            ) != sub@);
    }
    false
}

/// The fields of `s` split at every occurrence of `sep`; a split of the
/// empty sequence is one empty field, as `str::split` has it.
pub open spec fn split_on(s: Seq<char>, sep: char) -> Seq<Seq<char>>
    decreases s.len(),
{
    if s.len() == 0 {
        seq![Seq::empty()]
    } else if s[0] == sep {
        seq![Seq::<char>::empty()] + split_on(s.drop_first(), sep)
    } else {
        let rest = split_on(s.drop_first(), sep);
        seq![seq![s[0]] + rest[0]] + rest.drop_first()
    }
}

/// A split always yields at least one field.
pub proof fn lemma_split_on_len(s: Seq<char>, sep: char)
    ensures
        split_on(s, sep).len() >= 1,
    decreases s.len(),
{
    if s.len() > 0 {
        lemma_split_on_len(s.drop_first(), sep);
    }
}

/// Split a string at every occurrence of a separator character.
pub fn split_str(s: &str, sep: char) -> (r: Vec<String>)
    ensures
        r.deep_view() == split_on(s@, sep),
{
    let len = s.unicode_len();
    let mut fields: Vec<String> = Vec::new();
    let mut start: usize = 0;
    let mut i: usize = 0;
    proof {
        lemma_split_on_len(s@.skip(0), sep);
        assert(s@.subrange(0, 0) =~= Seq::<char>::empty());
        assert(fields.deep_view() =~= Seq::<Seq<char>>::empty());
        assert(s@.skip(0) =~= s@);
        assert(fields.deep_view() + (seq![
            s@.subrange(0, 0) + split_on(s@.skip(0), sep)[0],
        ] + split_on(s@.skip(0), sep).drop_first()) =~= split_on(s@, sep));
    }
    while i < len
        invariant
            len == s@.len(),
            start <= i <= len,
            split_on(s@, sep) == fields.deep_view() + (seq![
                s@.subrange(start as int, i as int) + split_on(s@.skip(i as int), sep)[0],
            ] + split_on(s@.skip(i as int), sep).drop_first()),
        decreases len - i,
    {
        let ghost pre = fields.deep_view();
        proof {
            lemma_split_on_len(s@.skip(i as int + 1), sep);
            assert(s@.skip(i as int)[0] == s@[i as int]);
            assert(s@.skip(i as int).drop_first() =~= s@.skip(i as int + 1));
        }
        let c = s.get_char(i);
        if c == sep {
            let ghost st = start as int;
            let f = String::from_str(s.substring_char(start, i));
            fields.push(f);
            start = i + 1;
            proof {
                let spn = split_on(s@.skip(i as int + 1), sep);
                assert(split_on(s@.skip(i as int), sep) =~= seq![Seq::<char>::empty()] + spn);
                assert(fields.deep_view() =~= pre.push(s@.subrange(st, i as int)));
                assert(s@.subrange(st, i as int) + Seq::<char>::empty() =~= s@.subrange(
                    st,
                    i as int,
                ));
                assert(s@.subrange(i as int + 1, i as int + 1) =~= Seq::<char>::empty());
                assert(seq![s@.subrange(i as int + 1, i as int + 1) + spn[0]] + spn.drop_first()
                    =~= spn);
                assert(split_on(s@, sep) =~= fields.deep_view() + (seq![
                    s@.subrange(i as int + 1, i as int + 1) + spn[0],
                ] + spn.drop_first()));
            }
        } else {
            proof {
                let sp = split_on(s@.skip(i as int), sep);
                let spn = split_on(s@.skip(i as int + 1), sep);
                assert(sp =~= seq![seq![s@[i as int]] + spn[0]] + spn.drop_first());
                assert(sp[0] == seq![s@[i as int]] + spn[0]);
                assert(sp.drop_first() =~= spn.drop_first());
                assert(s@.subrange(start as int, i as int + 1) =~= s@.subrange(
                    start as int,
                    i as int,
                ) + seq![s@[i as int]]);
                assert(s@.subrange(start as int, i as int + 1) + spn[0] =~= s@.subrange(
                    start as int,
                    i as int,
                ) + sp[0]);
                assert(split_on(s@, sep) =~= fields.deep_view() + (seq![
                    s@.subrange(start as int, i as int + 1) + spn[0],
                ] + spn.drop_first()));
            }
        }
        i = i + 1;
    }
    proof {
        assert(s@.skip(len as int) =~= Seq::<char>::empty());
        assert(split_on(s@.skip(len as int), sep) =~= seq![Seq::<char>::empty()]);
    }
    let f = String::from_str(s.substring_char(start, len));
    fields.push(f);
    proof {
        assert(s@.subrange(start as int, len as int) + Seq::<char>::empty() =~= s@.subrange(
            start as int,
            len as int,
        ));
        assert(fields.deep_view() =~= split_on(s@, sep));
    }
    fields
}

/// Whether a character counts as whitespace for trimming.
pub uninterp spec fn spec_is_whitespace(c: char) -> bool;

/// Relies on char::is_whitespace: whether a character has the Unicode
/// white-space property, a function of the character alone.
pub assume_specification[ char::is_whitespace ](c: char) -> (r: bool)
    ensures
        r == spec_is_whitespace(c),
;

/// A line as `str::lines` yields it: without a carriage return that stood
/// immediately before the line feed.
pub open spec fn strip_cr(s: Seq<char>) -> Seq<char> {
    if s.len() > 0 && s.last() == '\r' {
        s.drop_last()
    } else {
        s
    }
}

/// Every field stripped of a trailing carriage return, in order.
pub open spec fn strip_cr_all(ps: Seq<Seq<char>>) -> Seq<Seq<char>>
    decreases ps.len(),
{
    if ps.len() == 0 {
        Seq::empty()
    } else {
        strip_cr_all(ps.drop_last()).push(strip_cr(ps.last()))
    }
}

/// The lines of `s`, as `str::lines` yields them: split at line feeds, each
/// terminated line stripped of a carriage return before the line feed, and
/// no final empty line after a terminating line feed.
pub open spec fn lines_of(s: Seq<char>) -> Seq<Seq<char>> {
    let parts = split_on(s, '\n');
    let terminated = strip_cr_all(parts.take(parts.len() - 1));
    if parts.last().len() == 0 {
        terminated
    } else {
        terminated.push(parts.last())
    }
}

/// The lines of a string, as `str::lines` yields them.
pub fn lines_str(s: &str) -> (r: Vec<String>)
    ensures
        r.deep_view() == lines_of(s@),
{
    let parts = split_str(s, '\n');
    proof {
        lemma_split_on_len(s@, '\n');
    }
    let n = parts.len();
    let mut out: Vec<String> = Vec::new();
    let mut i: usize = 0;
    proof {
        assert(out.deep_view() =~= strip_cr_all(split_on(s@, '\n').take(0)));
    }
    while i < n - 1
        invariant
            n >= 1,
            n == parts@.len(),
            parts.deep_view() == split_on(s@, '\n'),
            i <= n - 1,
            out.deep_view() == strip_cr_all(split_on(s@, '\n').take(i as int)),
        decreases n - 1 - i,
    {
        let ghost preout = out.deep_view();
        let ghost part = parts.deep_view()[i as int];
        let p = &parts[i];
        proof {
            assert(p@ == part);
        }
        let l = p.as_str().unicode_len();
        let stripped = if l > 0 && p.as_str().get_char(l - 1) == '\r' {
            String::from_str(p.as_str().substring_char(0, l - 1))
        } else {
            p.clone()
        };
        proof {
            assert(part.drop_last() =~= part.subrange(0, part.len() - 1));
            assert(stripped@ == strip_cr(part));
        }
        out.push(stripped);
        proof {
            let sp = split_on(s@, '\n');
            assert(sp.take(i as int + 1).drop_last() =~= sp.take(i as int));
            assert(sp.take(i as int + 1).last() == sp[i as int]);
            assert(out.deep_view() =~= preout.push(strip_cr(sp[i as int])));
        }
        i = i + 1;
    }
    let lp = &parts[n - 1];
    if lp.as_str().unicode_len() > 0 {
        out.push(lp.clone());
    }
    proof {
        assert(out.deep_view() =~= lines_of(s@));
    }
    out
}

/// The sequence without its leading whitespace.
pub open spec fn trim_start_of(s: Seq<char>) -> Seq<char>
    decreases s.len(),
{
    if s.len() > 0 && spec_is_whitespace(s[0]) {
        trim_start_of(s.drop_first())
    } else {
        s
    }
}

/// The sequence without its trailing whitespace.
pub open spec fn trim_end_of(s: Seq<char>) -> Seq<char>
    decreases s.len(),
{
    if s.len() > 0 && spec_is_whitespace(s.last()) {
        trim_end_of(s.drop_last())
    } else {
        s
    }
}

/// The sequence without leading and trailing whitespace, as `str::trim`.
pub open spec fn trim_of(s: Seq<char>) -> Seq<char> {
    trim_end_of(trim_start_of(s))
}

/// A copy of the string without leading and trailing whitespace.
pub fn trim_str(s: &str) -> (r: String)
    ensures
        r@ == trim_of(s@),
{
    let len = s.unicode_len();
    let mut start: usize = 0;
    proof {
        assert(s@.skip(0) =~= s@);
    }
    while start < len && s.get_char(start).is_whitespace()
        invariant
            len == s@.len(),
            start <= len,
            trim_start_of(s@) == trim_start_of(s@.skip(start as int)),
        decreases len - start,
    {
        proof {
            assert(s@.skip(start as int)[0] == s@[start as int]);
            assert(s@.skip(start as int).drop_first() =~= s@.skip(start as int + 1));
        }
        start = start + 1;
    }
    proof {
        if start < len {
            assert(s@.skip(start as int)[0] == s@[start as int]);
        }
        assert(trim_start_of(s@.skip(start as int)) == s@.skip(start as int));
    }
    let mut end: usize = len;
    proof {
        assert(s@.subrange(start as int, len as int) =~= s@.skip(start as int));
    }
    while end > start && s.get_char(end - 1).is_whitespace()
        invariant
            len == s@.len(),
            start <= end <= len,
            trim_start_of(s@) == s@.skip(start as int),
            trim_end_of(s@.skip(start as int)) == trim_end_of(
                s@.subrange(start as int, end as int),
            ),
        decreases end,
    {
        proof {
            assert(s@.subrange(start as int, end as int).last() == s@[end - 1]);
            assert(s@.subrange(start as int, end as int).drop_last() =~= s@.subrange(
                start as int,
                end as int - 1,
            ));
        }
        end = end - 1;
    }
    proof {
        if end > start {
            assert(s@.subrange(start as int, end as int).last() == s@[end - 1]);
        }
        assert(trim_end_of(s@.subrange(start as int, end as int)) == s@.subrange(
            start as int,
            end as int,
        ));
    }
    String::from_str(s.substring_char(start, end))
}

} // verus!
