//! Verified string utilities: splitting, joining, prefix stripping and
//! substring removal, with exact specifications. The diff reconstructor and
//! the repository-identity logic are built on these.

use vstd::prelude::*;

verus! {

/// Index of the first occurrence of `sep` in `s`, or -1 if there is none.
pub open spec fn find_sep(s: Seq<char>, sep: char) -> int
    decreases s.len(),
{
    if s.len() == 0 {
        -1
    } else if s[0] == sep {
        0
    } else {
        let r = find_sep(s.drop_first(), sep);
        if r < 0 {
            -1
        } else {
            r + 1
        }
    }
}

pub proof fn lemma_find_sep_props(s: Seq<char>, sep: char)
    ensures
        find_sep(s, sep) < 0 ==> forall|j: int| 0 <= j < s.len() ==> s[j] != sep,
        find_sep(s, sep) >= 0 ==> {
            let f = find_sep(s, sep);
            &&& 0 <= f < s.len()
            &&& s[f] == sep
            &&& forall|j: int| 0 <= j < f ==> s[j] != sep
        },
    decreases s.len(),
{
    if s.len() == 0 {
    } else if s[0] == sep {
    } else {
        lemma_find_sep_props(s.drop_first(), sep);
        let r = find_sep(s.drop_first(), sep);
        if r >= 0 {
            assert(s.drop_first()[r] == s[r + 1]);
            assert forall|j: int| 0 <= j < r + 1 implies s[j] != sep by {
                if j > 0 {
                    assert(s.drop_first()[j - 1] == s[j]);
                }
            }
        } else {
            assert forall|j: int| 0 <= j < s.len() implies s[j] != sep by {
                if j > 0 {
                    assert(s.drop_first()[j - 1] == s[j]);
                }
            }
        }
    }
}

/// If `sep` first occurs at `i`, then `find_sep` returns `i`.
pub proof fn lemma_find_sep_at(s: Seq<char>, sep: char, i: int)
    requires
        0 <= i < s.len(),
        s[i] == sep,
        forall|j: int| 0 <= j < i ==> s[j] != sep,
    ensures
        find_sep(s, sep) == i,
    decreases s.len(),
{
    if i == 0 {
    } else {
        assert(s.drop_first()[i - 1] == s[i]);
        assert forall|j: int| 0 <= j < i - 1 implies s.drop_first()[j] != sep by {
            assert(s.drop_first()[j] == s[j + 1]);
        }
        lemma_find_sep_at(s.drop_first(), sep, i - 1);
    }
}

/// The tokens of `s` split at every occurrence of `sep`, exactly as Rust's
/// `str::split` with a one-character pattern: consecutive separators yield
/// empty tokens, and there is always at least one token.
pub open spec fn spec_split(s: Seq<char>, sep: char) -> Seq<Seq<char>>
    decreases s.len(),
{
    let f = find_sep(s, sep);
    if !(0 <= f < s.len()) {
        seq![s]
    } else {
        seq![s.subrange(0, f)] + spec_split(s.subrange(f + 1, s.len() as int), sep)
    }
}

pub proof fn lemma_spec_split_len(s: Seq<char>, sep: char)
    ensures
        spec_split(s, sep).len() >= 1,
    decreases s.len(),
{
    let f = find_sep(s, sep);
    if 0 <= f < s.len() {
        lemma_spec_split_len(s.subrange(f + 1, s.len() as int), sep);
    }
}

/// `p` is a prefix of `s`.
pub open spec fn is_prefix(p: Seq<char>, s: Seq<char>) -> bool {
    p.len() <= s.len() && s.subrange(0, p.len() as int) == p
}

/// Equality test on string slices, proved by comparing characters.
pub fn str_eq(a: &str, b: &str) -> (r: bool)
    ensures
        r == (a@ == b@),
{
    let alen: usize = a.unicode_len();
    let blen: usize = b.unicode_len();
    if alen != blen {
        proof {
            assert(a@ != b@) by {
                assert(a@.len() != b@.len());
            }
        }
        return false;
    }
    let mut i: usize = 0;
    while i < alen
        invariant
            alen == a@.len(),
            blen == b@.len(),
            alen == blen,
            0 <= i <= alen,
            forall|j: int| 0 <= j < i ==> a@[j] == b@[j],
        decreases alen - i,
    {
        if a.get_char(i) != b.get_char(i) {
            return false;
        }
        i += 1;
    }
    proof {
        assert(a@ =~= b@);
    }
    true
}

/// Whether a text contains no NUL character. The backing library converts
/// paths to C strings and cannot represent a NUL inside one.
pub open spec fn nul_free(s: Seq<char>) -> bool {
    forall|i: int| 0 <= i < s.len() ==> s[i] != '\0'
}

/// Whether `s` contains no NUL character.
pub fn is_nul_free(s: &str) -> (r: bool)
    ensures
        r == nul_free(s@),
{
    let len: usize = s.unicode_len();
    let mut i: usize = 0;
    while i < len
        invariant
            len == s@.len(),
            0 <= i <= len,
            forall|j: int| 0 <= j < i ==> s@[j] != '\0',
        decreases len - i,
    {
        if s.get_char(i) == '\0' {
            return false;
        }
        i += 1;
    }
    true
}

/// Everything after the first occurrence of `sep` in `s`, or `s` itself
/// when `sep` does not occur.
pub open spec fn spec_after_first(s: Seq<char>, sep: char) -> Seq<char> {
    let f = find_sep(s, sep);
    if 0 <= f < s.len() {
        s.skip(f + 1)
    } else {
        s
    }
}

/// Drops everything up to and including the first occurrence of `sep`.
pub fn after_first(s: &str, sep: char) -> (r: String)
    ensures
        r@ == spec_after_first(s@, sep),
{
    let len: usize = s.unicode_len();
    let mut i: usize = 0;
    while i < len
        invariant
            len == s@.len(),
            0 <= i <= len,
            forall|j: int| 0 <= j < i ==> s@[j] != sep,
        decreases len - i,
    {
        if s.get_char(i) == sep {
            proof {
                lemma_find_sep_at(s@, sep, i as int);
            }
            let tail = s.substring_char(i + 1, len);
            proof {
                assert(tail@ =~= s@.skip(i + 1));
            }
            return tail.to_owned();
        }
        i += 1;
    }
    proof {
        lemma_find_sep_props(s@, sep);
        if 0 <= find_sep(s@, sep) < s@.len() {
            assert(s@[find_sep(s@, sep)] == sep);
            assert(false);
        }
    }
    s.to_owned()
}

/// Equality test on byte vectors, proved by comparing elements.
pub fn bytes_eq(a: &Vec<u8>, b: &Vec<u8>) -> (r: bool)
    ensures
        r == (a@ == b@),
{
    if a.len() != b.len() {
        return false;
    }
    let mut i: usize = 0;
    while i < a.len()
        invariant
            a@.len() == b@.len(),
            0 <= i <= a@.len(),
            forall|j: int| 0 <= j < i ==> a@[j] == b@[j],
        decreases a@.len() - i,
    {
        if a[i] != b[i] {
            return false;
        }
        i += 1;
    }
    proof {
        assert(a@ =~= b@);
    }
    true
}

/// Whether `p@` is a prefix of `s@` starting at character offset `at`.
fn is_prefix_at(s: &str, p: &str, at: usize) -> (r: bool)
    requires
        at <= s@.len(),
    ensures
        r == is_prefix(p@, s@.skip(at as int)),
{
    let slen: usize = s.unicode_len();
    let plen: usize = p.unicode_len();
    if plen > slen - at {
        return false;
    }
    let mut i: usize = 0;
    while i < plen
        invariant
            at <= s@.len(),
            plen == p@.len(),
            slen == s@.len(),
            plen <= slen - at,
            0 <= i <= plen,
            forall|j: int| 0 <= j < i ==> p@[j] == s@[at + j],
        decreases plen - i,
    {
        if s.get_char(at + i) != p.get_char(i) {
            return false;
        }
        i += 1;
    }
    proof {
        assert(s@.skip(at as int).subrange(0, p@.len() as int) =~= p@);
    }
    true
}

/// Splits `s` at every occurrence of `sep`, as `str::split` does with a
/// one-character pattern.
pub fn split_char(s: &str, sep: char) -> (r: Vec<String>)
    ensures
        r.deep_view() == spec_split(s@, sep),
        r@.len() >= 1,
{
    let len: usize = s.unicode_len();
    let mut r: Vec<String> = Vec::new();
    let mut start: usize = 0;
    let mut i: usize = 0;
    proof {
        assert(s@.skip(0) =~= s@);
        assert(r.deep_view() =~= Seq::<Seq<char>>::empty());
        assert(r.deep_view() + spec_split(s@, sep) =~= spec_split(s@, sep));
    }
    while i < len
        invariant
            len == s@.len(),
            0 <= start <= i <= len,
            forall|j: int| start <= j < i ==> s@[j] != sep,
            spec_split(s@, sep) =~= r.deep_view() + spec_split(s@.skip(start as int), sep),
        decreases len - i,
    {
        if s.get_char(i) == sep {
            let token = s.substring_char(start, i);
            let ghost r_old = r.deep_view();
            let ghost tail = s@.skip(start as int);
            r.push(token.to_owned());
            proof {
                assert(tail[i - start] == s@[i as int]);
                assert forall|j: int| 0 <= j < i - start implies tail[j] != sep by {
                    assert(tail[j] == s@[start + j]);
                }
                lemma_find_sep_at(tail, sep, i - start);
                assert(tail.subrange(0, i - start) =~= s@.subrange(start as int, i as int));
                assert(tail.subrange(i - start + 1, tail.len() as int) =~= s@.skip(i + 1));
                assert(r.deep_view() =~= r_old + seq![s@.subrange(start as int, i as int)]);
            }
            start = i + 1;
        }
        i += 1;
    }
    let token = s.substring_char(start, len);
    let ghost r_old = r.deep_view();
    let ghost tail = s@.skip(start as int);
    r.push(token.to_owned());
    proof {
        lemma_find_sep_props(tail, sep);
        if 0 <= find_sep(tail, sep) < tail.len() {
            let f = find_sep(tail, sep);
            assert(s@[start + f] == sep);
            assert(false);
        }
        assert(tail =~= s@.subrange(start as int, len as int));
        assert(r.deep_view() =~= r_old + seq![tail]);
        lemma_spec_split_len(s@, sep);
    }
    r
}

/// `s` with every leading occurrence of the non-empty pattern `p` removed,
/// as Rust's `str::trim_start_matches`.
pub open spec fn spec_trim_start_matches(s: Seq<char>, p: Seq<char>) -> Seq<char>
    decreases s.len(),
{
    if p.len() > 0 && is_prefix(p, s) {
        spec_trim_start_matches(s.skip(p.len() as int), p)
    } else {
        s
    }
}

/// Removes every leading occurrence of the non-empty pattern `p` from `s`.
pub fn trim_start_matches_str(s: &str, p: &str) -> (r: String)
    requires
        p@.len() > 0,
    ensures
        r@ == spec_trim_start_matches(s@, p@),
{
    let len: usize = s.unicode_len();
    let plen: usize = p.unicode_len();
    let mut idx: usize = 0;
    proof {
        assert(s@.skip(0) =~= s@);
    }
    let mut go: bool = is_prefix_at(s, p, idx);
    while go
        invariant
            len == s@.len(),
            plen == p@.len(),
            plen > 0,
            0 <= idx <= len,
            go == is_prefix(p@, s@.skip(idx as int)),
            spec_trim_start_matches(s@, p@) == spec_trim_start_matches(s@.skip(idx as int), p@),
        decreases len - idx,
    {
        proof {
            assert(s@.skip(idx as int).skip(plen as int) =~= s@.skip(idx + plen));
        }
        idx += plen;
        go = is_prefix_at(s, p, idx);
    }
    let tail = s.substring_char(idx, len);
    proof {
        assert(tail@ =~= s@.skip(idx as int));
    }
    tail.to_owned()
}

/// `s` with every occurrence of the non-empty pattern `pat` removed,
/// scanning left to right without overlap, as `str::replace(pat, "")`.
pub open spec fn spec_remove_all(s: Seq<char>, pat: Seq<char>) -> Seq<char>
    decreases s.len(),
{
    if pat.len() == 0 || s.len() == 0 {
        s
    } else if is_prefix(pat, s) {
        spec_remove_all(s.skip(pat.len() as int), pat)
    } else {
        seq![s[0]] + spec_remove_all(s.drop_first(), pat)
    }
}

/// Removes every occurrence of the non-empty pattern `pat` from `s`.
pub fn remove_all(s: &str, pat: &str) -> (r: String)
    requires
        pat@.len() > 0,
    ensures
        r@ == spec_remove_all(s@, pat@),
{
    let len: usize = s.unicode_len();
    let plen: usize = pat.unicode_len();
    let mut out = String::new();
    let mut idx: usize = 0;
    let mut kept: usize = 0;
    proof {
        assert(s@.skip(0) =~= s@);
        assert(s@.subrange(0, 0) =~= Seq::<char>::empty());
        assert(out@ + s@.subrange(0, 0) + spec_remove_all(s@, pat@) =~= spec_remove_all(s@, pat@));
    }
    while idx < len
        invariant
            len == s@.len(),
            plen == pat@.len(),
            plen > 0,
            0 <= kept <= idx <= len,
            forall|j: int| kept <= j < idx ==> !is_prefix(pat@, s@.skip(j)),
            spec_remove_all(s@, pat@) == out@ + s@.subrange(kept as int, idx as int)
                + spec_remove_all(s@.skip(idx as int), pat@),
        decreases len - idx,
    {
        if is_prefix_at(s, pat, idx) {
            let ghost out_old = out@;
            let ghost idx_old = idx as int;
            let ghost kept_old = kept as int;
            let piece = s.substring_char(kept, idx);
            out.append(piece);
            idx += plen;
            kept = idx;
            proof {
                assert(s@.skip(idx_old).skip(plen as int) =~= s@.skip(idx_old + plen));
                assert(spec_remove_all(s@.skip(idx_old), pat@) == spec_remove_all(
                    s@.skip(idx as int),
                    pat@,
                ));
                assert(out@ =~= out_old + s@.subrange(kept_old, idx_old));
                assert(s@.subrange(kept as int, idx as int) =~= Seq::<char>::empty());
                assert(out@ + s@.subrange(kept as int, idx as int) + spec_remove_all(
                    s@.skip(idx as int),
                    pat@,
                ) =~= out_old + s@.subrange(kept_old, idx_old) + spec_remove_all(
                    s@.skip(idx_old),
                    pat@,
                ));
            }
        } else {
            let ghost idx_old = idx as int;
            proof {
                lemma_remove_all_advance(s@, pat@, kept as int, idx as int);
            }
            idx += 1;
            proof {
                let a1 = s@.subrange(kept as int, idx_old);
                let r1 = spec_remove_all(s@.skip(idx_old), pat@);
                let a2 = s@.subrange(kept as int, idx as int);
                let r2 = spec_remove_all(s@.skip(idx as int), pat@);
                assert(a1 + r1 == a2 + r2);
                assert(out@ + a1 + r1 =~= out@ + (a1 + r1));
                assert(out@ + a2 + r2 =~= out@ + (a2 + r2));
            }
        }
    }
    let ghost out_old = out@;
    let ghost t = s@.subrange(kept as int, len as int);
    let piece = s.substring_char(kept, len);
    out.append(piece);
    proof {
        assert(s@.skip(len as int) =~= Seq::<char>::empty());
        assert(spec_remove_all(s@.skip(len as int), pat@) =~= Seq::<char>::empty());
        lemma_remove_all_no_match(t, pat@, s@, kept as int);
        assert(out@ =~= out_old + t);
        assert(out_old + t + spec_remove_all(s@.skip(len as int), pat@) =~= out_old + t);
        assert(out@ =~= spec_remove_all(s@, pat@));
    }
    out
}

/// Advancing over one non-matching character keeps the removal invariant.
proof fn lemma_remove_all_advance(s: Seq<char>, pat: Seq<char>, kept: int, idx: int)
    requires
        pat.len() > 0,
        0 <= kept <= idx < s.len(),
        !is_prefix(pat, s.skip(idx)),
    ensures
        s.subrange(kept, idx) + spec_remove_all(s.skip(idx), pat) == s.subrange(kept, idx + 1)
            + spec_remove_all(s.skip(idx + 1), pat),
{
    let t = s.skip(idx);
    assert(t.len() > 0);
    assert(t.drop_first() =~= s.skip(idx + 1));
    assert(spec_remove_all(t, pat) == seq![t[0]] + spec_remove_all(s.skip(idx + 1), pat));
    assert(s.subrange(kept, idx + 1) =~= s.subrange(kept, idx) + seq![s[idx]]);
    assert(s.subrange(kept, idx) + spec_remove_all(t, pat) =~= s.subrange(kept, idx + 1)
        + spec_remove_all(s.skip(idx + 1), pat));
}

/// The tokens of `parts` joined with `sep` between them.
pub open spec fn spec_join(parts: Seq<Seq<char>>, sep: char) -> Seq<char>
    decreases parts.len(),
{
    if parts.len() == 0 {
        Seq::empty()
    } else if parts.len() == 1 {
        parts[0]
    } else {
        parts[0] + seq![sep] + spec_join(parts.drop_first(), sep)
    }
}

/// Joins the first `upto` entries of `parts` with the one-character
/// separator `sep`.
pub fn join_with(parts: &Vec<String>, upto: usize, sep: &str) -> (r: String)
    requires
        sep@.len() == 1,
        upto <= parts@.len(),
    ensures
        r@ == spec_join(parts.deep_view().take(upto as int), sep@[0]),
{
    let mut out = String::new();
    if upto == 0 {
        proof {
            assert(parts.deep_view().take(0) =~= Seq::<Seq<char>>::empty());
        }
        return out;
    }
    out.append(parts[0].as_str());
    let mut i: usize = 1;
    while i < upto
        invariant
            sep@.len() == 1,
            1 <= i <= upto <= parts@.len(),
            out@ == spec_join(parts.deep_view().take(i as int), sep@[0]),
        decreases upto - i,
    {
        let ghost pre = parts.deep_view().take(i as int);
        out.append(sep);
        out.append(parts[i].as_str());
        proof {
            assert(parts.deep_view().take(i + 1) =~= pre + seq![parts.deep_view()[i as int]]);
            lemma_join_snoc(pre, parts.deep_view()[i as int], sep@[0]);
        }
        i += 1;
    }
    proof {
        assert(parts.deep_view().take(1) =~= seq![parts.deep_view()[0]]);
    }
    out
}

/// Appending one token to a non-empty join adds one separator and the token.
proof fn lemma_join_snoc(parts: Seq<Seq<char>>, last: Seq<char>, sep: char)
    requires
        parts.len() >= 1,
    ensures
        spec_join(parts + seq![last], sep) == spec_join(parts, sep) + seq![sep] + last,
    decreases parts.len(),
{
    let all = parts + seq![last];
    if parts.len() == 1 {
        assert(all.drop_first() =~= seq![last]);
        assert(spec_join(all, sep) == all[0] + seq![sep] + spec_join(all.drop_first(), sep));
        assert(all[0] == parts[0]);
        assert(spec_join(parts, sep) == parts[0]);
    } else {
        assert(all.drop_first() =~= parts.drop_first() + seq![last]);
        lemma_join_snoc(parts.drop_first(), last, sep);
        assert(spec_join(all, sep) == all[0] + seq![sep] + spec_join(all.drop_first(), sep));
        assert(all[0] == parts[0]);
        assert(parts[0] + seq![sep] + (spec_join(parts.drop_first(), sep) + seq![sep] + last) =~= (
        parts[0] + seq![sep] + spec_join(parts.drop_first(), sep)) + seq![sep] + last);
    }
}

/// A line segment with one carriage return stripped from its end, as Rust's
/// `str::lines` does before a line feed.
pub open spec fn strip_cr(t: Seq<char>) -> Seq<char> {
    if t.len() > 0 && t.last() == '\r' {
        t.drop_last()
    } else {
        t
    }
}

/// The lines of `s`, split at `\n` or `\r\n`, terminators excluded, with an
/// optional final line ending — exactly as Rust's `str::lines`.
pub open spec fn spec_lines(s: Seq<char>) -> Seq<Seq<char>>
    decreases s.len(),
{
    if s.len() == 0 {
        Seq::empty()
    } else {
        let f = find_sep(s, '\n');
        if !(0 <= f < s.len()) {
            seq![s]
        } else {
            seq![strip_cr(s.subrange(0, f))] + spec_lines(s.subrange(f + 1, s.len() as int))
        }
    }
}

/// Splits `s` into its lines, as `str::lines` does.
pub fn split_lines(s: &str) -> (r: Vec<String>)
    ensures
        r.deep_view() == spec_lines(s@),
{
    let len: usize = s.unicode_len();
    let mut r: Vec<String> = Vec::new();
    let mut start: usize = 0;
    let mut i: usize = 0;
    proof {
        assert(s@.skip(0) =~= s@);
        assert(r.deep_view() =~= Seq::<Seq<char>>::empty());
        assert(r.deep_view() + spec_lines(s@) =~= spec_lines(s@));
    }
    while i < len
        invariant
            len == s@.len(),
            0 <= start <= i <= len,
            forall|j: int| start <= j < i ==> s@[j] != '\n',
            spec_lines(s@) =~= r.deep_view() + spec_lines(s@.skip(start as int)),
        decreases len - i,
    {
        if s.get_char(i) == '\n' {
            let endx: usize = if i > start && s.get_char(i - 1) == '\r' {
                i - 1
            } else {
                i
            };
            let token = s.substring_char(start, endx);
            let ghost r_old = r.deep_view();
            let ghost tail = s@.skip(start as int);
            r.push(token.to_owned());
            proof {
                assert(tail[i - start] == s@[i as int]);
                assert forall|j: int| 0 <= j < i - start implies tail[j] != '\n' by {
                    assert(tail[j] == s@[start + j]);
                }
                lemma_find_sep_at(tail, '\n', i - start);
                assert(tail.subrange(0, i - start) =~= s@.subrange(start as int, i as int));
                if i > start && s@[i - 1] == '\r' {
                    assert(strip_cr(s@.subrange(start as int, i as int)) =~= s@.subrange(
                        start as int,
                        endx as int,
                    ));
                } else {
                    assert(strip_cr(s@.subrange(start as int, i as int)) =~= s@.subrange(
                        start as int,
                        endx as int,
                    ));
                }
                assert(tail.subrange(i - start + 1, tail.len() as int) =~= s@.skip(i + 1));
                assert(r.deep_view() =~= r_old + seq![s@.subrange(start as int, endx as int)]);
            }
            start = i + 1;
        }
        i += 1;
    }
    if start < len {
        let token = s.substring_char(start, len);
        let ghost r_old = r.deep_view();
        let ghost tail = s@.skip(start as int);
        r.push(token.to_owned());
        proof {
            lemma_find_sep_props(tail, '\n');
            if 0 <= find_sep(tail, '\n') < tail.len() {
                let f = find_sep(tail, '\n');
                assert(s@[start + f] == '\n');
                assert(false);
            }
            assert(tail =~= s@.subrange(start as int, len as int));
            assert(r.deep_view() =~= r_old + seq![tail]);
        }
    } else {
        proof {
            assert(s@.skip(start as int) =~= Seq::<char>::empty());
            assert(r.deep_view() + spec_lines(s@.skip(start as int)) =~= r.deep_view());
        }
    }
    r
}

/// Removes one leading occurrence of `p` from `s`, if there is one.
pub fn strip_prefix_str(s: &str, p: &str) -> (r: String)
    ensures
        r@ == (if is_prefix(p@, s@) {
            s@.skip(p@.len() as int)
        } else {
            s@
        }),
{
    if is_prefix_at(s, p, 0) {
        proof {
            assert(s@.skip(0) =~= s@);
        }
        let tail = s.substring_char(p.unicode_len(), s.unicode_len());
        proof {
            assert(tail@ =~= s@.skip(p@.len() as int));
        }
        tail.to_owned()
    } else {
        proof {
            assert(s@.skip(0) =~= s@);
        }
        s.to_owned()
    }
}

/// The short name and root path derived from a repository's object-store
/// path: with the path split at `/`, the short name is the third-from-last
/// segment and the root path is everything up to the last two segments.
/// A path of fewer than three segments has no such derivation.
pub fn repo_name_parts(path_name: &str) -> (r: Option<(String, String)>)
    ensures
        ({
            let parts = spec_split(path_name@, '/');
            if parts.len() >= 3 {
                &&& r is Some
                &&& (r->0).0@ == parts[parts.len() - 3]
                &&& (r->0).1@ == spec_join(parts.take(parts.len() - 2), '/')
            } else {
                r is None
            }
        }),
{
    proof {
        reveal_strlit("/");
    }
    let tokens = split_char(path_name, '/');
    let n = tokens.len();
    proof {
        assert(tokens.deep_view().len() == tokens@.len());
    }
    if n < 3 {
        return None;
    }
    proof {
        assert(tokens.deep_view()[n - 3] == tokens@[n - 3]@);
    }
    let short = tokens[n - 3].clone();
    let repo_path = join_with(&tokens, n - 2, "/");
    Some((short, repo_path))
}

/// An absolute working-tree path: the repository's object-store path with
/// every `/.git` segment removed, followed by the relative path.
pub fn absolute_from(repo_path: &str, relative_path: &str) -> (r: String)
    ensures
        r@ == spec_remove_all(repo_path@, "/.git"@) + relative_path@,
{
    proof {
        reveal_strlit("/.git");
    }
    let base = remove_all(repo_path, "/.git");
    base.concat(relative_path)
}

/// The absolute working-tree path of a repository-relative path.
pub fn get_absolute_path_from_relative(repo: &crate::git::Repo, relative_path: &str) -> String {
    let repo_path = crate::external::repository_path_string(&repo.repo);
    absolute_from(repo_path.as_str(), relative_path)
}

/// Whether a status path denotes an actual file: directory-only entries are
/// reported with a trailing slash and must not appear in a status view.
pub open spec fn spec_path_is_file(p: Seq<char>) -> bool {
    p.len() > 0 && p.last() != '/'
}

/// Whether a status path denotes an actual file rather than a directory.
pub fn path_is_file(path: &str) -> (r: bool)
    ensures
        r == spec_path_is_file(path@),
{
    let len: usize = path.unicode_len();
    if len == 0 {
        false
    } else {
        path.get_char(len - 1) != '/'
    }
}

/// The two path tokens of a `diff --git a/<old> b/<new>` file-header line:
/// the third and fourth space-separated tokens, with their `a/` and `b/`
/// markers stripped.
pub fn get_origin_and_current_name_from_line(line: &str) -> (r: (String, String))
    requires
        spec_split(line@, ' ').len() >= 4,
    ensures
        r.0@ == spec_trim_start_matches(spec_split(line@, ' ')[2], "a/"@),
        r.1@ == spec_trim_start_matches(spec_split(line@, ' ')[3], "b/"@),
{
    proof {
        reveal_strlit("a/");
        reveal_strlit("b/");
    }
    let tokens = split_char(line, ' ');
    proof {
        assert(tokens.deep_view().len() == tokens@.len());
        assert(tokens.deep_view()[2] == tokens@[2]@);
        assert(tokens.deep_view()[3] == tokens@[3]@);
    }
    let origin_name = trim_start_matches_str(tokens[2].as_str(), "a/");
    let current_name = trim_start_matches_str(tokens[3].as_str(), "b/");
    (origin_name, current_name)
}

/// A suffix in which the pattern never matches is removed unchanged.
proof fn lemma_remove_all_no_match(t: Seq<char>, pat: Seq<char>, s: Seq<char>, kept: int)
    requires
        pat.len() > 0,
        0 <= kept <= s.len(),
        t =~= s.subrange(kept, s.len() as int),
        forall|j: int| kept <= j < s.len() ==> !is_prefix(pat, s.skip(j)),
    ensures
        spec_remove_all(t, pat) == t,
    decreases t.len(),
{
    if t.len() == 0 {
    } else {
        assert(t =~= s.skip(kept));
        assert(!is_prefix(pat, t));
        assert(t.drop_first() =~= s.subrange(kept + 1, s.len() as int));
        lemma_remove_all_no_match(t.drop_first(), pat, s, kept + 1);
        assert(seq![t[0]] + t.drop_first() =~= t);
    }
}

} // verus!
