//! Character-level text handling shared by the plugins: splitting, joining,
//! searching, replacing and decimal rendering, each against a spec over `Seq<char>`.
use vstd::prelude::*;

verus! {

broadcast use vstd::string::group_string_axioms;

// ---------------------------------------------------------------------------
// Specifications
// ---------------------------------------------------------------------------

/// The pieces of `s` between occurrences of `sep`, as `str::split` with a
/// one-character pattern yields them: always one more piece than separators.
pub open spec fn split_on(s: Seq<char>, sep: char) -> Seq<Seq<char>>
    decreases s.len(),
{
    if s.len() == 0 {
        seq![Seq::<char>::empty()]
    } else {
        let prev = split_on(s.drop_last(), sep);
        if s.last() == sep {
            prev.push(Seq::<char>::empty())
        } else {
            prev.update(prev.len() - 1, prev.last().push(s.last()))
        }
    }
}

/// The parts joined with `sep` between consecutive parts.
pub open spec fn join(parts: Seq<Seq<char>>, sep: Seq<char>) -> Seq<char>
    decreases parts.len(),
{
    if parts.len() == 0 {
        Seq::<char>::empty()
    } else if parts.len() == 1 {
        parts[0]
    } else {
        join(parts.drop_last(), sep) + sep + parts.last()
    }
}

/// The character views of a sequence of strings.
pub open spec fn string_views(v: Seq<String>) -> Seq<Seq<char>> {
    v.map_values(|s: String| s@)
}

/// The views of a sequence of character vectors.
pub open spec fn char_vec_views(v: Seq<Vec<char>>) -> Seq<Seq<char>> {
    v.map_values(|s: Vec<char>| s@)
}

/// `needle` occurs in `hay` starting at position `i`.
pub open spec fn occurs_at(hay: Seq<char>, needle: Seq<char>, i: int) -> bool {
    0 <= i && i + needle.len() <= hay.len() && hay.subrange(i, i + needle.len()) == needle
}

/// `needle` occurs somewhere in `hay` (the empty needle occurs everywhere).
pub open spec fn contains_seq(hay: Seq<char>, needle: Seq<char>) -> bool {
    exists|i: int| occurs_at(hay, needle, i)
}

/// `hay` begins with `prefix`.
pub open spec fn starts_with(hay: Seq<char>, prefix: Seq<char>) -> bool {
    occurs_at(hay, prefix, 0)
}

/// Every non-overlapping occurrence of `pat`, scanning from the left,
/// replaced by `rep`, as `str::replace` does for a non-empty pattern.
pub open spec fn replace_all(s: Seq<char>, pat: Seq<char>, rep: Seq<char>) -> Seq<char>
    decreases s.len(),
{
    if s.len() == 0 || pat.len() == 0 {
        s
    } else if occurs_at(s, pat, 0) {
        rep + replace_all(s.subrange(pat.len() as int, s.len() as int), pat, rep)
    } else {
        seq![s[0]] + replace_all(s.drop_first(), pat, rep)
    }
}

/// `s` with every character in `drop` removed.
pub open spec fn remove_chars(s: Seq<char>, drop: Seq<char>) -> Seq<char>
    decreases s.len(),
{
    if s.len() == 0 {
        s
    } else if drop.contains(s.last()) {
        remove_chars(s.drop_last(), drop)
    } else {
        remove_chars(s.drop_last(), drop).push(s.last())
    }
}

/// `n` copies of `c`.
pub open spec fn repeat_char(c: char, n: nat) -> Seq<char> {
    Seq::new(n, |i: int| c)
}

/// The ASCII digit for `d < 10`.
pub open spec fn digit_char(d: nat) -> char {
    if d == 0 {
        '0'
    } else if d == 1 {
        '1'
    } else if d == 2 {
        '2'
    } else if d == 3 {
        '3'
    } else if d == 4 {
        '4'
    } else if d == 5 {
        '5'
    } else if d == 6 {
        '6'
    } else if d == 7 {
        '7'
    } else if d == 8 {
        '8'
    } else {
        '9'
    }
}

/// The decimal rendering of `n`, as `Display` writes an unsigned integer.
pub open spec fn decimal(n: nat) -> Seq<char>
    decreases n,
{
    if n < 10 {
        seq![digit_char(n)]
    } else {
        decimal(n / 10).push(digit_char(n % 10))
    }
}

// ---------------------------------------------------------------------------
// Lemmas
// ---------------------------------------------------------------------------

/// A split always has at least one piece, and exactly one more piece than
/// there are separators.
pub proof fn lemma_split_len(s: Seq<char>, sep: char)
    ensures
        split_on(s, sep).len() == s.filter(|c: char| c == sep).len() + 1,
    decreases s.len(),
{
    reveal_with_fuel(Seq::filter, 1);
    if s.len() > 0 {
        lemma_split_len(s.drop_last(), sep);
    }
}

/// Splitting a text that does not hold the separator gives the text back.
pub proof fn lemma_split_without_sep(s: Seq<char>, sep: char)
    requires
        !s.contains(sep),
    ensures
        split_on(s, sep) == seq![s],
    decreases s.len(),
{
    if s.len() > 0 {
        assert(!s.drop_last().contains(sep)) by {
            if s.drop_last().contains(sep) {
                let k = choose|k: int| 0 <= k < s.drop_last().len() && s.drop_last()[k] == sep;
                assert(s[k] == sep);
            }
        }
        lemma_split_without_sep(s.drop_last(), sep);
        assert(s.last() != sep) by {
            assert(s[s.len() - 1] == s.last());
        }
        let prev = split_on(s.drop_last(), sep);
        assert(prev.len() == 1 && prev.last() == s.drop_last());
        assert(s.drop_last().push(s.last()) =~= s);
        assert(split_on(s, sep) == prev.update(0, s.drop_last().push(s.last())));
        assert(split_on(s, sep) =~= seq![s]);
    } else {
        assert(s =~= Seq::<char>::empty());
    }
}

/// Splitting `a + [sep] + b`, where `b` holds no separator, ends with `b`
/// after the pieces of `a`.
pub proof fn lemma_split_append_sep(a: Seq<char>, b: Seq<char>, sep: char)
    requires
        !b.contains(sep),
    ensures
        split_on(a + seq![sep] + b, sep) == split_on(a, sep).push(b),
    decreases b.len(),
{
    if b.len() == 0 {
        let s = a + seq![sep] + b;
        assert(s.drop_last() =~= a);
        assert(s.last() == sep);
        assert(b =~= Seq::<char>::empty());
        assert(split_on(s, sep) == split_on(a, sep).push(Seq::<char>::empty()));
    } else {
        let s = a + seq![sep] + b;
        assert(!b.drop_last().contains(sep)) by {
            if b.drop_last().contains(sep) {
                let k = choose|k: int| 0 <= k < b.drop_last().len() && b.drop_last()[k] == sep;
                assert(b[k] == sep);
            }
        }
        lemma_split_append_sep(a, b.drop_last(), sep);
        assert(s.drop_last() =~= a + seq![sep] + b.drop_last());
        assert(s.last() == b.last());
        assert(b.last() != sep) by {
            assert(b[b.len() - 1] == b.last());
        }
        assert(b.drop_last().push(b.last()) =~= b);
        let prev = split_on(s.drop_last(), sep);
        assert(prev == split_on(a, sep).push(b.drop_last()));
        assert(split_on(s, sep) == prev.update(prev.len() - 1, prev.last().push(s.last())));
        assert(split_on(s, sep) =~= split_on(a, sep).push(b));
    }
}

// ---------------------------------------------------------------------------
// Executable helpers
// ---------------------------------------------------------------------------

/// Appends `c` with `String::push`. Trusted: the new contents are the old
/// ones followed by `c`, as the standard library documents.
#[verifier::external_body]
fn push_char(s: &mut String, c: char)
    ensures
        final(s)@ == old(s)@.push(c),
{
    s.push(c)
}

/// The characters of `s`, in order.
pub fn chars_of(s: &str) -> (v: Vec<char>)
    ensures
        v@ == s@,
{
    let mut v: Vec<char> = Vec::new();
    for c in it: s.chars()
        invariant
            it.seq() == s@,
            v@ == it.seq().take(it.index() as int),
    {
        v.push(c);
    }
    v
}

/// A `String` holding the given characters.
pub fn string_of(v: &Vec<char>) -> (s: String)
    ensures
        s@ == v@,
{
    let mut s = String::new();
    for i in 0..v.len()
        invariant
            s@ == v@.take(i as int),
    {
        push_char(&mut s, v[i]);
        assert(v@.take(i + 1) =~= v@.take(i as int).push(v@[i as int]));
    }
    assert(v@.take(v.len() as int) =~= v@);
    s
}

/// Whether two character sequences are equal.
pub fn chars_eq(a: &Vec<char>, b: &Vec<char>) -> (r: bool)
    ensures
        r == (a@ == b@),
{
    if a.len() != b.len() {
        return false;
    }
    for i in 0..a.len()
        invariant
            a.len() == b.len(),
            forall|j: int| 0 <= j < i ==> a@[j] == b@[j],
    {
        if a[i] != b[i] {
            return false;
        }
    }
    assert(a@ =~= b@);
    true
}

/// Whether the characters `v` spell out `lit`.
pub fn chars_eq_str(v: &Vec<char>, lit: &str) -> (r: bool)
    ensures
        r == (v@ == lit@),
{
    let l = chars_of(lit);
    chars_eq(v, &l)
}

/// Whether `needle` occurs in `hay` at position `i`.
pub fn occurs_at_exec(hay: &Vec<char>, needle: &Vec<char>, i: usize) -> (r: bool)
    ensures
        r == occurs_at(hay@, needle@, i as int),
{
    if i > hay.len() || needle.len() > hay.len() - i {
        return false;
    }
    for j in 0..needle.len()
        invariant
            i + needle.len() <= hay.len(),
            forall|k: int| 0 <= k < j ==> hay@[i + k] == needle@[k],
    {
        if hay[i + j] != needle[j] {
            assert(hay@.subrange(i as int, i + needle.len())[j as int] != needle@[j as int]);
            return false;
        }
    }
    assert(hay@.subrange(i as int, i + needle.len()) =~= needle@);
    true
}

/// Whether `hay` begins with `prefix`.
pub fn starts_with_exec(hay: &Vec<char>, prefix: &str) -> (r: bool)
    ensures
        r == starts_with(hay@, prefix@),
{
    let p = chars_of(prefix);
    occurs_at_exec(hay, &p, 0)
}

/// Whether `needle` occurs anywhere in `hay`.
pub fn contains_exec(hay: &Vec<char>, needle: &Vec<char>) -> (r: bool)
    ensures
        r == contains_seq(hay@, needle@),
{
    if needle.len() > hay.len() {
        assert(forall|i: int| !occurs_at(hay@, needle@, i));
        return false;
    }
    if needle.len() == 0 {
        assert(occurs_at(hay@, needle@, 0)) by {
            assert(hay@.subrange(0, 0) =~= needle@);
        }
        return true;
    }
    let last = hay.len() - needle.len();
    for i in 0..last + 1
        invariant
            last == hay.len() - needle.len(),
            forall|k: int| 0 <= k < i ==> !occurs_at(hay@, needle@, k),
    {
        if occurs_at_exec(hay, needle, i) {
            return true;
        }
    }
    assert forall|k: int| !occurs_at(hay@, needle@, k) by {
        if 0 <= k && k + needle@.len() <= hay@.len() {
            assert(k <= last);
        }
    }
    false
}

/// `s` split at every `sep`, as `str::split` with a one-character pattern.
pub fn split_exec(s: &Vec<char>, sep: char) -> (pieces: Vec<Vec<char>>)
    ensures
        char_vec_views(pieces@) == split_on(s@, sep),
{
    let mut pieces: Vec<Vec<char>> = Vec::new();
    let mut cur: Vec<char> = Vec::new();
    for i in 0..s.len()
        invariant
            char_vec_views(pieces@).push(cur@) == split_on(s@.take(i as int), sep),
    {
        let c = s[i];
        let ghost prev_pieces = char_vec_views(pieces@);
        let ghost prev_cur = cur@;
        assert(s@.take(i + 1).drop_last() =~= s@.take(i as int));
        assert(s@.take(i + 1).last() == c);
        if c == sep {
            pieces.push(cur);
            cur = Vec::new();
            assert(char_vec_views(pieces@) =~= prev_pieces.push(prev_cur));
        } else {
            cur.push(c);
            assert(char_vec_views(pieces@).push(cur@) =~= prev_pieces.push(prev_cur).update(
                prev_pieces.len() as int,
                prev_cur.push(c),
            ));
        }
    }
    assert(s@.take(s.len() as int) =~= s@);
    let ghost before = char_vec_views(pieces@);
    pieces.push(cur);
    assert(char_vec_views(pieces@) =~= before.push(cur@));
    pieces
}

/// The strings joined with `sep` between consecutive ones.
pub fn join_strings(parts: &Vec<String>, sep: &str) -> (r: String)
    ensures
        r@ == join(string_views(parts@), sep@),
{
    let mut r = String::new();
    let ghost views = string_views(parts@);
    for i in 0..parts.len()
        invariant
            views == string_views(parts@),
            r@ == join(views.take(i as int), sep@),
    {
        assert(views.take(i + 1).drop_last() =~= views.take(i as int));
        if i != 0 {
            r.append(sep);
        }
        r.append(parts[i].as_str());
    }
    assert(views.take(parts.len() as int) =~= views);
    r
}

/// The character vectors joined with `sep` between consecutive ones.
pub fn join_char_vecs(parts: &Vec<Vec<char>>, sep: &str) -> (r: String)
    ensures
        r@ == join(char_vec_views(parts@), sep@),
{
    let mut r = String::new();
    let ghost views = char_vec_views(parts@);
    for i in 0..parts.len()
        invariant
            views == char_vec_views(parts@),
            r@ == join(views.take(i as int), sep@),
    {
        assert(views.take(i + 1).drop_last() =~= views.take(i as int));
        if i != 0 {
            r.append(sep);
        }
        let piece = string_of(&parts[i]);
        r.append(piece.as_str());
    }
    assert(views.take(parts.len() as int) =~= views);
    r
}

/// `s` with every character of `drop` removed.
pub fn remove_chars_exec(s: &Vec<char>, drop: &Vec<char>) -> (r: Vec<char>)
    ensures
        r@ == remove_chars(s@, drop@),
{
    let mut r: Vec<char> = Vec::new();
    for i in 0..s.len()
        invariant
            r@ == remove_chars(s@.take(i as int), drop@),
    {
        let c = s[i];
        assert(s@.take(i + 1).drop_last() =~= s@.take(i as int));
        assert(s@.take(i + 1).last() == c);
        let mut found = false;
        for j in 0..drop.len()
            invariant
                found == (exists|k: int| 0 <= k < j && drop@[k] == c),
        {
            if drop[j] == c {
                found = true;
            }
        }
        if !found {
            r.push(c);
        }
    }
    assert(s@.take(s.len() as int) =~= s@);
    r
}

/// `s` with every non-overlapping occurrence of the non-empty `pat`,
/// scanning from the left, replaced by `rep`.
pub fn replace_exec(s: &Vec<char>, pat: &Vec<char>, rep: &Vec<char>) -> (r: Vec<char>)
    requires
        pat@.len() > 0,
    ensures
        r@ == replace_all(s@, pat@, rep@),
{
    let mut r: Vec<char> = Vec::new();
    let mut i: usize = 0;
    assert(s@.subrange(0, s.len() as int) =~= s@);
    assert(r@ + s@ =~= s@);
    while i < s.len()
        invariant
            pat@.len() > 0,
            i <= s.len(),
            r@ + replace_all(s@.subrange(i as int, s.len() as int), pat@, rep@) == replace_all(
                s@,
                pat@,
                rep@,
            ),
        decreases s.len() - i,
    {
        let ghost rest = s@.subrange(i as int, s.len() as int);
        if occurs_at_exec(s, pat, i) {
            assert(occurs_at(rest, pat@, 0)) by {
                assert(rest.subrange(0, pat@.len() as int) =~= s@.subrange(
                    i as int,
                    i + pat@.len(),
                ));
            }
            assert(rest.subrange(pat@.len() as int, rest.len() as int) =~= s@.subrange(
                i + pat@.len(),
                s.len() as int,
            ));
            let ghost old_r = r@;
            for j in 0..rep.len()
                invariant
                    r@ == old_r + rep@.take(j as int),
            {
                r.push(rep[j]);
                assert(rep@.take(j + 1) =~= rep@.take(j as int).push(rep@[j as int]));
            }
            assert(rep@.take(rep.len() as int) =~= rep@);
            assert(old_r + (rep@ + replace_all(
                s@.subrange(i + pat@.len(), s.len() as int),
                pat@,
                rep@,
            )) =~= r@ + replace_all(s@.subrange(i + pat@.len(), s.len() as int), pat@, rep@));
            i = i + pat.len();
        } else {
            assert(!occurs_at(rest, pat@, 0)) by {
                if occurs_at(rest, pat@, 0) {
                    assert(rest.subrange(0, pat@.len() as int) =~= s@.subrange(
                        i as int,
                        i + pat@.len(),
                    ));
                }
            }
            assert(rest.drop_first() =~= s@.subrange(i + 1, s.len() as int));
            let ghost old_r = r@;
            r.push(s[i]);
            assert(old_r + (seq![s@[i as int]] + replace_all(
                s@.subrange(i + 1, s.len() as int),
                pat@,
                rep@,
            )) =~= r@ + replace_all(s@.subrange(i + 1, s.len() as int), pat@, rep@));
            i = i + 1;
        }
    }
    assert(r@ + replace_all(s@.subrange(i as int, s.len() as int), pat@, rep@) =~= r@);
    r
}

/// A string of `n` copies of `c`.
pub fn repeat_exec(c: char, n: usize) -> (r: String)
    ensures
        r@ == repeat_char(c, n as nat),
{
    let mut r = String::new();
    for i in 0..n
        invariant
            r@ == repeat_char(c, i as nat),
    {
        push_char(&mut r, c);
        assert(r@ =~= repeat_char(c, (i + 1) as nat));
    }
    r
}

fn digit(d: u64) -> (c: char)
    requires
        d < 10,
    ensures
        c == digit_char(d as nat),
{
    if d == 0 {
        '0'
    } else if d == 1 {
        '1'
    } else if d == 2 {
        '2'
    } else if d == 3 {
        '3'
    } else if d == 4 {
        '4'
    } else if d == 5 {
        '5'
    } else if d == 6 {
        '6'
    } else if d == 7 {
        '7'
    } else if d == 8 {
        '8'
    } else {
        '9'
    }
}

/// The decimal rendering of `n`.
pub fn decimal_string(n: u64) -> (s: String)
    ensures
        s@ == decimal(n as nat),
    decreases n,
{
    if n < 10 {
        let mut s = String::new();
        push_char(&mut s, digit(n));
        assert(s@ =~= seq![digit_char(n as nat)]);
        s
    } else {
        let mut s = decimal_string(n / 10);
        push_char(&mut s, digit(n % 10));
        s
    }
}

/// How Discord writes a mention of user `id`.
pub open spec fn user_mention_spec(id: u64) -> Seq<char> {
    "<@"@ + decimal(id as nat) + ">"@
}

/// How Discord writes a mention of channel `id`.
pub open spec fn channel_mention_spec(id: u64) -> Seq<char> {
    "<#"@ + decimal(id as nat) + ">"@
}

/// A mention of user `id`.
pub fn user_mention(id: u64) -> (r: String)
    ensures
        r@ == user_mention_spec(id),
{
    let mut r = String::from_str("<@");
    let d = decimal_string(id);
    r.append(d.as_str());
    r.append(">");
    r
}

/// A mention of channel `id`.
pub fn channel_mention(id: u64) -> (r: String)
    ensures
        r@ == channel_mention_spec(id),
{
    let mut r = String::from_str("<#");
    let d = decimal_string(id);
    r.append(d.as_str());
    r.append(">");
    r
}

/// Whether `c` has the Unicode White_Space property, as `char::is_whitespace`
/// decides.
pub open spec fn is_whitespace(c: char) -> bool {
    let u = c as u32;
    (0x9 <= u && u <= 0xd) || u == 0x20 || u == 0x85 || u == 0xa0 || u == 0x1680 || (0x2000 <= u
        && u <= 0x200a) || u == 0x2028 || u == 0x2029 || u == 0x202f || u == 0x205f || u == 0x3000
}

/// The maximal runs of non-whitespace characters in `s`, in order, as
/// `str::split_whitespace` yields them.
pub open spec fn words_spec(s: Seq<char>) -> Seq<Seq<char>>
    decreases s.len(),
{
    if s.len() == 0 {
        Seq::empty()
    } else {
        let prev = words_spec(s.drop_last());
        let c = s.last();
        if is_whitespace(c) {
            prev
        } else if s.len() >= 2 && !is_whitespace(s[s.len() - 2]) {
            prev.update(prev.len() - 1, prev.last().push(c))
        } else {
            prev.push(seq![c])
        }
    }
}

/// Whether `c` has the Unicode White_Space property.
pub fn is_whitespace_exec(c: char) -> (r: bool)
    ensures
        r == is_whitespace(c),
{
    let u = c as u32;
    (0x9 <= u && u <= 0xd) || u == 0x20 || u == 0x85 || u == 0xa0 || u == 0x1680 || (0x2000 <= u
        && u <= 0x200a) || u == 0x2028 || u == 0x2029 || u == 0x202f || u == 0x205f || u == 0x3000
}

/// The whitespace-separated words of `s`.
pub fn words_exec(s: &Vec<char>) -> (w: Vec<Vec<char>>)
    ensures
        char_vec_views(w@) == words_spec(s@),
{
    let mut done: Vec<Vec<char>> = Vec::new();
    let mut cur: Vec<char> = Vec::new();
    for i in 0..s.len()
        invariant
            (if cur@.len() > 0 {
                char_vec_views(done@).push(cur@)
            } else {
                char_vec_views(done@)
            }) == words_spec(s@.take(i as int)),
            cur@.len() > 0 <==> (i > 0 && !is_whitespace(s@[i - 1])),
    {
        let c = s[i];
        let ghost pd = char_vec_views(done@);
        let ghost pc = cur@;
        assert(s@.take(i + 1).drop_last() =~= s@.take(i as int));
        assert(s@.take(i + 1).last() == c);
        if i > 0 {
            assert(s@.take(i + 1)[i - 1] == s@[i - 1]);
        }
        if is_whitespace_exec(c) {
            if cur.len() > 0 {
                done.push(cur);
                cur = Vec::new();
                assert(char_vec_views(done@) =~= pd.push(pc));
            }
        } else {
            cur.push(c);
            proof {
                if pc.len() > 0 {
                    assert(pd.push(pc).update(pd.len() as int, pc.push(c)) =~= pd.push(cur@));
                } else {
                    assert(pc.push(c) =~= seq![c]);
                }
            }
        }
    }
    assert(s@.take(s.len() as int) =~= s@);
    if cur.len() > 0 {
        let ghost pd = char_vec_views(done@);
        done.push(cur);
        assert(char_vec_views(done@) =~= pd.push(cur@));
    }
    done
}

/// A copy of the characters `v`.
pub fn copy_chars(v: &Vec<char>) -> (r: Vec<char>)
    ensures
        r@ == v@,
{
    let mut r: Vec<char> = Vec::new();
    for i in 0..v.len()
        invariant
            r@ == v@.take(i as int),
    {
        r.push(v[i]);
        assert(v@.take(i + 1) =~= v@.take(i as int).push(v@[i as int]));
    }
    assert(v@.take(v.len() as int) =~= v@);
    r
}

/// Removing characters from a concatenation removes them from each part.
pub proof fn lemma_remove_chars_concat(a: Seq<char>, b: Seq<char>, drop: Seq<char>)
    ensures
        remove_chars(a + b, drop) == remove_chars(a, drop) + remove_chars(b, drop),
    decreases b.len(),
{
    if b.len() == 0 {
        assert(a + b =~= a);
        assert(remove_chars(a, drop) + remove_chars(b, drop) =~= remove_chars(a, drop));
    } else {
        lemma_remove_chars_concat(a, b.drop_last(), drop);
        assert((a + b).drop_last() =~= a + b.drop_last());
        assert((a + b).last() == b.last());
        if !drop.contains(b.last()) {
            assert(remove_chars(a, drop) + remove_chars(b.drop_last(), drop).push(b.last())
                =~= (remove_chars(a, drop) + remove_chars(b.drop_last(), drop)).push(b.last()));
        }
    }
}

/// Removing characters that do not occur leaves the text as it is.
pub proof fn lemma_remove_chars_absent(s: Seq<char>, drop: Seq<char>)
    requires
        forall|i: int| 0 <= i < s.len() ==> !drop.contains(#[trigger] s[i]),
    ensures
        remove_chars(s, drop) == s,
    decreases s.len(),
{
    if s.len() > 0 {
        assert(!drop.contains(s[s.len() - 1]));
        assert forall|i: int| 0 <= i < s.drop_last().len() implies !drop.contains(
            #[trigger] s.drop_last()[i],
        ) by {
            assert(s.drop_last()[i] == s[i]);
        }
        lemma_remove_chars_absent(s.drop_last(), drop);
        assert(s.drop_last().push(s.last()) =~= s);
    } else {
        assert(s =~= Seq::<char>::empty());
    }
}

/// A text without the first character of a non-empty needle does not hold
/// the needle.
pub proof fn lemma_absent_first_char(hay: Seq<char>, needle: Seq<char>)
    requires
        needle.len() > 0,
        forall|i: int| 0 <= i < hay.len() ==> hay[i] != needle[0],
    ensures
        !contains_seq(hay, needle),
{
    if contains_seq(hay, needle) {
        let i = choose|i: int| occurs_at(hay, needle, i);
        assert(hay.subrange(i, i + needle.len())[0] == hay[i]);
    }
}

} // verus!
