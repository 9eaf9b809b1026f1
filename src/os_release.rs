//! Reading the distribution identifier out of an `os-release` style
//! descriptor: `KEY=VALUE` lines, of which the value under `ID` is wanted.
use vstd::prelude::*;
use crate::text::{chars_of, range_equals, strip_range, trim_spec, unquote_spec};

verus! {

/// The pieces of `s` between line feeds, in order; a text without a line
/// feed is one piece.
pub open spec fn pieces(s: Seq<char>) -> Seq<Seq<char>>
    decreases s.len(),
{
    if s.len() == 0 {
        seq![Seq::<char>::empty()]
    } else {
        let rest = pieces(s.drop_last());
        if s.last() == '\n' {
            rest.push(Seq::<char>::empty())
        } else {
            rest.update(rest.len() - 1, rest.last().push(s.last()))
        }
    }
}

/// A line that ended in a line feed, without a carriage return before it.
pub open spec fn drop_cr(l: Seq<char>) -> Seq<char> {
    if l.len() > 0 && l.last() == '\r' {
        l.drop_last()
    } else {
        l
    }
}

/// The lines of `s` as `str::lines` cuts them: at `\n` or `\r\n`; the last
/// piece keeps what it holds.
pub open spec fn lines_spec(s: Seq<char>) -> Seq<Seq<char>> {
    let p = pieces(s);
    Seq::new(p.len(), |j: int| if j < p.len() - 1 { drop_cr(p[j]) } else { p[j] })
}

/// `k` is the position of the first `=` of `line`.
pub open spec fn first_eq_at(line: Seq<char>, k: int) -> bool {
    &&& 0 <= k < line.len()
    &&& line[k] == '='
    &&& forall|j: int| 0 <= j < k ==> line[j] != '='
}

/// The entry that a line holds: the white-space-trimmed text before its first
/// `=`, and the text after it without surrounding double quotes. A line with
/// no `=` holds none.
pub open spec fn entry_of(line: Seq<char>) -> Option<(Seq<char>, Seq<char>)> {
    if exists|k: int| first_eq_at(line, k) {
        let k = choose|k: int| first_eq_at(line, k);
        Some((trim_spec(line.take(k)), unquote_spec(line.skip(k + 1))))
    } else {
        None
    }
}

/// The value of the entry of `line` where its key is `ID`.
pub open spec fn id_entry_value(line: Seq<char>) -> Option<Seq<char>> {
    match entry_of(line) {
        Some((key, value)) => if key == "ID"@ {
            Some(value)
        } else {
            None
        },
        None => None,
    }
}

/// The value of the last `ID` entry among `lines`, or the empty text.
pub open spec fn id_in(lines: Seq<Seq<char>>) -> Seq<char>
    decreases lines.len(),
{
    if lines.len() == 0 {
        Seq::<char>::empty()
    } else {
        match id_entry_value(lines.last()) {
            Some(v) => v,
            None => id_in(lines.drop_last()),
        }
    }
}

/// The distribution identifier that descriptor text `s` gives.
pub open spec fn os_id(s: Seq<char>) -> Seq<char> {
    id_in(lines_spec(s))
}

proof fn lemma_id_in_at(ls: Seq<Seq<char>>, j: int)
    requires
        0 <= j < ls.len(),
        id_entry_value(ls[j]) is Some,
        forall|k: int| j < k < ls.len() ==> id_entry_value(#[trigger] ls[k]) is None,
    ensures
        id_in(ls) == id_entry_value(ls[j])->0,
    decreases ls.len(),
{
    if j < ls.len() - 1 {
        assert(id_entry_value(ls[ls.len() - 1]) is None);
        lemma_id_in_at(ls.drop_last(), j);
    }
}

proof fn lemma_id_in_none(ls: Seq<Seq<char>>)
    requires
        forall|k: int| 0 <= k < ls.len() ==> id_entry_value(#[trigger] ls[k]) is None,
    ensures
        id_in(ls) == Seq::<char>::empty(),
    decreases ls.len(),
{
    if ls.len() > 0 {
        assert(id_entry_value(ls[ls.len() - 1]) is None);
        lemma_id_in_none(ls.drop_last());
    }
}

/// Where line `j` of descriptor text `s` is an `ID` entry and no later line
/// is, the identifier is that line's value, unquoted.
pub proof fn id_is_value_of_last_id_line(s: Seq<char>, j: int)
    requires
        0 <= j < lines_spec(s).len(),
        id_entry_value(lines_spec(s)[j]) is Some,
        forall|k: int|
            j < k < lines_spec(s).len() ==> id_entry_value(#[trigger] lines_spec(s)[k]) is None,
    ensures
        os_id(s) == id_entry_value(lines_spec(s)[j])->0,
{
    lemma_id_in_at(lines_spec(s), j);
}

/// Descriptor text with no `ID` entry gives the empty identifier.
pub proof fn no_id_line_gives_empty(s: Seq<char>)
    requires
        forall|k: int| 0 <= k < lines_spec(s).len() ==> id_entry_value(#[trigger] lines_spec(s)[k]) is None,
    ensures
        os_id(s) == Seq::<char>::empty(),
{
    lemma_id_in_none(lines_spec(s));
}

proof fn lemma_pieces_step(s: Seq<char>, i: int)
    requires
        0 <= i < s.len(),
    ensures
        pieces(s.take(i + 1)) == (if s[i] == '\n' {
            pieces(s.take(i)).push(Seq::<char>::empty())
        } else {
            let p = pieces(s.take(i));
            p.update(p.len() - 1, p.last().push(s[i]))
        }),
{
    assert(s.take(i + 1).drop_last() =~= s.take(i));
}

proof fn lemma_pieces_nonempty(s: Seq<char>)
    ensures
        pieces(s).len() >= 1,
    decreases s.len(),
{
    if s.len() > 0 {
        lemma_pieces_nonempty(s.drop_last());
    }
}

/// Reads the entry of `cs[from..to]`: `Some` with the bounds of its value
/// where its key is `ID`, else `None`.
fn id_entry(cs: &Vec<char>, from: usize, to: usize) -> (r: Option<(usize, usize)>)
    requires
        from <= to <= cs@.len(),
    ensures
        ({
            let line = cs@.subrange(from as int, to as int);
            match r {
                Some((a, b)) => from <= a <= b <= to && id_entry_value(line) == Some(
                    cs@.subrange(a as int, b as int),
                ),
                None => id_entry_value(line) is None,
            }
        }),
{
    let ghost line = cs@.subrange(from as int, to as int);
    let mut k: usize = from;
    while k < to && cs[k] != '='
        invariant
            from <= k <= to <= cs@.len(),
            line == cs@.subrange(from as int, to as int),
            forall|j: int| 0 <= j < k - from ==> line[j] != '=',
        decreases to - k,
    {
        k = k + 1;
    }
    if k == to {
        assert(!exists|q: int| first_eq_at(line, q));
        return None;
    }
    let ghost kk = k - from;
    assert(first_eq_at(line, kk));
    assert forall|q: int| first_eq_at(line, q) implies q == kk by {
        if q < kk {
            assert(line[q] != '=');
        } else if q > kk {
            assert(line[kk] != '=');
        }
    }
    let (ka, kb) = strip_range(cs, from, k, false);
    assert(line.take(kk) =~= cs@.subrange(from as int, k as int));
    assert(line.skip(kk + 1) =~= cs@.subrange(k + 1, to as int));
    if range_equals(cs, ka, kb, "ID") {
        let (va, vb) = strip_range(cs, k + 1, to, true);
        Some((va, vb))
    } else {
        None
    }
}

/// The distribution identifier in descriptor text: the value of the last line
/// whose key is `ID`, with surrounding double quotes taken off, or the empty
/// string where no line has that key.
pub fn distro_id(content: &str) -> (r: String)
    ensures
        r@ == os_id(content@),
{
    let cs = chars_of(content);
    let n = cs.len();
    let mut start: usize = 0;
    let mut best: Option<(usize, usize)> = None;
    let mut i: usize = 0;
    while i < n
        invariant
            n == cs@.len(),
            cs@ == content@,
            start <= i <= n,
            pieces(cs@.take(i as int)).len() >= 1,
            pieces(cs@.take(i as int)).last() == cs@.subrange(start as int, i as int),
            ({
                let p = pieces(cs@.take(i as int));
                let done = Seq::new((p.len() - 1) as nat, |j: int| drop_cr(p[j]));
                match best {
                    Some((a, b)) => a <= b <= n && id_in(done) == cs@.subrange(a as int, b as int),
                    None => id_in(done) == Seq::<char>::empty(),
                }
            }),
        decreases n - i,
    {
        proof {
            lemma_pieces_step(cs@, i as int);
        }
        let ghost p = pieces(cs@.take(i as int));
        let ghost p2 = pieces(cs@.take(i + 1));
        if cs[i] == '\n' {
            let end = if i > start && cs[i - 1] == '\r' { i - 1 } else { i };
            let ghost line = cs@.subrange(start as int, end as int);
            assert(line =~= drop_cr(p.last()));
            let ghost done = Seq::new((p.len() - 1) as nat, |j: int| drop_cr(p[j]));
            let ghost done2 = Seq::new((p2.len() - 1) as nat, |j: int| drop_cr(p2[j]));
            assert(done2.drop_last() =~= done);
            assert(done2.last() == line);
            match id_entry(&cs, start, end) {
                Some(v) => {
                    best = Some(v);
                },
                None => {},
            }
            start = i + 1;
            assert(p2.last() =~= cs@.subrange(start as int, (i + 1) as int));
        } else {
            let ghost done = Seq::new((p.len() - 1) as nat, |j: int| drop_cr(p[j]));
            let ghost done2 = Seq::new((p2.len() - 1) as nat, |j: int| drop_cr(p2[j]));
            assert(done2 =~= done);
            assert(p2.last() =~= cs@.subrange(start as int, (i + 1) as int));
        }
        i = i + 1;
    }
    assert(cs@.take(n as int) =~= cs@);
    let ghost p = pieces(cs@);
    let ghost ls = lines_spec(cs@);
    let ghost done = Seq::new((p.len() - 1) as nat, |j: int| drop_cr(p[j]));
    assert(ls.drop_last() =~= done);
    match id_entry(&cs, start, n) {
        Some((a, b)) => String::from_str(content.substring_char(a, b)),
        None => match best {
            Some((a, b)) => String::from_str(content.substring_char(a, b)),
            None => String::new(),
        },
    }
}

} // verus!
