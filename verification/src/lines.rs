use vstd::prelude::*;

use crate::text::{joined, push_char};

verus! {

/// Unicode's White_Space characters (`char::is_whitespace`).
pub open spec fn is_whitespace(c: char) -> bool {
    ('\t' <= c && c <= '\r') || c == ' ' || c == '\u{85}' || c == '\u{a0}' || c == '\u{1680}'
        || ('\u{2000}' <= c && c <= '\u{200a}') || c == '\u{2028}' || c == '\u{2029}' || c
        == '\u{202f}' || c == '\u{205f}' || c == '\u{3000}'
}

/// The text without its leading whitespace.
pub open spec fn trim_start(s: Seq<char>) -> Seq<char>
    decreases s.len(),
{
    if s.len() > 0 && is_whitespace(s[0]) {
        trim_start(s.drop_first())
    } else {
        s
    }
}

/// The text without its trailing whitespace.
pub open spec fn trim_end(s: Seq<char>) -> Seq<char>
    decreases s.len(),
{
    if s.len() > 0 && is_whitespace(s.last()) {
        trim_end(s.drop_last())
    } else {
        s
    }
}

/// The text without leading and trailing whitespace (`str::trim`).
pub open spec fn trimmed(s: Seq<char>) -> Seq<char> {
    trim_end(trim_start(s))
}

/// The separator of the entries of a User-Agent file, "#" and a line break,
/// starts at `i`.
pub open spec fn separator_at(s: Seq<char>, i: int) -> bool {
    0 <= i && i + 1 < s.len() && s[i] == '#' && s[i + 1] == '\n'
}

pub open spec fn first_separator(s: Seq<char>, i: int) -> bool {
    separator_at(s, i) && forall|j: int| 0 <= j < i ==> !separator_at(s, j)
}

/// The pieces of `s` between separators (`str::split("#\n")`).
pub open spec fn entries(s: Seq<char>) -> Seq<Seq<char>>
    decreases s.len(),
{
    if exists|i: int| #[trigger] first_separator(s, i) {
        let i = choose|i: int| #[trigger] first_separator(s, i);
        seq![s.take(i)] + entries(s.skip(i + 2))
    } else {
        seq![s]
    }
}

/// The User-Agents a file holds: its entries, trimmed, the empty ones left out.
pub open spec fn agent_list(content: Seq<char>) -> Seq<Seq<char>> {
    entries(content).map_values(|e: Seq<char>| trimmed(e)).filter(|e: Seq<char>| e.len() > 0)
}

pub fn whitespace(c: char) -> (ws: bool)
    ensures
        ws == is_whitespace(c),
{
    ('\t' <= c && c <= '\r') || c == ' ' || c == '\u{85}' || c == '\u{a0}' || c == '\u{1680}'
        || ('\u{2000}' <= c && c <= '\u{200a}') || c == '\u{2028}' || c == '\u{2029}' || c
        == '\u{202f}' || c == '\u{205f}' || c == '\u{3000}'
}

proof fn lemma_trim_start(s: Seq<char>, a: int)
    requires
        0 <= a <= s.len(),
        forall|k: int| 0 <= k < a ==> is_whitespace(#[trigger] s[k]),
        a < s.len() ==> !is_whitespace(s[a]),
    ensures
        trim_start(s) == s.skip(a),
    decreases a,
{
    if a == 0 {
        assert(s.skip(0) =~= s);
    } else {
        assert(is_whitespace(s[0]));
        lemma_trim_start(s.drop_first(), a - 1);
        assert(s.drop_first().skip(a - 1) =~= s.skip(a));
    }
}

proof fn lemma_trim_end(s: Seq<char>, b: int)
    requires
        0 <= b <= s.len(),
        forall|k: int| b <= k < s.len() ==> is_whitespace(#[trigger] s[k]),
        b > 0 ==> !is_whitespace(s[b - 1]),
    ensures
        trim_end(s) == s.take(b),
    decreases s.len() - b,
{
    if b == s.len() {
        assert(s.take(b) =~= s);
    } else {
        assert(is_whitespace(s.last()));
        lemma_trim_end(s.drop_last(), b);
        assert(s.drop_last().take(b) =~= s.take(b));
    }
}

/// The characters of `chars` from `from` up to `to` as a string.
fn string_of(chars: &Vec<char>, from: usize, to: usize) -> (s: String)
    requires
        from <= to <= chars.len(),
    ensures
        s@ == chars@.subrange(from as int, to as int),
{
    let mut s = String::new();
    let mut k = from;
    while k < to
        invariant
            from <= k <= to <= chars.len(),
            s@ =~= chars@.subrange(from as int, k as int),
        decreases to - k,
    {
        push_char(&mut s, chars[k]);
        k = k + 1;
    }
    s
}

/// The piece of `chars` from `from` up to `to`, trimmed.
fn trimmed_piece(chars: &Vec<char>, from: usize, to: usize) -> (s: String)
    requires
        from <= to <= chars.len(),
    ensures
        s@ == trimmed(chars@.subrange(from as int, to as int)),
{
    let ghost piece = chars@.subrange(from as int, to as int);
    let mut a = from;
    while a < to && whitespace(chars[a])
        invariant
            from <= a <= to <= chars.len(),
            forall|k: int| from <= k < a ==> is_whitespace(#[trigger] chars@[k]),
        decreases to - a,
    {
        a = a + 1;
    }
    let mut b = to;
    while b > a && whitespace(chars[b - 1])
        invariant
            from <= a <= b <= to <= chars.len(),
            forall|k: int| b <= k < to ==> is_whitespace(#[trigger] chars@[k]),
        decreases b - a,
    {
        b = b - 1;
    }
    proof {
        assert forall|k: int| 0 <= k < a - from implies is_whitespace(#[trigger] piece[k]) by {
            assert(piece[k] == chars@[from + k]);
        }
        lemma_trim_start(piece, a - from);
        let rest = piece.skip(a - from);
        assert(rest =~= chars@.subrange(a as int, to as int));
        assert forall|k: int| b - a <= k < rest.len() implies is_whitespace(#[trigger] rest[k]) by {
            assert(rest[k] == chars@[a + k]);
        }
        if b > a {
            assert(rest[b - a - 1] == chars@[b - 1]);
        }
        lemma_trim_end(rest, b - a);
        assert(rest.take(b - a) =~= chars@.subrange(a as int, b as int));
    }
    string_of(chars, a, b)
}

proof fn lemma_first_separator_unique(s: Seq<char>, i: int, j: int)
    requires
        first_separator(s, i),
        first_separator(s, j),
    ensures
        i == j,
{
}

/// A separator first found at `i` splits off the first entry.
proof fn lemma_entries_split(s: Seq<char>, i: int)
    requires
        first_separator(s, i),
    ensures
        entries(s) == seq![s.take(i)] + entries(s.skip(i + 2)),
{
    let k = choose|k: int| #[trigger] first_separator(s, k);
    lemma_first_separator_unique(s, i, k);
}

/// Text without a separator is one entry.
proof fn lemma_entries_last(s: Seq<char>)
    requires
        forall|j: int| 0 <= j < s.len() ==> !separator_at(s, j),
    ensures
        entries(s) == seq![s],
{
    if exists|i: int| #[trigger] first_separator(s, i) {
        let i = choose|i: int| #[trigger] first_separator(s, i);
        assert(separator_at(s, i));
    }
}

/// The characters of a string.
fn chars_of(text: &str) -> (chars: Vec<char>)
    ensures
        chars@ == text@,
{
    let mut chars: Vec<char> = Vec::new();
    for c in it: text.chars()
        invariant
            it.seq() == text@,
            chars@ == text@.take(it.index()),
    {
        assert(text@.take(it.index() + 1) =~= chars@.push(c));
        chars.push(c);
    }
    assert(text@.take(text@.len() as int) =~= text@);
    chars
}

/// Reads a User-Agent file: the entries between "#" + line break separators,
/// trimmed, the empty ones left out.
pub fn parse_user_agents(content: &str) -> (agents: Vec<String>)
    ensures
        agents@.map_values(|a: String| a@) == agent_list(content@),
{
    let chars = chars_of(content);
    let ghost all = chars@;
    let ghost keep = |e: Seq<char>| e.len() > 0;
    let ghost trim = |e: Seq<char>| trimmed(e);
    let ghost mut done: Seq<Seq<char>> = Seq::empty();
    let mut agents: Vec<String> = Vec::new();
    let mut start: usize = 0;
    let mut i: usize = 0;
    proof {
        assert(all.skip(0) =~= all);
        reveal(Seq::filter);
        assert(done.map_values(trim) =~= Seq::<Seq<char>>::empty());
    }
    while i < chars.len()
        invariant
            all == chars@,
            start <= i <= chars.len(),
            keep == (|e: Seq<char>| e.len() > 0),
            trim == (|e: Seq<char>| trimmed(e)),
            entries(all) == done + entries(all.skip(start as int)),
            forall|j: int| start <= j < i ==> !separator_at(all, j),
            agents@.map_values(|a: String| a@) == done.map_values(trim).filter(keep),
        decreases chars.len() - i,
    {
        if chars[i] == '#' && i + 1 < chars.len() && chars[i + 1] == '\n' {
            let piece = trimmed_piece(&chars, start, i);
            let ghost raw = all.subrange(start as int, i as int);
            proof {
                let rest = all.skip(start as int);
                assert forall|j: int| 0 <= j < i - start implies !separator_at(rest, j) by {
                    assert(!separator_at(all, start + j));
                }
                assert(separator_at(rest, i - start));
                lemma_entries_split(rest, i - start);
                assert(rest.take(i - start) =~= raw);
                assert(rest.skip(i - start + 2) =~= all.skip(i + 2));
                assert(done + entries(rest) =~= done.push(raw) + entries(all.skip(i + 2)));
                assert(done.push(raw).map_values(trim) =~= done.map_values(trim).push(trimmed(raw)));
                assert(done.push(raw).map_values(trim).drop_last() =~= done.map_values(trim));
                reveal(Seq::filter);
            }
            let ghost before = agents@;
            if !piece.as_str().is_empty() {
                agents.push(piece);
                proof {
                    assert(agents@.map_values(|a: String| a@) =~= before.map_values(|a: String| a@).push(
                        trimmed(raw),
                    ));
                }
            }
            proof {
                done = done.push(raw);
            }
            i = i + 2;
            start = i;
        } else {
            proof {
                assert(!separator_at(all, i as int));
            }
            i = i + 1;
        }
    }
    let piece = trimmed_piece(&chars, start, chars.len());
    let ghost raw = all.subrange(start as int, chars.len() as int);
    proof {
        let rest = all.skip(start as int);
        assert(rest =~= raw);
        assert forall|j: int| 0 <= j < rest.len() implies !separator_at(rest, j) by {
            assert(!separator_at(all, start + j));
        }
        lemma_entries_last(rest);
        assert(done.push(raw).map_values(trim) =~= done.map_values(trim).push(trimmed(raw)));
        assert(done.push(raw).map_values(trim).drop_last() =~= done.map_values(trim));
        assert(entries(all) =~= done.push(raw));
        reveal(Seq::filter);
    }
    let ghost before = agents@;
    if !piece.as_str().is_empty() {
        agents.push(piece);
        proof {
            assert(agents@.map_values(|a: String| a@) =~= before.map_values(|a: String| a@).push(
                trimmed(raw),
            ));
        }
    }
    agents
}

/// An entry that a User-Agent file can hold as it is: not empty, without
/// surrounding whitespace, and without the separator inside.
pub open spec fn plain_entry(e: Seq<char>) -> bool {
    &&& e.len() > 0
    &&& trimmed(e) == e
    &&& forall|j: int| 0 <= j < e.len() ==> !separator_at(e, j)
}

/// Joining from the front: the first part, then the separator and the rest.
proof fn lemma_joined_front(parts: Seq<Seq<char>>, sep: Seq<char>)
    requires
        parts.len() >= 2,
    ensures
        joined(parts, sep) == parts[0] + sep + joined(parts.drop_first(), sep),
    decreases parts.len(),
{
    let tail = parts.drop_first();
    if parts.len() > 2 {
        lemma_joined_front(parts.drop_last(), sep);
        assert(parts.drop_last().drop_first() =~= tail.drop_last());
        assert(parts.drop_last()[0] == parts[0]);
        assert(tail.last() == parts.last());
        assert(joined(tail, sep) == joined(tail.drop_last(), sep) + sep + tail.last());
        assert(joined(parts, sep) == joined(parts.drop_last(), sep) + sep + parts.last());
        assert(parts[0] + sep + joined(tail.drop_last(), sep) + sep + parts.last() =~= parts[0] + sep
            + (joined(tail.drop_last(), sep) + sep + parts.last()));
    } else {
        assert(tail =~= seq![parts[1]]);
        assert(parts.drop_last() =~= seq![parts[0]]);
        assert(joined(tail, sep) == parts[1]);
        assert(joined(parts.drop_last(), sep) == parts[0]);
    }
}

/// The entries of plain entries joined by the separator are those entries.
proof fn lemma_entries_of_joined(parts: Seq<Seq<char>>)
    requires
        parts.len() >= 1,
        forall|i: int| 0 <= i < parts.len() ==> plain_entry(#[trigger] parts[i]),
    ensures
        entries(joined(parts, "#\n"@)) == parts,
    decreases parts.len(),
{
    reveal_strlit("#\n");
    let sep = "#\n"@;
    let first = parts[0];
    assert(plain_entry(first));
    if parts.len() == 1 {
        lemma_entries_last(first);
        assert(seq![first] =~= parts);
    } else {
        lemma_joined_front(parts, sep);
        let rest = joined(parts.drop_first(), sep);
        let s = first + sep + rest;
        assert forall|j: int| 0 <= j < first.len() implies !separator_at(s, j) by {
            if j + 1 < first.len() {
                assert(!separator_at(first, j));
            } else {
                assert(s[j + 1] == '#');
            }
        }
        assert(separator_at(s, first.len() as int));
        lemma_entries_split(s, first.len() as int);
        assert(s.take(first.len() as int) =~= first);
        assert(s.skip(first.len() as int + 2) =~= rest);
        lemma_entries_of_joined(parts.drop_first());
        assert(seq![first] + parts.drop_first() =~= parts);
    }
}

proof fn lemma_keep_all(items: Seq<Seq<char>>)
    requires
        forall|i: int| 0 <= i < items.len() ==> (#[trigger] items[i]).len() > 0,
    ensures
        items.filter(|e: Seq<char>| e.len() > 0) == items,
    decreases items.len(),
{
    reveal(Seq::filter);
    if items.len() > 0 {
        lemma_keep_all(items.drop_last());
        assert(items.drop_last().push(items.last()) =~= items);
    }
}

/// A User-Agent file that lists plain entries, separated by "#" and a line
/// break, reads back as that list.
pub proof fn lemma_agent_file_reads_back(agents: Seq<Seq<char>>)
    requires
        forall|i: int| 0 <= i < agents.len() ==> plain_entry(#[trigger] agents[i]),
    ensures
        agent_list(joined(agents, "#\n"@)) == agents,
{
    if agents.len() == 0 {
        let empty = Seq::<char>::empty();
        assert(joined(agents, "#\n"@) == empty);
        lemma_entries_last(empty);
        assert(trim_start(empty) == empty);
        assert(trim_end(empty) == empty);
        let mapped = seq![empty].map_values(|e: Seq<char>| trimmed(e));
        assert(mapped =~= seq![empty]);
        reveal(Seq::filter);
        assert(mapped.drop_last() =~= Seq::<Seq<char>>::empty());
        assert(Seq::<Seq<char>>::empty().filter(|e: Seq<char>| e.len() > 0) =~= Seq::<Seq<char>>::empty());
        assert(mapped.filter(|e: Seq<char>| e.len() > 0) =~= agents);
    } else {
        lemma_entries_of_joined(agents);
        assert(agents.map_values(|e: Seq<char>| trimmed(e)) =~= agents);
        lemma_keep_all(agents);
    }
}

} // verus!
