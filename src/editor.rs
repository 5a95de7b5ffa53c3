use vstd::prelude::*;
use vstd::string::*;

use crate::docs::{DocumentationStructure, FieldInfo};

verus! {

/// Characters that may stand before a key: white space and the dash of a
/// list item.
pub open spec fn is_indent_char(c: char) -> bool {
    c == ' ' || c == '\t' || c == '\r' || c == '\n' || c == '\x0B' || c == '\x0C' || c == '-'
}

/// Characters a key is made of.
pub open spec fn is_key_char(c: char) -> bool {
    ('a' <= c && c <= 'z') || ('A' <= c && c <= 'Z') || ('0' <= c && c <= '9') || c == '_'
}

/// Characters that trimming removes from the end of a line.
pub open spec fn is_space(c: char) -> bool {
    c == ' ' || c == '\t' || c == '\r' || c == '\n' || c == '\x0B' || c == '\x0C'
}

/// `n` is the length of the run of indentation characters that starts the
/// line.
pub open spec fn is_indentation(l: Seq<char>, n: int) -> bool {
    &&& 0 <= n <= l.len()
    &&& forall|j: int| 0 <= j < n ==> is_indent_char(l[j])
    &&& (n == l.len() || !is_indent_char(l[n]))
}

pub open spec fn indentation(l: Seq<char>) -> int {
    choose|n: int| is_indentation(l, n)
}

proof fn lemma_indentation(l: Seq<char>, n: int)
    requires
        is_indentation(l, n),
    ensures
        indentation(l) == n,
{
    let m = indentation(l);
    assert(is_indentation(l, m));
    if m < n {
        assert(is_indent_char(l[m]));
    } else if n < m {
        assert(is_indent_char(l[n]));
    }
}

/// `w` is the length of the run of key characters that starts at `start`.
pub open spec fn is_word_run(l: Seq<char>, start: int, w: int) -> bool {
    &&& 0 <= start
    &&& 0 <= w
    &&& start + w <= l.len()
    &&& forall|j: int| start <= j < start + w ==> is_key_char(l[j])
    &&& (start + w == l.len() || !is_key_char(l[start + w]))
}

/// The key that a line of the form `<indentation><key>:` names.
pub open spec fn key_of(l: Seq<char>) -> Option<Seq<char>> {
    let n = indentation(l);
    if exists|w: int| is_word_run(l, n, w) && w > 0 && n + w < l.len() && l[n + w] == ':' {
        let w = choose|w: int| is_word_run(l, n, w);
        Some(l.subrange(n, n + w))
    } else {
        None
    }
}

pub open spec fn opens_at(l: Seq<char>, i: int) -> bool {
    0 <= i && i + 1 < l.len() && l[i] == '{' && l[i + 1] == '%'
}

pub open spec fn closes_at(l: Seq<char>, j: int) -> bool {
    0 <= j && j + 1 < l.len() && l[j] == '%' && l[j + 1] == '}'
}

/// A line that holds a template directive: `{%`, later followed by `%}`.
pub open spec fn is_template_line(l: Seq<char>) -> bool {
    exists|i: int, j: int| #![trigger opens_at(l, i), closes_at(l, j)]
        opens_at(l, i) && closes_at(l, j) && i + 2 <= j
}

/// The keys that enclose the end of `lines`, outermost first. Lines are read
/// from the last one up; a key counts when it is indented less than every
/// line read before it; template directives are passed over.
pub open spec fn yaml_path(lines: Seq<Seq<char>>, max_indentation: int) -> Seq<Seq<char>>
    decreases lines.len(),
{
    if lines.len() == 0 {
        Seq::empty()
    } else {
        let l = lines.last();
        if is_template_line(l) {
            yaml_path(lines.drop_last(), max_indentation)
        } else {
            let n = indentation(l);
            let next = if n < max_indentation {
                n
            } else {
                max_indentation
            };
            let key = if n < max_indentation && key_of(l) is Some {
                seq![key_of(l)->Some_0]
            } else {
                Seq::empty()
            };
            yaml_path(lines.drop_last(), next) + key
        }
    }
}

fn line_indentation(l: &Vec<char>) -> (r: usize)
    ensures
        r == indentation(l@),
        r <= l@.len(),
{
    let mut n: usize = 0;
    while n < l.len() && (l[n] == ' ' || l[n] == '\t' || l[n] == '\r' || l[n] == '\n' || l[n]
        == '\x0B' || l[n] == '\x0C' || l[n] == '-')
        invariant
            n <= l@.len(),
            forall|j: int| 0 <= j < n ==> is_indent_char(l@[j]),
        decreases l@.len() - n,
    {
        n = n + 1;
    }
    proof {
        lemma_indentation(l@, n as int);
    }
    n
}

fn is_key_char_exec(c: char) -> (r: bool)
    ensures
        r == is_key_char(c),
{
    ('a' <= c && c <= 'z') || ('A' <= c && c <= 'Z') || ('0' <= c && c <= '9') || c == '_'
}

proof fn lemma_word_run_unique(l: Seq<char>, start: int, w: int, v: int)
    requires
        is_word_run(l, start, w),
        is_word_run(l, start, v),
    ensures
        w == v,
{
    if w < v {
        assert(is_key_char(l[start + w]));
    } else if v < w {
        assert(is_key_char(l[start + v]));
    }
}

fn line_key(l: &Vec<char>) -> (r: Option<Vec<char>>)
    ensures
        match r {
            Some(k) => key_of(l@) == Some(k@),
            None => key_of(l@) is None,
        },
{
    let n = line_indentation(l);
    let mut e: usize = n;
    while e < l.len() && is_key_char_exec(l[e])
        invariant
            n <= e <= l@.len(),
            n == indentation(l@),
            forall|j: int| n <= j < e ==> is_key_char(l@[j]),
        decreases l@.len() - e,
    {
        e = e + 1;
    }
    let ghost w = (e - n) as int;
    assert(is_word_run(l@, n as int, w));
    if e > n && e < l.len() && l[e] == ':' {
        let mut k: Vec<char> = Vec::new();
        let mut i: usize = n;
        while i < e
            invariant
                n <= i <= e,
                e <= l@.len(),
                k@ == l@.subrange(n as int, i as int),
            decreases e - i,
        {
            k.push(l[i]);
            assert(k@ =~= l@.subrange(n as int, i + 1));
            i = i + 1;
        }
        proof {
            let c = choose|c: int| is_word_run(l@, n as int, c);
            lemma_word_run_unique(l@, n as int, w, c);
        }
        Some(k)
    } else {
        proof {
            if exists|v: int| is_word_run(l@, n as int, v) && v > 0 && n + v < l@.len() && l@[n + v]
                == ':' {
                let v = choose|v: int|
                    is_word_run(l@, n as int, v) && v > 0 && n + v < l@.len() && l@[n + v] == ':';
                lemma_word_run_unique(l@, n as int, w, v);
            }
        }
        None
    }
}

fn template_line(l: &Vec<char>) -> (r: bool)
    ensures
        r == is_template_line(l@),
{
    let len = l.len();
    if len < 2 {
        return false;
    }
    let mut i: usize = 0;
    while i < len - 1
        invariant
            len == l@.len(),
            len >= 2,
            forall|a: int| 0 <= a < i ==> !opens_at(l@, a),
        decreases len - i,
    {
        if l[i] == '{' && l[i + 1] == '%' {
            let mut j: usize = i + 2;
            while j < len - 1
                invariant
                    i + 2 <= j,
                    len == l@.len(),
                    len >= 2,
                    opens_at(l@, i as int),
                    forall|b: int| i + 2 <= b < j ==> !closes_at(l@, b),
                decreases len - j,
            {
                if l[j] == '%' && l[j + 1] == '}' {
                    assert(opens_at(l@, i as int) && closes_at(l@, j as int));
                    return true;
                }
                j = j + 1;
            }
            proof {
                if is_template_line(l@) {
                    let (a, b) = choose|a: int, b: int|
                        #![trigger opens_at(l@, a), closes_at(l@, b)]
                        opens_at(l@, a) && closes_at(l@, b) && a + 2 <= b;
                    assert(a >= i);
                    assert(b >= i + 2);
                    assert(!closes_at(l@, b));
                }
            }
            return false;
        }
        i = i + 1;
    }
    proof {
        if is_template_line(l@) {
            let (a, b) = choose|a: int, b: int|
                #![trigger opens_at(l@, a), closes_at(l@, b)]
                opens_at(l@, a) && closes_at(l@, b) && a + 2 <= b;
            assert(!opens_at(l@, a));
        }
    }
    false
}

pub open spec fn lines_view(lines: Seq<Vec<char>>) -> Seq<Seq<char>> {
    lines.map_values(|l: Vec<char>| l@)
}

/// The path of keys, outermost first, that encloses the end of the text
/// given as its lines: what the help for the cursor position is looked up
/// by.
pub fn get_yaml_path(lines: &Vec<Vec<char>>) -> (r: Vec<Vec<char>>)
    ensures
        lines_view(r@) == yaml_path(lines_view(lines@), usize::MAX as int),
{
    let mut max_indentation: usize = usize::MAX;
    let mut r: Vec<Vec<char>> = Vec::new();
    let mut k: usize = lines.len();
    let ghost all = lines_view(lines@);
    assert(all.subrange(0, k as int) =~= all);
    assert(lines_view(r@) =~= Seq::<Seq<char>>::empty());
    while k > 0
        invariant
            k <= lines@.len(),
            all == lines_view(lines@),
            yaml_path(all, usize::MAX as int) == yaml_path(
                all.subrange(0, k as int),
                max_indentation as int,
            ) + lines_view(r@),
        decreases k,
    {
        let ghost pre = all.subrange(0, k as int);
        let ghost old_max = max_indentation as int;
        let ghost old_r = lines_view(r@);
        assert(pre.drop_last() =~= all.subrange(0, k - 1));
        assert(pre.last() == lines@[k - 1]@);
        let l = &lines[k - 1];
        if !template_line(l) {
            let n = line_indentation(l);
            if n < max_indentation {
                match line_key(l) {
                    Some(key) => {
                        r.insert(0, key);
                        proof {
                            assert(lines_view(r@) =~= seq![key@] + old_r);
                            assert(yaml_path(pre, old_max) == yaml_path(
                                pre.drop_last(),
                                n as int,
                            ) + seq![key@]);
                            assert((yaml_path(pre.drop_last(), n as int) + seq![key@]) + old_r
                                =~= yaml_path(pre.drop_last(), n as int) + (seq![key@] + old_r));
                        }
                    },
                    None => {
                        proof {
                            assert(yaml_path(pre, old_max) =~= yaml_path(
                                pre.drop_last(),
                                n as int,
                            ));
                        }
                    },
                }
                max_indentation = n;
            } else {
                proof {
                    assert(yaml_path(pre, old_max) =~= yaml_path(pre.drop_last(), old_max));
                }
            }
        }
        k = k - 1;
    }
    assert(all.subrange(0, 0) =~= Seq::<Seq<char>>::empty());
    assert(yaml_path(all, usize::MAX as int) =~= lines_view(r@));
    r
}

/// `i` is the last character of the line that is not white space.
pub open spec fn ends_with_colon(l: Seq<char>) -> bool {
    exists|i: int| 0 <= i < l.len() && l[i] == ':' && forall|j: int| i < j < l.len() ==> is_space(l[j])
}

/// How many spaces a new line after `last_line` starts with: the line's own
/// indentation, two more after a line that opens a mapping with `:`.
pub fn indent_new_line(last_line: &Vec<char>) -> (r: usize)
    requires
        last_line@.len() + 2 <= usize::MAX,
    ensures
        r == indentation(last_line@) + if ends_with_colon(last_line@) {
            2int
        } else {
            0
        },
{
    let n = line_indentation(last_line);
    let mut e: usize = last_line.len();
    while e > 0 && (last_line[e - 1] == ' ' || last_line[e - 1] == '\t' || last_line[e - 1] == '\r'
        || last_line[e - 1] == '\n' || last_line[e - 1] == '\x0B' || last_line[e - 1] == '\x0C')
        invariant
            e <= last_line@.len(),
            forall|j: int| e <= j < last_line@.len() ==> is_space(last_line@[j]),
        decreases e,
    {
        e = e - 1;
    }
    let colon = e > 0 && last_line[e - 1] == ':';
    proof {
        if ends_with_colon(last_line@) {
            let i = choose|i: int|
                0 <= i < last_line@.len() && last_line@[i] == ':' && forall|j: int|
                    i < j < last_line@.len() ==> is_space(last_line@[j]);
            if i < e - 1 {
                assert(is_space(last_line@[e - 1]));
            }
            if i >= e {
                assert(!is_space(last_line@[i]));
            }
        }
        if colon {
            assert(last_line@[e - 1] == ':');
        }
    }
    if colon {
        n + 2
    } else {
        n
    }
}

/// The start of a key that a line ends with: the line is indentation
/// followed by key characters only, at least one.
pub open spec fn typed_key(l: Seq<char>) -> Option<Seq<char>> {
    let n = indentation(l);
    if n < l.len() && forall|j: int| n <= j < l.len() ==> is_key_char(l[j]) {
        Some(l.subrange(n, l.len() as int))
    } else {
        None
    }
}

pub open spec fn starts_with(k: Seq<char>, p: Seq<char>) -> bool {
    p.len() <= k.len() && k.subrange(0, p.len() as int) == p
}

/// `i` is the first field whose key starts with `p`.
pub open spec fn is_first_completion(fields: Seq<(String, FieldInfo)>, p: Seq<char>, i: int) -> bool {
    &&& 0 <= i < fields.len()
    &&& starts_with(fields[i].0@, p)
    &&& forall|j: int| 0 <= j < i ==> !starts_with(fields[j].0@, p)
}

/// What completes the key being typed at the end of `l` to the first field
/// of `d` that it starts, followed by `: `.
pub open spec fn completion(d: DocumentationStructure, l: Seq<char>) -> Option<Seq<char>> {
    match typed_key(l) {
        None => None,
        Some(p) => if exists|i: int| is_first_completion(d.fields@, p, i) {
            let i = choose|i: int| is_first_completion(d.fields@, p, i);
            let k = d.fields@[i].0@;
            Some(k.subrange(p.len() as int, k.len() as int) + seq![':', ' '])
        } else {
            None
        },
    }
}

fn key_starts_with(key: &String, p: &Vec<char>) -> (r: bool)
    ensures
        r == starts_with(key@, p@),
{
    let k = key.as_str();
    let klen = k.unicode_len();
    if p.len() > klen {
        return false;
    }
    let mut j: usize = 0;
    while j < p.len()
        invariant
            j <= p@.len(),
            p@.len() <= k@.len(),
            k@ == key@,
            forall|a: int| 0 <= a < j ==> k@[a] == p@[a],
        decreases p@.len() - j,
    {
        if k.get_char(j) != p[j] {
            assert(key@.subrange(0, p@.len() as int)[j as int] != p@[j as int]);
            return false;
        }
        j = j + 1;
    }
    assert(key@.subrange(0, p@.len() as int) =~= p@);
    true
}

/// The text that completes the key being typed at the end of `last_line` to
/// the first field of `doc` that starts with it, followed by `: `; none if
/// the line ends with no key or no field matches.
pub fn autocomplete(doc: &DocumentationStructure, last_line: &Vec<char>) -> (r: Option<Vec<char>>)
    ensures
        match r {
            Some(t) => completion(*doc, last_line@) == Some(t@),
            None => completion(*doc, last_line@) is None,
        },
{
    let n = line_indentation(last_line);
    if n >= last_line.len() {
        return None;
    }
    let mut e: usize = n;
    while e < last_line.len() && is_key_char_exec(last_line[e])
        invariant
            n <= e <= last_line@.len(),
            forall|j: int| n <= j < e ==> is_key_char(last_line@[j]),
        decreases last_line@.len() - e,
    {
        e = e + 1;
    }
    if e < last_line.len() {
        assert(!is_key_char(last_line@[e as int]));
        return None;
    }
    let mut p: Vec<char> = Vec::new();
    let mut i: usize = n;
    while i < e
        invariant
            n <= i <= e,
            e == last_line@.len(),
            p@ == last_line@.subrange(n as int, i as int),
        decreases e - i,
    {
        p.push(last_line[i]);
        assert(p@ =~= last_line@.subrange(n as int, i + 1));
        i = i + 1;
    }
    let mut f: usize = 0;
    while f < doc.fields.len()
        invariant
            f <= doc.fields@.len(),
            typed_key(last_line@) == Some(p@),
            forall|j: int| 0 <= j < f ==> !starts_with(doc.fields@[j].0@, p@),
        decreases doc.fields@.len() - f,
    {
        let key = &doc.fields[f].0;
        if key_starts_with(key, &p) {
            let klen = key.as_str().unicode_len();
            let mut t: Vec<char> = Vec::new();
            let mut c: usize = p.len();
            while c < klen
                invariant
                    p@.len() <= c <= klen,
                    klen == key@.len(),
                    t@ == key@.subrange(p@.len() as int, c as int),
                decreases klen - c,
            {
                t.push(key.as_str().get_char(c));
                assert(t@ =~= key@.subrange(p@.len() as int, c + 1));
                c = c + 1;
            }
            t.push(':');
            t.push(' ');
            proof {
                assert(is_first_completion(doc.fields@, p@, f as int));
                let w = choose|w: int| is_first_completion(doc.fields@, p@, w);
                assert(w == f);
                assert(t@ =~= key@.subrange(p@.len() as int, key@.len() as int) + seq![':', ' ']);
            }
            return Some(t);
        }
        f = f + 1;
    }
    None
}

} // verus!
